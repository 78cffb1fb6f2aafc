//! Client configuration and the per-call pipeline.
//!
//! One call runs five steps: build the target, attach the body parameters,
//! execute the transport call, decode the reply, classify and normalize.
//! Everything but the transport step lives here: `prepare` performs the
//! first two steps and `interpret_body` the last two, so the execution
//! shell around the network call stays outside the library and both the
//! blocking and the non-blocking mode share one pipeline.

use vstd::prelude::*;
use vstd::string::StringExecFns;

use std::time::Duration;

use crate::error::{Error, ErrorKind};
use crate::jsonval::{json_parse, json_text_parses, obj_lookup, parsed_json, JsonData};
use crate::requests::{classify, spec_classified, Method, RawResponse, Request, Response};
use crate::urlenc::{
    appended_path, encode_form, parsed_url_is_base, parsed_url_query, path_encoded_seg,
    seg_plain, segs_plain, spec_form_body, url_can_be_base, url_clear_path, url_is_base,
    url_parse, url_path_of, url_push_path_segment, url_query_of, url_text_parses,
};

verus! {

/// What core::time::Duration::from_secs returns: a pure function of the
/// seconds alone.
pub uninterp spec fn spec_duration_secs(secs: u64) -> Duration;

pub assume_specification[ core::time::Duration::from_secs ](secs: u64) -> (r: Duration)
    ensures
        r == spec_duration_secs(secs),
;

/// The service's base address.
pub open spec fn spec_api_url() -> Seq<char> {
    "https://api.pushover.net"@
}

/// The service's base address.
pub fn api_url() -> (r: &'static str)
    ensures
        r@ == spec_api_url(),
{
    "https://api.pushover.net"
}

/// The versioned path prefix beneath which every endpoint path is appended.
pub open spec fn spec_api_version() -> Seq<char> {
    "1"@
}

/// The versioned path prefix beneath which every endpoint path is appended.
pub fn api_version() -> (r: &'static str)
    ensures
        r@ == spec_api_version(),
{
    "1"
}

/// The default transport timeout, in seconds.
pub const DEFAULT_TIMEOUT_SECS: u64 = 30;

/// Client configuration: the base address and the transport timeout, set
/// before any call is made.
pub struct API {
    base_url: String,
    timeout: Duration,
}

impl API {
    /// The configured base address.
    pub closed spec fn spec_base_url(&self) -> Seq<char> {
        self.base_url@
    }

    /// The configured transport timeout.
    pub closed spec fn spec_timeout(&self) -> Duration {
        self.timeout
    }

    /// A client against the service's own address, with the default
    /// timeout.
    pub fn new() -> (r: Self)
        ensures
            r.spec_base_url() == spec_api_url(),
            r.spec_timeout() == spec_duration_secs(DEFAULT_TIMEOUT_SECS),
    {
        Self {
            base_url: String::from_str(api_url()),
            timeout: Duration::from_secs(DEFAULT_TIMEOUT_SECS),
        }
    }

    /// Replaces the transport timeout.
    pub fn timeout(self, timeout: Duration) -> (r: Self)
        ensures
            r.spec_base_url() == self.spec_base_url(),
            r.spec_timeout() == timeout,
    {
        let mut s = self;
        s.timeout = timeout;
        s
    }

    /// Replaces the base address.
    pub fn base_url(self, url: &str) -> (r: Self)
        ensures
            r.spec_base_url() == url@,
            r.spec_timeout() == self.spec_timeout(),
    {
        let mut s = self;
        s.base_url = String::from_str(url);
        s
    }

    /// The configured base address, for the transport shell.
    pub fn get_base_url(&self) -> (r: &str)
        ensures
            r@ == self.spec_base_url(),
    {
        self.base_url.as_str()
    }

    /// The configured transport timeout, for the transport shell.
    pub fn get_timeout(&self) -> (r: Duration)
        ensures
            r == self.spec_timeout(),
    {
        self.timeout
    }

    /// Builds the full call: verb, target URL and optional form body,
    /// each pinned exactly. The target's path is the versioned prefix
    /// followed by the request's path segments, percent-encoded by the URL
    /// library; its query is whatever query the base address already
    /// carried followed by exactly the request's query pairs. A base
    /// address that does not parse, or parses to a URL that cannot be a
    /// base, is a configuration error.
    pub fn prepare<R: Request>(&self, request: &R) -> (r: Result<PreparedRequest, Error>)
        ensures
            r matches Ok(p) ==> {
                &&& p.method == request.spec_method()
                &&& url_is_base(p.url)
                &&& segs_plain(request.spec_path()) ==> url_path_of(p.url) == appended_path(
                    seq![path_encoded_seg(spec_api_version())],
                    request.spec_path(),
                )
                &&& url_query_of(p.url) == parsed_url_query(self.spec_base_url())
                    + request.spec_query()
                &&& match request.spec_form() {
                    Some(pairs) => p.body matches Some(b) && b@ == spec_form_body(pairs),
                    None => p.body is None,
                }
            },
            r matches Err(e) ==> e.0 matches ErrorKind::Config(_),
            r is Err <==> !(url_text_parses(self.spec_base_url()) && parsed_url_is_base(
                self.spec_base_url(),
            )),
    {
        let mut url = match url_parse(self.base_url.as_str()) {
            Ok(u) => u,
            Err(_) => {
                return Err(
                    Error(ErrorKind::Config(String::from_str("invalid base address"))),
                );
            },
        };
        if !url_can_be_base(&url) {
            return Err(
                Error(
                    ErrorKind::Config(
                        String::from_str("base address cannot carry path segments"),
                    ),
                ),
            );
        }
        url_clear_path(&mut url);
        url_push_path_segment(&mut url, api_version());
        proof {
            reveal_strlit("1");
            reveal_strlit(".");
            reveal_strlit("..");
            assert(seg_plain(spec_api_version())) by {
                assert(spec_api_version().len() == 1);
                assert("."@.len() == 1 && ".."@.len() == 2);
                assert(spec_api_version()[0] == '1' && "."@[0] == '.');
                assert(spec_api_version() != "."@);
            }
            assert(url_path_of(url) =~= seq![path_encoded_seg(spec_api_version())]);
        }
        request.build_url(&mut url);
        let body = match request.get_form_parameters() {
            Some(pairs) => Some(encode_form(&pairs)),
            None => None,
        };
        Ok(PreparedRequest { method: request.get_method(), url, body })
    }
}

impl Default for API {
    /// The same client `new` builds.
    fn default() -> (r: Self)
        ensures
            r.spec_base_url() == spec_api_url(),
            r.spec_timeout() == spec_duration_secs(DEFAULT_TIMEOUT_SECS),
    {
        Self::new()
    }
}

/// One prepared call, ready for the transport: the fixed verb, the fully
/// qualified target and the optional form-encoded body.
pub struct PreparedRequest {
    pub method: Method,
    pub url: url::Url,
    pub body: Option<String>,
}

/// The description a success reply missing a guaranteed field decodes to.
pub open spec fn spec_missing_field_message() -> Seq<char> {
    "success response is missing a guaranteed field"@
}

/// Resolves a decoded raw response into the call's outcome: exactly one of
/// the domain response or an error.
///
/// - The "ok" status with every success-guaranteed field present
///   normalizes to exactly the domain response, with no default
///   placeholders.
/// - The "ok" status with a guaranteed field missing is a decode failure,
///   never an unchecked narrowing.
/// - Any other status classifies per the success predicate: the service
///   error carrying the exact list, or a decode failure when the list is
///   absent.
pub fn decode_outcome<R: Request>(raw: R::RawResponseType) -> (r: Result<R::ResponseType, Error>)
    ensures
        raw.spec_status() == 1 && R::map_pre(raw) ==> (r matches Ok(resp) && resp == R::spec_map(
            raw,
        )),
        raw.spec_status() == 1 && !R::map_pre(raw) ==> (r matches Err(e)
            && e.0 matches ErrorKind::Decode(m) && m@ == spec_missing_field_message()),
        raw.spec_status() != 1 ==> (r matches Err(e) && spec_classified(
            raw.spec_status(),
            raw.spec_request(),
            raw.spec_errors(),
            Some(e.0),
        )),
        r matches Ok(resp) ==> raw.spec_status() == 1 && R::map_pre(raw) && resp == R::spec_map(
            raw,
        ),
{
    match classify::<R>(raw) {
        Response::Error(k) => Err(Error(k)),
        Response::Success(ok) => {
            if R::has_success_fields(&ok) {
                Ok(R::map(ok))
            } else {
                Err(
                    Error(
                        ErrorKind::Decode(
                            String::from_str("success response is missing a guaranteed field"),
                        ),
                    ),
                )
            }
        },
    }
}

/// Purity law of normalization: the domain response is a function of the
/// raw response alone, so equal raw responses normalize to equal domain
/// responses, and normalizing the same raw response twice yields equal
/// values.
pub proof fn lemma_normalize_deterministic<R: Request>(
    raw1: R::RawResponseType,
    raw2: R::RawResponseType,
)
    requires
        raw1 == raw2,
    ensures
        R::spec_map(raw1) == R::spec_map(raw2),
{
}

/// Decodes one response body end-to-end: parse the bytes as JSON, decode
/// the endpoint's raw shape field by field, classify and normalize.
/// Exactly one of four outcomes, never conflated: text that does not
/// parse, or parses to a document outside the endpoint's raw shape, is a
/// decode failure; a fitting document without the "ok" status sentinel
/// but with an error list is the classified service error; a fitting
/// document with the sentinel and every success-guaranteed field succeeds,
/// and a success comes only from such a sentinel document. No error is
/// ever a transport or configuration error. The exact values of
/// classification and normalization are pinned by `decode_outcome` and
/// the `Request::decode_raw` contract.
pub fn interpret_body<R: Request>(body: &str) -> (r: Result<R::ResponseType, Error>)
    ensures
        r matches Err(e) ==> (e.0 matches ErrorKind::Decode(_) || e.0
            matches ErrorKind::PushoverError { .. }),
        r matches Ok(resp) ==> obj_lookup(parsed_json(body@), "status"@) == Some(
            JsonData::Int(1),
        ),
        !json_text_parses(body@) ==> (r matches Err(e) && e.0 matches ErrorKind::Decode(_)),
        json_text_parses(body@) && !R::doc_fits(parsed_json(body@)) ==> (r matches Err(e)
            && e.0 matches ErrorKind::Decode(_)),
        json_text_parses(body@) && R::doc_fits(parsed_json(body@)) && obj_lookup(
            parsed_json(body@),
            "status"@,
        ) == Some(JsonData::Int(1)) && R::doc_success(parsed_json(body@)) ==> r is Ok,
        json_text_parses(body@) && R::doc_fits(parsed_json(body@)) && obj_lookup(
            parsed_json(body@),
            "status"@,
        ) != Some(JsonData::Int(1)) && (obj_lookup(parsed_json(body@), "errors"@) matches Some(
            JsonData::Arr(_),
        )) ==> (r matches Err(e) && e.0 matches ErrorKind::PushoverError { .. }),
{
    let v = match json_parse(body) {
        Ok(v) => v,
        Err(msg) => {
            return Err(Error(ErrorKind::Decode(msg)));
        },
    };
    let raw = match R::decode_raw(&v) {
        Ok(raw) => raw,
        Err(e) => {
            return Err(e);
        },
    };
    decode_outcome::<R>(raw)
}

} // verus!
