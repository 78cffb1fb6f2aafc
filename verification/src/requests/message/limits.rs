//! Reading the application's message limits.

use vstd::prelude::*;
use vstd::string::StringExecFns;

use crate::error::ErrorKind;
use crate::jsonval::{absent_or_null, obj_lookup, opt_u32_field_ok, field_u32, opt_u32_field_matches, JsonData};
use crate::requests::{basic_fields_ok, status_fields_match, 
    classify_status, decode_errors, decode_request_id, decode_status, Method, RawResponse,
    Request,
};
use crate::urlenc::pairs_view;

verus! {

/// Get limitations.
///
/// Return type is [`LimitsResponse`].
#[derive(Clone, Debug, PartialEq, PartialOrd)]
pub struct Limits {
    pub token: String,
}

impl Limits {
    /// A limits request for one application token.
    pub fn new(token: &str) -> (r: Self)
        ensures
            r.token@ == token@,
    {
        Self { token: String::from_str(token) }
    }
}

impl Request for Limits {
    type ResponseType = LimitsResponse;

    type RawResponseType = RawLimitsResponse;

    open spec fn spec_path(&self) -> Seq<Seq<char>> {
        seq!["apps"@, "limits.json"@]
    }

    open spec fn spec_query(&self) -> Seq<(Seq<char>, Seq<char>)> {
        seq![("token"@, self.token@)]
    }

    open spec fn spec_method(&self) -> Method {
        Method::Get
    }

    open spec fn spec_form(&self) -> Option<Seq<(Seq<char>, Seq<char>)>> {
        None
    }

    open spec fn doc_fits(d: JsonData) -> bool {
        &&& basic_fields_ok(d)
        &&& opt_u32_field_ok(d, "limit"@)
        &&& opt_u32_field_ok(d, "remaining"@)
        &&& opt_u32_field_ok(d, "reset"@)
    }

    open spec fn doc_success(d: JsonData) -> bool {
        &&& !absent_or_null(obj_lookup(d, "limit"@))
        &&& !absent_or_null(obj_lookup(d, "remaining"@))
        &&& !absent_or_null(obj_lookup(d, "reset"@))
    }

    open spec fn map_pre(raw: RawLimitsResponse) -> bool {
        raw.limit is Some && raw.remaining is Some && raw.reset is Some
    }

    open spec fn spec_map(raw: RawLimitsResponse) -> LimitsResponse {
        LimitsResponse {
            request: raw.request,
            limit: raw.limit.unwrap(),
            remaining: raw.remaining.unwrap(),
            reset: raw.reset.unwrap(),
        }
    }

    open spec fn raw_matches_doc(d: JsonData, raw: RawLimitsResponse) -> bool {
        &&& status_fields_match(d, raw.status, raw.request, raw.errors)
        &&& opt_u32_field_matches(d, "limit"@, raw.limit)
        &&& opt_u32_field_matches(d, "remaining"@, raw.remaining)
        &&& opt_u32_field_matches(d, "reset"@, raw.reset)
    }

    fn path_segments(&self) -> (r: Vec<String>) {
        let mut r: Vec<String> = Vec::new();
        r.push(String::from_str("apps"));
        r.push(String::from_str("limits.json"));
        proof {
            assert(crate::strutil::segs_view(r@) =~= self.spec_path());
        }
        r
    }

    fn query_pairs(&self) -> (r: Vec<(String, String)>) {
        let mut r: Vec<(String, String)> = Vec::new();
        r.push((String::from_str("token"), self.token.clone()));
        proof {
            assert(pairs_view(r@) =~= self.spec_query());
        }
        r
    }

    fn get_method(&self) -> Method {
        Method::Get
    }

    fn get_form_parameters(&self) -> Option<Vec<(String, String)>> {
        None
    }

    fn build_url(&self, url: &mut url::Url) {
        let segments = self.path_segments();
        crate::requests::apply_segments(url, &segments);
        let pairs = self.query_pairs();
        crate::requests::apply_pairs(url, &pairs);
    }

    fn has_success_fields(raw: &RawLimitsResponse) -> bool {
        raw.limit.is_some() && raw.remaining.is_some() && raw.reset.is_some()
    }

    fn map(raw: RawLimitsResponse) -> LimitsResponse {
        LimitsResponse {
            request: raw.request,
            limit: raw.limit.unwrap(),
            remaining: raw.remaining.unwrap(),
            reset: raw.reset.unwrap(),
        }
    }

    fn decode_raw(v: &serde_json::Value) -> (r: Result<RawLimitsResponse, crate::error::Error>) {
        let status = match decode_status(v) {
            Ok(x) => x,
            Err(e) => {
                return Err(e);
            },
        };
        let request = match decode_request_id(v) {
            Ok(x) => x,
            Err(e) => {
                return Err(e);
            },
        };
        let errors = match decode_errors(v) {
            Ok(x) => x,
            Err(e) => {
                return Err(e);
            },
        };
        let limit = match field_u32(v, "limit") {
            Ok(x) => x,
            Err(e) => {
                return Err(e);
            },
        };
        let remaining = match field_u32(v, "remaining") {
            Ok(x) => x,
            Err(e) => {
                return Err(e);
            },
        };
        let reset = match field_u32(v, "reset") {
            Ok(x) => x,
            Err(e) => {
                return Err(e);
            },
        };
        Ok(RawLimitsResponse { status, request, errors, limit, remaining, reset })
    }
}

/// Return type for [`Limits`].
#[derive(Clone, Debug, PartialEq, PartialOrd)]
pub struct LimitsResponse {
    pub request: String,
    pub limit: u32,
    pub remaining: u32,
    pub reset: u32,
}

/// The wire shape of a limits reply: every field the service may omit is
/// optional here.
#[derive(Clone, Debug, PartialEq)]
pub struct RawLimitsResponse {
    pub status: i32,
    pub request: String,
    pub errors: Option<Vec<String>>,
    pub limit: Option<u32>,
    pub remaining: Option<u32>,
    pub reset: Option<u32>,
}

impl RawResponse for RawLimitsResponse {
    open spec fn spec_status(&self) -> i32 {
        self.status
    }

    open spec fn spec_request(&self) -> Seq<char> {
        self.request@
    }

    open spec fn spec_errors(&self) -> Option<Seq<Seq<char>>> {
        crate::requests::view_opt_strings(self.errors)
    }

    fn status(&self) -> i32 {
        self.status
    }

    fn request(&self) -> &str {
        self.request.as_str()
    }

    fn errors(&self) -> &Option<Vec<String>> {
        &self.errors
    }

    fn get_error(&self) -> Option<ErrorKind> {
        classify_status(self.status, self.request.as_str(), &self.errors)
    }
}

} // verus!
