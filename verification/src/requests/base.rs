//! The contract every request type satisfies, the wire-level response
//! contract, and the success predicate shared by all endpoints.

use vstd::prelude::*;
use vstd::string::StringExecFns;

use crate::error::ErrorKind;
use crate::jsonval::{
    absent_or_null, field_i32, int_in_range, json_field_string, json_field_string_list,
    json_model, obj_lookup, require_i32, require_string, str_array, str_items, JsonData,
};
use crate::strutil::segs_view;
use crate::urlenc::{
    appended_path, lemma_appended_path_push, pairs_view, push_seg, seg_plain, segs_plain,
    url_append_query_pair, url_is_base, url_path_of, url_push_path_segment, url_query_of,
};

verus! {

/// HTTP verb of an endpoint: fixed per endpoint, never data-dependent.
#[derive(Clone, Copy, Debug, PartialEq, Eq, Structural)]
pub enum Method {
    Get,
    Post,
}

/// The view of an optional string.
pub open spec fn view_opt_string(o: Option<String>) -> Option<Seq<char>> {
    match o {
        Some(s) => Some(s@),
        None => None,
    }
}

/// The views of an optional list of strings.
pub open spec fn view_opt_strings(o: Option<Vec<String>>) -> Option<Seq<Seq<char>>> {
    match o {
        Some(v) => Some(segs_view(v@)),
        None => None,
    }
}

/// The query pairs an optional field contributes: one pair when present,
/// none when absent.
pub open spec fn opt_pair(key: Seq<char>, value: Option<Seq<char>>) -> Seq<
    (Seq<char>, Seq<char>),
> {
    match value {
        Some(v) => seq![(key, v)],
        None => Seq::empty(),
    }
}

/// The description a failing status without an error list decodes to.
pub open spec fn spec_missing_errors_message() -> Seq<char> {
    "service reported failure without an error list"@
}

/// How one raw response classifies. The service's "ok" sentinel is the
/// status code 1; every other integer, negative or unexpected ones
/// included, is uniformly a failure.
///
/// - status 1: no error.
/// - any other status with an error list present: a service error carrying
///   that status, the echoed request identifier and exactly that list.
/// - any other status with the error list absent: a local decode failure,
///   never an empty-list service error.
pub open spec fn spec_classified(
    status: i32,
    request: Seq<char>,
    errors: Option<Seq<Seq<char>>>,
    r: Option<ErrorKind>,
) -> bool {
    if status == 1 {
        r is None
    } else {
        match errors {
            Some(errs) => r matches Some(
                ErrorKind::PushoverError { status: s, request: q, errors: e },
            ) && s == status && q@ == request && segs_view(e@) == errs,
            None => r matches Some(ErrorKind::Decode(m)) && m@ == spec_missing_errors_message(),
        }
    }
}

/// Boundary law of classification: a failing status with an error list
/// present classifies as exactly that service error, carrying the status,
/// the correlation identifier and the exact list; a failing status with
/// the list absent classifies as a decode failure, never as an
/// empty-list service error.
pub proof fn lemma_failure_classification(
    status: i32,
    request: Seq<char>,
    errors: Option<Seq<Seq<char>>>,
    r: Option<ErrorKind>,
)
    requires
        status != 1,
        spec_classified(status, request, errors, r),
    ensures
        errors matches Some(errs) ==> (r matches Some(
            ErrorKind::PushoverError { status: s, request: q, errors: e },
        ) && s == status && q@ == request && segs_view(e@) == errs),
        errors is None ==> r matches Some(ErrorKind::Decode(_)),
{
}

/// Round-trip law of the success predicate: a response carrying the "ok"
/// status classifies as no error at all, whatever its other fields hold;
/// together with the outcome contract, such a response with every
/// success-guaranteed field present resolves to exactly its
/// normalization, with no default placeholders.
pub proof fn lemma_success_roundtrip(
    status: i32,
    request: Seq<char>,
    errors: Option<Seq<Seq<char>>>,
    r: Option<ErrorKind>,
)
    requires
        status == 1,
        spec_classified(status, request, errors, r),
    ensures
        r is None,
{
}

/// The three status fields every reply carries hold exactly these values
/// in the parsed document: the status code and request identifier as the
/// always-present fields, and the error list as present strings or as an
/// absent field.
pub open spec fn status_fields_match(
    d: JsonData,
    status: i32,
    request: String,
    errors: Option<Vec<String>>,
) -> bool {
    &&& obj_lookup(d, "status"@) == Some(JsonData::Int(status as int))
    &&& obj_lookup(d, "request"@) == Some(JsonData::Str(request@))
    &&& match errors {
        Some(list) => obj_lookup(d, "errors"@) matches Some(JsonData::Arr(elems)) && elems
            == str_items(segs_view(list@)),
        None => absent_or_null(obj_lookup(d, "errors"@)),
    }
}

/// A document that fits the basic raw shape: the status code an integer
/// in range, the request identifier a string, and the error list absent
/// or an array of strings.
pub open spec fn basic_fields_ok(d: JsonData) -> bool {
    &&& int_in_range(obj_lookup(d, "status"@), i32::MIN as int, i32::MAX as int)
    &&& (obj_lookup(d, "request"@) matches Some(JsonData::Str(_)))
    &&& (absent_or_null(obj_lookup(d, "errors"@)) || str_array(obj_lookup(d, "errors"@)))
}

/// The wire-level contract every endpoint's reply satisfies: a numeric
/// status code, a free-text request identifier, and an optional list of
/// error strings.
pub trait RawResponse: Sized {
    /// The status code of the reply.
    spec fn spec_status(&self) -> i32;

    /// The request identifier echoed by the service.
    spec fn spec_request(&self) -> Seq<char>;

    /// The error strings of the reply, absent on success.
    spec fn spec_errors(&self) -> Option<Seq<Seq<char>>>;

    fn status(&self) -> (r: i32)
        ensures
            r == self.spec_status(),
    ;

    fn request(&self) -> (r: &str)
        ensures
            r@ == self.spec_request(),
    ;

    fn errors(&self) -> (r: &Option<Vec<String>>)
        ensures
            view_opt_strings(*r) == self.spec_errors(),
    ;

    /// The success predicate: no error exactly when the status is the "ok"
    /// sentinel; otherwise the classified service error, or a decode
    /// failure when the error list is missing despite a failing status.
    fn get_error(&self) -> (r: Option<ErrorKind>)
        ensures
            spec_classified(self.spec_status(), self.spec_request(), self.spec_errors(), r),
    ;
}

/// Clones a list of strings, keeping every element.
fn clone_strings(v: &Vec<String>) -> (r: Vec<String>)
    ensures
        r@ == v@,
{
    let mut r: Vec<String> = Vec::new();
    let mut i: usize = 0;
    while i < v.len()
        invariant
            i <= v.len(),
            r@ =~= v@.take(i as int),
        decreases v.len() - i,
    {
        r.push(v[i].clone());
        proof {
            assert(r@ =~= v@.take(i + 1));
        }
        i = i + 1;
    }
    proof {
        assert(v@.take(v@.len() as int) =~= v@);
    }
    r
}

/// Clones an optional string, keeping the value.
pub fn clone_opt_string(o: &Option<String>) -> (r: Option<String>)
    ensures
        r == *o,
{
    match o {
        Some(s) => Some(s.clone()),
        None => None,
    }
}

/// Classifies the three status fields every reply carries; the shared body
/// of every `get_error` impl.
pub fn classify_status(status: i32, request: &str, errors: &Option<Vec<String>>) -> (r: Option<
    ErrorKind,
>)
    ensures
        spec_classified(status, request@, view_opt_strings(*errors), r),
{
    if status != 1 {
        match errors {
            Some(errs) => Some(
                ErrorKind::PushoverError {
                    status,
                    request: String::from_str(request),
                    errors: clone_strings(errs),
                },
            ),
            None => Some(
                ErrorKind::Decode(
                    String::from_str("service reported failure without an error list"),
                ),
            ),
        }
    } else {
        None
    }
}

/// The capability set implemented once per endpoint and consumed
/// generically by the dispatcher.
pub trait Request {
    /// The caller-facing success value of this endpoint.
    type ResponseType;

    /// The wire-level deserialization target of this endpoint.
    type RawResponseType: RawResponse;

    /// The fixed path segments of this endpoint, appended beneath the
    /// versioned prefix in an endpoint-specific order.
    spec fn spec_path(&self) -> Seq<Seq<char>>;

    /// Exactly the query pairs this request serializes to: all mandatory
    /// fields plus the non-absent optional fields, under the documented
    /// keys.
    spec fn spec_query(&self) -> Seq<(Seq<char>, Seq<char>)>;

    /// The fixed HTTP verb of this endpoint.
    spec fn spec_method(&self) -> Method;

    /// The ordered form-body pairs, present only for endpoints that submit
    /// form-encoded bodies; None distinguishes "no body" from "empty body".
    spec fn spec_form(&self) -> Option<Seq<(Seq<char>, Seq<char>)>>;

    /// Whether every field the service guarantees on success is present.
    spec fn map_pre(raw: Self::RawResponseType) -> bool;

    /// The domain response a successful raw response normalizes to.
    spec fn spec_map(raw: Self::RawResponseType) -> Self::ResponseType;

    fn path_segments(&self) -> (r: Vec<String>)
        ensures
            segs_view(r@) == self.spec_path(),
    ;

    fn query_pairs(&self) -> (r: Vec<(String, String)>)
        ensures
            pairs_view(r@) == self.spec_query(),
    ;

    fn get_method(&self) -> (r: Method)
        ensures
            r == self.spec_method(),
    ;

    fn get_form_parameters(&self) -> (r: Option<Vec<(String, String)>>)
        ensures
            match r {
                Some(v) => self.spec_form() == Some(pairs_view(v@)),
                None => self.spec_form() is None,
            },
    ;

    /// Appends this request's path segments and query pairs to the URL:
    /// the decoded query gains exactly `spec_query`, in order, and the path
    /// gains exactly the percent-encoded segments of `spec_path`.
    fn build_url(&self, url: &mut url::Url)
        ensures
            url_query_of(*final(url)) == url_query_of(*old(url)) + self.spec_query(),
            url_is_base(*old(url)) && segs_plain(self.spec_path()) ==> url_path_of(*final(url))
                == appended_path(url_path_of(*old(url)), self.spec_path()),
            !url_is_base(*old(url)) ==> url_path_of(*final(url)) == url_path_of(*old(url)),
            url_is_base(*final(url)) == url_is_base(*old(url)),
    ;

    /// Decides whether the success-guaranteed fields are all present.
    fn has_success_fields(raw: &Self::RawResponseType) -> (r: bool)
        ensures
            r == Self::map_pre(*raw),
    ;

    /// Normalizes a validated raw response into the domain response,
    /// assuming the success-guaranteed fields are present.
    fn map(raw: Self::RawResponseType) -> (r: Self::ResponseType)
        requires
            Self::map_pre(raw),
        ensures
            r == Self::spec_map(raw),
    ;

    /// How a raw response corresponds to the parsed document it was read
    /// from: every field holds exactly what the document holds under its
    /// key.
    spec fn raw_matches_doc(d: JsonData, raw: Self::RawResponseType) -> bool;

    /// Whether a parsed document fits this endpoint's raw wire shape: the
    /// decode succeeds exactly on fitting documents.
    spec fn doc_fits(d: JsonData) -> bool;

    /// Whether a document carries every field the service guarantees on
    /// success: on a fitting document, normalization is possible exactly
    /// when this holds.
    spec fn doc_success(d: JsonData) -> bool;

    /// Decodes a parsed JSON document into this endpoint's raw response
    /// shape, pinned field by field to the document; the decode fails,
    /// with a decode error, exactly on documents that do not fit the
    /// shape.
    fn decode_raw(v: &serde_json::Value) -> (r: Result<Self::RawResponseType, crate::error::Error>)
        ensures
            r matches Err(e) ==> e.0 matches ErrorKind::Decode(_),
            r is Err <==> !Self::doc_fits(json_model(*v)),
            r matches Ok(raw) ==> Self::raw_matches_doc(json_model(*v), raw) && obj_lookup(
                json_model(*v),
                "status"@,
            ) == Some(JsonData::Int(raw.spec_status() as int)) && (Self::map_pre(raw)
                <==> Self::doc_success(json_model(*v))) && (raw.spec_errors() is Some <==> (
            obj_lookup(json_model(*v), "errors"@) matches Some(JsonData::Arr(_)))),
    ;
}

/// The two shapes one decoded reply can take: a validated raw success
/// value, or the classified error.
pub enum Response<T: Request> {
    Error(ErrorKind),
    Success(T::RawResponseType),
}

/// Applies the success predicate to a decoded raw response: a failing
/// status yields the classified error, the "ok" sentinel yields the raw
/// value for normalization.
pub fn classify<T: Request>(raw: T::RawResponseType) -> (r: Response<T>)
    ensures
        raw.spec_status() == 1 ==> (r matches Response::Success(x) && x == raw),
        raw.spec_status() != 1 ==> (r matches Response::Error(k) && spec_classified(
            raw.spec_status(),
            raw.spec_request(),
            raw.spec_errors(),
            Some(k),
        )),
{
    match raw.get_error() {
        Some(e) => Response::Error(e),
        None => Response::Success(raw),
    }
}

/// The basic raw reply: only the three status fields every endpoint
/// carries.
#[derive(Clone, Debug, PartialEq)]
pub struct RawBasicResponse {
    pub status: i32,
    pub request: String,
    pub errors: Option<Vec<String>>,
}

impl RawResponse for RawBasicResponse {
    open spec fn spec_status(&self) -> i32 {
        self.status
    }

    open spec fn spec_request(&self) -> Seq<char> {
        self.request@
    }

    open spec fn spec_errors(&self) -> Option<Seq<Seq<char>>> {
        view_opt_strings(self.errors)
    }

    fn status(&self) -> i32 {
        self.status
    }

    fn request(&self) -> &str {
        self.request.as_str()
    }

    fn errors(&self) -> &Option<Vec<String>> {
        &self.errors
    }

    fn get_error(&self) -> Option<ErrorKind> {
        classify_status(self.status, self.request.as_str(), &self.errors)
    }
}

/// Decodes the always-present status code.
pub fn decode_status(v: &serde_json::Value) -> (r: Result<i32, crate::error::Error>)
    ensures
        r matches Err(e) ==> e.0 matches ErrorKind::Decode(_),
        r matches Ok(n) ==> obj_lookup(json_model(*v), "status"@) == Some(
            JsonData::Int(n as int),
        ),
        r is Err <==> !int_in_range(
            obj_lookup(json_model(*v), "status"@),
            i32::MIN as int,
            i32::MAX as int,
        ),
{
    let status = match field_i32(v, "status") {
        Ok(x) => x,
        Err(e) => {
            return Err(e);
        },
    };
    require_i32(status, "status")
}

/// Decodes the always-present request identifier.
pub fn decode_request_id(v: &serde_json::Value) -> (r: Result<String, crate::error::Error>)
    ensures
        r matches Err(e) ==> e.0 matches ErrorKind::Decode(_),
        r matches Ok(s) ==> obj_lookup(json_model(*v), "request"@) == Some(JsonData::Str(s@)),
        r is Err <==> !(obj_lookup(json_model(*v), "request"@) matches Some(JsonData::Str(_))),
{
    let request = match json_field_string(v, "request") {
        Ok(x) => x,
        Err(e) => {
            return Err(e);
        },
    };
    require_string(request, "request")
}

/// Decodes the optional error list.
pub fn decode_errors(v: &serde_json::Value) -> (r: Result<
    Option<Vec<String>>,
    crate::error::Error,
>)
    ensures
        r matches Err(e) ==> e.0 matches ErrorKind::Decode(_),
        r matches Ok(o) ==> match o {
            Some(list) => obj_lookup(json_model(*v), "errors"@) matches Some(
                JsonData::Arr(elems),
            ) && elems == str_items(segs_view(list@)),
            None => absent_or_null(obj_lookup(json_model(*v), "errors"@)),
        },
        r is Err <==> !(absent_or_null(obj_lookup(json_model(*v), "errors"@)) || str_array(
            obj_lookup(json_model(*v), "errors"@),
        )),
{
    let r = json_field_string_list(v, "errors");
    proof {
        match &r {
            Ok(Some(list)) => {
                let f = obj_lookup(json_model(*v), "errors"@);
                let elems = f.unwrap()->Arr_0;
                let xs = segs_view(list@);
                assert forall|i: int| 0 <= i < elems.len() implies elems[i] is Str by {
                    assert(elems[i] == str_items(xs)[i]);
                    assert(str_items(xs)[i] == JsonData::Str(xs[i]));
                }
                assert(str_array(f));
            },
            _ => {},
        }
    }
    r
}

/// Decodes the basic raw reply of the endpoints that return only the
/// three status fields.
pub fn decode_raw_basic(v: &serde_json::Value) -> (r: Result<
    RawBasicResponse,
    crate::error::Error,
>)
    ensures
        r matches Err(e) ==> e.0 matches ErrorKind::Decode(_),
        r matches Ok(raw) ==> status_fields_match(json_model(*v), raw.status, raw.request,
            raw.errors,
        ),
        r is Err <==> !basic_fields_ok(json_model(*v)),
{
    let status = match decode_status(v) {
        Ok(x) => x,
        Err(e) => {
            return Err(e);
        },
    };
    let request = match decode_request_id(v) {
        Ok(x) => x,
        Err(e) => {
            return Err(e);
        },
    };
    let errors = match decode_errors(v) {
        Ok(x) => x,
        Err(e) => {
            return Err(e);
        },
    };
    Ok(RawBasicResponse { status, request, errors })
}

/// Appends `key=value` to the pairs exactly when the optional field is
/// present.
pub fn add_optional_param(params: &mut Vec<(String, String)>, key: &str, value: &Option<String>)
    ensures
        pairs_view(final(params)@) == pairs_view(old(params)@) + opt_pair(
            key@,
            view_opt_string(*value),
        ),
{
    match value {
        Some(v) => {
            params.push((String::from_str(key), v.clone()));
            proof {
                assert(pairs_view(params@) =~= pairs_view(old(params)@) + opt_pair(
                    key@,
                    view_opt_string(*value),
                ));
            }
        },
        None => {
            proof {
                assert(pairs_view(params@) =~= pairs_view(old(params)@) + opt_pair(
                    key@,
                    view_opt_string(*value),
                ));
            }
        },
    }
}

/// Appends path segments to a URL, each percent-encoded by the URL
/// library, in order; the query is untouched.
pub fn apply_segments(url: &mut url::Url, segments: &Vec<String>)
    ensures
        url_query_of(*final(url)) == url_query_of(*old(url)),
        url_is_base(*final(url)) == url_is_base(*old(url)),
        url_is_base(*old(url)) && segs_plain(segs_view(segments@)) ==> url_path_of(*final(url))
            == appended_path(url_path_of(*old(url)), segs_view(segments@)),
        !url_is_base(*old(url)) ==> url_path_of(*final(url)) == url_path_of(*old(url)),
{
    let ghost sv = segs_view(segments@);
    let mut i: usize = 0;
    while i < segments.len()
        invariant
            i <= segments.len(),
            sv == segs_view(segments@),
            url_query_of(*url) == url_query_of(*old(url)),
            url_is_base(*url) == url_is_base(*old(url)),
            url_is_base(*old(url)) && segs_plain(sv) ==> url_path_of(*url) == appended_path(
                url_path_of(*old(url)),
                sv.take(i as int),
            ),
            !url_is_base(*old(url)) ==> url_path_of(*url) == url_path_of(*old(url)),
        decreases segments.len() - i,
    {
        proof {
            assert(sv[i as int] == segments@[i as int]@);
        }
        url_push_path_segment(url, segments[i].as_str());
        proof {
            if url_is_base(*old(url)) && segs_plain(sv) {
                assert(seg_plain(sv[i as int]));
                assert(sv.take(i + 1) =~= sv.take(i as int).push(sv[i as int]));
                lemma_appended_path_push(url_path_of(*old(url)), sv.take(i as int), sv[i as int]);
            }
        }
        i = i + 1;
    }
    proof {
        assert(sv.take(segments@.len() as int) =~= sv);
    }
}

/// Appends query pairs to a URL, each form-urlencoded by the URL library,
/// in order; the path is untouched.
pub fn apply_pairs(url: &mut url::Url, pairs: &Vec<(String, String)>)
    ensures
        url_query_of(*final(url)) == url_query_of(*old(url)) + pairs_view(pairs@),
        url_path_of(*final(url)) == url_path_of(*old(url)),
        url_is_base(*final(url)) == url_is_base(*old(url)),
{
    let ghost pv = pairs_view(pairs@);
    let mut j: usize = 0;
    while j < pairs.len()
        invariant
            j <= pairs.len(),
            pv == pairs_view(pairs@),
            url_query_of(*url) == url_query_of(*old(url)) + pv.take(j as int),
            url_path_of(*url) == url_path_of(*old(url)),
            url_is_base(*url) == url_is_base(*old(url)),
        decreases pairs.len() - j,
    {
        proof {
            assert(pv[j as int] == (pairs@[j as int].0@, pairs@[j as int].1@));
        }
        url_append_query_pair(url, pairs[j].0.as_str(), pairs[j].1.as_str());
        proof {
            assert(pv.take(j + 1) =~= pv.take(j as int).push(pv[j as int]));
            assert(url_query_of(*url) =~= url_query_of(*old(url)) + pv.take(j + 1));
        }
        j = j + 1;
    }
    proof {
        assert(pv.take(pairs@.len() as int) =~= pv);
    }
}

} // verus!
