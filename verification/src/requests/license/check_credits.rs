//! Checking the remaining license credits.

use vstd::prelude::*;
use vstd::string::StringExecFns;

use crate::error::ErrorKind;
use crate::jsonval::{absent_or_null, obj_lookup, opt_u16_field_ok, field_u16, opt_u16_field_matches, JsonData};
use crate::requests::{basic_fields_ok, status_fields_match, 
    classify_status, decode_errors, decode_request_id, decode_status, Method, RawResponse,
    Request,
};
use crate::strutil::segs_view;
use crate::urlenc::pairs_view;

verus! {

/// Check license credits.
///
/// Return type is [`CheckCreditsResponse`].
#[derive(Clone, Debug, PartialEq, PartialOrd)]
pub struct CheckCredits {
    pub token: String,
}

impl CheckCredits {
    /// A credits check for one application token.
    pub fn new(token: &str) -> (r: Self)
        ensures
            r.token@ == token@,
    {
        Self { token: String::from_str(token) }
    }
}

impl Request for CheckCredits {
    type ResponseType = CheckCreditsResponse;

    type RawResponseType = RawCheckCreditsResponse;

    open spec fn spec_path(&self) -> Seq<Seq<char>> {
        seq!["licenses.json"@]
    }

    open spec fn spec_query(&self) -> Seq<(Seq<char>, Seq<char>)> {
        seq![("token"@, self.token@)]
    }

    open spec fn spec_method(&self) -> Method {
        Method::Get
    }

    open spec fn spec_form(&self) -> Option<Seq<(Seq<char>, Seq<char>)>> {
        None
    }

    open spec fn doc_fits(d: JsonData) -> bool {
        &&& basic_fields_ok(d)
        &&& opt_u16_field_ok(d, "credits"@)
    }

    open spec fn doc_success(d: JsonData) -> bool {
        !absent_or_null(obj_lookup(d, "credits"@))
    }

    open spec fn map_pre(raw: RawCheckCreditsResponse) -> bool {
        raw.credits is Some
    }

    open spec fn spec_map(raw: RawCheckCreditsResponse) -> CheckCreditsResponse {
        CheckCreditsResponse { request: raw.request, credits: raw.credits.unwrap() }
    }

    open spec fn raw_matches_doc(d: JsonData, raw: RawCheckCreditsResponse) -> bool {
        &&& status_fields_match(d, raw.status, raw.request, raw.errors)
        &&& opt_u16_field_matches(d, "credits"@, raw.credits)
    }

    fn path_segments(&self) -> (r: Vec<String>) {
        let mut r: Vec<String> = Vec::new();
        r.push(String::from_str("licenses.json"));
        proof {
            assert(segs_view(r@) =~= self.spec_path());
        }
        r
    }

    fn query_pairs(&self) -> (r: Vec<(String, String)>) {
        let mut r: Vec<(String, String)> = Vec::new();
        r.push((String::from_str("token"), self.token.clone()));
        proof {
            assert(pairs_view(r@) =~= self.spec_query());
        }
        r
    }

    fn get_method(&self) -> Method {
        Method::Get
    }

    fn get_form_parameters(&self) -> Option<Vec<(String, String)>> {
        None
    }

    fn build_url(&self, url: &mut url::Url) {
        let segments = self.path_segments();
        crate::requests::apply_segments(url, &segments);
        let pairs = self.query_pairs();
        crate::requests::apply_pairs(url, &pairs);
    }

    fn has_success_fields(raw: &RawCheckCreditsResponse) -> bool {
        raw.credits.is_some()
    }

    fn map(raw: RawCheckCreditsResponse) -> CheckCreditsResponse {
        CheckCreditsResponse { request: raw.request, credits: raw.credits.unwrap() }
    }

    fn decode_raw(v: &serde_json::Value) -> (r: Result<
        RawCheckCreditsResponse,
        crate::error::Error,
    >) {
        let status = match decode_status(v) {
            Ok(x) => x,
            Err(e) => {
                return Err(e);
            },
        };
        let request = match decode_request_id(v) {
            Ok(x) => x,
            Err(e) => {
                return Err(e);
            },
        };
        let errors = match decode_errors(v) {
            Ok(x) => x,
            Err(e) => {
                return Err(e);
            },
        };
        let credits = match field_u16(v, "credits") {
            Ok(x) => x,
            Err(e) => {
                return Err(e);
            },
        };
        Ok(RawCheckCreditsResponse { status, request, errors, credits })
    }
}

/// Return type for [`CheckCredits`] and [`Assign`](super::Assign).
#[derive(Clone, Debug, PartialEq, PartialOrd)]
pub struct CheckCreditsResponse {
    pub request: String,
    pub credits: u16,
}

/// The wire shape of a credits reply.
#[derive(Clone, Debug, PartialEq)]
pub struct RawCheckCreditsResponse {
    pub status: i32,
    pub request: String,
    pub errors: Option<Vec<String>>,
    pub credits: Option<u16>,
}

impl RawResponse for RawCheckCreditsResponse {
    open spec fn spec_status(&self) -> i32 {
        self.status
    }

    open spec fn spec_request(&self) -> Seq<char> {
        self.request@
    }

    open spec fn spec_errors(&self) -> Option<Seq<Seq<char>>> {
        crate::requests::view_opt_strings(self.errors)
    }

    fn status(&self) -> i32 {
        self.status
    }

    fn request(&self) -> &str {
        self.request.as_str()
    }

    fn errors(&self) -> &Option<Vec<String>> {
        &self.errors
    }

    fn get_error(&self) -> Option<ErrorKind> {
        classify_status(self.status, self.request.as_str(), &self.errors)
    }
}

} // verus!
