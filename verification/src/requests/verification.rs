//! Verifying a user or group key.

use vstd::prelude::*;
use vstd::string::StringExecFns;

use crate::error::ErrorKind;
use crate::jsonval::{absent_or_null, obj_lookup, opt_strs_field_ok, json_field_string_list, opt_strs_field_matches, JsonData};
use crate::requests::{basic_fields_ok, status_fields_match, 
    add_optional_param, classify_status, decode_errors, decode_request_id, decode_status,
    opt_pair, view_opt_string, Method, RawResponse, Request,
};
use crate::strutil::segs_view;
use crate::urlenc::pairs_view;

verus! {

/// Verify user/group.
///
/// Return type is [`VerificationResponse`].
#[derive(Clone, Debug, PartialEq, PartialOrd)]
pub struct Verification {
    pub token: String,
    pub user: String,
    pub device: Option<String>,
}

impl Verification {
    /// A verification of one user or group key.
    pub fn new(token: &str, user: &str) -> (r: Self)
        ensures
            r.token@ == token@,
            r.user@ == user@,
            r.device is None,
    {
        Self { token: String::from_str(token), user: String::from_str(user), device: None }
    }

    /// Restricts the verification to one device.
    pub fn set_device(&mut self, device: &str)
        ensures
            final(self).device matches Some(d) && d@ == device@,
            *final(self) == (Verification { device: final(self).device, ..*old(self) }),
    {
        self.device = Some(String::from_str(device));
    }
}

impl Request for Verification {
    type ResponseType = VerificationResponse;

    type RawResponseType = RawVerificationResponse;

    open spec fn spec_path(&self) -> Seq<Seq<char>> {
        seq!["users"@, "validate.json"@]
    }

    open spec fn spec_query(&self) -> Seq<(Seq<char>, Seq<char>)> {
        seq![("token"@, self.token@), ("user"@, self.user@)] + opt_pair(
            "device"@,
            view_opt_string(self.device),
        )
    }

    open spec fn spec_method(&self) -> Method {
        Method::Post
    }

    open spec fn spec_form(&self) -> Option<Seq<(Seq<char>, Seq<char>)>> {
        None
    }

    open spec fn doc_fits(d: JsonData) -> bool {
        &&& basic_fields_ok(d)
        &&& opt_strs_field_ok(d, "devices"@)
    }

    open spec fn doc_success(d: JsonData) -> bool {
        !absent_or_null(obj_lookup(d, "devices"@))
    }

    open spec fn map_pre(raw: RawVerificationResponse) -> bool {
        raw.devices is Some
    }

    open spec fn spec_map(raw: RawVerificationResponse) -> VerificationResponse {
        VerificationResponse { devices: raw.devices.unwrap(), request: raw.request }
    }

    open spec fn raw_matches_doc(d: JsonData, raw: RawVerificationResponse) -> bool {
        &&& status_fields_match(d, raw.status, raw.request, raw.errors)
        &&& opt_strs_field_matches(d, "devices"@, raw.devices)
    }

    fn path_segments(&self) -> (r: Vec<String>) {
        let mut r: Vec<String> = Vec::new();
        r.push(String::from_str("users"));
        r.push(String::from_str("validate.json"));
        proof {
            assert(segs_view(r@) =~= self.spec_path());
        }
        r
    }

    fn query_pairs(&self) -> (r: Vec<(String, String)>) {
        let mut r: Vec<(String, String)> = Vec::new();
        r.push((String::from_str("token"), self.token.clone()));
        r.push((String::from_str("user"), self.user.clone()));
        proof {
            assert(pairs_view(r@) =~= seq![("token"@, self.token@), ("user"@, self.user@)]);
        }
        add_optional_param(&mut r, "device", &self.device);
        proof {
            assert(pairs_view(r@) =~= self.spec_query());
        }
        r
    }

    fn get_method(&self) -> Method {
        Method::Post
    }

    fn get_form_parameters(&self) -> Option<Vec<(String, String)>> {
        None
    }

    fn build_url(&self, url: &mut url::Url) {
        let segments = self.path_segments();
        crate::requests::apply_segments(url, &segments);
        let pairs = self.query_pairs();
        crate::requests::apply_pairs(url, &pairs);
    }

    fn has_success_fields(raw: &RawVerificationResponse) -> bool {
        raw.devices.is_some()
    }

    fn map(raw: RawVerificationResponse) -> VerificationResponse {
        VerificationResponse { devices: raw.devices.unwrap(), request: raw.request }
    }

    fn decode_raw(v: &serde_json::Value) -> (r: Result<
        RawVerificationResponse,
        crate::error::Error,
    >) {
        let status = match decode_status(v) {
            Ok(x) => x,
            Err(e) => {
                return Err(e);
            },
        };
        let request = match decode_request_id(v) {
            Ok(x) => x,
            Err(e) => {
                return Err(e);
            },
        };
        let errors = match decode_errors(v) {
            Ok(x) => x,
            Err(e) => {
                return Err(e);
            },
        };
        let devices = match json_field_string_list(v, "devices") {
            Ok(x) => x,
            Err(e) => {
                return Err(e);
            },
        };
        Ok(RawVerificationResponse { status, request, errors, devices })
    }
}

/// Return type for [`Verification`].
#[derive(Clone, Debug, PartialEq, PartialOrd)]
pub struct VerificationResponse {
    pub devices: Vec<String>,
    pub request: String,
}

/// The wire shape of a verification reply.
#[derive(Clone, Debug, PartialEq)]
pub struct RawVerificationResponse {
    pub status: i32,
    pub request: String,
    pub errors: Option<Vec<String>>,
    pub devices: Option<Vec<String>>,
}

impl RawResponse for RawVerificationResponse {
    open spec fn spec_status(&self) -> i32 {
        self.status
    }

    open spec fn spec_request(&self) -> Seq<char> {
        self.request@
    }

    open spec fn spec_errors(&self) -> Option<Seq<Seq<char>>> {
        crate::requests::view_opt_strings(self.errors)
    }

    fn status(&self) -> i32 {
        self.status
    }

    fn request(&self) -> &str {
        self.request.as_str()
    }

    fn errors(&self) -> &Option<Vec<String>> {
        &self.errors
    }

    fn get_error(&self) -> Option<ErrorKind> {
        classify_status(self.status, self.request.as_str(), &self.errors)
    }
}

} // verus!
