//! Registering a desktop device.

use vstd::prelude::*;
use vstd::string::StringExecFns;

use crate::error::ErrorKind;
use crate::jsonval::{absent_or_null, obj_lookup, opt_str_field_ok, json_field_string, opt_str_field_matches, JsonData};
use crate::requests::{basic_fields_ok, status_fields_match, 
    classify_status, decode_errors, decode_request_id, decode_status, Method, RawResponse,
    Request,
};
use crate::strutil::segs_view;
use crate::urlenc::pairs_view;

verus! {

/// Register desktop device.
///
/// Return type is [`RegisterDeviceResponse`].
#[derive(Clone, Debug, PartialEq, PartialOrd)]
pub struct RegisterDevice {
    pub secret: String,
    pub name: String,
}

impl RegisterDevice {
    /// A registration for one device name.
    pub fn new(secret: &str, name: &str) -> (r: Self)
        ensures
            r.secret@ == secret@,
            r.name@ == name@,
    {
        Self { secret: String::from_str(secret), name: String::from_str(name) }
    }
}

impl Request for RegisterDevice {
    type ResponseType = RegisterDeviceResponse;

    type RawResponseType = RawRegisterDeviceResponse;

    open spec fn spec_path(&self) -> Seq<Seq<char>> {
        seq!["devices.json"@]
    }

    open spec fn spec_query(&self) -> Seq<(Seq<char>, Seq<char>)> {
        Seq::empty()
    }

    open spec fn spec_method(&self) -> Method {
        Method::Post
    }

    open spec fn spec_form(&self) -> Option<Seq<(Seq<char>, Seq<char>)>> {
        Some(
            seq![("secret"@, self.secret@), ("name"@, self.name@), ("os"@, "O"@)],
        )
    }

    open spec fn doc_fits(d: JsonData) -> bool {
        &&& basic_fields_ok(d)
        &&& opt_str_field_ok(d, "id"@)
    }

    open spec fn doc_success(d: JsonData) -> bool {
        !absent_or_null(obj_lookup(d, "id"@))
    }

    open spec fn map_pre(raw: RawRegisterDeviceResponse) -> bool {
        raw.id is Some
    }

    open spec fn spec_map(raw: RawRegisterDeviceResponse) -> RegisterDeviceResponse {
        RegisterDeviceResponse { request: raw.request, id: raw.id.unwrap() }
    }

    open spec fn raw_matches_doc(d: JsonData, raw: RawRegisterDeviceResponse) -> bool {
        &&& status_fields_match(d, raw.status, raw.request, raw.errors)
        &&& opt_str_field_matches(d, "id"@, raw.id)
    }

    fn path_segments(&self) -> (r: Vec<String>) {
        let mut r: Vec<String> = Vec::new();
        r.push(String::from_str("devices.json"));
        proof {
            assert(segs_view(r@) =~= self.spec_path());
        }
        r
    }

    fn query_pairs(&self) -> (r: Vec<(String, String)>) {
        let r: Vec<(String, String)> = Vec::new();
        proof {
            assert(pairs_view(r@) =~= self.spec_query());
        }
        r
    }

    fn get_method(&self) -> Method {
        Method::Post
    }

    fn get_form_parameters(&self) -> (r: Option<Vec<(String, String)>>) {
        let mut v: Vec<(String, String)> = Vec::new();
        v.push((String::from_str("secret"), self.secret.clone()));
        v.push((String::from_str("name"), self.name.clone()));
        v.push((String::from_str("os"), String::from_str("O")));
        proof {
            assert(pairs_view(v@) =~= seq![
                ("secret"@, self.secret@),
                ("name"@, self.name@),
                ("os"@, "O"@),
            ]);
        }
        Some(v)
    }

    fn build_url(&self, url: &mut url::Url) {
        let segments = self.path_segments();
        crate::requests::apply_segments(url, &segments);
        let pairs = self.query_pairs();
        crate::requests::apply_pairs(url, &pairs);
    }

    fn has_success_fields(raw: &RawRegisterDeviceResponse) -> bool {
        raw.id.is_some()
    }

    fn map(raw: RawRegisterDeviceResponse) -> RegisterDeviceResponse {
        RegisterDeviceResponse { request: raw.request, id: raw.id.unwrap() }
    }

    fn decode_raw(v: &serde_json::Value) -> (r: Result<
        RawRegisterDeviceResponse,
        crate::error::Error,
    >) {
        let status = match decode_status(v) {
            Ok(x) => x,
            Err(e) => {
                return Err(e);
            },
        };
        let request = match decode_request_id(v) {
            Ok(x) => x,
            Err(e) => {
                return Err(e);
            },
        };
        let errors = match decode_errors(v) {
            Ok(x) => x,
            Err(e) => {
                return Err(e);
            },
        };
        let id = match json_field_string(v, "id") {
            Ok(x) => x,
            Err(e) => {
                return Err(e);
            },
        };
        Ok(RawRegisterDeviceResponse { status, request, id, errors })
    }
}

/// Return type for [`RegisterDevice`].
#[derive(Clone, Debug, PartialEq, PartialOrd)]
pub struct RegisterDeviceResponse {
    pub request: String,
    pub id: String,
}

/// The wire shape of a device-registration reply.
#[derive(Clone, Debug, PartialEq)]
pub struct RawRegisterDeviceResponse {
    pub status: i32,
    pub request: String,
    pub id: Option<String>,
    pub errors: Option<Vec<String>>,
}

impl RawResponse for RawRegisterDeviceResponse {
    open spec fn spec_status(&self) -> i32 {
        self.status
    }

    open spec fn spec_request(&self) -> Seq<char> {
        self.request@
    }

    open spec fn spec_errors(&self) -> Option<Seq<Seq<char>>> {
        crate::requests::view_opt_strings(self.errors)
    }

    fn status(&self) -> i32 {
        self.status
    }

    fn request(&self) -> &str {
        self.request.as_str()
    }

    fn errors(&self) -> &Option<Vec<String>> {
        &self.errors
    }

    fn get_error(&self) -> Option<ErrorKind> {
        classify_status(self.status, self.request.as_str(), &self.errors)
    }
}

} // verus!
