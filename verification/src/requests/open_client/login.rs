//! Logging a user in.

use vstd::prelude::*;
use vstd::string::StringExecFns;

use crate::error::ErrorKind;
use crate::jsonval::{absent_or_null, obj_lookup, opt_str_field_ok, json_field_string, opt_str_field_matches, JsonData};
use crate::requests::{basic_fields_ok, status_fields_match, 
    classify_status, decode_errors, decode_request_id, decode_status, Method, RawResponse,
    Request,
};
use crate::strutil::segs_view;
use crate::urlenc::pairs_view;

verus! {

/// Login user.
///
/// Return type is [`LoginResponse`].
#[derive(Clone, Debug, PartialEq, PartialOrd)]
pub struct Login {
    pub email: String,
    pub password: String,
}

impl Login {
    /// A login for one account.
    pub fn new(email: &str, password: &str) -> (r: Self)
        ensures
            r.email@ == email@,
            r.password@ == password@,
    {
        Self { email: String::from_str(email), password: String::from_str(password) }
    }
}

impl Request for Login {
    type ResponseType = LoginResponse;

    type RawResponseType = RawLoginResponse;

    open spec fn spec_path(&self) -> Seq<Seq<char>> {
        seq!["users"@, "login.json"@]
    }

    open spec fn spec_query(&self) -> Seq<(Seq<char>, Seq<char>)> {
        Seq::empty()
    }

    open spec fn spec_method(&self) -> Method {
        Method::Post
    }

    open spec fn spec_form(&self) -> Option<Seq<(Seq<char>, Seq<char>)>> {
        Some(seq![("email"@, self.email@), ("password"@, self.password@)])
    }

    open spec fn doc_fits(d: JsonData) -> bool {
        &&& basic_fields_ok(d)
        &&& opt_str_field_ok(d, "id"@)
        &&& opt_str_field_ok(d, "secret"@)
    }

    open spec fn doc_success(d: JsonData) -> bool {
        &&& !absent_or_null(obj_lookup(d, "id"@))
        &&& !absent_or_null(obj_lookup(d, "secret"@))
    }

    open spec fn map_pre(raw: RawLoginResponse) -> bool {
        raw.id is Some && raw.secret is Some
    }

    open spec fn spec_map(raw: RawLoginResponse) -> LoginResponse {
        LoginResponse {
            request: raw.request,
            id: raw.id.unwrap(),
            secret: raw.secret.unwrap(),
        }
    }

    open spec fn raw_matches_doc(d: JsonData, raw: RawLoginResponse) -> bool {
        &&& status_fields_match(d, raw.status, raw.request, raw.errors)
        &&& opt_str_field_matches(d, "id"@, raw.id)
        &&& opt_str_field_matches(d, "secret"@, raw.secret)
    }

    fn path_segments(&self) -> (r: Vec<String>) {
        let mut r: Vec<String> = Vec::new();
        r.push(String::from_str("users"));
        r.push(String::from_str("login.json"));
        proof {
            assert(segs_view(r@) =~= self.spec_path());
        }
        r
    }

    fn query_pairs(&self) -> (r: Vec<(String, String)>) {
        let r: Vec<(String, String)> = Vec::new();
        proof {
            assert(pairs_view(r@) =~= self.spec_query());
        }
        r
    }

    fn get_method(&self) -> Method {
        Method::Post
    }

    fn get_form_parameters(&self) -> (r: Option<Vec<(String, String)>>) {
        let mut v: Vec<(String, String)> = Vec::new();
        v.push((String::from_str("email"), self.email.clone()));
        v.push((String::from_str("password"), self.password.clone()));
        proof {
            assert(pairs_view(v@) =~= seq![
                ("email"@, self.email@),
                ("password"@, self.password@),
            ]);
        }
        Some(v)
    }

    fn build_url(&self, url: &mut url::Url) {
        let segments = self.path_segments();
        crate::requests::apply_segments(url, &segments);
        let pairs = self.query_pairs();
        crate::requests::apply_pairs(url, &pairs);
    }

    fn has_success_fields(raw: &RawLoginResponse) -> bool {
        raw.id.is_some() && raw.secret.is_some()
    }

    fn map(raw: RawLoginResponse) -> LoginResponse {
        LoginResponse {
            request: raw.request,
            id: raw.id.unwrap(),
            secret: raw.secret.unwrap(),
        }
    }

    fn decode_raw(v: &serde_json::Value) -> (r: Result<RawLoginResponse, crate::error::Error>) {
        let status = match decode_status(v) {
            Ok(x) => x,
            Err(e) => {
                return Err(e);
            },
        };
        let request = match decode_request_id(v) {
            Ok(x) => x,
            Err(e) => {
                return Err(e);
            },
        };
        let errors = match decode_errors(v) {
            Ok(x) => x,
            Err(e) => {
                return Err(e);
            },
        };
        let id = match json_field_string(v, "id") {
            Ok(x) => x,
            Err(e) => {
                return Err(e);
            },
        };
        let secret = match json_field_string(v, "secret") {
            Ok(x) => x,
            Err(e) => {
                return Err(e);
            },
        };
        Ok(RawLoginResponse { status, request, id, secret, errors })
    }
}

/// Return type for [`Login`].
#[derive(Clone, Debug, PartialEq, PartialOrd)]
pub struct LoginResponse {
    pub id: String,
    pub secret: String,
    pub request: String,
}

/// The wire shape of a login reply.
#[derive(Clone, Debug, PartialEq)]
pub struct RawLoginResponse {
    pub status: i32,
    pub request: String,
    pub id: Option<String>,
    pub secret: Option<String>,
    pub errors: Option<Vec<String>>,
}

impl RawResponse for RawLoginResponse {
    open spec fn spec_status(&self) -> i32 {
        self.status
    }

    open spec fn spec_request(&self) -> Seq<char> {
        self.request@
    }

    open spec fn spec_errors(&self) -> Option<Seq<Seq<char>>> {
        crate::requests::view_opt_strings(self.errors)
    }

    fn status(&self) -> i32 {
        self.status
    }

    fn request(&self) -> &str {
        self.request.as_str()
    }

    fn errors(&self) -> &Option<Vec<String>> {
        &self.errors
    }

    fn get_error(&self) -> Option<ErrorKind> {
        classify_status(self.status, self.request.as_str(), &self.errors)
    }
}

} // verus!
