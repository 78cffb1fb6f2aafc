//! Assigning a license to a user.

use vstd::prelude::*;
use vstd::string::StringExecFns;

use super::check_credits::{CheckCredits, CheckCreditsResponse, RawCheckCreditsResponse};
use crate::jsonval::{absent_or_null, obj_lookup, opt_u16_field_ok, opt_u16_field_matches, JsonData};
use crate::requests::{basic_fields_ok, status_fields_match, add_optional_param, opt_pair, Method, Request};
use crate::strutil::segs_view;
use crate::types::{OperatingSystem, UserType};
use crate::urlenc::pairs_view;

verus! {

/// Assign a license.
///
/// Return type is [`CheckCreditsResponse`].
#[derive(Clone, Debug, PartialEq, PartialOrd)]
pub struct Assign {
    pub token: String,
    pub os: Option<OperatingSystem>,
    pub user_type: UserType,
}

impl Assign {
    /// A license assignment for one user, identified by key or email.
    pub fn new(token: &str, user_type: UserType) -> (r: Self)
        ensures
            r.token@ == token@,
            r.os is None,
            r.user_type == user_type,
    {
        Self { token: String::from_str(token), os: None, user_type }
    }

    /// Sets the optional operating system.
    pub fn set_os(&mut self, os: OperatingSystem)
        ensures
            *final(self) == (Assign { os: Some(os), ..*old(self) }),
    {
        self.os = Some(os);
    }
}

/// The query pair identifying the user: an email address under `email`,
/// a user key under `user`.
pub open spec fn spec_user_type_pair(user_type: UserType) -> (Seq<char>, Seq<char>) {
    match user_type {
        UserType::Email(email) => ("email"@, email@),
        UserType::UserKey(key) => ("user"@, key@),
    }
}

impl Request for Assign {
    type ResponseType = CheckCreditsResponse;

    type RawResponseType = RawCheckCreditsResponse;

    open spec fn spec_path(&self) -> Seq<Seq<char>> {
        seq!["licenses"@, "assign.json"@]
    }

    open spec fn spec_query(&self) -> Seq<(Seq<char>, Seq<char>)> {
        seq![("token"@, self.token@), spec_user_type_pair(self.user_type)] + opt_pair(
            "os"@,
            match self.os {
                Some(os) => Some(os.spec_str()),
                None => None,
            },
        )
    }

    open spec fn spec_method(&self) -> Method {
        Method::Post
    }

    open spec fn spec_form(&self) -> Option<Seq<(Seq<char>, Seq<char>)>> {
        None
    }

    open spec fn doc_fits(d: JsonData) -> bool {
        &&& basic_fields_ok(d)
        &&& opt_u16_field_ok(d, "credits"@)
    }

    open spec fn doc_success(d: JsonData) -> bool {
        !absent_or_null(obj_lookup(d, "credits"@))
    }

    open spec fn map_pre(raw: RawCheckCreditsResponse) -> bool {
        raw.credits is Some
    }

    open spec fn spec_map(raw: RawCheckCreditsResponse) -> CheckCreditsResponse {
        CheckCreditsResponse { request: raw.request, credits: raw.credits.unwrap() }
    }

    open spec fn raw_matches_doc(d: JsonData, raw: RawCheckCreditsResponse) -> bool {
        &&& status_fields_match(d, raw.status, raw.request, raw.errors)
        &&& opt_u16_field_matches(d, "credits"@, raw.credits)
    }

    fn path_segments(&self) -> (r: Vec<String>) {
        let mut r: Vec<String> = Vec::new();
        r.push(String::from_str("licenses"));
        r.push(String::from_str("assign.json"));
        proof {
            assert(segs_view(r@) =~= self.spec_path());
        }
        r
    }

    fn query_pairs(&self) -> (r: Vec<(String, String)>) {
        let mut r: Vec<(String, String)> = Vec::new();
        r.push((String::from_str("token"), self.token.clone()));
        match &self.user_type {
            UserType::Email(email) => {
                r.push((String::from_str("email"), email.clone()));
            },
            UserType::UserKey(key) => {
                r.push((String::from_str("user"), key.clone()));
            },
        }
        proof {
            assert(pairs_view(r@) =~= seq![
                ("token"@, self.token@),
                spec_user_type_pair(self.user_type),
            ]);
        }
        let os_str: Option<String> = match &self.os {
            Some(os) => Some(String::from_str(os.as_str())),
            None => None,
        };
        add_optional_param(&mut r, "os", &os_str);
        proof {
            assert(pairs_view(r@) =~= self.spec_query());
        }
        r
    }

    fn get_method(&self) -> Method {
        Method::Post
    }

    fn get_form_parameters(&self) -> Option<Vec<(String, String)>> {
        None
    }

    fn build_url(&self, url: &mut url::Url) {
        let segments = self.path_segments();
        crate::requests::apply_segments(url, &segments);
        let pairs = self.query_pairs();
        crate::requests::apply_pairs(url, &pairs);
    }

    fn has_success_fields(raw: &RawCheckCreditsResponse) -> bool {
        raw.credits.is_some()
    }

    fn map(raw: RawCheckCreditsResponse) -> CheckCreditsResponse {
        CheckCreditsResponse { request: raw.request, credits: raw.credits.unwrap() }
    }

    fn decode_raw(v: &serde_json::Value) -> (r: Result<
        RawCheckCreditsResponse,
        crate::error::Error,
    >) {
        <CheckCredits as Request>::decode_raw(v)
    }
}

} // verus!
