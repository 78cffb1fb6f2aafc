//! Enabling or disabling a user of a delivery group.

use vstd::prelude::*;
use vstd::string::StringExecFns;

use crate::jsonval::JsonData;
use crate::requests::{basic_fields_ok, status_fields_match, decode_raw_basic, Method, RawBasicResponse, Request};
use crate::strutil::segs_view;
use crate::urlenc::pairs_view;

verus! {

/// Disable or enable a user for a group.
///
/// Return type is `String`, which is the request identifier echoed by the
/// service.
#[derive(Clone, Debug, PartialEq, PartialOrd)]
pub struct ToggleUser {
    pub token: String,
    pub group_key: String,
    pub user_key: String,
    pub toggle: bool,
}

impl ToggleUser {
    /// A toggle request for one user of one group: true enables, false
    /// disables.
    pub fn new(token: &str, group_key: &str, user_key: &str, toggle: bool) -> (r: Self)
        ensures
            r.token@ == token@,
            r.group_key@ == group_key@,
            r.user_key@ == user_key@,
            r.toggle == toggle,
    {
        Self {
            token: String::from_str(token),
            group_key: String::from_str(group_key),
            user_key: String::from_str(user_key),
            toggle,
        }
    }
}

impl Request for ToggleUser {
    type ResponseType = String;

    type RawResponseType = RawBasicResponse;

    open spec fn spec_path(&self) -> Seq<Seq<char>> {
        seq![
            "groups"@,
            self.group_key@,
            if self.toggle {
                "enable_user.json"@
            } else {
                "disable_user.json"@
            },
        ]
    }

    open spec fn spec_query(&self) -> Seq<(Seq<char>, Seq<char>)> {
        seq![("token"@, self.token@), ("user"@, self.user_key@)]
    }

    open spec fn spec_method(&self) -> Method {
        Method::Post
    }

    open spec fn spec_form(&self) -> Option<Seq<(Seq<char>, Seq<char>)>> {
        None
    }

    open spec fn doc_fits(d: JsonData) -> bool {
        basic_fields_ok(d)
    }

    open spec fn doc_success(d: JsonData) -> bool {
        true
    }

    open spec fn map_pre(raw: RawBasicResponse) -> bool {
        true
    }

    open spec fn spec_map(raw: RawBasicResponse) -> String {
        raw.request
    }

    open spec fn raw_matches_doc(d: JsonData, raw: RawBasicResponse) -> bool {
        status_fields_match(d, raw.status, raw.request, raw.errors)
    }

    fn path_segments(&self) -> (r: Vec<String>) {
        let mut r: Vec<String> = Vec::new();
        r.push(String::from_str("groups"));
        r.push(self.group_key.clone());
        if self.toggle {
            r.push(String::from_str("enable_user.json"));
        } else {
            r.push(String::from_str("disable_user.json"));
        }
        proof {
            assert(segs_view(r@) =~= self.spec_path());
        }
        r
    }

    fn query_pairs(&self) -> (r: Vec<(String, String)>) {
        let mut r: Vec<(String, String)> = Vec::new();
        r.push((String::from_str("token"), self.token.clone()));
        r.push((String::from_str("user"), self.user_key.clone()));
        proof {
            assert(pairs_view(r@) =~= self.spec_query());
        }
        r
    }

    fn get_method(&self) -> Method {
        Method::Post
    }

    fn get_form_parameters(&self) -> Option<Vec<(String, String)>> {
        None
    }

    fn build_url(&self, url: &mut url::Url) {
        let segments = self.path_segments();
        crate::requests::apply_segments(url, &segments);
        let pairs = self.query_pairs();
        crate::requests::apply_pairs(url, &pairs);
    }

    fn has_success_fields(raw: &RawBasicResponse) -> bool {
        true
    }

    fn map(raw: RawBasicResponse) -> String {
        raw.request
    }

    fn decode_raw(v: &serde_json::Value) -> (r: Result<RawBasicResponse, crate::error::Error>) {
        decode_raw_basic(v)
    }
}

} // verus!
