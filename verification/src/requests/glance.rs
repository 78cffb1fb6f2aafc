//! Updating a glance.

use vstd::prelude::*;
use vstd::string::StringExecFns;

use crate::jsonval::JsonData;
use crate::requests::{basic_fields_ok, status_fields_match, 
    add_optional_param, decode_raw_basic, opt_pair, view_opt_string, Method, RawBasicResponse,
    Request,
};
use crate::strutil::{i64_to_string, segs_view, spec_dec, spec_dec_signed, u64_to_string};
use crate::urlenc::pairs_view;

verus! {

/// Send a Glance request.
///
/// Return type is `String`, which is the request identifier echoed by the
/// service.
#[derive(Clone, Debug, PartialEq, PartialOrd)]
pub struct Glance {
    pub token: String,
    pub user_key: String,
    pub device: Option<String>,
    pub title: Option<String>,
    pub text: Option<String>,
    pub subtext: Option<String>,
    pub count: Option<i32>,
    pub percent: Option<u8>,
}

impl Glance {
    /// A glance update for one user, with every optional field absent.
    pub fn new(token: &str, user_key: &str) -> (r: Self)
        ensures
            r.token@ == token@,
            r.user_key@ == user_key@,
            r.device is None,
            r.title is None,
            r.text is None,
            r.subtext is None,
            r.count is None,
            r.percent is None,
    {
        Self {
            token: String::from_str(token),
            user_key: String::from_str(user_key),
            device: None,
            title: None,
            text: None,
            subtext: None,
            count: None,
            percent: None,
        }
    }

    /// Sets the optional target device.
    pub fn set_device(&mut self, device: &str)
        ensures
            final(self).device matches Some(d) && d@ == device@,
            *final(self) == (Glance { device: final(self).device, ..*old(self) }),
    {
        self.device = Some(String::from_str(device));
    }

    /// Sets the optional title.
    pub fn set_title(&mut self, title: &str)
        ensures
            final(self).title matches Some(t) && t@ == title@,
            *final(self) == (Glance { title: final(self).title, ..*old(self) }),
    {
        self.title = Some(String::from_str(title));
    }

    /// Sets the optional text line.
    pub fn set_text(&mut self, text: &str)
        ensures
            final(self).text matches Some(t) && t@ == text@,
            *final(self) == (Glance { text: final(self).text, ..*old(self) }),
    {
        self.text = Some(String::from_str(text));
    }

    /// Sets the optional second text line.
    pub fn set_subtext(&mut self, subtext: &str)
        ensures
            final(self).subtext matches Some(t) && t@ == subtext@,
            *final(self) == (Glance { subtext: final(self).subtext, ..*old(self) }),
    {
        self.subtext = Some(String::from_str(subtext));
    }

    /// Sets the optional count.
    pub fn set_count(&mut self, count: i32)
        ensures
            *final(self) == (Glance { count: Some(count), ..*old(self) }),
    {
        self.count = Some(count);
    }

    /// Sets the optional percentage.
    pub fn set_percent(&mut self, percent: u8)
        ensures
            *final(self) == (Glance { percent: Some(percent), ..*old(self) }),
    {
        self.percent = Some(percent);
    }
}

impl Request for Glance {
    type ResponseType = String;

    type RawResponseType = RawBasicResponse;

    open spec fn spec_path(&self) -> Seq<Seq<char>> {
        seq!["glances.json"@]
    }

    open spec fn spec_query(&self) -> Seq<(Seq<char>, Seq<char>)> {
        seq![("token"@, self.token@), ("user"@, self.user_key@)] + opt_pair(
            "device"@,
            view_opt_string(self.device),
        ) + opt_pair("title"@, view_opt_string(self.title)) + opt_pair(
            "text"@,
            view_opt_string(self.text),
        ) + opt_pair("subtext"@, view_opt_string(self.subtext)) + opt_pair(
            "count"@,
            match self.count {
                Some(c) => Some(spec_dec_signed(c as int)),
                None => None,
            },
        ) + opt_pair(
            "percent"@,
            match self.percent {
                Some(p) => Some(spec_dec(p as nat)),
                None => None,
            },
        )
    }

    open spec fn spec_method(&self) -> Method {
        Method::Post
    }

    open spec fn spec_form(&self) -> Option<Seq<(Seq<char>, Seq<char>)>> {
        None
    }

    open spec fn doc_fits(d: JsonData) -> bool {
        basic_fields_ok(d)
    }

    open spec fn doc_success(d: JsonData) -> bool {
        true
    }

    open spec fn map_pre(raw: RawBasicResponse) -> bool {
        true
    }

    open spec fn spec_map(raw: RawBasicResponse) -> String {
        raw.request
    }

    open spec fn raw_matches_doc(d: JsonData, raw: RawBasicResponse) -> bool {
        status_fields_match(d, raw.status, raw.request, raw.errors)
    }

    fn path_segments(&self) -> (r: Vec<String>) {
        let mut r: Vec<String> = Vec::new();
        r.push(String::from_str("glances.json"));
        proof {
            assert(segs_view(r@) =~= self.spec_path());
        }
        r
    }

    fn query_pairs(&self) -> (r: Vec<(String, String)>) {
        let mut r: Vec<(String, String)> = Vec::new();
        r.push((String::from_str("token"), self.token.clone()));
        r.push((String::from_str("user"), self.user_key.clone()));
        proof {
            assert(pairs_view(r@) =~= seq![("token"@, self.token@), ("user"@, self.user_key@)]);
        }
        add_optional_param(&mut r, "device", &self.device);
        add_optional_param(&mut r, "title", &self.title);
        add_optional_param(&mut r, "text", &self.text);
        add_optional_param(&mut r, "subtext", &self.subtext);
        let count_str: Option<String> = match &self.count {
            Some(c) => Some(i64_to_string(*c as i64)),
            None => None,
        };
        add_optional_param(&mut r, "count", &count_str);
        let percent_str: Option<String> = match &self.percent {
            Some(p) => Some(u64_to_string(*p as u64)),
            None => None,
        };
        add_optional_param(&mut r, "percent", &percent_str);
        proof {
            assert(pairs_view(r@) =~= self.spec_query());
        }
        r
    }

    fn get_method(&self) -> Method {
        Method::Post
    }

    fn get_form_parameters(&self) -> Option<Vec<(String, String)>> {
        None
    }

    fn build_url(&self, url: &mut url::Url) {
        let segments = self.path_segments();
        crate::requests::apply_segments(url, &segments);
        let pairs = self.query_pairs();
        crate::requests::apply_pairs(url, &pairs);
    }

    fn has_success_fields(raw: &RawBasicResponse) -> bool {
        true
    }

    fn map(raw: RawBasicResponse) -> String {
        raw.request
    }

    fn decode_raw(v: &serde_json::Value) -> (r: Result<RawBasicResponse, crate::error::Error>) {
        decode_raw_basic(v)
    }
}

} // verus!
