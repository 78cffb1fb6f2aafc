//! Sending a message.

use vstd::prelude::*;
use vstd::string::StringExecFns;

use crate::error::ErrorKind;
use crate::jsonval::{opt_str_field_ok, json_field_string, opt_str_field_matches, JsonData};
use crate::requests::{basic_fields_ok, status_fields_match, 
    add_optional_param, classify_status, decode_errors, decode_request_id, decode_status,
    opt_pair, view_opt_string, Method, RawResponse, Request,
};
use crate::strutil::{join_sep, segs_view, spec_dec, spec_join_sep, u64_to_string};
use crate::types::{Priority, Sound};
use crate::urlenc::pairs_view;

verus! {

/// Send a message.
///
/// Return type is [`SendMessageResponse`].
#[derive(Clone, Debug, PartialEq, PartialOrd)]
pub struct SendMessage {
    pub token: String,
    pub user_key: String,
    pub message: String,
    pub devices: Vec<String>,
    pub title: Option<String>,
    pub url: Option<String>,
    pub url_title: Option<String>,
    pub priority: Option<Priority>,
    pub timestamp: Option<String>,
    pub sound: Option<Sound>,
}

impl SendMessage {
    /// A message for one user, with every optional modifier absent.
    pub fn new(token: &str, user_key: &str, message: &str) -> (r: Self)
        ensures
            r.token@ == token@,
            r.user_key@ == user_key@,
            r.message@ == message@,
            r.devices@.len() == 0,
            r.title is None,
            r.url is None,
            r.url_title is None,
            r.priority is None,
            r.timestamp is None,
            r.sound is None,
    {
        Self {
            token: String::from_str(token),
            user_key: String::from_str(user_key),
            message: String::from_str(message),
            devices: Vec::new(),
            title: None,
            url: None,
            url_title: None,
            priority: None,
            timestamp: None,
            sound: None,
        }
    }

    /// Adds one target device to the end of the device list.
    pub fn add_device(&mut self, device: &str)
        ensures
            segs_view(final(self).devices@) == segs_view(old(self).devices@).push(device@),
            *final(self) == (SendMessage { devices: final(self).devices, ..*old(self) }),
    {
        self.devices.push(String::from_str(device));
        proof {
            assert(segs_view(self.devices@) =~= segs_view(old(self).devices@).push(device@));
        }
    }

    /// Sets the optional title.
    pub fn set_title(&mut self, title: &str)
        ensures
            final(self).title matches Some(t) && t@ == title@,
            *final(self) == (SendMessage { title: final(self).title, ..*old(self) }),
    {
        self.title = Some(String::from_str(title));
    }

    /// Sets the optional supplementary URL.
    pub fn set_url(&mut self, url: &str)
        ensures
            final(self).url matches Some(u) && u@ == url@,
            *final(self) == (SendMessage { url: final(self).url, ..*old(self) }),
    {
        self.url = Some(String::from_str(url));
    }

    /// Sets the optional title of the supplementary URL.
    pub fn set_url_title(&mut self, title: &str)
        ensures
            final(self).url_title matches Some(t) && t@ == title@,
            *final(self) == (SendMessage { url_title: final(self).url_title, ..*old(self) }),
    {
        self.url_title = Some(String::from_str(title));
    }

    /// Sets the optional timestamp.
    pub fn set_timestamp(&mut self, timestamp: &str)
        ensures
            final(self).timestamp matches Some(t) && t@ == timestamp@,
            *final(self) == (SendMessage { timestamp: final(self).timestamp, ..*old(self) }),
    {
        self.timestamp = Some(String::from_str(timestamp));
    }

    /// Sets the optional priority.
    pub fn set_priority(&mut self, priority: Priority)
        ensures
            *final(self) == (SendMessage { priority: Some(priority), ..*old(self) }),
    {
        self.priority = Some(priority);
    }

    /// Sets the optional sound.
    pub fn set_sound(&mut self, sound: Sound)
        ensures
            *final(self) == (SendMessage { sound: Some(sound), ..*old(self) }),
    {
        self.sound = Some(sound);
    }
}

/// The query pairs the optional priority contributes: the integer string
/// under `priority`; for the emergency variant additionally the retry
/// interval and the expiry duration, and the callback target exactly when
/// one is set.
pub open spec fn spec_priority_pairs(priority: Option<Priority>) -> Seq<(Seq<char>, Seq<char>)> {
    match priority {
        None => Seq::empty(),
        Some(p) => seq![("priority"@, p.spec_str())] + match p {
            Priority::Emergency { retry, expire, callback_url } => seq![
                ("retry"@, spec_dec(retry as nat)),
                ("expire"@, spec_dec(expire as nat)),
            ] + opt_pair("callback"@, view_opt_string(callback_url)),
            _ => Seq::empty(),
        },
    }
}

/// The query pairs the device list contributes: one `device` pair holding
/// the comma-joined list, or nothing when the list is empty; never
/// repeated keys.
pub open spec fn spec_device_pairs(devices: Seq<String>) -> Seq<(Seq<char>, Seq<char>)> {
    if devices.len() > 0 {
        seq![("device"@, spec_join_sep(segs_view(devices), ","@))]
    } else {
        Seq::empty()
    }
}

impl Request for SendMessage {
    type ResponseType = SendMessageResponse;

    type RawResponseType = RawSendMessageResponse;

    open spec fn spec_path(&self) -> Seq<Seq<char>> {
        seq!["messages.json"@]
    }

    open spec fn spec_query(&self) -> Seq<(Seq<char>, Seq<char>)> {
        seq![
            ("token"@, self.token@),
            ("user"@, self.user_key@),
            ("message"@, self.message@),
        ] + opt_pair("title"@, view_opt_string(self.title)) + opt_pair(
            "url"@,
            view_opt_string(self.url),
        ) + opt_pair("url_title"@, view_opt_string(self.url_title)) + opt_pair(
            "timestamp"@,
            view_opt_string(self.timestamp),
        ) + opt_pair(
            "sound"@,
            match self.sound {
                Some(s) => Some(s.spec_str()),
                None => None,
            },
        ) + spec_device_pairs(self.devices@) + spec_priority_pairs(self.priority)
    }

    open spec fn spec_method(&self) -> Method {
        Method::Post
    }

    open spec fn spec_form(&self) -> Option<Seq<(Seq<char>, Seq<char>)>> {
        None
    }

    open spec fn doc_fits(d: JsonData) -> bool {
        &&& basic_fields_ok(d)
        &&& opt_str_field_ok(d, "receipt"@)
    }

    open spec fn doc_success(d: JsonData) -> bool {
        true
    }

    open spec fn map_pre(raw: RawSendMessageResponse) -> bool {
        true
    }

    open spec fn spec_map(raw: RawSendMessageResponse) -> SendMessageResponse {
        SendMessageResponse { receipt: raw.receipt, request: raw.request }
    }

    open spec fn raw_matches_doc(d: JsonData, raw: RawSendMessageResponse) -> bool {
        &&& status_fields_match(d, raw.status, raw.request, raw.errors)
        &&& opt_str_field_matches(d, "receipt"@, raw.receipt)
    }

    fn path_segments(&self) -> (r: Vec<String>) {
        let mut r: Vec<String> = Vec::new();
        r.push(String::from_str("messages.json"));
        proof {
            assert(segs_view(r@) =~= self.spec_path());
        }
        r
    }

    fn query_pairs(&self) -> (r: Vec<(String, String)>) {
        let mut r: Vec<(String, String)> = Vec::new();
        r.push((String::from_str("token"), self.token.clone()));
        r.push((String::from_str("user"), self.user_key.clone()));
        r.push((String::from_str("message"), self.message.clone()));
        proof {
            assert(pairs_view(r@) =~= seq![
                ("token"@, self.token@),
                ("user"@, self.user_key@),
                ("message"@, self.message@),
            ]);
        }
        add_optional_param(&mut r, "title", &self.title);
        add_optional_param(&mut r, "url", &self.url);
        add_optional_param(&mut r, "url_title", &self.url_title);
        add_optional_param(&mut r, "timestamp", &self.timestamp);
        let sound_str: Option<String> = match &self.sound {
            Some(s) => Some(String::from_str(s.as_str())),
            None => None,
        };
        add_optional_param(&mut r, "sound", &sound_str);
        proof {
            assert(opt_pair("sound"@, view_opt_string(sound_str)) == opt_pair(
                "sound"@,
                match self.sound {
                    Some(s) => Some(s.spec_str()),
                    None => None,
                },
            ));
        }
        let ghost before_device = pairs_view(r@);
        if !self.devices.is_empty() {
            let list = join_sep(&self.devices, ",");
            r.push((String::from_str("device"), list));
        }
        proof {
            assert(pairs_view(r@) =~= before_device + spec_device_pairs(self.devices@));
        }
        let ghost before_priority = pairs_view(r@);
        match &self.priority {
            None => {
            },
            Some(p) => {
                r.push((String::from_str("priority"), String::from_str(p.as_str())));
                match p {
                    Priority::Emergency { retry, expire, callback_url } => {
                        r.push((String::from_str("retry"), u64_to_string(*retry as u64)));
                        r.push((String::from_str("expire"), u64_to_string(*expire as u64)));
                        add_optional_param(&mut r, "callback", callback_url);
                    },
                    _ => {
                    },
                }
            },
        }
        proof {
            assert(pairs_view(r@) =~= before_priority + spec_priority_pairs(self.priority));
            assert(pairs_view(r@) =~= self.spec_query());
        }
        r
    }

    fn get_method(&self) -> Method {
        Method::Post
    }

    fn get_form_parameters(&self) -> Option<Vec<(String, String)>> {
        None
    }

    fn build_url(&self, url: &mut url::Url) {
        let segments = self.path_segments();
        crate::requests::apply_segments(url, &segments);
        let pairs = self.query_pairs();
        crate::requests::apply_pairs(url, &pairs);
    }

    fn has_success_fields(raw: &RawSendMessageResponse) -> bool {
        true
    }

    fn map(raw: RawSendMessageResponse) -> SendMessageResponse {
        SendMessageResponse { receipt: raw.receipt, request: raw.request }
    }

    fn decode_raw(v: &serde_json::Value) -> (r: Result<
        RawSendMessageResponse,
        crate::error::Error,
    >) {
        let status = match decode_status(v) {
            Ok(x) => x,
            Err(e) => {
                return Err(e);
            },
        };
        let request = match decode_request_id(v) {
            Ok(x) => x,
            Err(e) => {
                return Err(e);
            },
        };
        let errors = match decode_errors(v) {
            Ok(x) => x,
            Err(e) => {
                return Err(e);
            },
        };
        let receipt = match json_field_string(v, "receipt") {
            Ok(x) => x,
            Err(e) => {
                return Err(e);
            },
        };
        Ok(RawSendMessageResponse { status, request, errors, receipt })
    }
}

/// Return type for [`SendMessage`].
#[derive(Clone, Debug, PartialEq, PartialOrd)]
pub struct SendMessageResponse {
    pub receipt: Option<String>,
    pub request: String,
}

/// The wire shape of a send-message reply.
#[derive(Clone, Debug, PartialEq)]
pub struct RawSendMessageResponse {
    pub status: i32,
    pub request: String,
    pub errors: Option<Vec<String>>,
    pub receipt: Option<String>,
}

impl RawResponse for RawSendMessageResponse {
    open spec fn spec_status(&self) -> i32 {
        self.status
    }

    open spec fn spec_request(&self) -> Seq<char> {
        self.request@
    }

    open spec fn spec_errors(&self) -> Option<Seq<Seq<char>>> {
        crate::requests::view_opt_strings(self.errors)
    }

    fn status(&self) -> i32 {
        self.status
    }

    fn request(&self) -> &str {
        self.request.as_str()
    }

    fn errors(&self) -> &Option<Vec<String>> {
        &self.errors
    }

    fn get_error(&self) -> Option<ErrorKind> {
        classify_status(self.status, self.request.as_str(), &self.errors)
    }
}

} // verus!
