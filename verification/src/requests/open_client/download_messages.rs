//! Downloading the messages waiting for an open client.

use vstd::prelude::*;
use vstd::string::StringExecFns;

use crate::error::ErrorKind;
use crate::jsonval::{
    absent_or_null, field_decode_error, field_i8, field_u32, int_in_range, json_as_array,
    json_field_string, json_get, json_is_null, json_model, obj_lookup, opt_i8_field_matches,
    opt_i8_field_ok, opt_str_field_matches, opt_str_field_ok, require_string, JsonData,
};
use crate::requests::{
    basic_fields_ok, classify_status, status_fields_match, decode_errors, decode_request_id, decode_status, Method, RawResponse,
    Request,
};
use crate::strutil::segs_view;
use crate::types::{Message, Priority};
use crate::urlenc::pairs_view;

verus! {

/// Download messages.
///
/// Return type is [`DownloadMessagesResponse`].
#[derive(Clone, Debug, PartialEq, PartialOrd)]
pub struct DownloadMessages {
    pub secret: String,
    pub device_id: String,
}

impl DownloadMessages {
    /// A download request for one device.
    pub fn new(secret: &str, device_id: &str) -> (r: Self)
        ensures
            r.secret@ == secret@,
            r.device_id@ == device_id@,
    {
        Self { secret: String::from_str(secret), device_id: String::from_str(device_id) }
    }
}

/// A required-integer field in the u32 range.
pub open spec fn req_u32_field_ok(d: JsonData, key: Seq<char>) -> bool {
    int_in_range(obj_lookup(d, key), 0, u32::MAX as int)
}

/// A document that fits the message shape: required identifiers, texts,
/// date, priority and acknowledgement flag, the rest absent or typed.
pub open spec fn message_fits(d: JsonData) -> bool {
    &&& req_u32_field_ok(d, "id"@)
    &&& req_u32_field_ok(d, "umid"@)
    &&& opt_str_field_ok(d, "title"@)
    &&& (obj_lookup(d, "message"@) matches Some(JsonData::Str(_)))
    &&& (obj_lookup(d, "app"@) matches Some(JsonData::Str(_)))
    &&& req_u32_field_ok(d, "aid"@)
    &&& (obj_lookup(d, "icon"@) matches Some(JsonData::Str(_)))
    &&& req_u32_field_ok(d, "date"@)
    &&& (obj_lookup(d, "priority"@) matches Some(JsonData::Int(n))
        && crate::types::Priority::spec_from_int(n) is Some)
    &&& opt_str_field_ok(d, "sound"@)
    &&& opt_str_field_ok(d, "url"@)
    &&& opt_str_field_ok(d, "url_title"@)
    &&& int_in_range(obj_lookup(d, "acked"@), i8::MIN as int, i8::MAX as int)
    &&& opt_str_field_ok(d, "receipt"@)
    &&& opt_i8_field_ok(d, "html"@)
}

/// Every entry of the array fits the message shape.
pub open spec fn all_messages_fit(elems: Seq<JsonData>) -> bool {
    forall|i: int| 0 <= i < elems.len() ==> message_fits(elems[i])
}

/// A messages field that decodes: absent, null, or an array of fitting
/// messages.
pub open spec fn messages_field_ok(d: JsonData) -> bool {
    absent_or_null(obj_lookup(d, "messages"@)) || (obj_lookup(d, "messages"@) matches Some(
        JsonData::Arr(elems),
    ) && all_messages_fit(elems))
}

/// How a decoded message corresponds to its document: every field holds
/// exactly what the document holds under its key, with the priority read
/// through its wire integer.
pub open spec fn message_matches(d: JsonData, m: Message) -> bool {
    &&& obj_lookup(d, "id"@) == Some(JsonData::Int(m.id as int))
    &&& obj_lookup(d, "umid"@) == Some(JsonData::Int(m.umid as int))
    &&& opt_str_field_matches(d, "title"@, m.title)
    &&& obj_lookup(d, "message"@) == Some(JsonData::Str(m.message@))
    &&& obj_lookup(d, "app"@) == Some(JsonData::Str(m.app@))
    &&& obj_lookup(d, "aid"@) == Some(JsonData::Int(m.aid as int))
    &&& obj_lookup(d, "icon"@) == Some(JsonData::Str(m.icon@))
    &&& obj_lookup(d, "date"@) == Some(JsonData::Int(m.date as int))
    &&& (obj_lookup(d, "priority"@) matches Some(JsonData::Int(n))
        && Priority::spec_from_int(n) == Some(m.priority))
    &&& opt_str_field_matches(d, "sound"@, m.sound)
    &&& opt_str_field_matches(d, "url"@, m.url)
    &&& opt_str_field_matches(d, "url_title"@, m.url_title)
    &&& obj_lookup(d, "acked"@) == Some(JsonData::Int(m.acked as int))
    &&& opt_str_field_matches(d, "receipt"@, m.receipt)
    &&& opt_i8_field_matches(d, "html"@, m.html)
}

/// The optional message-list field holds exactly the decoded messages.
pub open spec fn messages_field_matches(d: JsonData, o: Option<Vec<Message>>) -> bool {
    match o {
        Some(msgs) => obj_lookup(d, "messages"@) matches Some(JsonData::Arr(elems)) && elems.len()
            == msgs@.len() && (forall|i: int|
            0 <= i < elems.len() ==> message_matches(elems[i], msgs@[i])),
        None => absent_or_null(obj_lookup(d, "messages"@)),
    }
}

/// Decodes one downloaded message. The identifiers, the texts, the date,
/// the priority and the acknowledgement flag are required; title, sound,
/// URL fields, receipt and the HTML flag may be absent. A priority integer
/// outside the defined range is a decode failure.
fn decode_message(v: &serde_json::Value) -> (r: Result<Message, crate::error::Error>)
    ensures
        r matches Err(e) ==> e.0 matches ErrorKind::Decode(_),
        r matches Ok(m) ==> message_matches(json_model(*v), m),
        r is Err <==> !message_fits(json_model(*v)),
{
    let id = match field_u32(v, "id") {
        Ok(Some(x)) => x,
        Ok(None) => {
            return Err(field_decode_error("id"));
        },
        Err(e) => {
            return Err(e);
        },
    };
    let umid = match field_u32(v, "umid") {
        Ok(Some(x)) => x,
        Ok(None) => {
            return Err(field_decode_error("umid"));
        },
        Err(e) => {
            return Err(e);
        },
    };
    let title = match json_field_string(v, "title") {
        Ok(x) => x,
        Err(e) => {
            return Err(e);
        },
    };
    let message = match json_field_string(v, "message") {
        Ok(x) => x,
        Err(e) => {
            return Err(e);
        },
    };
    let message = match require_string(message, "message") {
        Ok(x) => x,
        Err(e) => {
            return Err(e);
        },
    };
    let app = match json_field_string(v, "app") {
        Ok(x) => x,
        Err(e) => {
            return Err(e);
        },
    };
    let app = match require_string(app, "app") {
        Ok(x) => x,
        Err(e) => {
            return Err(e);
        },
    };
    let aid = match field_u32(v, "aid") {
        Ok(Some(x)) => x,
        Ok(None) => {
            return Err(field_decode_error("aid"));
        },
        Err(e) => {
            return Err(e);
        },
    };
    let icon = match json_field_string(v, "icon") {
        Ok(x) => x,
        Err(e) => {
            return Err(e);
        },
    };
    let icon = match require_string(icon, "icon") {
        Ok(x) => x,
        Err(e) => {
            return Err(e);
        },
    };
    let date = match field_u32(v, "date") {
        Ok(Some(x)) => x,
        Ok(None) => {
            return Err(field_decode_error("date"));
        },
        Err(e) => {
            return Err(e);
        },
    };
    let priority_int = match field_i8(v, "priority") {
        Ok(Some(x)) => x,
        Ok(None) => {
            return Err(field_decode_error("priority"));
        },
        Err(e) => {
            return Err(e);
        },
    };
    let priority = match Priority::from_int(priority_int) {
        Some(p) => p,
        None => {
            return Err(field_decode_error("priority"));
        },
    };
    let sound = match json_field_string(v, "sound") {
        Ok(x) => x,
        Err(e) => {
            return Err(e);
        },
    };
    let url = match json_field_string(v, "url") {
        Ok(x) => x,
        Err(e) => {
            return Err(e);
        },
    };
    let url_title = match json_field_string(v, "url_title") {
        Ok(x) => x,
        Err(e) => {
            return Err(e);
        },
    };
    let acked = match field_i8(v, "acked") {
        Ok(Some(x)) => x,
        Ok(None) => {
            return Err(field_decode_error("acked"));
        },
        Err(e) => {
            return Err(e);
        },
    };
    let receipt = match json_field_string(v, "receipt") {
        Ok(x) => x,
        Err(e) => {
            return Err(e);
        },
    };
    let html = match field_i8(v, "html") {
        Ok(x) => x,
        Err(e) => {
            return Err(e);
        },
    };
    Ok(
        Message {
            id,
            umid,
            title,
            message,
            app,
            aid,
            icon,
            date,
            priority,
            sound,
            url,
            url_title,
            acked,
            receipt,
            html,
        },
    )
}

/// Decodes the optional array of messages.
fn decode_messages(v: &serde_json::Value) -> (r: Result<
    Option<Vec<Message>>,
    crate::error::Error,
>)
    ensures
        r matches Err(e) ==> e.0 matches ErrorKind::Decode(_),
        r matches Ok(o) ==> messages_field_matches(json_model(*v), o),
        r is Err <==> !messages_field_ok(json_model(*v)),
{
    match json_get(v, "messages") {
        None => Ok(None),
        Some(x) => {
            if json_is_null(x) {
                Ok(None)
            } else {
                match json_as_array(x) {
                    None => Err(field_decode_error("messages")),
                    Some(items) => {
                        let ghost elems = json_model(*x)->Arr_0;
                        let mut out: Vec<Message> = Vec::new();
                        let mut i: usize = 0;
                        while i < items.len()
                            invariant
                                i <= items.len(),
                                out@.len() == i,
                                elems.len() == items@.len(),
                                json_model(*x) == JsonData::Arr(elems),
                                obj_lookup(json_model(*v), "messages"@) == Some(
                                    JsonData::Arr(elems),
                                ),
                                forall|j: int|
                                    0 <= j < elems.len() ==> elems[j] == json_model(items@[j]),
                                forall|j: int|
                                    0 <= j < i ==> message_matches(elems[j], out@[j]),
                                forall|j: int| 0 <= j < i ==> message_fits(elems[j]),
                            decreases items.len() - i,
                        {
                            match decode_message(&items[i]) {
                                Ok(msg) => out.push(msg),
                                Err(e) => {
                                    proof {
                                        assert(elems[i as int] == json_model(items@[i as int]));
                                        assert(!message_fits(elems[i as int]));
                                        assert(obj_lookup(json_model(*v), "messages"@) == Some(
                                            JsonData::Arr(elems),
                                        ));
                                        assert(!absent_or_null(
                                            obj_lookup(json_model(*v), "messages"@),
                                        ));
                                        assert(!all_messages_fit(elems)) by {
                                            assert((i as int) < elems.len() && !message_fits(
                                                elems[i as int],
                                            ));
                                        }
                                        assert(!messages_field_ok(json_model(*v)));
                                    }
                                    return Err(e);
                                },
                            }
                            i = i + 1;
                        }
                        proof {
                            assert(all_messages_fit(elems)) by {
                                assert forall|j: int|
                                    0 <= j < elems.len() implies message_fits(elems[j]) by {}
                            }
                        }
                        Ok(Some(out))
                    },
                }
            }
        },
    }
}

impl Request for DownloadMessages {
    type ResponseType = DownloadMessagesResponse;

    type RawResponseType = RawDownloadMessagesResponse;

    open spec fn spec_path(&self) -> Seq<Seq<char>> {
        seq!["messages.json"@]
    }

    open spec fn spec_query(&self) -> Seq<(Seq<char>, Seq<char>)> {
        seq![("secret"@, self.secret@), ("device_id"@, self.device_id@)]
    }

    open spec fn spec_method(&self) -> Method {
        Method::Get
    }

    open spec fn spec_form(&self) -> Option<Seq<(Seq<char>, Seq<char>)>> {
        None
    }

    open spec fn raw_matches_doc(d: JsonData, raw: RawDownloadMessagesResponse) -> bool {
        &&& status_fields_match(d, raw.status, raw.request, raw.errors)
        &&& messages_field_matches(d, raw.messages)
    }

    open spec fn doc_fits(d: JsonData) -> bool {
        &&& basic_fields_ok(d)
        &&& messages_field_ok(d)
    }

    open spec fn doc_success(d: JsonData) -> bool {
        !absent_or_null(obj_lookup(d, "messages"@))
    }

    open spec fn map_pre(raw: RawDownloadMessagesResponse) -> bool {
        raw.messages is Some
    }

    open spec fn spec_map(raw: RawDownloadMessagesResponse) -> DownloadMessagesResponse {
        DownloadMessagesResponse { request: raw.request, messages: raw.messages.unwrap() }
    }

    fn path_segments(&self) -> (r: Vec<String>) {
        let mut r: Vec<String> = Vec::new();
        r.push(String::from_str("messages.json"));
        proof {
            assert(segs_view(r@) =~= self.spec_path());
        }
        r
    }

    fn query_pairs(&self) -> (r: Vec<(String, String)>) {
        let mut r: Vec<(String, String)> = Vec::new();
        r.push((String::from_str("secret"), self.secret.clone()));
        r.push((String::from_str("device_id"), self.device_id.clone()));
        proof {
            assert(pairs_view(r@) =~= self.spec_query());
        }
        r
    }

    fn get_method(&self) -> Method {
        Method::Get
    }

    fn get_form_parameters(&self) -> Option<Vec<(String, String)>> {
        None
    }

    fn build_url(&self, url: &mut url::Url) {
        let segments = self.path_segments();
        crate::requests::apply_segments(url, &segments);
        let pairs = self.query_pairs();
        crate::requests::apply_pairs(url, &pairs);
    }

    fn has_success_fields(raw: &RawDownloadMessagesResponse) -> bool {
        raw.messages.is_some()
    }

    fn map(raw: RawDownloadMessagesResponse) -> DownloadMessagesResponse {
        DownloadMessagesResponse { request: raw.request, messages: raw.messages.unwrap() }
    }

    fn decode_raw(v: &serde_json::Value) -> (r: Result<
        RawDownloadMessagesResponse,
        crate::error::Error,
    >) {
        let status = match decode_status(v) {
            Ok(x) => x,
            Err(e) => {
                return Err(e);
            },
        };
        let request = match decode_request_id(v) {
            Ok(x) => x,
            Err(e) => {
                return Err(e);
            },
        };
        let errors = match decode_errors(v) {
            Ok(x) => x,
            Err(e) => {
                return Err(e);
            },
        };
        let messages = match decode_messages(v) {
            Ok(x) => x,
            Err(e) => {
                return Err(e);
            },
        };
        Ok(RawDownloadMessagesResponse { request, status, errors, messages })
    }
}

/// Return type for [`DownloadMessages`].
#[derive(Clone, Debug, PartialEq, PartialOrd)]
pub struct DownloadMessagesResponse {
    pub request: String,
    pub messages: Vec<Message>,
}

/// The wire shape of a download-messages reply.
#[derive(Clone, Debug, PartialEq)]
pub struct RawDownloadMessagesResponse {
    pub request: String,
    pub status: i32,
    pub errors: Option<Vec<String>>,
    pub messages: Option<Vec<Message>>,
}

impl RawResponse for RawDownloadMessagesResponse {
    open spec fn spec_status(&self) -> i32 {
        self.status
    }

    open spec fn spec_request(&self) -> Seq<char> {
        self.request@
    }

    open spec fn spec_errors(&self) -> Option<Seq<Seq<char>>> {
        crate::requests::view_opt_strings(self.errors)
    }

    fn status(&self) -> i32 {
        self.status
    }

    fn request(&self) -> &str {
        self.request.as_str()
    }

    fn errors(&self) -> &Option<Vec<String>> {
        &self.errors
    }

    fn get_error(&self) -> Option<ErrorKind> {
        classify_status(self.status, self.request.as_str(), &self.errors)
    }
}

} // verus!
