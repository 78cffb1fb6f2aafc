//! Reading the status of an emergency notification.

use vstd::prelude::*;
use vstd::string::StringExecFns;

use crate::error::ErrorKind;
use crate::jsonval::{absent_or_null, obj_lookup, opt_str_field_ok, opt_u32_field_ok, opt_u8_field_ok, opt_str_field_matches, opt_u32_field_matches, opt_u8_field_matches, JsonData, field_u32, field_u8, json_field_string};
use crate::requests::{basic_fields_ok, status_fields_match, 
    classify_status, decode_errors, decode_request_id, decode_status, Method, RawResponse,
    Request,
};
use crate::strutil::segs_view;
use crate::urlenc::pairs_view;

verus! {

/// Retrieve status of an emergency notification.
///
/// Return type is [`ReceiptStatusResponse`].
#[derive(Clone, Debug, PartialEq, PartialOrd)]
pub struct ReceiptStatus {
    pub token: String,
    pub receipt: String,
}

impl ReceiptStatus {
    /// A status query for one receipt.
    pub fn new(token: &str, receipt: &str) -> (r: Self)
        ensures
            r.token@ == token@,
            r.receipt@ == receipt@,
    {
        Self { token: String::from_str(token), receipt: String::from_str(receipt) }
    }
}

impl Request for ReceiptStatus {
    type ResponseType = ReceiptStatusResponse;

    type RawResponseType = RawReceiptStatusResponse;

    open spec fn spec_path(&self) -> Seq<Seq<char>> {
        seq!["receipts"@, self.receipt@ + ".json"@]
    }

    open spec fn spec_query(&self) -> Seq<(Seq<char>, Seq<char>)> {
        seq![("token"@, self.token@)]
    }

    open spec fn spec_method(&self) -> Method {
        Method::Get
    }

    open spec fn spec_form(&self) -> Option<Seq<(Seq<char>, Seq<char>)>> {
        None
    }

    open spec fn doc_fits(d: JsonData) -> bool {
        &&& basic_fields_ok(d)
        &&& opt_u8_field_ok(d, "called_back"@)
        &&& opt_u32_field_ok(d, "called_back_at"@)
        &&& opt_u8_field_ok(d, "acknowledged"@)
        &&& opt_u32_field_ok(d, "acknowledged_at"@)
        &&& opt_str_field_ok(d, "acknowledged_by"@)
        &&& opt_str_field_ok(d, "acknowledged_by_device"@)
        &&& opt_u32_field_ok(d, "last_delivered_at"@)
        &&& opt_u8_field_ok(d, "expired"@)
        &&& opt_u32_field_ok(d, "expires_at"@)
    }

    open spec fn doc_success(d: JsonData) -> bool {
        &&& !absent_or_null(obj_lookup(d, "called_back"@))
        &&& !absent_or_null(obj_lookup(d, "called_back_at"@))
        &&& !absent_or_null(obj_lookup(d, "acknowledged"@))
        &&& !absent_or_null(obj_lookup(d, "acknowledged_at"@))
        &&& !absent_or_null(obj_lookup(d, "acknowledged_by"@))
        &&& !absent_or_null(obj_lookup(d, "acknowledged_by_device"@))
        &&& !absent_or_null(obj_lookup(d, "last_delivered_at"@))
        &&& !absent_or_null(obj_lookup(d, "expired"@))
        &&& !absent_or_null(obj_lookup(d, "expires_at"@))
    }

    open spec fn map_pre(raw: RawReceiptStatusResponse) -> bool {
        raw.called_back is Some && raw.called_back_at is Some && raw.acknowledged is Some && raw.acknowledged_at is Some && raw.acknowledged_by is Some && raw.acknowledged_by_device is Some && raw.last_delivered_at is Some && raw.expired is Some && raw.expires_at is Some
    }

    open spec fn spec_map(raw: RawReceiptStatusResponse) -> ReceiptStatusResponse {
        ReceiptStatusResponse {
            called_back: raw.called_back.unwrap(),
            called_back_at: raw.called_back_at.unwrap(),
            acknowledged: raw.acknowledged.unwrap(),
            acknowledged_at: raw.acknowledged_at.unwrap(),
            acknowledged_by: raw.acknowledged_by.unwrap(),
            acknowledged_by_device: raw.acknowledged_by_device.unwrap(),
            last_delivered_at: raw.last_delivered_at.unwrap(),
            expired: raw.expired.unwrap(),
            expires_at: raw.expires_at.unwrap(),
            request: raw.request,
        }
    }

    open spec fn raw_matches_doc(d: JsonData, raw: RawReceiptStatusResponse) -> bool {
        &&& status_fields_match(d, raw.status, raw.request, raw.errors)
        &&& opt_u8_field_matches(d, "called_back"@, raw.called_back)
        &&& opt_u32_field_matches(d, "called_back_at"@, raw.called_back_at)
        &&& opt_u8_field_matches(d, "acknowledged"@, raw.acknowledged)
        &&& opt_u32_field_matches(d, "acknowledged_at"@, raw.acknowledged_at)
        &&& opt_str_field_matches(d, "acknowledged_by"@, raw.acknowledged_by)
        &&& opt_str_field_matches(d, "acknowledged_by_device"@, raw.acknowledged_by_device)
        &&& opt_u32_field_matches(d, "last_delivered_at"@, raw.last_delivered_at)
        &&& opt_u8_field_matches(d, "expired"@, raw.expired)
        &&& opt_u32_field_matches(d, "expires_at"@, raw.expires_at)
    }

    fn path_segments(&self) -> (r: Vec<String>) {
        let mut r: Vec<String> = Vec::new();
        r.push(String::from_str("receipts"));
        r.push(self.receipt.clone().concat(".json"));
        proof {
            assert(segs_view(r@) =~= self.spec_path());
        }
        r
    }

    fn query_pairs(&self) -> (r: Vec<(String, String)>) {
        let mut r: Vec<(String, String)> = Vec::new();
        r.push((String::from_str("token"), self.token.clone()));
        proof {
            assert(pairs_view(r@) =~= self.spec_query());
        }
        r
    }

    fn get_method(&self) -> Method {
        Method::Get
    }

    fn get_form_parameters(&self) -> Option<Vec<(String, String)>> {
        None
    }

    fn build_url(&self, url: &mut url::Url) {
        let segments = self.path_segments();
        crate::requests::apply_segments(url, &segments);
        let pairs = self.query_pairs();
        crate::requests::apply_pairs(url, &pairs);
    }

    fn has_success_fields(raw: &RawReceiptStatusResponse) -> bool {
        raw.called_back.is_some() && raw.called_back_at.is_some() && raw.acknowledged.is_some() && raw.acknowledged_at.is_some() && raw.acknowledged_by.is_some() && raw.acknowledged_by_device.is_some() && raw.last_delivered_at.is_some() && raw.expired.is_some() && raw.expires_at.is_some()
    }

    fn map(raw: RawReceiptStatusResponse) -> ReceiptStatusResponse {
        ReceiptStatusResponse {
            called_back: raw.called_back.unwrap(),
            called_back_at: raw.called_back_at.unwrap(),
            acknowledged: raw.acknowledged.unwrap(),
            acknowledged_at: raw.acknowledged_at.unwrap(),
            acknowledged_by: raw.acknowledged_by.unwrap(),
            acknowledged_by_device: raw.acknowledged_by_device.unwrap(),
            last_delivered_at: raw.last_delivered_at.unwrap(),
            expired: raw.expired.unwrap(),
            expires_at: raw.expires_at.unwrap(),
            request: raw.request,
        }
    }

    fn decode_raw(v: &serde_json::Value) -> (r: Result<
        RawReceiptStatusResponse,
        crate::error::Error,
    >) {
        let status = match decode_status(v) {
            Ok(x) => x,
            Err(e) => {
                return Err(e);
            },
        };
        let request = match decode_request_id(v) {
            Ok(x) => x,
            Err(e) => {
                return Err(e);
            },
        };
        let errors = match decode_errors(v) {
            Ok(x) => x,
            Err(e) => {
                return Err(e);
            },
        };
        let called_back = match field_u8(v, "called_back") {
            Ok(x) => x,
            Err(e) => {
                return Err(e);
            },
        };
        let called_back_at = match field_u32(v, "called_back_at") {
            Ok(x) => x,
            Err(e) => {
                return Err(e);
            },
        };
        let acknowledged = match field_u8(v, "acknowledged") {
            Ok(x) => x,
            Err(e) => {
                return Err(e);
            },
        };
        let acknowledged_at = match field_u32(v, "acknowledged_at") {
            Ok(x) => x,
            Err(e) => {
                return Err(e);
            },
        };
        let acknowledged_by = match json_field_string(v, "acknowledged_by") {
            Ok(x) => x,
            Err(e) => {
                return Err(e);
            },
        };
        let acknowledged_by_device = match json_field_string(v, "acknowledged_by_device") {
            Ok(x) => x,
            Err(e) => {
                return Err(e);
            },
        };
        let last_delivered_at = match field_u32(v, "last_delivered_at") {
            Ok(x) => x,
            Err(e) => {
                return Err(e);
            },
        };
        let expired = match field_u8(v, "expired") {
            Ok(x) => x,
            Err(e) => {
                return Err(e);
            },
        };
        let expires_at = match field_u32(v, "expires_at") {
            Ok(x) => x,
            Err(e) => {
                return Err(e);
            },
        };
        Ok(RawReceiptStatusResponse { status, request, errors, called_back, called_back_at, acknowledged, acknowledged_at, acknowledged_by, acknowledged_by_device, last_delivered_at, expired, expires_at })
    }
}

/// Return type for [`ReceiptStatus`].
#[derive(Clone, Debug, PartialEq, PartialOrd)]
pub struct ReceiptStatusResponse {
    pub called_back: u8,
    pub called_back_at: u32,
    pub acknowledged: u8,
    pub acknowledged_at: u32,
    pub acknowledged_by: String,
    pub acknowledged_by_device: String,
    pub last_delivered_at: u32,
    pub expired: u8,
    pub expires_at: u32,
    pub request: String,
}

/// The wire shape of a receipt-status reply.
#[derive(Clone, Debug, PartialEq)]
pub struct RawReceiptStatusResponse {
    pub status: i32,
    pub request: String,
    pub errors: Option<Vec<String>>,
    pub called_back: Option<u8>,
    pub called_back_at: Option<u32>,
    pub acknowledged: Option<u8>,
    pub acknowledged_at: Option<u32>,
    pub acknowledged_by: Option<String>,
    pub acknowledged_by_device: Option<String>,
    pub last_delivered_at: Option<u32>,
    pub expired: Option<u8>,
    pub expires_at: Option<u32>,
}

impl RawResponse for RawReceiptStatusResponse {
    open spec fn spec_status(&self) -> i32 {
        self.status
    }

    open spec fn spec_request(&self) -> Seq<char> {
        self.request@
    }

    open spec fn spec_errors(&self) -> Option<Seq<Seq<char>>> {
        crate::requests::view_opt_strings(self.errors)
    }

    fn status(&self) -> i32 {
        self.status
    }

    fn request(&self) -> &str {
        self.request.as_str()
    }

    fn errors(&self) -> &Option<Vec<String>> {
        &self.errors
    }

    fn get_error(&self) -> Option<ErrorKind> {
        classify_status(self.status, self.request.as_str(), &self.errors)
    }
}

} // verus!
