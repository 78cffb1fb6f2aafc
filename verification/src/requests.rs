//! The per-endpoint request types and the contract they share.

mod base;

pub mod glance;
pub mod groups;
pub mod license;
pub mod message;
pub mod open_client;
pub mod receipt;
pub mod verification;

pub use self::base::{
    add_optional_param, apply_pairs, apply_segments, classify, classify_status,
    clone_opt_string, decode_errors, decode_raw_basic, decode_request_id, decode_status,
    lemma_failure_classification, lemma_success_roundtrip, opt_pair, spec_classified,
    spec_missing_errors_message, basic_fields_ok, status_fields_match,
    view_opt_string, view_opt_strings, Method, RawBasicResponse, RawResponse, Request,
    Response,
};
