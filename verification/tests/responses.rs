use pushover::interpret_body;
use pushover::requests::groups::ListUsers;
use pushover::requests::license::CheckCredits;
use pushover::requests::message::{Limits, LimitsResponse, RawLimitsResponse, SendMessage};
use pushover::requests::open_client::{DownloadMessages, Login};
use pushover::requests::receipt::ReceiptStatus;
use pushover::requests::verification::Verification;
use pushover::requests::{classify, RawBasicResponse, RawResponse, Request, Response};
use pushover::requests::glance::Glance;
use pushover::{Error, ErrorKind, Priority};

#[test]
fn deserialize_with_error() {
    let raw_response = RawBasicResponse {
        status: 0,
        request: String::from("example_request"),
        errors: Some(vec![String::from("error1"), String::from("error2")]),
    };

    let resp: Response<Glance> = classify(raw_response.clone());

    match resp {
        Response::Error(ErrorKind::PushoverError { status, errors, request }) => {
            assert_eq!(status, raw_response.status);
            assert_eq!(request, raw_response.request);
            assert_eq!(Some(errors), raw_response.errors);
        }
        _ => panic!("Didn't receive error"),
    }
}

#[test]
fn deserialize_no_error() {
    let raw_response = RawBasicResponse {
        status: 1,
        request: String::from("example_request"),
        errors: None,
    };

    let resp: Response<Glance> = classify(raw_response.clone());

    match resp {
        Response::Success(response) => assert_eq!(response, raw_response),
        _ => panic!("Received error"),
    }
}

#[test]
fn service_error_body_classifies_exactly() {
    let body = "{\"status\":0,\"request\":\"r1\",\"errors\":[\"Error 1\",\"Error 2\"]}";

    let outcome = interpret_body::<Limits>(body);

    match outcome.expect_err("Expected error") {
        Error(ErrorKind::PushoverError { status, request, errors }) => {
            assert_eq!(status, 0);
            assert_eq!(request, "r1");
            assert_eq!(errors, vec!["Error 1", "Error 2"]);
        }
        _ => panic!("Did not receive PushoverError"),
    }
}

#[test]
fn success_body_normalizes_exactly() {
    let body = "{\"status\":1,\"request\":\"r1\",\"limit\":1,\"remaining\":2,\"reset\":3}";

    let outcome = interpret_body::<Limits>(body);

    match outcome {
        Ok(LimitsResponse { request, limit, remaining, reset }) => {
            assert_eq!(request, "r1");
            assert_eq!(limit, 1);
            assert_eq!(remaining, 2);
            assert_eq!(reset, 3);
        }
        _ => panic!("Received error"),
    }
}

#[test]
fn failing_status_without_error_list_is_decode_error() {
    let body = "{\"status\":0,\"request\":\"r1\"}";

    let outcome = interpret_body::<Limits>(body);

    match outcome.expect_err("Expected error") {
        Error(ErrorKind::Decode(_)) => {}
        _ => panic!("Expected a decode error, not an empty-list service error"),
    }
}

#[test]
fn malformed_json_is_decode_error() {
    let outcome = interpret_body::<Limits>("this is not json");

    assert!(matches!(outcome, Err(Error(ErrorKind::Decode(_)))));
}

#[test]
fn wrong_typed_field_is_decode_error() {
    let body = "{\"status\":1,\"request\":\"r1\",\"limit\":\"plenty\",\"remaining\":2,\"reset\":3}";

    let outcome = interpret_body::<Limits>(body);

    assert!(matches!(outcome, Err(Error(ErrorKind::Decode(_)))));
}

#[test]
fn missing_request_identifier_is_decode_error() {
    let outcome = interpret_body::<Limits>("{\"status\":1}");

    assert!(matches!(outcome, Err(Error(ErrorKind::Decode(_)))));
}

#[test]
fn status_out_of_range_is_decode_error() {
    let outcome = interpret_body::<Limits>("{\"status\":99999999999,\"request\":\"r1\"}");

    assert!(matches!(outcome, Err(Error(ErrorKind::Decode(_)))));
}

#[test]
fn success_with_missing_guaranteed_field_is_decode_error() {
    let body = "{\"status\":1,\"request\":\"r1\",\"limit\":1,\"remaining\":2}";

    let outcome = interpret_body::<Limits>(body);

    assert!(matches!(outcome, Err(Error(ErrorKind::Decode(_)))));
}

#[test]
fn normalize_twice_yields_equal_values() {
    let raw = RawLimitsResponse {
        status: 1,
        request: String::from("r9"),
        errors: None,
        limit: Some(7),
        remaining: Some(6),
        reset: Some(5),
    };

    let first = Limits::map(raw.clone());
    let second = Limits::map(raw);

    assert_eq!(first, second);
}

#[test]
fn success_roundtrip_uses_no_placeholders() {
    let raw = RawLimitsResponse {
        status: 1,
        request: String::from("r2"),
        errors: None,
        limit: Some(10000),
        remaining: Some(9999),
        reset: Some(12345),
    };

    assert!(raw.get_error().is_none());
    assert!(Limits::has_success_fields(&raw));
    let mapped = Limits::map(raw);
    assert_eq!(mapped.request, "r2");
    assert_eq!(mapped.limit, 10000);
    assert_eq!(mapped.remaining, 9999);
    assert_eq!(mapped.reset, 12345);
}

#[test]
fn send_message_body_with_receipt() {
    let body = "{\"status\":1,\"request\":\"r3\",\"receipt\":\"rcpt\"}";

    let outcome = interpret_body::<SendMessage>(body);

    let resp = outcome.expect("Expected success");
    assert_eq!(resp.request, "r3");
    assert_eq!(resp.receipt.as_deref(), Some("rcpt"));
}

#[test]
fn login_body_decodes_id_and_secret() {
    let body = "{\"status\":1,\"request\":\"r4\",\"id\":\"uid\",\"secret\":\"SECRET-REDACTED\"}";

    let outcome = interpret_body::<Login>(body);

    let resp = outcome.expect("Expected success");
    assert_eq!(resp.request, "r4");
    assert_eq!(resp.id, "uid");
    assert_eq!(resp.secret, "SECRET-REDACTED");
}

#[test]
fn login_body_without_secret_is_decode_error() {
    let body = "{\"status\":1,\"request\":\"r4\",\"id\":\"uid\"}";

    let outcome = interpret_body::<Login>(body);

    assert!(matches!(outcome, Err(Error(ErrorKind::Decode(_)))));
}

#[test]
fn verification_body_decodes_device_list() {
    let body = "{\"status\":1,\"request\":\"r5\",\"devices\":[\"a\",\"b\"]}";

    let outcome = interpret_body::<Verification>(body);

    let resp = outcome.expect("Expected success");
    assert_eq!(resp.request, "r5");
    assert_eq!(resp.devices, vec!["a", "b"]);
}

#[test]
fn download_messages_body_decodes_messages() {
    let body = "{\"status\":1,\"request\":\"r6\",\"messages\":[{\"id\":9,\"umid\":8,\
                 \"message\":\"hello\",\"app\":\"app1\",\"aid\":7,\"icon\":\"i\",\
                 \"date\":123,\"priority\":2,\"acked\":1,\"title\":\"t\"}]}";

    let outcome = interpret_body::<DownloadMessages>(body);

    let resp = outcome.expect("Expected success");
    assert_eq!(resp.request, "r6");
    assert_eq!(resp.messages.len(), 1);
    let msg = &resp.messages[0];
    assert_eq!(msg.id, 9);
    assert_eq!(msg.umid, 8);
    assert_eq!(msg.message, "hello");
    assert_eq!(msg.app, "app1");
    assert_eq!(msg.aid, 7);
    assert_eq!(msg.icon, "i");
    assert_eq!(msg.date, 123);
    assert_eq!(
        msg.priority,
        Priority::Emergency { retry: 0, expire: 0, callback_url: None }
    );
    assert_eq!(msg.acked, 1);
    assert_eq!(msg.title.as_deref(), Some("t"));
    assert_eq!(msg.html, None);
}

#[test]
fn download_messages_with_invalid_priority_is_decode_error() {
    let body = "{\"status\":1,\"request\":\"r6\",\"messages\":[{\"id\":9,\"umid\":8,\
                 \"message\":\"hello\",\"app\":\"app1\",\"aid\":7,\"icon\":\"i\",\
                 \"date\":123,\"priority\":5,\"acked\":1}]}";

    let outcome = interpret_body::<DownloadMessages>(body);

    assert!(matches!(outcome, Err(Error(ErrorKind::Decode(_)))));
}

#[test]
fn basic_body_yields_the_request_identifier() {
    let body = "{\"status\":1,\"request\":\"r9\"}";

    let outcome = interpret_body::<Glance>(body);

    assert_eq!(outcome.expect("Expected success"), "r9");
}

#[test]
fn list_users_body_collapses_empty_device_to_absent() {
    let body = "{\"status\":1,\"request\":\"r7\",\"name\":\"grp\",\"users\":[{\"user\":\"u1\",\"device\":\"\",\"memo\":\"m\",\"disabled\":false}]}";

    let outcome = interpret_body::<ListUsers>(body);

    let resp = outcome.expect("Expected success");
    assert_eq!(resp.request, "r7");
    assert_eq!(resp.name, "grp");
    assert_eq!(resp.users.len(), 1);
    assert_eq!(resp.users[0].user, "u1");
    assert_eq!(resp.users[0].device, None);
    assert_eq!(resp.users[0].memo.as_deref(), Some("m"));
    assert!(!resp.users[0].disabled);
}

#[test]
fn check_credits_body_decodes_credits() {
    let body = "{\"status\":1,\"request\":\"r8\",\"credits\":20}";

    let outcome = interpret_body::<CheckCredits>(body);

    let resp = outcome.expect("Expected success");
    assert_eq!(resp.request, "r8");
    assert_eq!(resp.credits, 20);
}

#[test]
fn receipt_status_body_decodes_every_field() {
    let body = "{\"status\":1,\"request\":\"r10\",\"called_back\":0,\"called_back_at\":1,\
                 \"acknowledged\":1,\"acknowledged_at\":2,\"acknowledged_by\":\"u\",\
                 \"acknowledged_by_device\":\"d\",\"last_delivered_at\":3,\"expired\":0,\
                 \"expires_at\":4}";

    let outcome = interpret_body::<ReceiptStatus>(body);

    let resp = outcome.expect("Expected success");
    assert_eq!(resp.request, "r10");
    assert_eq!(resp.called_back, 0);
    assert_eq!(resp.called_back_at, 1);
    assert_eq!(resp.acknowledged, 1);
    assert_eq!(resp.acknowledged_at, 2);
    assert_eq!(resp.acknowledged_by, "u");
    assert_eq!(resp.acknowledged_by_device, "d");
    assert_eq!(resp.last_delivered_at, 3);
    assert_eq!(resp.expired, 0);
    assert_eq!(resp.expires_at, 4);
}

#[test]
fn error_exposes_its_kind() {
    let err = interpret_body::<Limits>("{}").expect_err("Expected error");

    assert!(matches!(err.kind(), ErrorKind::Decode(_)));
}
