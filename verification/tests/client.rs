use pushover::requests::groups::ListUsers;
use pushover::requests::open_client::{Login, RegisterDevice};
use pushover::requests::Method;
use pushover::{Error, ErrorKind, API};
use std::time::Duration;

#[test]
fn prepare_encodes_the_form_body() {
    let api = API::new();
    let request = Login::new("email@email.com", "Password!@%d");

    let prepared = api.prepare(&request).expect("Expected a prepared call");

    assert!(matches!(prepared.method, Method::Post));
    assert_eq!(
        prepared.body.as_deref(),
        Some("email=email%40email.com&password=Password%21%40%25d")
    );
    assert_eq!(prepared.url.as_str(), "https://api.pushover.net/1/users/login.json");
}

#[test]
fn prepare_without_form_sends_no_body() {
    let api = API::new();
    let request = ListUsers::new("tok", "grp");

    let prepared = api.prepare(&request).expect("Expected a prepared call");

    assert!(matches!(prepared.method, Method::Get));
    assert!(prepared.body.is_none());
    assert_eq!(
        prepared.url.as_str(),
        "https://api.pushover.net/1/groups/grp.json?token=tok"
    );
}

#[test]
fn prepare_fixed_form_pairs_stay_in_order() {
    let api = API::new();
    let request = RegisterDevice::new("s3cr3t", "desk");

    let prepared = api.prepare(&request).expect("Expected a prepared call");

    assert_eq!(prepared.body.as_deref(), Some("secret=s3cr3t&name=desk&os=O"));
}

#[test]
fn prepare_with_invalid_base_address_is_config_error() {
    let api = API::new().base_url("not an address");
    let request = ListUsers::new("tok", "grp");

    let outcome = api.prepare(&request);

    assert!(matches!(outcome, Err(Error(ErrorKind::Config(_)))));
}

#[test]
fn base_url_replaces_the_address() {
    let api = API::new().base_url("http://localhost:1234");
    let request = ListUsers::new("tok", "grp");

    let prepared = api.prepare(&request).expect("Expected a prepared call");

    assert_eq!(prepared.url.as_str(), "http://localhost:1234/1/groups/grp.json?token=tok");
}

#[test]
fn timeout_builder_replaces_the_timeout() {
    let api = API::new().timeout(Duration::from_secs(5));

    assert_eq!(api.get_timeout(), Duration::from_secs(5));
}

#[test]
fn base_url_getter_returns_the_configured_address() {
    let api = API::new();
    assert_eq!(api.get_base_url(), "https://api.pushover.net");

    let api = api.base_url("http://localhost:9");
    assert_eq!(api.get_base_url(), "http://localhost:9");
}

#[test]
fn new_uses_the_default_timeout() {
    let api = API::new();

    assert_eq!(api.get_timeout(), Duration::from_secs(30));
}

#[test]
fn prepare_with_cannot_be_a_base_address_is_config_error() {
    let api = API::new().base_url("mailto:someone@example.com");
    let request = ListUsers::new("tok", "grp");

    let outcome = api.prepare(&request);

    assert!(matches!(outcome, Err(Error(ErrorKind::Config(_)))));
}
