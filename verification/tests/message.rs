use pushover::requests::Request;
use url::Url;

fn assert_req_url<R>(req: &R, path: &str, iter: Option<&[(&str, &str)]>)
where
    R: Request,
{
    let mut url = Url::parse(&format!("{}/{}", pushover::api_url(), pushover::api_version())).unwrap();
    req.build_url(&mut url);

    let expected_url = match iter {
        Some(x) => Url::parse_with_params(
            &format!("{}/{}/{}", pushover::api_url(), pushover::api_version(), path),
            x,
        )
        .unwrap(),
        None => {
            Url::parse(&format!("{}/{}/{}", pushover::api_url(), pushover::api_version(), path))
                .unwrap()
        }
    };

    assert_eq!(expected_url, url);
}

use pushover::requests::message::{Limits, SendMessage};
use pushover::{Priority, Sound};

#[test]
fn limits_get_url() {
    let req = Limits::new("canc_token");

    assert_req_url(&req, "apps/limits.json", Some(&[("token", &req.token)]));
}

#[test]
fn send_message_get_url_with_all_fields() {
    let mut req = SendMessage::new("send_token", "send user", "send message");
    req.add_device("send device");
    req.set_title("send title");
    req.set_url("send url");
    req.set_url_title("send url title");
    req.set_timestamp("send timestamp");
    req.set_priority(Priority::Normal);
    req.set_sound(Sound::Pushover);

    assert_req_url(
        &req,
        "messages.json",
        Some(&[
            ("token", &req.token),
            ("user", &req.user_key),
            ("message", &req.message),
            ("title", req.title.as_ref().unwrap()),
            ("url", req.url.as_ref().unwrap()),
            ("url_title", req.url_title.as_ref().unwrap()),
            ("timestamp", req.timestamp.as_ref().unwrap()),
            ("sound", req.sound.as_ref().unwrap().as_str()),
            ("device", &req.devices[0]),
            ("priority", req.priority.as_ref().unwrap().as_str()),
        ]),
    );
}

#[test]
fn send_message_get_url_with_mandatory_fields() {
    let req = SendMessage::new("send_token", "send user", "send message");

    assert_req_url(
        &req,
        "messages.json",
        Some(&[
            ("token", &req.token),
            ("user", &req.user_key),
            ("message", &req.message),
        ]),
    );
}

#[test]
fn get_url_with_multiple_devices() {
    let mut req = SendMessage::new("send_token", "send user", "send message");
    req.add_device("device 1");
    req.add_device("device 2");
    req.add_device("device 3");

    let list: String = req.devices.join(",");

    assert_req_url(
        &req,
        "messages.json",
        Some(&[
            ("token", &req.token),
            ("user", &req.user_key),
            ("message", &req.message),
            ("device", &list),
        ]),
    );
}

#[test]
fn get_url_with_emergency_priority_with_callback() {
    let mut req = SendMessage::new("send_token", "send user", "send message");
    req.set_priority(Priority::Emergency {
        retry: 10,
        expire: 20,
        callback_url: Some(String::from("emergency url")),
    });

    assert_req_url(
        &req,
        "messages.json",
        Some(&[
            ("token", &req.token),
            ("user", &req.user_key),
            ("message", &req.message),
            ("priority", req.priority.as_ref().unwrap().as_str()),
            ("retry", "10"),
            ("expire", "20"),
            ("callback", "emergency url"),
        ]),
    );
}

#[test]
fn get_url_with_emergency_priority_without_callback() {
    let mut req = SendMessage::new("send_token", "send user", "send message");
    req.set_priority(Priority::Emergency { retry: 10, expire: 20, callback_url: None });

    assert_req_url(
        &req,
        "messages.json",
        Some(&[
            ("token", &req.token),
            ("user", &req.user_key),
            ("message", &req.message),
            ("priority", req.priority.as_ref().unwrap().as_str()),
            ("retry", "10"),
            ("expire", "20"),
        ]),
    );
}

#[test]
fn serializes_multi_value_device_field_as_single_pair() {
    let mut req = SendMessage::new("t", "u", "m");
    req.add_device("d1");
    req.add_device("d2");
    req.add_device("d3");

    let pairs = req.query_pairs();
    let device_pairs: Vec<&(String, String)> =
        pairs.iter().filter(|p| p.0 == "device").collect();
    assert_eq!(device_pairs.len(), 1);
    assert_eq!(device_pairs[0].1, "d1,d2,d3");
}

#[test]
fn emergency_without_callback_still_emits_retry_and_expire() {
    let mut req = SendMessage::new("t", "u", "m");
    req.set_priority(Priority::Emergency { retry: 30, expire: 300, callback_url: None });

    let pairs = req.query_pairs();
    let keys: Vec<&str> = pairs.iter().map(|p| p.0.as_str()).collect();
    assert!(keys.contains(&"retry"));
    assert!(keys.contains(&"expire"));
    assert!(!keys.contains(&"callback"));
    let retry = pairs.iter().find(|p| p.0 == "retry").unwrap();
    assert_eq!(retry.1, "30");
    let expire = pairs.iter().find(|p| p.0 == "expire").unwrap();
    assert_eq!(expire.1, "300");
}
