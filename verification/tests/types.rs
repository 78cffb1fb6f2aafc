use pushover::deserializers::deserialize_option_empty_string;
use pushover::requests::glance::Glance;
use pushover::requests::message::SendMessage;
use pushover::requests::open_client::DeleteMessages;
use pushover::requests::Request;
use pushover::{OperatingSystem, Priority, Sound, User};

#[test]
fn priority_from_int_covers_the_defined_range() {
    assert_eq!(Priority::from_int(-2), Some(Priority::Lowest));
    assert_eq!(Priority::from_int(-1), Some(Priority::Low));
    assert_eq!(Priority::from_int(0), Some(Priority::Normal));
    assert_eq!(Priority::from_int(1), Some(Priority::High));
    assert_eq!(
        Priority::from_int(2),
        Some(Priority::Emergency { retry: 0, expire: 0, callback_url: None })
    );
    assert_eq!(Priority::from_int(3), None);
    assert_eq!(Priority::from_int(-3), None);
}

#[test]
fn priority_serializes_as_integer_strings() {
    assert_eq!(Priority::Lowest.as_str(), "-2");
    assert_eq!(Priority::Low.as_str(), "-1");
    assert_eq!(Priority::Normal.as_str(), "0");
    assert_eq!(Priority::High.as_str(), "1");
    assert_eq!(
        Priority::Emergency { retry: 1, expire: 2, callback_url: None }.as_str(),
        "2"
    );
}

#[test]
fn sound_serializes_by_fixed_names() {
    assert_eq!(Sound::Pushover.as_str(), "pushover");
    assert_eq!(Sound::CashRegister.as_str(), "cashregister");
    assert_eq!(Sound::UpDown.as_str(), "updown");
    assert_eq!(Sound::NoSound.as_str(), "none");
}

#[test]
fn operating_system_serializes_by_fixed_names() {
    assert_eq!(OperatingSystem::Android.as_str(), "Android");
    assert_eq!(OperatingSystem::iOS.as_str(), "iOS");
    assert_eq!(OperatingSystem::Desktop.as_str(), "Desktop");
}

#[test]
fn user_builder_sets_optional_fields() {
    let mut user = User::new("key");
    assert_eq!(user.device, None);
    assert_eq!(user.memo, None);
    assert!(!user.disabled);

    user.set_device("dev");
    user.set_memo("note");
    assert_eq!(user.device.as_deref(), Some("dev"));
    assert_eq!(user.memo.as_deref(), Some("note"));
}

#[test]
fn empty_strings_collapse_to_absent_values() {
    assert_eq!(deserialize_option_empty_string(None), None);
    assert_eq!(deserialize_option_empty_string(Some(String::new())), None);
    assert_eq!(
        deserialize_option_empty_string(Some(String::from("x"))),
        Some(String::from("x"))
    );
}

#[test]
fn unsigned_counter_renders_in_decimal() {
    let zero = DeleteMessages::new("s", "d", 0);
    let pair = zero.query_pairs().into_iter().find(|p| p.0 == "message").unwrap();
    assert_eq!(pair.1, "0");

    let max = DeleteMessages::new("s", "d", u32::MAX);
    let pair = max.query_pairs().into_iter().find(|p| p.0 == "message").unwrap();
    assert_eq!(pair.1, "4294967295");
}

#[test]
fn signed_count_renders_with_minus_sign() {
    let mut req = Glance::new("t", "u");
    req.set_count(-57);
    let pair = req.query_pairs().into_iter().find(|p| p.0 == "count").unwrap();
    assert_eq!(pair.1, "-57");

    let mut req = Glance::new("t", "u");
    req.set_count(i32::MIN);
    let pair = req.query_pairs().into_iter().find(|p| p.0 == "count").unwrap();
    assert_eq!(pair.1, "-2147483648");
}

#[test]
fn percent_renders_in_decimal() {
    let mut req = Glance::new("t", "u");
    req.set_percent(80);
    let pair = req.query_pairs().into_iter().find(|p| p.0 == "percent").unwrap();
    assert_eq!(pair.1, "80");
}

#[test]
fn query_omits_every_absent_optional_field() {
    let req = SendMessage::new("t", "u", "m");
    let keys: Vec<String> = req.query_pairs().into_iter().map(|p| p.0).collect();
    assert_eq!(keys, vec!["token", "user", "message"]);
}
