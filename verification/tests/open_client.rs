use pushover::requests::Request;
use url::Url;

fn assert_req_url<R>(req: &R, path: &str, iter: Option<&[(&str, &str)]>)
where
    R: Request,
{
    let mut url = Url::parse(&format!("{}/{}", pushover::api_url(), pushover::api_version())).unwrap();
    req.build_url(&mut url);

    let expected_url = match iter {
        Some(x) => Url::parse_with_params(
            &format!("{}/{}/{}", pushover::api_url(), pushover::api_version(), path),
            x,
        )
        .unwrap(),
        None => {
            Url::parse(&format!("{}/{}/{}", pushover::api_url(), pushover::api_version(), path))
                .unwrap()
        }
    };

    assert_eq!(expected_url, url);
}

use pushover::requests::open_client::{
    Acknowledge, DeleteMessages, DownloadMessages, Login, RegisterDevice,
};

#[test]
fn acknowledge_get_url() {
    let req = Acknowledge::new("ack_secret", "ack_receipt");

    assert_req_url(
        &req,
        &format!("receipts/{}/acknowledge.json", req.receipt),
        Some(&[("secret", &req.secret)]),
    );
}

#[test]
fn delete_messages_get_url() {
    let req = DeleteMessages::new("del_secret", "del_device", 10);

    assert_req_url(
        &req,
        &format!("devices/{}/update_highest_message.json", req.device_id),
        Some(&[("secret", &req.secret), ("message", &req.message.to_string())]),
    );
}

#[test]
fn download_messages_get_url() {
    let req = DownloadMessages::new("down_secret", "down_device");

    assert_req_url(
        &req,
        "messages.json",
        Some(&[("secret", &req.secret), ("device_id", &req.device_id)]),
    );
}

#[test]
fn login_get_url() {
    let req = Login::new("email@email.com", "Password!@%d");

    assert_req_url(&req, "users/login.json", None);
}

#[test]
fn login_get_form_parameters() {
    let req = Login::new("email@email.com", "Password!@%d");

    assert_eq!(
        Some(vec![
            (String::from("email"), req.email.clone()),
            (String::from("password"), req.password.clone()),
        ]),
        req.get_form_parameters()
    );
}

#[test]
fn register_device_get_url() {
    let req = RegisterDevice::new("reg_secret", "reg_name");

    assert_req_url(&req, "devices.json", None);
}

#[test]
fn register_device_get_form_parameters() {
    let req = RegisterDevice::new("reg_secret", "reg_name");

    assert_eq!(
        Some(vec![
            (String::from("secret"), req.secret.clone()),
            (String::from("name"), req.name.clone()),
            (String::from("os"), String::from("O")),
        ]),
        req.get_form_parameters()
    );
}
