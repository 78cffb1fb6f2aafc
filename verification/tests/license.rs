use pushover::requests::Request;
use url::Url;

fn assert_req_url<R>(req: &R, path: &str, iter: Option<&[(&str, &str)]>)
where
    R: Request,
{
    let mut url = Url::parse(&format!("{}/{}", pushover::api_url(), pushover::api_version())).unwrap();
    req.build_url(&mut url);

    let expected_url = match iter {
        Some(x) => Url::parse_with_params(
            &format!("{}/{}/{}", pushover::api_url(), pushover::api_version(), path),
            x,
        )
        .unwrap(),
        None => {
            Url::parse(&format!("{}/{}/{}", pushover::api_url(), pushover::api_version(), path))
                .unwrap()
        }
    };

    assert_eq!(expected_url, url);
}

use pushover::requests::license::{Assign, CheckCredits};
use pushover::{OperatingSystem, UserType};

#[test]
fn assign_get_url_with_all_fields() {
    let mut req = Assign::new("assign_token", UserType::Email(String::from("email@email.com")));
    req.set_os(OperatingSystem::iOS);

    assert_req_url(
        &req,
        "licenses/assign.json",
        Some(&[
            ("token", &req.token),
            ("email", "email@email.com"),
            ("os", req.os.as_ref().unwrap().as_str()),
        ]),
    );
}

#[test]
fn assign_get_url_with_mandatory_fields() {
    let req = Assign::new("assign_token", UserType::UserKey(String::from("user_key")));

    assert_req_url(
        &req,
        "licenses/assign.json",
        Some(&[("token", &req.token), ("user", "user_key")]),
    );
}

#[test]
fn check_credits_get_url() {
    let req = CheckCredits::new("check_token");

    assert_req_url(&req, "licenses.json", Some(&[("token", &req.token)]));
}
