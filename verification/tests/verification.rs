use pushover::requests::Request;
use url::Url;

fn assert_req_url<R>(req: &R, path: &str, iter: Option<&[(&str, &str)]>)
where
    R: Request,
{
    let mut url = Url::parse(&format!("{}/{}", pushover::api_url(), pushover::api_version())).unwrap();
    req.build_url(&mut url);

    let expected_url = match iter {
        Some(x) => Url::parse_with_params(
            &format!("{}/{}/{}", pushover::api_url(), pushover::api_version(), path),
            x,
        )
        .unwrap(),
        None => {
            Url::parse(&format!("{}/{}/{}", pushover::api_url(), pushover::api_version(), path))
                .unwrap()
        }
    };

    assert_eq!(expected_url, url);
}

use pushover::requests::verification::Verification;

#[test]
fn verification_get_url_with_all_fields() {
    let mut req = Verification::new("ver_token", "ver user");
    req.set_device("ver device");

    assert_req_url(
        &req,
        "users/validate.json",
        Some(&[
            ("token", &req.token),
            ("user", &req.user),
            ("device", req.device.as_ref().unwrap()),
        ]),
    );
}

#[test]
fn verification_get_url_with_mandatory_fields() {
    let req = Verification::new("ver_token", "ver user");

    assert_req_url(
        &req,
        "users/validate.json",
        Some(&[("token", &req.token), ("user", &req.user)]),
    );
}
