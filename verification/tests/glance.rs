use pushover::requests::Request;
use url::Url;

fn assert_req_url<R>(req: &R, path: &str, iter: Option<&[(&str, &str)]>)
where
    R: Request,
{
    let mut url = Url::parse(&format!("{}/{}", pushover::api_url(), pushover::api_version())).unwrap();
    req.build_url(&mut url);

    let expected_url = match iter {
        Some(x) => Url::parse_with_params(
            &format!("{}/{}/{}", pushover::api_url(), pushover::api_version(), path),
            x,
        )
        .unwrap(),
        None => {
            Url::parse(&format!("{}/{}/{}", pushover::api_url(), pushover::api_version(), path))
                .unwrap()
        }
    };

    assert_eq!(expected_url, url);
}

use pushover::requests::glance::Glance;

#[test]
fn glance_get_url_with_all_fields() {
    let mut req = Glance::new("glance_token", "glance_user_key");
    req.set_device("glance device");
    req.set_title("glance title");
    req.set_text("glance text");
    req.set_subtext("glance subtext");
    req.set_count(10);
    req.set_percent(80);

    assert_req_url(
        &req,
        "glances.json",
        Some(&[
            ("token", &req.token),
            ("user", &req.user_key),
            ("device", req.device.as_ref().unwrap()),
            ("title", req.title.as_ref().unwrap()),
            ("text", req.text.as_ref().unwrap()),
            ("subtext", req.subtext.as_ref().unwrap()),
            ("count", &req.count.unwrap().to_string()),
            ("percent", &req.percent.unwrap().to_string()),
        ]),
    );
}

#[test]
fn glance_get_url_with_mandatory_fields() {
    let req = Glance::new("glance_token", "glance_user_key");

    assert_req_url(
        &req,
        "glances.json",
        Some(&[("token", &req.token), ("user", &req.user_key)]),
    );
}
