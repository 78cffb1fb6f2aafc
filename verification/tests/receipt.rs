use pushover::requests::Request;
use url::Url;

fn assert_req_url<R>(req: &R, path: &str, iter: Option<&[(&str, &str)]>)
where
    R: Request,
{
    let mut url = Url::parse(&format!("{}/{}", pushover::api_url(), pushover::api_version())).unwrap();
    req.build_url(&mut url);

    let expected_url = match iter {
        Some(x) => Url::parse_with_params(
            &format!("{}/{}/{}", pushover::api_url(), pushover::api_version(), path),
            x,
        )
        .unwrap(),
        None => {
            Url::parse(&format!("{}/{}/{}", pushover::api_url(), pushover::api_version(), path))
                .unwrap()
        }
    };

    assert_eq!(expected_url, url);
}

use pushover::requests::receipt::{CancelEmergency, ReceiptStatus};

#[test]
fn cancel_emergency_get_url() {
    let req = CancelEmergency::new("canc_token", "canc_receipt");

    assert_req_url(
        &req,
        &format!("receipts/{}/cancel.json", req.receipt),
        Some(&[("token", &req.token)]),
    );
}

#[test]
fn get_url_() {
    let req = ReceiptStatus::new("receipt_token", "receipt");

    assert_req_url(
        &req,
        &format!("receipts/{}.json", req.receipt),
        Some(&[("token", &req.token)]),
    );
}
