use pushover::requests::Request;
use url::Url;

fn assert_req_url<R>(req: &R, path: &str, iter: Option<&[(&str, &str)]>)
where
    R: Request,
{
    let mut url = Url::parse(&format!("{}/{}", pushover::api_url(), pushover::api_version())).unwrap();
    req.build_url(&mut url);

    let expected_url = match iter {
        Some(x) => Url::parse_with_params(
            &format!("{}/{}/{}", pushover::api_url(), pushover::api_version(), path),
            x,
        )
        .unwrap(),
        None => {
            Url::parse(&format!("{}/{}/{}", pushover::api_url(), pushover::api_version(), path))
                .unwrap()
        }
    };

    assert_eq!(expected_url, url);
}

use pushover::requests::groups::{AddUser, ListUsers, RemoveUser, Rename, ToggleUser};
use pushover::User;

#[test]
fn add_user_get_url_with_all_fields() {
    let mut user = User::new("user_key");
    user.set_device("device name");
    user.set_memo("memo name");

    let req = AddUser::new("add_token", "add_group_key", &user);

    assert_req_url(
        &req,
        &format!("groups/{}/add_user.json", req.group_key),
        Some(&[
            ("token", &req.token),
            ("user", &req.user.user),
            ("device", req.user.device.as_ref().unwrap()),
            ("memo", req.user.memo.as_ref().unwrap()),
        ]),
    );
}

#[test]
fn add_user_get_url_with_mandatory_fields() {
    let user = User::new("user_key");

    let req = AddUser::new("add_token", "add_group_key", &user);

    assert_req_url(
        &req,
        &format!("groups/{}/add_user.json", req.group_key),
        Some(&[("token", &req.token), ("user", &req.user.user)]),
    );
}

#[test]
fn list_users_get_url() {
    let req = ListUsers::new("get_token", "get_group_key");

    assert_req_url(
        &req,
        &format!("groups/{}.json", req.group_key),
        Some(&[("token", &req.token)]),
    );
}

#[test]
fn remove_user_get_url() {
    let req = RemoveUser::new("remove_token", "remove_group_key", "remove_user_key");

    assert_req_url(
        &req,
        &format!("groups/{}/delete_user.json", req.group_key),
        Some(&[("token", &req.token), ("user", &req.user_key)]),
    );
}

#[test]
fn rename_get_url() {
    let req = Rename::new("rename_token", "rename_group_key", "rename name");

    assert_req_url(
        &req,
        &format!("groups/{}/rename.json", req.group_key),
        Some(&[("token", &req.token), ("name", &req.name)]),
    );
}

#[test]
fn get_url_enable() {
    let req = ToggleUser::new("toggle_token", "toggle_group_key", "toggle_user_key", true);

    assert_req_url(
        &req,
        &format!("groups/{}/enable_user.json", req.group_key),
        Some(&[("token", &req.token), ("user", &req.user_key)]),
    );
}

#[test]
fn get_url_disable() {
    let req = ToggleUser::new("toggle_token", "toggle_group_key", "toggle_user_key", false);

    assert_req_url(
        &req,
        &format!("groups/{}/disable_user.json", req.group_key),
        Some(&[("token", &req.token), ("user", &req.user_key)]),
    );
}
