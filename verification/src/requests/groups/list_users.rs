//! Listing the users of a delivery group.

use vstd::prelude::*;
use vstd::string::StringExecFns;

use crate::deserializers::deserialize_option_empty_string;
use crate::error::ErrorKind;
use crate::jsonval::{
    absent_or_null, field_decode_error, json_as_array, json_field_bool, json_field_string,
    json_get, json_is_null, json_model, obj_lookup, opt_str_field_matches, opt_str_field_ok,
    require_bool, require_string, JsonData,
};
use crate::requests::{
    basic_fields_ok, classify_status, status_fields_match, decode_errors, decode_request_id, decode_status, Method, RawResponse,
    Request,
};
use crate::strutil::segs_view;
use crate::types::User;
use crate::urlenc::pairs_view;

verus! {

/// Retrieve users of a group.
///
/// Return type is [`ListUsersResponse`].
#[derive(Clone, Debug, PartialEq, PartialOrd)]
pub struct ListUsers {
    pub token: String,
    pub group_key: String,
}

impl ListUsers {
    /// A list-users request for one group.
    pub fn new(token: &str, group_key: &str) -> (r: Self)
        ensures
            r.token@ == token@,
            r.group_key@ == group_key@,
    {
        Self { token: String::from_str(token), group_key: String::from_str(group_key) }
    }
}

/// An optional string field whose empty string collapses to an absent
/// value: the decoded option is Some exactly of a present non-empty
/// string.
pub open spec fn collapsed_str_field_matches(d: JsonData, key: Seq<char>, o: Option<String>) -> bool {
    match o {
        Some(s) => obj_lookup(d, key) == Some(JsonData::Str(s@)) && s@.len() > 0,
        None => absent_or_null(obj_lookup(d, key)) || obj_lookup(d, key) == Some(
            JsonData::Str(Seq::empty()),
        ),
    }
}

/// A document that fits the user-entry shape: the user key a string, the
/// device and memo absent or strings, the disabled flag a boolean.
pub open spec fn user_fits(d: JsonData) -> bool {
    &&& (obj_lookup(d, "user"@) matches Some(JsonData::Str(_)))
    &&& opt_str_field_ok(d, "device"@)
    &&& opt_str_field_ok(d, "memo"@)
    &&& (obj_lookup(d, "disabled"@) matches Some(JsonData::Bool(_)))
}

/// Every entry of the array fits the user shape.
pub open spec fn all_users_fit(elems: Seq<JsonData>) -> bool {
    forall|i: int| 0 <= i < elems.len() ==> user_fits(elems[i])
}

/// A users field that decodes: absent, null, or an array of fitting user
/// entries.
pub open spec fn users_field_ok(d: JsonData) -> bool {
    absent_or_null(obj_lookup(d, "users"@)) || (obj_lookup(d, "users"@) matches Some(
        JsonData::Arr(elems),
    ) && all_users_fit(elems))
}

/// How a decoded user entry corresponds to its document.
pub open spec fn user_matches(d: JsonData, u: User) -> bool {
    &&& obj_lookup(d, "user"@) == Some(JsonData::Str(u.user@))
    &&& collapsed_str_field_matches(d, "device"@, u.device)
    &&& collapsed_str_field_matches(d, "memo"@, u.memo)
    &&& obj_lookup(d, "disabled"@) == Some(JsonData::Bool(u.disabled))
}

/// The optional user-list field holds exactly the decoded entries.
pub open spec fn users_field_matches(d: JsonData, o: Option<Vec<User>>) -> bool {
    match o {
        Some(users) => obj_lookup(d, "users"@) matches Some(JsonData::Arr(elems)) && elems.len()
            == users@.len() && (forall|i: int|
            0 <= i < elems.len() ==> user_matches(elems[i], users@[i])),
        None => absent_or_null(obj_lookup(d, "users"@)),
    }
}

/// Decodes one user entry of the group listing: the user key and the
/// disabled flag are required; an empty device or memo collapses to an
/// absent one.
fn decode_user(v: &serde_json::Value) -> (r: Result<User, crate::error::Error>)
    ensures
        r matches Err(e) ==> e.0 matches ErrorKind::Decode(_),
        r matches Ok(u) ==> user_matches(json_model(*v), u),
        r is Err <==> !user_fits(json_model(*v)),
{
    let user = match json_field_string(v, "user") {
        Ok(x) => x,
        Err(e) => {
            return Err(e);
        },
    };
    let user = match require_string(user, "user") {
        Ok(x) => x,
        Err(e) => {
            return Err(e);
        },
    };
    let device = match json_field_string(v, "device") {
        Ok(x) => x,
        Err(e) => {
            return Err(e);
        },
    };
    let ghost device_raw = device;
    let device = deserialize_option_empty_string(device);
    proof {
        match device_raw {
            Some(s) => {
                if s@.len() == 0 {
                    assert(s@ =~= Seq::<char>::empty());
                }
            },
            None => {},
        }
        assert(collapsed_str_field_matches(json_model(*v), "device"@, device));
    }
    let memo = match json_field_string(v, "memo") {
        Ok(x) => x,
        Err(e) => {
            return Err(e);
        },
    };
    let ghost memo_raw = memo;
    let memo = deserialize_option_empty_string(memo);
    proof {
        match memo_raw {
            Some(s) => {
                if s@.len() == 0 {
                    assert(s@ =~= Seq::<char>::empty());
                }
            },
            None => {},
        }
        assert(collapsed_str_field_matches(json_model(*v), "memo"@, memo));
    }
    let disabled = match json_field_bool(v, "disabled") {
        Ok(x) => x,
        Err(e) => {
            return Err(e);
        },
    };
    let disabled = match require_bool(disabled, "disabled") {
        Ok(x) => x,
        Err(e) => {
            return Err(e);
        },
    };
    Ok(User { user, device, memo, disabled })
}

/// Decodes the optional array of user entries.
fn decode_users(v: &serde_json::Value) -> (r: Result<Option<Vec<User>>, crate::error::Error>)
    ensures
        r matches Err(e) ==> e.0 matches ErrorKind::Decode(_),
        r matches Ok(o) ==> users_field_matches(json_model(*v), o),
        r is Err <==> !users_field_ok(json_model(*v)),
{
    match json_get(v, "users") {
        None => Ok(None),
        Some(x) => {
            if json_is_null(x) {
                Ok(None)
            } else {
                match json_as_array(x) {
                    None => Err(field_decode_error("users")),
                    Some(items) => {
                        let ghost elems = json_model(*x)->Arr_0;
                        let mut out: Vec<User> = Vec::new();
                        let mut i: usize = 0;
                        while i < items.len()
                            invariant
                                i <= items.len(),
                                out@.len() == i,
                                elems.len() == items@.len(),
                                json_model(*x) == JsonData::Arr(elems),
                                obj_lookup(json_model(*v), "users"@) == Some(
                                    JsonData::Arr(elems),
                                ),
                                forall|j: int|
                                    0 <= j < elems.len() ==> elems[j] == json_model(items@[j]),
                                forall|j: int| 0 <= j < i ==> user_matches(elems[j], out@[j]),
                                forall|j: int| 0 <= j < i ==> user_fits(elems[j]),
                            decreases items.len() - i,
                        {
                            match decode_user(&items[i]) {
                                Ok(u) => out.push(u),
                                Err(e) => {
                                    proof {
                                        assert(elems[i as int] == json_model(items@[i as int]));
                                        assert(!user_fits(elems[i as int]));
                                        assert(obj_lookup(json_model(*v), "users"@) == Some(
                                            JsonData::Arr(elems),
                                        ));
                                        assert(!absent_or_null(
                                            obj_lookup(json_model(*v), "users"@),
                                        ));
                                        assert(!all_users_fit(elems)) by {
                                            assert((i as int) < elems.len() && !user_fits(
                                                elems[i as int],
                                            ));
                                        }
                                        assert(!users_field_ok(json_model(*v)));
                                    }
                                    return Err(e);
                                },
                            }
                            i = i + 1;
                        }
                        proof {
                            assert(all_users_fit(elems)) by {
                                assert forall|j: int|
                                    0 <= j < elems.len() implies user_fits(elems[j]) by {}
                            }
                        }
                        Ok(Some(out))
                    },
                }
            }
        },
    }
}

impl Request for ListUsers {
    type ResponseType = ListUsersResponse;

    type RawResponseType = RawListUsersResponse;

    open spec fn spec_path(&self) -> Seq<Seq<char>> {
        seq!["groups"@, self.group_key@ + ".json"@]
    }

    open spec fn spec_query(&self) -> Seq<(Seq<char>, Seq<char>)> {
        seq![("token"@, self.token@)]
    }

    open spec fn spec_method(&self) -> Method {
        Method::Get
    }

    open spec fn spec_form(&self) -> Option<Seq<(Seq<char>, Seq<char>)>> {
        None
    }

    open spec fn raw_matches_doc(d: JsonData, raw: RawListUsersResponse) -> bool {
        &&& status_fields_match(d, raw.status, raw.request, raw.errors)
        &&& opt_str_field_matches(d, "name"@, raw.name)
        &&& users_field_matches(d, raw.users)
    }

    open spec fn doc_fits(d: JsonData) -> bool {
        &&& basic_fields_ok(d)
        &&& opt_str_field_ok(d, "name"@)
        &&& users_field_ok(d)
    }

    open spec fn doc_success(d: JsonData) -> bool {
        &&& !absent_or_null(obj_lookup(d, "name"@))
        &&& !absent_or_null(obj_lookup(d, "users"@))
    }

    open spec fn map_pre(raw: RawListUsersResponse) -> bool {
        raw.name is Some && raw.users is Some
    }

    open spec fn spec_map(raw: RawListUsersResponse) -> ListUsersResponse {
        ListUsersResponse {
            request: raw.request,
            name: raw.name.unwrap(),
            users: raw.users.unwrap(),
        }
    }

    fn path_segments(&self) -> (r: Vec<String>) {
        let mut r: Vec<String> = Vec::new();
        r.push(String::from_str("groups"));
        r.push(self.group_key.clone().concat(".json"));
        proof {
            assert(segs_view(r@) =~= self.spec_path());
        }
        r
    }

    fn query_pairs(&self) -> (r: Vec<(String, String)>) {
        let mut r: Vec<(String, String)> = Vec::new();
        r.push((String::from_str("token"), self.token.clone()));
        proof {
            assert(pairs_view(r@) =~= self.spec_query());
        }
        r
    }

    fn get_method(&self) -> Method {
        Method::Get
    }

    fn get_form_parameters(&self) -> Option<Vec<(String, String)>> {
        None
    }

    fn build_url(&self, url: &mut url::Url) {
        let segments = self.path_segments();
        crate::requests::apply_segments(url, &segments);
        let pairs = self.query_pairs();
        crate::requests::apply_pairs(url, &pairs);
    }

    fn has_success_fields(raw: &RawListUsersResponse) -> bool {
        raw.name.is_some() && raw.users.is_some()
    }

    fn map(raw: RawListUsersResponse) -> ListUsersResponse {
        ListUsersResponse {
            request: raw.request,
            name: raw.name.unwrap(),
            users: raw.users.unwrap(),
        }
    }

    fn decode_raw(v: &serde_json::Value) -> (r: Result<
        RawListUsersResponse,
        crate::error::Error,
    >) {
        let status = match decode_status(v) {
            Ok(x) => x,
            Err(e) => {
                return Err(e);
            },
        };
        let request = match decode_request_id(v) {
            Ok(x) => x,
            Err(e) => {
                return Err(e);
            },
        };
        let errors = match decode_errors(v) {
            Ok(x) => x,
            Err(e) => {
                return Err(e);
            },
        };
        let name = match json_field_string(v, "name") {
            Ok(x) => x,
            Err(e) => {
                return Err(e);
            },
        };
        let users = match decode_users(v) {
            Ok(x) => x,
            Err(e) => {
                return Err(e);
            },
        };
        Ok(RawListUsersResponse { status, request, errors, name, users })
    }
}

/// Return type for [`ListUsers`].
#[derive(Clone, Debug, PartialEq, PartialOrd)]
pub struct ListUsersResponse {
    pub request: String,
    pub name: String,
    pub users: Vec<User>,
}

/// The wire shape of a list-users reply.
#[derive(Clone, Debug, PartialEq)]
pub struct RawListUsersResponse {
    pub status: i32,
    pub request: String,
    pub errors: Option<Vec<String>>,
    pub name: Option<String>,
    pub users: Option<Vec<User>>,
}

impl RawResponse for RawListUsersResponse {
    open spec fn spec_status(&self) -> i32 {
        self.status
    }

    open spec fn spec_request(&self) -> Seq<char> {
        self.request@
    }

    open spec fn spec_errors(&self) -> Option<Seq<Seq<char>>> {
        crate::requests::view_opt_strings(self.errors)
    }

    fn status(&self) -> i32 {
        self.status
    }

    fn request(&self) -> &str {
        self.request.as_str()
    }

    fn errors(&self) -> &Option<Vec<String>> {
        &self.errors
    }

    fn get_error(&self) -> Option<ErrorKind> {
        classify_status(self.status, self.request.as_str(), &self.errors)
    }
}

} // verus!
