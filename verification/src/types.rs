//! Value types shared by several endpoints.

use vstd::prelude::*;

mod operating_system;
mod priority;
mod sound;
mod user;

pub use self::operating_system::OperatingSystem;
pub use self::priority::Priority;
pub use self::sound::Sound;
pub use self::user::User;

verus! {

/// The two ways a license assignment can identify its user.
#[derive(Clone, Debug, PartialEq, PartialOrd)]
pub enum UserType {
    UserKey(String),
    Email(String),
}

/// One message downloaded by an open client.
#[derive(Clone, Debug, PartialEq, PartialOrd)]
pub struct Message {
    pub id: u32,
    pub umid: u32,
    pub title: Option<String>,
    pub message: String,
    pub app: String,
    pub aid: u32,
    pub icon: String,
    pub date: u32,
    pub priority: Priority,
    pub sound: Option<String>,
    pub url: Option<String>,
    pub url_title: Option<String>,
    pub acked: i8,
    pub receipt: Option<String>,
    pub html: Option<i8>,
}

} // verus!
