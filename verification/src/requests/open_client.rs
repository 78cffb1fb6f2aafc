//! Open-client endpoints: login, device registration, message download
//! and housekeeping.

mod acknowledge;
mod delete_messages;
mod download_messages;
mod login;
mod register_device;

pub use self::acknowledge::Acknowledge;
pub use self::delete_messages::DeleteMessages;
pub use self::download_messages::{
    DownloadMessages, DownloadMessagesResponse, RawDownloadMessagesResponse,
};
pub use self::login::{Login, LoginResponse, RawLoginResponse};
pub use self::register_device::{
    RawRegisterDeviceResponse, RegisterDevice, RegisterDeviceResponse,
};
