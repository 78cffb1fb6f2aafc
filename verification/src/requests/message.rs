//! Message endpoints: sending a message and reading the application
//! limits.

mod limits;
mod send_message;

pub use self::limits::{Limits, LimitsResponse, RawLimitsResponse};
pub use self::send_message::{RawSendMessageResponse, SendMessage, SendMessageResponse};
