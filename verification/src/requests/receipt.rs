//! Emergency-receipt endpoints.

mod cancel_emergency;
mod receipt_status;

pub use self::cancel_emergency::CancelEmergency;
pub use self::receipt_status::{RawReceiptStatusResponse, ReceiptStatus, ReceiptStatusResponse};
