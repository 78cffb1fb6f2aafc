//! License endpoints.

mod assign;
mod check_credits;

pub use self::assign::Assign;
pub use self::check_credits::{CheckCredits, CheckCreditsResponse, RawCheckCreditsResponse};
