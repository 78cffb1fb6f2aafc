//! Normalizations applied while decoding wire fields.

use vstd::prelude::*;

verus! {

/// Collapses an empty string to an absent value: the service reports
/// "no device" and "no memo" as empty strings, the domain model as None.
pub fn deserialize_option_empty_string(value: Option<String>) -> (r: Option<String>)
    ensures
        match value {
            Some(s) => if s@.len() == 0 {
                r is None
            } else {
                r matches Some(t) && t == s
            },
            None => r is None,
        },
{
    match value {
        Some(s) => {
            if s.as_str().is_empty() {
                None
            } else {
                Some(s)
            }
        },
        None => None,
    }
}

} // verus!
