//! Message priority and its wire encoding.

use vstd::prelude::*;

verus! {

/// Message priority. The wire protocol is explicitly numeric: each variant
/// serializes as an integer string, including negative values. The
/// `Emergency` variant additionally carries a retry interval, an expiry
/// duration and an optional callback target.
#[derive(Clone, Debug, PartialEq, PartialOrd)]
pub enum Priority {
    Lowest,
    Low,
    Normal,
    High,
    Emergency { retry: u32, expire: u32, callback_url: Option<String> },
}

impl Priority {
    /// The integer string this priority serializes as.
    pub open spec fn spec_str(&self) -> Seq<char> {
        match *self {
            Priority::Lowest => "-2"@,
            Priority::Low => "-1"@,
            Priority::Normal => "0"@,
            Priority::High => "1"@,
            Priority::Emergency { .. } => "2"@,
        }
    }

    /// The wire form of this priority: an explicit integer string.
    pub fn as_str(&self) -> (r: &'static str)
        ensures
            r@ == self.spec_str(),
    {
        match *self {
            Priority::Lowest => "-2",
            Priority::Low => "-1",
            Priority::Normal => "0",
            Priority::High => "1",
            Priority::Emergency { .. } => "2",
        }
    }

    /// The priority a wire integer stands for, `None` outside -2..=2.
    /// An integer of 2 yields an emergency priority with zeroed retry and
    /// expiry and no callback.
    pub open spec fn spec_from_int(i: int) -> Option<Priority> {
        if i == -2 {
            Some(Priority::Lowest)
        } else if i == -1 {
            Some(Priority::Low)
        } else if i == 0 {
            Some(Priority::Normal)
        } else if i == 1 {
            Some(Priority::High)
        } else if i == 2 {
            Some(Priority::Emergency { retry: 0, expire: 0, callback_url: None })
        } else {
            None
        }
    }

    /// Decodes a wire integer into a priority.
    pub fn from_int(i: i8) -> (r: Option<Priority>)
        ensures
            r == Priority::spec_from_int(i as int),
    {
        match i {
            -2 => Some(Priority::Lowest),
            -1 => Some(Priority::Low),
            0 => Some(Priority::Normal),
            1 => Some(Priority::High),
            2 => Some(Priority::Emergency { retry: 0, expire: 0, callback_url: None }),
            _ => None,
        }
    }
}

} // verus!
