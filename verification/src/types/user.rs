//! A user entry of a delivery group.

use vstd::prelude::*;
use vstd::string::StringExecFns;

verus! {

/// One user of a delivery group, with an optional device restriction and
/// an optional memo.
#[derive(Clone, Debug, PartialEq, PartialOrd)]
pub struct User {
    pub user: String,
    pub device: Option<String>,
    pub memo: Option<String>,
    pub disabled: bool,
}

impl User {
    /// Builds a user entry with no device restriction, no memo, enabled.
    pub fn new(user: &str) -> (r: Self)
        ensures
            r.user@ == user@,
            r.device is None,
            r.memo is None,
            !r.disabled,
    {
        Self { user: String::from_str(user), device: None, memo: None, disabled: false }
    }

    /// Restricts the entry to one device.
    pub fn set_device(&mut self, device: &str)
        ensures
            final(self).user == old(self).user,
            final(self).device matches Some(d) && d@ == device@,
            final(self).memo == old(self).memo,
            final(self).disabled == old(self).disabled,
    {
        self.device = Some(String::from_str(device));
    }

    /// Attaches a memo to the entry.
    pub fn set_memo(&mut self, memo: &str)
        ensures
            final(self).user == old(self).user,
            final(self).device == old(self).device,
            final(self).memo matches Some(m) && m@ == memo@,
            final(self).disabled == old(self).disabled,
    {
        self.memo = Some(String::from_str(memo));
    }
}

} // verus!
