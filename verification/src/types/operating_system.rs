//! Operating systems a license can be assigned for.

use vstd::prelude::*;

verus! {

/// The operating system of a licensed device.
#[allow(non_camel_case_types)]
#[derive(Clone, Debug, PartialEq, PartialOrd)]
pub enum OperatingSystem {
    Android,
    iOS,
    Desktop,
}

impl OperatingSystem {
    /// The fixed name this operating system serializes as.
    pub open spec fn spec_str(&self) -> Seq<char> {
        match *self {
            OperatingSystem::Android => "Android"@,
            OperatingSystem::iOS => "iOS"@,
            OperatingSystem::Desktop => "Desktop"@,
        }
    }

    /// The wire form of this operating system.
    pub fn as_str(&self) -> (r: &'static str)
        ensures
            r@ == self.spec_str(),
    {
        match *self {
            OperatingSystem::Android => "Android",
            OperatingSystem::iOS => "iOS",
            OperatingSystem::Desktop => "Desktop",
        }
    }
}

} // verus!
