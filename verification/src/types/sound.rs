//! Notification sounds and their wire encoding.

use vstd::prelude::*;

verus! {

/// A notification sound. Sounds serialize via a fixed display mapping,
/// not by numeric position.
#[derive(Clone, Debug, PartialEq, PartialOrd)]
pub enum Sound {
    Pushover,
    Bike,
    Bugle,
    CashRegister,
    Classical,
    Cosmic,
    Falling,
    Gamelan,
    Incoming,
    Intermission,
    Magic,
    Mechanical,
    PianoBar,
    Siren,
    SpaceAlarm,
    TugBoat,
    Alien,
    Climb,
    Persistent,
    Echo,
    UpDown,
    NoSound,
}

impl Sound {
    /// The fixed name this sound serializes as.
    pub open spec fn spec_str(&self) -> Seq<char> {
        match *self {
            Sound::Pushover => "pushover"@,
            Sound::Bike => "bike"@,
            Sound::Bugle => "bugle"@,
            Sound::CashRegister => "cashregister"@,
            Sound::Classical => "classical"@,
            Sound::Cosmic => "cosmic"@,
            Sound::Falling => "falling"@,
            Sound::Gamelan => "gamelan"@,
            Sound::Incoming => "incoming"@,
            Sound::Intermission => "intermission"@,
            Sound::Magic => "magic"@,
            Sound::Mechanical => "mechanical"@,
            Sound::PianoBar => "pianobar"@,
            Sound::Siren => "siren"@,
            Sound::SpaceAlarm => "spacealarm"@,
            Sound::TugBoat => "tugboat"@,
            Sound::Alien => "alien"@,
            Sound::Climb => "climb"@,
            Sound::Persistent => "persistent"@,
            Sound::Echo => "echo"@,
            Sound::UpDown => "updown"@,
            Sound::NoSound => "none"@,
        }
    }

    /// The wire form of this sound.
    pub fn as_str(&self) -> (r: &'static str)
        ensures
            r@ == self.spec_str(),
    {
        match *self {
            Sound::Pushover => "pushover",
            Sound::Bike => "bike",
            Sound::Bugle => "bugle",
            Sound::CashRegister => "cashregister",
            Sound::Classical => "classical",
            Sound::Cosmic => "cosmic",
            Sound::Falling => "falling",
            Sound::Gamelan => "gamelan",
            Sound::Incoming => "incoming",
            Sound::Intermission => "intermission",
            Sound::Magic => "magic",
            Sound::Mechanical => "mechanical",
            Sound::PianoBar => "pianobar",
            Sound::Siren => "siren",
            Sound::SpaceAlarm => "spacealarm",
            Sound::TugBoat => "tugboat",
            Sound::Alien => "alien",
            Sound::Climb => "climb",
            Sound::Persistent => "persistent",
            Sound::Echo => "echo",
            Sound::UpDown => "updown",
            Sound::NoSound => "none",
        }
    }
}

} // verus!
