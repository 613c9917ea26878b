use vstd::prelude::*;

verus! {

/// A game version, as a `major.minor` pair.
#[derive(Debug, Clone, Copy, PartialEq, Eq, Structural)]
pub struct GameVersion {
    pub major: u16,
    pub minor: u16,
}

impl GameVersion {
    pub fn new(major: u16, minor: u16) -> (r: GameVersion)
        ensures
            r.major == major,
            r.minor == minor,
    {
        GameVersion { major, minor }
    }
}

} // verus!
