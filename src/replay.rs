use vstd::prelude::*;
use crate::action::TimedAction;
use crate::format::Format;
use crate::meta::MetaField;
use crate::version::GameVersion;

verus! {

/// A replay in the unified model, whatever revision it came from.
#[derive(Debug, Clone)]
pub struct Replay {
    /// The metadata of the source format, as named fields with defaults.
    pub meta: Vec<MetaField>,
    /// The actions, in the order the decoder produced them.
    pub actions: Vec<TimedAction>,
    /// The revision this replay was decoded from.
    pub format: Format,
    /// The game version the source revision belongs to.
    pub game_version: GameVersion,
}

} // verus!
