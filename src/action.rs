use vstd::prelude::*;

verus! {

/// A button of the game.
#[derive(Debug, Clone, Copy, PartialEq, Eq, Structural)]
pub enum PlayerButton {
    Jump,
    Left,
    Right,
}

/// The kind of a level reset.
#[derive(Debug, Clone, Copy, PartialEq, Eq, Structural)]
pub enum RestartType {
    Restart,
    RestartFull,
    Death,
}

/// When an action happens.
#[derive(Debug, Clone, Copy, PartialEq, Eq, Structural)]
pub enum TimePoint {
    /// An absolute frame index.
    Frame(u64),
}

/// One input event of a replay.
///
/// Ticks-per-second values are carried as the bit pattern of an IEEE-754
/// double (`f64::to_bits`), so that they pass through unchanged.
#[derive(Debug, Clone, Copy, PartialEq, Eq, Structural)]
pub enum Action {
    /// A button press (`hold`) or release for player 1 or player 2.
    Player { button: PlayerButton, hold: bool, player2: bool },
    /// A level reset, with the RNG seed active at that moment when known.
    Restart { restart_type: RestartType, seed: Option<u64> },
    /// A change of the simulation rate.
    TPS { tps_bits: u64 },
    /// A placeholder that does nothing.
    Empty,
}

/// A position in the level; no decoder fills it yet.
#[derive(Debug, Clone, Copy, PartialEq, Eq, Structural)]
pub struct Position {
    pub x: u64,
    pub y: u64,
}

/// An action together with the moment it happens.
#[derive(Debug, Clone, Copy, PartialEq, Eq, Structural)]
pub struct TimedAction {
    pub time: TimePoint,
    pub action: Action,
    pub position: Option<Position>,
}

impl TimedAction {
    /// An action at an absolute frame, without position.
    pub fn at_frame(frame: u64, action: Action) -> (r: TimedAction)
        ensures
            r == (TimedAction { time: TimePoint::Frame(frame), action, position: None }),
    {
        TimedAction { time: TimePoint::Frame(frame), action, position: None }
    }
}

} // verus!
