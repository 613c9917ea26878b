//! Siliconv: a converter for Silicate bot replays.
//!
//! The three on-disk revisions of the Silicate format are decoded into one
//! unified [`replay::Replay`] value, and written back out in the newest
//! revision only.

pub mod action;
pub mod bytes;
pub mod container;
pub mod dynamic;
pub mod error;
pub mod format;
pub mod framing;
pub mod meta;
pub mod replay;
pub mod silicate;
pub mod version;
