use vstd::prelude::*;

verus! {

/// The on-disk revision a replay was decoded from.
#[derive(Debug, Clone, Copy, PartialEq, Eq, Structural)]
pub enum Format {
    /// The oldest layout: packed records, no header.
    Slc1,
    /// The container layout opened by `SILL`.
    Slc2,
    /// The atom container opened by `SLC3RPLY`.
    Slc3,
}

} // verus!
