use vstd::prelude::*;

verus! {

/// What went wrong while reading or writing a replay.
#[derive(Debug, Clone)]
pub enum CodecError {
    /// Decoding failed; the text says why.
    ReadError(String),
    /// Encoding failed; the text says why.
    WriteError(String),
}

impl CodecError {
    /// The human-readable text of the error.
    pub fn message(&self) -> (r: String)
        ensures
            r@ == match self {
                CodecError::ReadError(m) => m@,
                CodecError::WriteError(m) => m@,
            },
    {
        match self {
            CodecError::ReadError(m) => m.clone(),
            CodecError::WriteError(m) => m.clone(),
        }
    }
}

} // verus!
