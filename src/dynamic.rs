//! Reading a replay whose format is named by a hint, such as a file
//! extension.

use vstd::prelude::*;
use crate::error::CodecError;
use crate::replay::Replay;
use crate::silicate::{lemma_silicate_error_text, silicate_result, SilicateReplay};

verus! {

/// A replay of whichever format the hint selected.
pub struct DynamicReplay(pub Replay);

/// The Silicate reader's result that a dispatched result stands for.
pub open spec fn as_silicate(r: Result<DynamicReplay, CodecError>) -> Result<SilicateReplay, CodecError> {
    match r {
        Ok(d) => Ok(SilicateReplay { inner: d.0 }),
        Err(e) => Err(e),
    }
}

/// What reading `b` under `hint` gives: the hint `slc` selects the Silicate
/// reader, whose result is handed on unchanged, and any other hint is
/// refused without looking at the bytes.
pub open spec fn dynamic_result(
    b: Seq<u8>,
    hint: Seq<char>,
    r: Result<DynamicReplay, CodecError>,
) -> bool {
    if hint == "slc"@ {
        silicate_result(b, as_silicate(r))
    } else {
        r matches Err(CodecError::ReadError(m)) && m@ == "could not determine format"@
    }
}

impl DynamicReplay {
    /// Reads a replay, choosing the reader by `hint`, the file's extension.
    pub fn read(bytes: &[u8], hint: &str) -> (r: Result<DynamicReplay, CodecError>)
        ensures
            dynamic_result(bytes@, hint@, r),
            hint@ == "slc"@ ==> !(r matches Err(CodecError::ReadError(m)) && m@
                == "could not determine format"@),
    {
        let h = String::from_str(hint);
        let slc = String::from_str("slc");
        if h.eq(&slc) {
            let s = SilicateReplay::read(bytes);
            proof {
                lemma_silicate_error_text(bytes@, s);
            }
            match s {
                Ok(v) => Ok(DynamicReplay(v.into_replay())),
                Err(e) => Err(e),
            }
        } else {
            Err(CodecError::ReadError(String::from_str("could not determine format")))
        }
    }
}

} // verus!
