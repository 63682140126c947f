//! Converting `.wav` audio from within `init`: this conversion writes
//! nothing and always succeeds.

use vstd::prelude::*;

verus! {

/// Converts a `.wav` file for `init`: nothing is read or written, and it
/// always succeeds.
pub fn wav_to_prtgn(filename_prt: String) -> (r: Result<(), String>)
    ensures
        r is Ok,
{
    Ok(())
}

} // verus!
