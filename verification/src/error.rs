//! The failure value that every operation of this crate reports.
use crate::status::GSS_S_COMPLETE;
use vstd::prelude::*;

verus! {

/// A failed call into the security service: the two status words it answered
/// with, unchanged. Both are opaque to this crate beyond what
/// [`crate::status`] reads from the primary word.
#[derive(Clone, Copy, Debug, PartialEq, Eq, Structural)]
pub struct Error {
    /// The primary status word.
    pub major: u32,
    /// The secondary, mechanism-specific status word.
    pub minor: u32,
}

impl Error {
    /// What a call that answers with `major` and `minor` amounts to when only
    /// unqualified success counts as success.
    pub open spec fn spec_check(major: u32, minor: u32) -> Result<(), Error> {
        if major == GSS_S_COMPLETE {
            Ok(())
        } else {
            Err(Error { major, minor })
        }
    }

    /// Turns the status words of a finished call into a `Result`: success only
    /// for `GSS_S_COMPLETE`, and otherwise an error that carries both words.
    #[verifier::when_used_as_spec(spec_check)]
    pub fn check(major: u32, minor: u32) -> (r: Result<(), Error>)
        ensures
            r == Error::spec_check(major, minor),
            r is Ok <==> major == GSS_S_COMPLETE,
            r matches Err(e) ==> e.major == major && e.minor == minor,
    {
        if major == GSS_S_COMPLETE {
            Ok(())
        } else {
            Err(Error { major, minor })
        }
    }
}

} // verus!
