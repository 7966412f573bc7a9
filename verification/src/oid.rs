//! Sets of mechanism identifiers.
use crate::error::Error;
use crate::status::GSS_S_COMPLETE;
use vstd::prelude::*;

verus! {

/// A mechanism that names, credentials and contexts are bound to.
#[derive(Clone, Copy, Debug, PartialEq, Eq, Structural)]
pub enum Mech {
    /// Kerberos 5.
    Krb5,
}

/// A set of mechanism identifiers that lives in the security service, known
/// by its handle. The set is owned by one holder, who gives the handle back
/// with [`OidSet::close`].
#[derive(Debug, PartialEq, Eq, Structural)]
pub struct OidSet {
    /// The service's handle for the set.
    pub handle: usize,
}

impl OidSet {
    /// The handle to pass to the service, which may replace it.
    pub fn as_ptr(&self) -> (r: usize)
        ensures
            r == self.handle,
    {
        self.handle
    }

    /// Reads the reply of the call that creates an empty set: `set` is the
    /// handle that the call wrote. Succeeds exactly when `major` is
    /// `GSS_S_COMPLETE`.
    pub fn new(major: u32, minor: u32, set: usize) -> (r: Result<OidSet, Error>)
        ensures
            r == if major == GSS_S_COMPLETE {
                Ok::<OidSet, Error>(OidSet { handle: set })
            } else {
                Err::<OidSet, Error>(Error { major, minor })
            },
    {
        match Error::check(major, minor) {
            Ok(()) => Ok(OidSet { handle: set }),
            Err(e) => Err(e),
        }
    }

    /// Reads the reply of the call that adds a mechanism to this set. The
    /// call is given the set's handle by reference and may replace it: `set`
    /// is the handle as the call left it, and it becomes the handle of this
    /// set whether the call succeeded or not.
    pub fn add(&mut self, major: u32, minor: u32, set: usize) -> (r: Result<(), Error>)
        ensures
            final(self).handle == set,
            r == Error::spec_check(major, minor),
    {
        self.handle = set;
        Error::check(major, minor)
    }

    /// Reads the reply of the call that tests a mechanism for membership in
    /// this set: `present` is the flag that the call wrote, zero for absent.
    /// Absence is an answer, not an error.
    pub fn contains(&self, major: u32, minor: u32, present: i32) -> (r: Result<bool, Error>)
        ensures
            r == if major == GSS_S_COMPLETE {
                Ok::<bool, Error>(present != 0)
            } else {
                Err::<bool, Error>(Error { major, minor })
            },
    {
        match Error::check(major, minor) {
            Ok(()) => Ok(present != 0),
            Err(e) => Err(e),
        }
    }

    /// Ends the set: returns the handle to pass to the service's release
    /// operation.
    pub fn close(self) -> (r: usize)
        ensures
            r == self.handle,
    {
        self.handle
    }
}

} // verus!
