//! Principal names.
//!
//! A name lives in the security service; the crate knows it by its handle.
//! Each operation here reads the reply of one service call: the two status
//! words and what the call wrote to its output argument.
use crate::buffer::{Buf, BufRef};
use crate::error::Error;
use crate::oid::Mech;
use crate::status::GSS_S_COMPLETE;
use vstd::prelude::*;

verus! {

/// A principal name of the security service, known by its handle. Cloning
/// shares the one foreign name; [`Name::duplicate`] is what makes a second
/// one.
#[derive(Debug, PartialEq, Eq, Structural)]
pub struct Name {
    /// The service's handle for the name.
    pub handle: usize,
}

impl Clone for Name {
    fn clone(&self) -> (r: Self)
        ensures
            r == *self,
    {
        Name { handle: self.handle }
    }
}

/// The arguments of the call that imports a name.
#[derive(Debug)]
pub struct ImportCall<'a> {
    /// The bytes of the name.
    pub name: BufRef<'a>,
    /// Identifier of the syntax in which to read the bytes; null asks for the
    /// service's default syntax.
    pub name_type: usize,
}

/// The arguments of the call that canonicalizes a name.
#[derive(Clone, Copy, Debug, PartialEq, Eq, Structural)]
pub struct CanonicalizeCall {
    /// Handle of the name to resolve.
    pub name: usize,
    /// The mechanism to resolve it for.
    pub mech: Mech,
}

/// What reading the reply of a display call leaves for the caller.
#[derive(Debug, PartialEq, Eq)]
pub struct Displayed {
    /// The rendered name, or the failure.
    pub result: Result<Buf, Error>,
    /// The output buffer of a failed call, if the service filled it all the
    /// same: it is not returned and must be released.
    pub release: Option<Buf>,
}

impl Name {
    /// The name that a reply with these status words and this output handle
    /// yields: a wrapper for the handle after unqualified success, and
    /// otherwise the error with both status words.
    pub open spec fn spec_wrap(major: u32, minor: u32, name: usize) -> Result<Name, Error> {
        if major == GSS_S_COMPLETE {
            Ok(Name { handle: name })
        } else {
            Err(Error { major, minor })
        }
    }

    /// The rendering that a reply with these status words and this output
    /// buffer yields.
    pub open spec fn spec_display(major: u32, minor: u32, text: Buf) -> Displayed {
        if major == GSS_S_COMPLETE {
            Displayed { result: Ok(text), release: None }
        } else {
            Displayed { result: Err(Error { major, minor }), release: text.released().1 }
        }
    }

    /// The service's handle for this name.
    pub fn handle(&self) -> (r: usize)
        ensures
            r == self.handle,
    {
        self.handle
    }

    /// The import call for the bytes `s`, which are read in the service's
    /// default name syntax.
    pub fn import_call<'a>(s: &'a [u8]) -> (r: ImportCall<'a>)
        ensures
            r.name@ == s@,
            r.name_type == 0,
    {
        ImportCall { name: BufRef::new(s), name_type: 0 }
    }

    /// The canonicalize call for this name: it is resolved for Kerberos 5.
    pub fn canonicalize_call(&self) -> (r: CanonicalizeCall)
        ensures
            r == (CanonicalizeCall { name: self.handle, mech: Mech::Krb5 }),
    {
        CanonicalizeCall { name: self.handle, mech: Mech::Krb5 }
    }

    /// Reads the reply of the import call for the bytes of a name: `name` is
    /// the handle that the call wrote. Succeeds exactly when `major` is
    /// `GSS_S_COMPLETE`.
    pub fn new(major: u32, minor: u32, name: usize) -> (r: Result<Name, Error>)
        ensures
            r == Name::spec_wrap(major, minor, name),
            r is Ok <==> major == GSS_S_COMPLETE,
    {
        match Error::check(major, minor) {
            Ok(()) => Ok(Name { handle: name }),
            Err(e) => Err(e),
        }
    }

    /// Reads the reply of the canonicalize call for this name: `name` is the
    /// handle of the mechanism name that the call wrote. The result is a new
    /// name; this one is as it was.
    pub fn canonicalize(&self, major: u32, minor: u32, name: usize) -> (r: Result<Name, Error>)
        ensures
            r == Name::spec_wrap(major, minor, name),
            r is Ok <==> major == GSS_S_COMPLETE,
    {
        Name::new(major, minor, name)
    }

    /// Reads the reply of the duplicate call for this name: `name` is the
    /// handle of the copy that the call wrote. The result owns that second
    /// foreign name; this one is as it was.
    pub fn duplicate(&self, major: u32, minor: u32, name: usize) -> (r: Result<Name, Error>)
        ensures
            r == Name::spec_wrap(major, minor, name),
            r is Ok <==> major == GSS_S_COMPLETE,
    {
        Name::new(major, minor, name)
    }

    /// Reads the reply of the display call for this name: `text` is the output
    /// buffer as the call left it. After success the buffer is the result.
    /// After a failure the error is, and a buffer that was filled is left for
    /// release.
    pub fn display(&self, major: u32, minor: u32, text: Buf) -> (r: Displayed)
        ensures
            r == Name::spec_display(major, minor, text),
            r.result is Ok <==> major == GSS_S_COMPLETE,
    {
        match Error::check(major, minor) {
            Ok(()) => Displayed { result: Ok(text), release: None },
            Err(e) => {
                let mut text = text;
                let release = text.release();
                Displayed { result: Err(e), release }
            },
        }
    }
}

} // verus!
