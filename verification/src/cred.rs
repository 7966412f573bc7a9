//! Credentials: the right to act as a principal, or to accept for one.
//!
//! Acquiring a credential takes three calls of the security service: one that
//! makes an empty mechanism set, one that puts Kerberos 5 into it, and the
//! acquisition proper, scoped to that set. [`Acquire`] walks through them,
//! stops at the first that fails, and says when the set must be given back.
use crate::error::Error;
use crate::name::Name;
use crate::oid::{Mech, OidSet};
use crate::status::{GSS_C_ACCEPT, GSS_C_BOTH, GSS_C_INDEFINITE, GSS_C_INITIATE, GSS_S_COMPLETE};
use vstd::prelude::*;

verus! {

/// The direction in which a credential may be used.
#[derive(Clone, Copy, Debug, PartialEq, Eq, Structural)]
pub enum CredUsage {
    /// Accept contexts that a peer initiates.
    Accept,
    /// Initiate contexts towards a peer.
    Initiate,
    /// Both of the above.
    Both,
}

impl CredUsage {
    /// The service's code for this usage.
    pub open spec fn spec_code(self) -> u32 {
        match self {
            CredUsage::Both => GSS_C_BOTH,
            CredUsage::Initiate => GSS_C_INITIATE,
            CredUsage::Accept => GSS_C_ACCEPT,
        }
    }

    /// The service's code for this usage.
    #[verifier::when_used_as_spec(spec_code)]
    pub fn code(self) -> (r: u32)
        ensures
            r == self.spec_code(),
    {
        match self {
            CredUsage::Both => GSS_C_BOTH,
            CredUsage::Initiate => GSS_C_INITIATE,
            CredUsage::Accept => GSS_C_ACCEPT,
        }
    }
}

/// A credential of the security service, known by its handle. Cloning shares
/// the one foreign credential; it never makes a second one.
#[derive(Debug, PartialEq, Eq, Structural)]
pub struct Cred {
    /// The service's handle for the credential.
    pub handle: usize,
}

impl Clone for Cred {
    fn clone(&self) -> (r: Self)
        ensures
            r == *self,
    {
        Cred { handle: self.handle }
    }
}

/// A call that an acquisition asks for.
#[derive(Clone, Copy, Debug, PartialEq, Eq, Structural)]
pub enum AcquireCall {
    /// Make an empty mechanism set. The reply's handle is that of the set.
    CreateMechs,
    /// Add `mech` to the set `mechs`. The reply's handle is that of the set
    /// as the call left it.
    AddMech {
        /// Handle of the set.
        mechs: usize,
        /// The mechanism to add.
        mech: Mech,
    },
    /// Acquire the credential. The reply's handle is that of the credential.
    AcquireCred {
        /// Handle of the name to acquire for, null for the default identity.
        name: usize,
        /// Lifetime asked for, in seconds.
        time_req: u32,
        /// Handle of the set of mechanisms to acquire for.
        mechs: usize,
        /// Code of the usage asked for.
        usage: u32,
    },
}

/// How far an acquisition has come.
#[derive(Debug, PartialEq, Eq, Structural)]
pub enum AcquireStage {
    /// The mechanism set is yet to be made.
    Create,
    /// The set is made and the mechanism is yet to be added.
    Add(OidSet),
    /// The set is ready and the credential is yet to be acquired.
    Acquire(OidSet),
    /// The acquisition has ended.
    Done,
}

/// The end of an acquisition.
#[derive(Debug, PartialEq, Eq)]
pub struct Acquired {
    /// The credential, or the error of the call that failed.
    pub result: Result<Cred, Error>,
    /// The mechanism set, if it was made: it has served and must be released.
    pub release_mechs: Option<OidSet>,
}

/// The acquisition of a credential, in the making.
#[derive(Debug, PartialEq, Eq)]
pub struct Acquire {
    /// Handle of the name to acquire for, null for the default identity.
    pub name: usize,
    /// Lifetime asked for, in seconds.
    pub time_req: u32,
    /// Code of the usage asked for.
    pub usage: u32,
    /// How far the acquisition has come.
    pub stage: AcquireStage,
}

impl Acquire {
    /// The acquisition of a credential for `name`, or for the default
    /// identity if there is none, for `time_req` seconds, or without expiry
    /// if there is none, before its first call.
    pub open spec fn start(name: Option<Name>, time_req: Option<u32>, usage: CredUsage) -> Acquire {
        Acquire {
            name: match name {
                Some(n) => n.handle,
                None => 0,
            },
            time_req: match time_req {
                Some(t) => t,
                None => GSS_C_INDEFINITE,
            },
            usage: usage.spec_code(),
            stage: AcquireStage::Create,
        }
    }

    /// The call that is due, if any.
    pub open spec fn pending(self) -> Option<AcquireCall> {
        match self.stage {
            AcquireStage::Create => Some(AcquireCall::CreateMechs),
            AcquireStage::Add(set) => Some(
                AcquireCall::AddMech { mechs: set.handle, mech: Mech::Krb5 },
            ),
            AcquireStage::Acquire(set) => Some(
                AcquireCall::AcquireCred {
                    name: self.name,
                    time_req: self.time_req,
                    mechs: set.handle,
                    usage: self.usage,
                },
            ),
            AcquireStage::Done => None,
        }
    }

    /// The stage after the reply to the call that was due, and the end of the
    /// acquisition if that reply brought it. Any reply but unqualified
    /// success ends the acquisition with its status words as the error. The
    /// set is left for release from the moment it exists.
    pub open spec fn fed(self, major: u32, minor: u32, handle: usize) -> (
        AcquireStage,
        Option<Acquired>,
    ) {
        let e = Error { major, minor };
        match self.stage {
            AcquireStage::Create => if major == GSS_S_COMPLETE {
                (AcquireStage::Add(OidSet { handle }), None)
            } else {
                (AcquireStage::Done, Some(Acquired { result: Err(e), release_mechs: None }))
            },
            AcquireStage::Add(_) => if major == GSS_S_COMPLETE {
                (AcquireStage::Acquire(OidSet { handle }), None)
            } else {
                (
                    AcquireStage::Done,
                    Some(Acquired { result: Err(e), release_mechs: Some(OidSet { handle }) }),
                )
            },
            AcquireStage::Acquire(set) => (
                AcquireStage::Done,
                Some(
                    Acquired {
                        result: if major == GSS_S_COMPLETE {
                            Ok(Cred { handle })
                        } else {
                            Err(e)
                        },
                        release_mechs: Some(set),
                    },
                ),
            ),
            AcquireStage::Done => (AcquireStage::Done, None),
        }
    }

    /// The call to put to the service next, or `None` when the acquisition
    /// has ended.
    pub fn call(&self) -> (r: Option<AcquireCall>)
        ensures
            r == self.pending(),
            r is None <==> self.stage is Done,
    {
        match &self.stage {
            AcquireStage::Create => Some(AcquireCall::CreateMechs),
            AcquireStage::Add(set) => Some(
                AcquireCall::AddMech { mechs: set.as_ptr(), mech: Mech::Krb5 },
            ),
            AcquireStage::Acquire(set) => Some(
                AcquireCall::AcquireCred {
                    name: self.name,
                    time_req: self.time_req,
                    mechs: set.as_ptr(),
                    usage: self.usage,
                },
            ),
            AcquireStage::Done => None,
        }
    }

    /// Takes in the service's reply to the call that was due: its two status
    /// words and the handle it wrote. Returns the end of the acquisition if
    /// this reply brought it.
    pub fn feed(&mut self, major: u32, minor: u32, handle: usize) -> (r: Option<Acquired>)
        ensures
            (final(self).stage, r) == old(self).fed(major, minor, handle),
            final(self).name == old(self).name,
            final(self).time_req == old(self).time_req,
            final(self).usage == old(self).usage,
            r is Some <==> !(old(self).stage is Done) && final(self).stage is Done,
    {
        let mut stage = AcquireStage::Done;
        core::mem::swap(&mut self.stage, &mut stage);
        match stage {
            AcquireStage::Create => match OidSet::new(major, minor, handle) {
                Ok(set) => {
                    self.stage = AcquireStage::Add(set);
                    None
                },
                Err(e) => Some(Acquired { result: Err(e), release_mechs: None }),
            },
            AcquireStage::Add(set) => {
                let mut set = set;
                match set.add(major, minor, handle) {
                    Ok(()) => {
                        self.stage = AcquireStage::Acquire(set);
                        None
                    },
                    Err(e) => Some(Acquired { result: Err(e), release_mechs: Some(set) }),
                }
            },
            AcquireStage::Acquire(set) => {
                let result = match Error::check(major, minor) {
                    Ok(()) => Ok(Cred { handle }),
                    Err(e) => Err(e),
                };
                Some(Acquired { result, release_mechs: Some(set) })
            },
            AcquireStage::Done => None,
        }
    }
}

impl Cred {
    /// The service's handle for this credential.
    pub fn handle(&self) -> (r: usize)
        ensures
            r == self.handle,
    {
        self.handle
    }

    /// Begins the acquisition of a credential for `usage`.
    ///
    /// Without a `name` the credential is that of the service's default
    /// identity, which is asked for by the null handle. Without a `time_req`
    /// the credential is asked never to expire. The acquisition is scoped to
    /// Kerberos 5.
    pub fn acquire(name: Option<&Name>, time_req: Option<u32>, usage: CredUsage) -> (r: Acquire)
        ensures
            r == Acquire::start(
                match name {
                    Some(n) => Some(*n),
                    None => None,
                },
                time_req,
                usage,
            ),
    {
        let name = match name {
            Some(n) => n.handle(),
            None => 0,
        };
        let time_req = match time_req {
            Some(t) => t,
            None => GSS_C_INDEFINITE,
        };
        Acquire { name, time_req, usage: usage.code(), stage: AcquireStage::Create }
    }
}

/// An acquisition without a name and without a lifetime asks for the default
/// identity and for a credential that never expires: once the mechanism set
/// is ready, the call that is due carries the null name and the indefinite
/// lifetime, which is not zero.
pub proof fn lemma_default_is_indefinite(usage: CredUsage, set: usize, ready: usize)
    ensures
        ({
            let begun = Acquire::start(None, None, usage);
            let made = Acquire { stage: begun.fed(GSS_S_COMPLETE, 0, set).0, ..begun };
            let filled = Acquire { stage: made.fed(GSS_S_COMPLETE, 0, ready).0, ..begun };
            &&& begun.time_req == GSS_C_INDEFINITE
            &&& begun.time_req != 0
            &&& begun.name == 0
            &&& filled.pending() == Some(
                AcquireCall::AcquireCred {
                    name: 0,
                    time_req: GSS_C_INDEFINITE,
                    mechs: ready,
                    usage: usage.spec_code(),
                },
            )
        }),
{
}

/// An acquisition yields a credential exactly when all three of its calls
/// succeed, and then the credential wraps the handle of the last reply.
/// Otherwise its error is that of the first call that failed, and no later
/// call is asked for. The mechanism set is left for release whenever the
/// first call made it, under the handle that the second call left it with if
/// that call was made.
pub proof fn lemma_acquire_outcome(
    begun: Acquire,
    create: (u32, u32, usize),
    add: (u32, u32, usize),
    acquire: (u32, u32, usize),
)
    requires
        begun.stage is Create,
    ensures
        ({
            let (stage1, end1) = begun.fed(create.0, create.1, create.2);
            let made = Acquire { stage: stage1, ..begun };
            let (stage2, end2) = made.fed(add.0, add.1, add.2);
            let filled = Acquire { stage: stage2, ..begun };
            let (stage3, end3) = filled.fed(acquire.0, acquire.1, acquire.2);
            let set = OidSet { handle: add.2 };
            if create.0 != GSS_S_COMPLETE {
                &&& end1 == Some(
                    Acquired {
                        result: Err(Error { major: create.0, minor: create.1 }),
                        release_mechs: None,
                    },
                )
                &&& made.pending() is None
            } else if add.0 != GSS_S_COMPLETE {
                &&& end1 is None
                &&& made.pending() == Some(AcquireCall::AddMech { mechs: create.2, mech: Mech::Krb5 })
                &&& end2 == Some(
                    Acquired {
                        result: Err(Error { major: add.0, minor: add.1 }),
                        release_mechs: Some(set),
                    },
                )
                &&& filled.pending() is None
            } else {
                &&& end1 is None
                &&& end2 is None
                &&& filled.pending() == Some(
                    AcquireCall::AcquireCred {
                        name: begun.name,
                        time_req: begun.time_req,
                        mechs: add.2,
                        usage: begun.usage,
                    },
                )
                &&& end3 == Some(
                    Acquired {
                        result: if acquire.0 == GSS_S_COMPLETE {
                            Ok(Cred { handle: acquire.2 })
                        } else {
                            Err(Error { major: acquire.0, minor: acquire.1 })
                        },
                        release_mechs: Some(set),
                    },
                )
                &&& stage3 is Done
            }
        }),
{
}

} // verus!
