//! What the two directions of a negotiation have in common: the outcome of one
//! step, and the rule for giving a context handle back.
use crate::buffer::Buf;
use crate::cred::Cred;
use crate::error::Error;
use crate::status::{classify, spec_classify, StatusClass};
use vstd::prelude::*;

verus! {

/// The context handle that must be passed to the service's delete operation
/// for `ctx`: the handle itself, unless it is null.
pub open spec fn spec_delete_ctx(ctx: usize) -> Option<usize> {
    if ctx != 0 {
        Some(ctx)
    } else {
        None
    }
}

/// Decides the deletion of a context handle: a live handle is returned for the
/// service to delete, a null handle needs nothing.
#[verifier::when_used_as_spec(spec_delete_ctx)]
pub fn delete_ctx(ctx: usize) -> (r: Option<usize>)
    ensures
        r == spec_delete_ctx(ctx),
        r is Some <==> ctx != 0,
{
    if ctx != 0 {
        Some(ctx)
    } else {
        None
    }
}

/// What a context asks of its caller before a step can be taken.
#[derive(Debug)]
pub enum Plan<C> {
    /// Make this call to the service and take the step with its reply.
    Call(C),
    /// The negotiation is finished: return this, and do not call the service.
    Return(Result<Option<Buf>, Error>),
}

/// Everything one `step` of a negotiation leaves for its caller: the value to
/// return, and the foreign resources that came back from the service and that
/// the context did not keep.
#[derive(Debug, PartialEq, Eq)]
pub struct Step {
    /// What the step returns: a token for the peer, nothing, or the failure.
    pub result: Result<Option<Buf>, Error>,
    /// A context handle that the negotiation abandoned and that must be
    /// deleted.
    pub delete_ctx: Option<usize>,
    /// An output token that is not passed on to the peer and that must be
    /// released.
    pub release_tok: Option<Buf>,
    /// A delegated credential whose handle the service reported for the first
    /// time in this step, and for which the step made a new wrapper.
    pub wrapped_cred: Option<Cred>,
}

impl Step {
    /// A step that only returns `result`: the service was not called, so
    /// nothing came back that would have to be kept or given up.
    pub open spec fn spec_idle(result: Result<Option<Buf>, Error>) -> Step {
        Step { result, delete_ctx: None, release_tok: None, wrapped_cred: None }
    }

    /// A step that only returns `result`.
    #[verifier::when_used_as_spec(spec_idle)]
    pub fn idle(result: Result<Option<Buf>, Error>) -> (r: Step)
        ensures
            r == Step::spec_idle(result),
    {
        Step { result, delete_ctx: None, release_tok: None, wrapped_cred: None }
    }
}

/// What a step leaves for its caller when the service answered a negotiation
/// call with these status words, this context handle and this output token.
///
/// * A fatal status is returned as the error; the context handle is left for
///   deletion and the token for release.
/// * A status that asks to continue returns the token, empty or not.
/// * Any other status returns the token if it holds at least one byte, and
///   otherwise nothing, leaving the token for release.
///
/// No credential is wrapped here; the accepting side adds its own.
pub open spec fn spec_settle(major: u32, minor: u32, ctx: usize, out_tok: Buf) -> Step {
    match spec_classify(major) {
        StatusClass::Fatal => Step {
            result: Err(Error { major, minor }),
            delete_ctx: spec_delete_ctx(ctx),
            release_tok: out_tok.released().1,
            wrapped_cred: None,
        },
        StatusClass::ContinueNeeded => Step::spec_idle(Ok(Some(out_tok))),
        StatusClass::Success => if out_tok.length > 0 {
            Step::spec_idle(Ok(Some(out_tok)))
        } else {
            Step {
                result: Ok(None),
                delete_ctx: None,
                release_tok: out_tok.released().1,
                wrapped_cred: None,
            }
        },
    }
}

/// Settles one reply of a negotiation call: see [`spec_settle`].
pub fn settle(major: u32, minor: u32, ctx: usize, out_tok: Buf) -> (r: Step)
    ensures
        r == spec_settle(major, minor, ctx, out_tok),
{
    let mut out_tok = out_tok;
    match classify(major) {
        StatusClass::Fatal => {
            let release_tok = out_tok.release();
            Step {
                result: Err(Error { major, minor }),
                delete_ctx: delete_ctx(ctx),
                release_tok,
                wrapped_cred: None,
            }
        },
        StatusClass::ContinueNeeded => Step::idle(Ok(Some(out_tok))),
        StatusClass::Success => {
            if out_tok.len() > 0 {
                Step::idle(Ok(Some(out_tok)))
            } else {
                let release_tok = out_tok.release();
                Step { result: Ok(None), delete_ctx: None, release_tok, wrapped_cred: None }
            }
        },
    }
}

} // verus!
