//! The accepting side of a negotiation.
//!
//! An acceptor starts out holding only the credential it accepts with. Each
//! token from the peer is handed to the service's accept operation; the reply
//! moves the negotiation to a partial context, a complete one, or a failure.
//! [`ServerCtxInner`] is the state as a mathematical value together with the
//! transition relation; [`ServerCtx`] is the executable context, whose view is
//! such a state. A step has two halves: [`ServerCtx::plan`] says what to ask
//! the service, and [`ServerCtx::step`] reads the reply.
use crate::buffer::{Buf, BufRef};
use crate::context::{delete_ctx, settle, spec_delete_ctx, spec_settle, Plan, Step};
use crate::cred::Cred;
use crate::error::Error;
use crate::status::{classify, spec_classify, StatusClass};
use vstd::prelude::*;

verus! {

/// The arguments of one call of the service's accept operation.
#[derive(Debug)]
pub struct AcceptCall<'a> {
    /// The context to continue, null for the first round.
    pub ctx: usize,
    /// Handle of the credential to accept with.
    pub cred: usize,
    /// The token received from the peer.
    pub tok: BufRef<'a>,
}

/// What the service's accept operation answered.
#[derive(Debug)]
pub struct AcceptReply {
    /// The primary status word.
    pub major: u32,
    /// The secondary status word.
    pub minor: u32,
    /// The context handle as the service left it.
    pub ctx: usize,
    /// The token to send to the peer, null if the service produced none.
    pub out_tok: Buf,
    /// Handle of the credential that the peer delegated, null if it delegated
    /// none.
    pub delegated_cred: usize,
}

/// The state of an accepting context.
#[derive(Debug, PartialEq, Eq)]
pub enum ServerCtxInner {
    /// The negotiation failed; the error is final.
    Failed(Error),
    /// No token has been accepted yet.
    Uninit(Cred),
    /// The service holds a context that needs at least one more token.
    Partial {
        /// The service's handle for the context.
        ctx: usize,
        /// The credential the context is accepted with.
        cred: Cred,
        /// The credential that the peer delegated so far, if any.
        delegated_cred: Option<Cred>,
    },
    /// The context is established.
    Complete {
        /// The service's handle for the context.
        ctx: usize,
        /// The credential that the peer delegated, if any.
        delegated_cred: Option<Cred>,
    },
}

/// The delegated credential to hold after the service reported the handle
/// `reported`, when `current` was held before: none for a null handle, the
/// one already held if it has that handle, and otherwise a wrapper for the
/// reported handle.
pub open spec fn spec_delegated_held(current: Option<Cred>, reported: usize) -> Option<Cred> {
    if reported == 0 {
        None
    } else {
        match current {
            Some(held) if held.handle == reported => Some(held),
            _ => Some(Cred { handle: reported }),
        }
    }
}

/// The wrapper that has to be made for the reported handle: none if the handle
/// is null or is the one of the credential already held.
pub open spec fn spec_delegated_wrapped(current: Option<Cred>, reported: usize) -> Option<Cred> {
    if reported == 0 {
        None
    } else {
        match current {
            Some(held) if held.handle == reported => None,
            _ => Some(Cred { handle: reported }),
        }
    }
}

/// Reconciles the delegated-credential handle that the service reported with
/// the delegated credential held so far. Returns the credential to hold from
/// now on, and the wrapper that was newly made for it, if one was.
///
/// Handles are compared, not wrappers: a handle that is already held is never
/// wrapped a second time.
pub fn resolve_delegated(current: Option<Cred>, reported: usize) -> (r: (
    Option<Cred>,
    Option<Cred>,
))
    ensures
        r.0 == spec_delegated_held(current, reported),
        r.1 == spec_delegated_wrapped(current, reported),
{
    if reported == 0 {
        (None, None)
    } else {
        match current {
            Some(held) => {
                if held.handle == reported {
                    (Some(held), None)
                } else {
                    (Some(Cred { handle: reported }), Some(Cred { handle: reported }))
                }
            },
            None => (Some(Cred { handle: reported }), Some(Cred { handle: reported })),
        }
    }
}

/// The state and the outcome that follow from the service's reply when the
/// context was open for one, accepting with `cred` and holding `current` as
/// the delegated credential. The status decides the state, the reply is
/// settled as on either side of a negotiation, and the delegated credential
/// is reconciled whatever the status.
pub open spec fn spec_accepted(cred: Cred, current: Option<Cred>, reply: AcceptReply) -> (
    ServerCtxInner,
    Step,
) {
    let delegated_cred = spec_delegated_held(current, reply.delegated_cred);
    let step = Step {
        wrapped_cred: spec_delegated_wrapped(current, reply.delegated_cred),
        ..spec_settle(reply.major, reply.minor, reply.ctx, reply.out_tok)
    };
    match spec_classify(reply.major) {
        StatusClass::Fatal => (
            ServerCtxInner::Failed(Error { major: reply.major, minor: reply.minor }),
            step,
        ),
        StatusClass::ContinueNeeded => (
            ServerCtxInner::Partial { ctx: reply.ctx, cred, delegated_cred },
            step,
        ),
        StatusClass::Success => (ServerCtxInner::Complete { ctx: reply.ctx, delegated_cred }, step),
    }
}

/// Reads the service's reply for a context that was open for one.
fn accepted(cred: Cred, current: Option<Cred>, reply: AcceptReply) -> (r: (ServerCtxInner, Step))
    ensures
        r == spec_accepted(cred, current, reply),
{
    let AcceptReply { major, minor, ctx, out_tok, delegated_cred: reported } = reply;
    let (delegated_cred, wrapped_cred) = resolve_delegated(current, reported);
    let mut step = settle(major, minor, ctx, out_tok);
    step.wrapped_cred = wrapped_cred;
    let next = match classify(major) {
        StatusClass::Fatal => ServerCtxInner::Failed(Error { major, minor }),
        StatusClass::ContinueNeeded => ServerCtxInner::Partial { ctx, cred, delegated_cred },
        StatusClass::Success => ServerCtxInner::Complete { ctx, delegated_cred },
    };
    (next, step)
}

impl ServerCtxInner {
    /// Whether a step of this state calls the service: true until the
    /// negotiation is complete or has failed.
    pub open spec fn awaits_service(self) -> bool {
        self is Uninit || self is Partial
    }

    /// The context handle this state owns, null if it owns none.
    pub open spec fn held_ctx(self) -> usize {
        match self {
            ServerCtxInner::Partial { ctx, .. } => ctx,
            ServerCtxInner::Complete { ctx, .. } => ctx,
            _ => 0,
        }
    }

    /// The credential this state accepts with, while it still negotiates.
    pub open spec fn held_cred(self) -> Option<Cred> {
        match self {
            ServerCtxInner::Uninit(cred) => Some(cred),
            ServerCtxInner::Partial { cred, .. } => Some(cred),
            _ => None,
        }
    }

    /// The delegated credential this state holds.
    pub open spec fn held_delegated(self) -> Option<Cred> {
        match self {
            ServerCtxInner::Partial { delegated_cred, .. } => delegated_cred,
            ServerCtxInner::Complete { delegated_cred, .. } => delegated_cred,
            _ => None,
        }
    }

    /// What a finished negotiation answers to every further step: nothing
    /// once complete, the stored error once failed.
    pub open spec fn replay(self) -> Result<Option<Buf>, Error> {
        match self {
            ServerCtxInner::Failed(e) => Err(e),
            _ => Ok(None),
        }
    }

    /// A held delegated credential is never the null handle.
    pub open spec fn wf(self) -> bool {
        self.held_delegated() matches Some(held) ==> held.handle != 0
    }

    /// The state after a step that was given `reply`, and what the step leaves
    /// for its caller. A finished negotiation does not look at the reply: it
    /// stays as it is and answers as it did.
    pub open spec fn spec_step(self, reply: AcceptReply) -> (ServerCtxInner, Step) {
        match self {
            ServerCtxInner::Complete { .. } => (self, Step::spec_idle(self.replay())),
            ServerCtxInner::Failed(_) => (self, Step::spec_idle(self.replay())),
            ServerCtxInner::Uninit(cred) => spec_accepted(cred, None, reply),
            ServerCtxInner::Partial { cred, delegated_cred, .. } => spec_accepted(
                cred,
                delegated_cred,
                reply,
            ),
        }
    }

    /// The state after one step for each of `replies`, in order.
    pub open spec fn after(self, replies: Seq<AcceptReply>) -> ServerCtxInner
        decreases replies.len(),
    {
        if replies.len() == 0 {
            self
        } else {
            self.after(replies.drop_last()).spec_step(replies.last()).0
        }
    }

    /// The context handles that the steps for `replies` leave for deletion,
    /// in the order of the steps.
    pub open spec fn deleted(self, replies: Seq<AcceptReply>) -> Seq<usize>
        decreases replies.len(),
    {
        if replies.len() == 0 {
            Seq::empty()
        } else {
            let before = self.deleted(replies.drop_last());
            match self.after(replies.drop_last()).spec_step(replies.last()).1.delete_ctx {
                Some(ctx) => before.push(ctx),
                None => before,
            }
        }
    }
}

/// An accepting security context.
#[derive(Debug)]
pub struct ServerCtx {
    inner: ServerCtxInner,
}

impl View for ServerCtx {
    type V = ServerCtxInner;

    closed spec fn view(&self) -> ServerCtxInner {
        self.inner
    }
}

impl ServerCtx {
    #[verifier::type_invariant]
    spec fn inv(self) -> bool {
        self.inner.wf()
    }

    /// A context that has not seen a token yet and will accept with `cred`.
    pub fn new(cred: &Cred) -> (r: ServerCtx)
        ensures
            r@ == ServerCtxInner::Uninit(*cred),
    {
        ServerCtx { inner: ServerCtxInner::Uninit(cred.clone()) }
    }

    /// First half of a step, for the peer's token `tok`: the call to make to
    /// the service, or, when the negotiation is finished, the value to return
    /// without calling it.
    pub fn plan<'a>(&self, tok: &'a [u8]) -> (r: Plan<AcceptCall<'a>>)
        ensures
            r is Call <==> self@.awaits_service(),
            r matches Plan::Call(c) ==> {
                &&& c.ctx == self@.held_ctx()
                &&& Some(Cred { handle: c.cred }) == self@.held_cred()
                &&& c.tok@ == tok@
            },
            r matches Plan::Return(res) ==> res == self@.replay(),
    {
        match &self.inner {
            ServerCtxInner::Uninit(cred) => Plan::Call(
                AcceptCall { ctx: 0, cred: cred.handle, tok: BufRef::new(tok) },
            ),
            ServerCtxInner::Partial { ctx, cred, .. } => Plan::Call(
                AcceptCall { ctx: *ctx, cred: cred.handle, tok: BufRef::new(tok) },
            ),
            ServerCtxInner::Complete { .. } => Plan::Return(Ok(None)),
            ServerCtxInner::Failed(e) => Plan::Return(Err(*e)),
        }
    }

    /// Second half of a step: reads the service's reply and moves on.
    ///
    /// * An error in the primary status fails the negotiation for good: the
    ///   context handle of the reply is left for deletion, the output token
    ///   for release, and the error is returned.
    /// * A status that asks to continue makes the context partial and returns
    ///   the output token, empty or not.
    /// * Any other status completes the context; the output token is returned
    ///   if it holds at least one byte.
    ///
    /// A negotiation that is already complete returns `Ok(None)`, one that has
    /// failed returns its error again; neither changes, and neither takes
    /// anything from the reply.
    pub fn step(&mut self, reply: AcceptReply) -> (r: Step)
        ensures
            (final(self)@, r) == old(self)@.spec_step(reply),
    {
        proof {
            use_type_invariant(&*self);
        }
        match &self.inner {
            ServerCtxInner::Complete { .. } => {
                return Step::idle(Ok(None));
            },
            ServerCtxInner::Failed(e) => {
                return Step::idle(Err(*e));
            },
            _ => {},
        }
        let mut state = ServerCtxInner::Failed(Error { major: 0, minor: 0 });
        core::mem::swap(&mut self.inner, &mut state);
        let (next, step) = match state {
            ServerCtxInner::Uninit(cred) => accepted(cred, None, reply),
            ServerCtxInner::Partial { ctx: _, cred, delegated_cred } => accepted(
                cred,
                delegated_cred,
                reply,
            ),
            other => (other, Step::idle(Ok(None))),
        };
        self.inner = next;
        step
    }

    /// Whether the context is established.
    pub fn is_complete(&self) -> (r: bool)
        ensures
            r == (self@ is Complete),
    {
        match &self.inner {
            ServerCtxInner::Complete { .. } => true,
            _ => false,
        }
    }

    /// Whether the negotiation has failed.
    pub fn is_failed(&self) -> (r: bool)
        ensures
            r == (self@ is Failed),
    {
        match &self.inner {
            ServerCtxInner::Failed(_) => true,
            _ => false,
        }
    }

    /// The credential that the peer delegated, as far as the negotiation has
    /// shown one. Its handle is never null.
    pub fn delegated_cred(&self) -> (r: Option<Cred>)
        ensures
            r == self@.held_delegated(),
            r matches Some(held) ==> held.handle != 0,
    {
        proof {
            use_type_invariant(self);
        }
        match &self.inner {
            ServerCtxInner::Partial { delegated_cred: Some(held), .. } => Some(held.clone()),
            ServerCtxInner::Complete { delegated_cred: Some(held), .. } => Some(held.clone()),
            _ => None,
        }
    }

    /// Ends the context. Returns the context handle that the service must
    /// delete: the one of a partial or complete context, unless it is null. A
    /// context that never got a handle, or lost it in a failure, ends without
    /// one.
    pub fn close(self) -> (r: Option<usize>)
        ensures
            r == spec_delete_ctx(self@.held_ctx()),
            self@ is Uninit || self@ is Failed ==> r is None,
    {
        match self.inner {
            ServerCtxInner::Failed(_) => None,
            ServerCtxInner::Uninit(_) => None,
            ServerCtxInner::Partial { ctx, .. } => delete_ctx(ctx),
            ServerCtxInner::Complete { ctx, .. } => delete_ctx(ctx),
        }
    }
}

/// A complete context stays complete: whatever replies further steps are
/// given, it does not change, it asks for no call of the service, and each of
/// those steps returns `Ok(None)` and leaves nothing to release.
pub proof fn lemma_complete_is_final(s: ServerCtxInner, replies: Seq<AcceptReply>, reply: AcceptReply)
    requires
        s is Complete,
    ensures
        !s.awaits_service(),
        s.after(replies) == s,
        s.after(replies).spec_step(reply) == (s, Step::spec_idle(Ok(None))),
    decreases replies.len(),
{
    if replies.len() > 0 {
        lemma_complete_is_final(s, replies.drop_last(), replies.last());
    }
}

/// A failed context stays failed: whatever replies further steps are given,
/// it does not change, it asks for no call of the service, and each of those
/// steps returns the error of the failure and leaves nothing to release.
pub proof fn lemma_failed_is_final(s: ServerCtxInner, replies: Seq<AcceptReply>, reply: AcceptReply)
    requires
        s is Failed,
    ensures
        !s.awaits_service(),
        s.after(replies) == s,
        s.after(replies).spec_step(reply) == (s, Step::spec_idle(Err(s->Failed_0))),
    decreases replies.len(),
{
    if replies.len() > 0 {
        lemma_failed_is_final(s, replies.drop_last(), replies.last());
    }
}

/// A step of an open context fails exactly on a fatal status, and then
/// returns that status as its error; on any other status it returns `Ok`,
/// with a partial context if the service asked to continue and a complete one
/// if it did not.
pub proof fn lemma_step_follows_status(s: ServerCtxInner, reply: AcceptReply)
    requires
        s.awaits_service(),
    ensures
        ({
            let (next, step) = s.spec_step(reply);
            let class = spec_classify(reply.major);
            &&& next is Failed <==> class == StatusClass::Fatal
            &&& next is Partial <==> class == StatusClass::ContinueNeeded
            &&& next is Complete <==> class == StatusClass::Success
            &&& step.result is Err <==> next is Failed
            &&& next is Failed ==> step.result == Err::<Option<Buf>, Error>(
                Error { major: reply.major, minor: reply.minor },
            ) && next == ServerCtxInner::Failed(Error { major: reply.major, minor: reply.minor })
            &&& next.held_cred() == if next is Partial {
                s.held_cred()
            } else {
                None
            }
        }),
{
}

/// Every foreign resource in a reply ends in exactly one place. A live
/// context handle is either owned by the next state or left for deletion,
/// never both; a filled output token is either returned to the caller or left
/// for release, never both. Null handles and null tokens are left for
/// nobody. A failed step keeps no context at all.
pub proof fn lemma_reply_is_accounted_for(s: ServerCtxInner, reply: AcceptReply)
    requires
        s.awaits_service(),
    ensures
        ({
            let (next, step) = s.spec_step(reply);
            &&& reply.ctx != 0 ==> (next.held_ctx() == reply.ctx) != (step.delete_ctx == Some(
                reply.ctx,
            ))
            &&& reply.ctx == 0 ==> next.held_ctx() == 0 && step.delete_ctx is None
            &&& next is Failed ==> next.held_ctx() == 0 && step.delete_ctx == spec_delete_ctx(
                reply.ctx,
            )
            &&& !reply.out_tok.spec_is_null() ==> (step.result == Ok::<Option<Buf>, Error>(
                Some(reply.out_tok),
            )) != (step.release_tok == Some(reply.out_tok))
            &&& reply.out_tok.spec_is_null() ==> step.release_tok is None
        }),
{
}

/// A delegated credential is wrapped once. If the service reports the handle
/// of the delegated credential that the context already holds, the step makes
/// no new wrapper, and unless it fails the context goes on holding the very
/// credential it held.
pub proof fn lemma_delegated_is_kept(s: ServerCtxInner, reply: AcceptReply)
    requires
        s.wf(),
        s.awaits_service(),
        s.held_delegated() matches Some(held) && held.handle == reply.delegated_cred,
    ensures
        ({
            let (next, step) = s.spec_step(reply);
            &&& step.wrapped_cred is None
            &&& !(next is Failed) ==> next.held_delegated() == s.held_delegated()
        }),
{
}

/// Two consecutive steps that report the same delegated-credential handle
/// share one wrapper: the second step wraps nothing, and what the context
/// holds after it is what it held after the first.
pub proof fn lemma_delegated_is_stable(s: ServerCtxInner, first: AcceptReply, second: AcceptReply)
    requires
        s.awaits_service(),
        first.delegated_cred == second.delegated_cred,
        spec_classify(first.major) == StatusClass::ContinueNeeded,
    ensures
        ({
            let (mid, _) = s.spec_step(first);
            let (next, step) = mid.spec_step(second);
            &&& step.wrapped_cred is None
            &&& !(next is Failed) ==> next.held_delegated() == mid.held_delegated()
        }),
{
}

/// A wrapper is made exactly for a handle that is new to the context: not
/// null, and not the handle of the delegated credential held before. The
/// wrapper made is the credential held afterwards, unless the step fails.
pub proof fn lemma_wrapped_is_new(s: ServerCtxInner, reply: AcceptReply)
    requires
        s.awaits_service(),
    ensures
        ({
            let (next, step) = s.spec_step(reply);
            let held_before = s.held_delegated() matches Some(held) && held.handle
                == reply.delegated_cred;
            &&& step.wrapped_cred is Some <==> reply.delegated_cred != 0 && !held_before
            &&& step.wrapped_cred matches Some(made) ==> made.handle == reply.delegated_cred
            &&& step.wrapped_cred is Some && !(next is Failed) ==> next.held_delegated()
                == step.wrapped_cred
        }),
{
}

/// Steps keep the state well formed: no step makes a context hold a null
/// handle as its delegated credential.
pub proof fn lemma_step_keeps_wf(s: ServerCtxInner, reply: AcceptReply)
    requires
        s.wf(),
    ensures
        s.spec_step(reply).0.wf(),
{
}

/// A context handle is given up at most once. Over any run of steps and the
/// closing of the context after them, at most one handle is left for
/// deletion: either one step left it, and then the context is failed and
/// closes without a handle, or no step did, and closing leaves the handle
/// that the context holds, if it holds one.
pub proof fn lemma_context_deleted_at_most_once(s: ServerCtxInner, replies: Seq<AcceptReply>)
    ensures
        s.deleted(replies).len() <= 1,
        s.deleted(replies).len() == 1 ==> s.after(replies) is Failed && spec_delete_ctx(
            s.after(replies).held_ctx(),
        ) is None,
        forall|i: int| 0 <= i < s.deleted(replies).len() ==> s.deleted(replies)[i] != 0,
    decreases replies.len(),
{
    if replies.len() > 0 {
        lemma_context_deleted_at_most_once(s, replies.drop_last());
    }
}

} // verus!
