//! The initiating side of a negotiation.
//!
//! An initiator starts out holding only the credential it initiates with. Its
//! first step has no token from the peer and produces the first token for it;
//! every later step consumes the peer's answer. [`ClientCtxInner`] is the
//! state as a mathematical value together with the transition relation;
//! [`ClientCtx`] is the executable context, whose view is such a state.
use crate::buffer::{Buf, BufRef};
use crate::context::{delete_ctx, settle, spec_delete_ctx, spec_settle, Plan, Step};
use crate::cred::Cred;
use crate::error::Error;
use crate::status::{classify, spec_classify, StatusClass};
use vstd::prelude::*;

verus! {

/// The arguments of one call of the service's initiate operation.
#[derive(Debug)]
pub struct InitCall<'a> {
    /// The context to continue, null for the first round.
    pub ctx: usize,
    /// Handle of the credential to initiate with.
    pub cred: usize,
    /// The token received from the peer, absent in the first round.
    pub tok: Option<BufRef<'a>>,
}

/// What the service's initiate operation answered.
#[derive(Debug)]
pub struct InitReply {
    /// The primary status word.
    pub major: u32,
    /// The secondary status word.
    pub minor: u32,
    /// The context handle as the service left it.
    pub ctx: usize,
    /// The token to send to the peer, null if the service produced none.
    pub out_tok: Buf,
}

/// The state of an initiating context.
#[derive(Debug, PartialEq, Eq)]
pub enum ClientCtxInner {
    /// The negotiation failed; the error is final.
    Failed(Error),
    /// No token has been produced yet.
    Uninit(Cred),
    /// The service holds a context that needs at least one more token.
    Partial {
        /// The service's handle for the context.
        ctx: usize,
        /// The credential the context is initiated with.
        cred: Cred,
    },
    /// The context is established; the field is the service's handle for it.
    Complete(usize),
}

/// The state and the outcome that follow from the service's reply when the
/// context was open for one, initiating with `cred`. The status decides the
/// state, and the reply is settled as on either side of a negotiation.
pub open spec fn spec_initiated(cred: Cred, reply: InitReply) -> (ClientCtxInner, Step) {
    let step = spec_settle(reply.major, reply.minor, reply.ctx, reply.out_tok);
    match spec_classify(reply.major) {
        StatusClass::Fatal => (
            ClientCtxInner::Failed(Error { major: reply.major, minor: reply.minor }),
            step,
        ),
        StatusClass::ContinueNeeded => (ClientCtxInner::Partial { ctx: reply.ctx, cred }, step),
        StatusClass::Success => (ClientCtxInner::Complete(reply.ctx), step),
    }
}

/// Reads the service's reply for a context that was open for one.
fn initiated(cred: Cred, reply: InitReply) -> (r: (ClientCtxInner, Step))
    ensures
        r == spec_initiated(cred, reply),
{
    let InitReply { major, minor, ctx, out_tok } = reply;
    let step = settle(major, minor, ctx, out_tok);
    let next = match classify(major) {
        StatusClass::Fatal => ClientCtxInner::Failed(Error { major, minor }),
        StatusClass::ContinueNeeded => ClientCtxInner::Partial { ctx, cred },
        StatusClass::Success => ClientCtxInner::Complete(ctx),
    };
    (next, step)
}

impl ClientCtxInner {
    /// Whether a step of this state calls the service: true until the
    /// negotiation is complete or has failed.
    pub open spec fn awaits_service(self) -> bool {
        self is Uninit || self is Partial
    }

    /// The context handle this state owns, null if it owns none.
    pub open spec fn held_ctx(self) -> usize {
        match self {
            ClientCtxInner::Partial { ctx, .. } => ctx,
            ClientCtxInner::Complete(ctx) => ctx,
            _ => 0,
        }
    }

    /// The credential this state initiates with, while it still negotiates.
    pub open spec fn held_cred(self) -> Option<Cred> {
        match self {
            ClientCtxInner::Uninit(cred) => Some(cred),
            ClientCtxInner::Partial { cred, .. } => Some(cred),
            _ => None,
        }
    }

    /// What a finished negotiation answers to every further step: nothing
    /// once complete, the stored error once failed.
    pub open spec fn replay(self) -> Result<Option<Buf>, Error> {
        match self {
            ClientCtxInner::Failed(e) => Err(e),
            _ => Ok(None),
        }
    }

    /// The state after a step that was given `reply`, and what the step leaves
    /// for its caller. A finished negotiation does not look at the reply: it
    /// stays as it is and answers as it did.
    pub open spec fn spec_step(self, reply: InitReply) -> (ClientCtxInner, Step) {
        match self {
            ClientCtxInner::Complete(_) => (self, Step::spec_idle(self.replay())),
            ClientCtxInner::Failed(_) => (self, Step::spec_idle(self.replay())),
            ClientCtxInner::Uninit(cred) => spec_initiated(cred, reply),
            ClientCtxInner::Partial { cred, .. } => spec_initiated(cred, reply),
        }
    }

    /// The state after one step for each of `replies`, in order.
    pub open spec fn after(self, replies: Seq<InitReply>) -> ClientCtxInner
        decreases replies.len(),
    {
        if replies.len() == 0 {
            self
        } else {
            self.after(replies.drop_last()).spec_step(replies.last()).0
        }
    }

    /// The context handles that the steps for `replies` leave for deletion,
    /// in the order of the steps.
    pub open spec fn deleted(self, replies: Seq<InitReply>) -> Seq<usize>
        decreases replies.len(),
    {
        if replies.len() == 0 {
            Seq::empty()
        } else {
            let before = self.deleted(replies.drop_last());
            match self.after(replies.drop_last()).spec_step(replies.last()).1.delete_ctx {
                Some(ctx) => before.push(ctx),
                None => before,
            }
        }
    }
}

/// An initiating security context.
#[derive(Debug)]
pub struct ClientCtx {
    inner: ClientCtxInner,
}

impl View for ClientCtx {
    type V = ClientCtxInner;

    closed spec fn view(&self) -> ClientCtxInner {
        self.inner
    }
}

impl ClientCtx {
    /// A context that has not produced a token yet and will initiate with
    /// `cred`.
    pub fn new(cred: Cred) -> (r: ClientCtx)
        ensures
            r@ == ClientCtxInner::Uninit(cred),
    {
        ClientCtx { inner: ClientCtxInner::Uninit(cred) }
    }

    /// First half of a step, for the peer's token `tok` if there is one: the
    /// call to make to the service, or, when the negotiation is finished, the
    /// value to return without calling it.
    pub fn plan<'a>(&self, tok: Option<&'a [u8]>) -> (r: Plan<InitCall<'a>>)
        ensures
            r is Call <==> self@.awaits_service(),
            r matches Plan::Call(c) ==> {
                &&& c.ctx == self@.held_ctx()
                &&& Some(Cred { handle: c.cred }) == self@.held_cred()
                &&& c.tok is Some <==> tok is Some
                &&& c.tok matches Some(lent) ==> lent@ == tok->0@
            },
            r matches Plan::Return(res) ==> res == self@.replay(),
    {
        let lent = match tok {
            Some(bytes) => Some(BufRef::new(bytes)),
            None => None,
        };
        match &self.inner {
            ClientCtxInner::Uninit(cred) => Plan::Call(
                InitCall { ctx: 0, cred: cred.handle, tok: lent },
            ),
            ClientCtxInner::Partial { ctx, cred } => Plan::Call(
                InitCall { ctx: *ctx, cred: cred.handle, tok: lent },
            ),
            ClientCtxInner::Complete(_) => Plan::Return(Ok(None)),
            ClientCtxInner::Failed(e) => Plan::Return(Err(*e)),
        }
    }

    /// Second half of a step: reads the service's reply and moves on.
    ///
    /// * An error in the primary status fails the negotiation for good: the
    ///   context handle of the reply is left for deletion, the output token
    ///   for release, and the error is returned.
    /// * A status that asks to continue makes the context partial and returns
    ///   the output token, empty or not.
    /// * Any other status completes the context; the output token is returned
    ///   if it holds at least one byte.
    ///
    /// A negotiation that is already complete returns `Ok(None)`, one that has
    /// failed returns its error again; neither changes, and neither takes
    /// anything from the reply.
    pub fn step(&mut self, reply: InitReply) -> (r: Step)
        ensures
            (final(self)@, r) == old(self)@.spec_step(reply),
            r.wrapped_cred is None,
    {
        match &self.inner {
            ClientCtxInner::Complete(_) => {
                return Step::idle(Ok(None));
            },
            ClientCtxInner::Failed(e) => {
                return Step::idle(Err(*e));
            },
            _ => {},
        }
        let mut state = ClientCtxInner::Failed(Error { major: 0, minor: 0 });
        core::mem::swap(&mut self.inner, &mut state);
        let (next, step) = match state {
            ClientCtxInner::Uninit(cred) => initiated(cred, reply),
            ClientCtxInner::Partial { ctx: _, cred } => initiated(cred, reply),
            other => (other, Step::idle(Ok(None))),
        };
        self.inner = next;
        step
    }

    /// Whether the context is established.
    pub fn is_complete(&self) -> (r: bool)
        ensures
            r == (self@ is Complete),
    {
        match &self.inner {
            ClientCtxInner::Complete(_) => true,
            _ => false,
        }
    }

    /// Whether the negotiation has failed.
    pub fn is_failed(&self) -> (r: bool)
        ensures
            r == (self@ is Failed),
    {
        match &self.inner {
            ClientCtxInner::Failed(_) => true,
            _ => false,
        }
    }

    /// Ends the context. Returns the context handle that the service must
    /// delete: the one of a partial or complete context, unless it is null. A
    /// context that never got a handle, or lost it in a failure, ends without
    /// one.
    pub fn close(self) -> (r: Option<usize>)
        ensures
            r == spec_delete_ctx(self@.held_ctx()),
            self@ is Uninit || self@ is Failed ==> r is None,
    {
        match self.inner {
            ClientCtxInner::Failed(_) => None,
            ClientCtxInner::Uninit(_) => None,
            ClientCtxInner::Partial { ctx, .. } => delete_ctx(ctx),
            ClientCtxInner::Complete(ctx) => delete_ctx(ctx),
        }
    }
}

/// A complete context stays complete: whatever replies further steps are
/// given, it does not change, it asks for no call of the service, and each of
/// those steps returns `Ok(None)` and leaves nothing to release.
pub proof fn lemma_complete_is_final(s: ClientCtxInner, replies: Seq<InitReply>, reply: InitReply)
    requires
        s is Complete,
    ensures
        !s.awaits_service(),
        s.after(replies) == s,
        s.after(replies).spec_step(reply) == (s, Step::spec_idle(Ok(None))),
    decreases replies.len(),
{
    if replies.len() > 0 {
        lemma_complete_is_final(s, replies.drop_last(), replies.last());
    }
}

/// A failed context stays failed: whatever replies further steps are given,
/// it does not change, it asks for no call of the service, and each of those
/// steps returns the error of the failure and leaves nothing to release.
pub proof fn lemma_failed_is_final(s: ClientCtxInner, replies: Seq<InitReply>, reply: InitReply)
    requires
        s is Failed,
    ensures
        !s.awaits_service(),
        s.after(replies) == s,
        s.after(replies).spec_step(reply) == (s, Step::spec_idle(Err(s->Failed_0))),
    decreases replies.len(),
{
    if replies.len() > 0 {
        lemma_failed_is_final(s, replies.drop_last(), replies.last());
    }
}

/// A step of an open context fails exactly on a fatal status, and then
/// returns that status as its error; on any other status it returns `Ok`,
/// with a partial context if the service asked to continue and a complete one
/// if it did not. No step of an initiator wraps a credential.
pub proof fn lemma_step_follows_status(s: ClientCtxInner, reply: InitReply)
    requires
        s.awaits_service(),
    ensures
        ({
            let (next, step) = s.spec_step(reply);
            let class = spec_classify(reply.major);
            &&& next is Failed <==> class == StatusClass::Fatal
            &&& next is Partial <==> class == StatusClass::ContinueNeeded
            &&& next is Complete <==> class == StatusClass::Success
            &&& step.result is Err <==> next is Failed
            &&& next is Failed ==> step.result == Err::<Option<Buf>, Error>(
                Error { major: reply.major, minor: reply.minor },
            ) && next == ClientCtxInner::Failed(Error { major: reply.major, minor: reply.minor })
            &&& next.held_cred() == if next is Partial {
                s.held_cred()
            } else {
                None
            }
            &&& step.wrapped_cred is None
        }),
{
}

/// Every foreign resource in a reply ends in exactly one place. A live
/// context handle is either owned by the next state or left for deletion,
/// never both; a filled output token is either returned to the caller or left
/// for release, never both. Null handles and null tokens are left for
/// nobody. A failed step keeps no context at all.
pub proof fn lemma_reply_is_accounted_for(s: ClientCtxInner, reply: InitReply)
    requires
        s.awaits_service(),
    ensures
        ({
            let (next, step) = s.spec_step(reply);
            &&& reply.ctx != 0 ==> (next.held_ctx() == reply.ctx) != (step.delete_ctx == Some(
                reply.ctx,
            ))
            &&& reply.ctx == 0 ==> next.held_ctx() == 0 && step.delete_ctx is None
            &&& next is Failed ==> next.held_ctx() == 0 && step.delete_ctx == spec_delete_ctx(
                reply.ctx,
            )
            &&& !reply.out_tok.spec_is_null() ==> (step.result == Ok::<Option<Buf>, Error>(
                Some(reply.out_tok),
            )) != (step.release_tok == Some(reply.out_tok))
            &&& reply.out_tok.spec_is_null() ==> step.release_tok is None
        }),
{
}

/// A context handle is given up at most once. Over any run of steps and the
/// closing of the context after them, at most one handle is left for
/// deletion: either one step left it, and then the context is failed and
/// closes without a handle, or no step did, and closing leaves the handle
/// that the context holds, if it holds one.
pub proof fn lemma_context_deleted_at_most_once(s: ClientCtxInner, replies: Seq<InitReply>)
    ensures
        s.deleted(replies).len() <= 1,
        s.deleted(replies).len() == 1 ==> s.after(replies) is Failed && spec_delete_ctx(
            s.after(replies).held_ctx(),
        ) is None,
        forall|i: int| 0 <= i < s.deleted(replies).len() ==> s.deleted(replies)[i] != 0,
    decreases replies.len(),
{
    if replies.len() > 0 {
        lemma_context_deleted_at_most_once(s, replies.drop_last());
    }
}

} // verus!
