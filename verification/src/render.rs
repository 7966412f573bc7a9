//! Rendering of status words as text.
//!
//! The service describes a status word in one or more messages. Each query
//! carries a cursor, zero at first; each reply carries the cursor for the next
//! query, and zero once there is nothing more to say. [`CodeText`] drives that
//! exchange for one status word and collects the lines; [`ErrorText`] does so
//! for the two words of an [`Error`], the primary word first.
use crate::error::Error;
use crate::status::{GSS_C_GSS_CODE, GSS_S_COMPLETE};
use crate::text::{decimal, from_utf8_lossy, lossy_text, push_decimal};
use vstd::prelude::*;

verus! {

/// The arguments of one call of the service's status-description operation.
#[derive(Clone, Copy, Debug, PartialEq, Eq, Structural)]
pub struct DisplayCall {
    /// The status word to describe.
    pub code: u32,
    /// How the service is to read `code`.
    pub status_type: u32,
    /// The cursor: zero for the first message, and then whatever the previous
    /// reply held.
    pub message_context: u32,
}

/// What the service's status-description operation answered.
#[derive(Clone, Copy, Debug)]
pub struct DisplayReply<'a> {
    /// The primary status word of the description call itself.
    pub major: u32,
    /// The bytes of the message.
    pub message: &'a [u8],
    /// The cursor for the next query, zero after the last message.
    pub message_context: u32,
}

/// A reply of the status-description operation, as a mathematical value.
pub struct Described {
    /// The primary status word of the description call itself.
    pub major: u32,
    /// The bytes of the message.
    pub message: Seq<u8>,
    /// The cursor for the next query, zero after the last message.
    pub message_context: u32,
}

impl<'a> View for DisplayReply<'a> {
    type V = Described;

    open spec fn view(&self) -> Described {
        Described {
            major: self.major,
            message: self.message@,
            message_context: self.message_context,
        }
    }
}

/// The line for one message of the service.
pub open spec fn message_line(message: Seq<u8>) -> Seq<char> {
    "gssapi error "@ + lossy_text(message) + "\n"@
}

/// The line for a status word that the service could not describe.
pub open spec fn unknown_line(code: u32) -> Seq<char> {
    "gssapi unknown error code "@ + decimal(code as nat) + "\n"@
}

/// The lines for the messages of `replies`, in their order.
pub open spec fn message_lines(replies: Seq<Described>) -> Seq<char>
    decreases replies.len(),
{
    if replies.len() == 0 {
        Seq::empty()
    } else {
        message_lines(replies.drop_last()) + message_line(replies.last().message)
    }
}

/// The rendering of one status word, as a mathematical value.
pub struct Rendering {
    /// The status word that is rendered.
    pub code: u32,
    /// The cursor for the next query.
    pub message_context: u32,
    /// The lines collected so far.
    pub text: Seq<char>,
    /// Whether the rendering is finished and no further query is due.
    pub done: bool,
}

impl Rendering {
    /// The rendering of `code` before the first query.
    pub open spec fn start(code: u32) -> Rendering {
        Rendering { code, message_context: 0, text: Seq::empty(), done: false }
    }

    /// The query that is due, if any.
    pub open spec fn pending(self) -> Option<DisplayCall> {
        if self.done {
            None
        } else {
            Some(
                DisplayCall {
                    code: self.code,
                    status_type: GSS_C_GSS_CODE,
                    message_context: self.message_context,
                },
            )
        }
    }

    /// The rendering after `reply`. A successful reply adds its message as a
    /// line and hands on its cursor; the rendering is finished when that
    /// cursor is zero. A failed reply adds the line for an unknown status word
    /// and finishes the rendering at once. A finished rendering ignores
    /// replies.
    pub open spec fn fed(self, reply: Described) -> Rendering {
        if self.done {
            self
        } else if reply.major == GSS_S_COMPLETE {
            Rendering {
                code: self.code,
                message_context: reply.message_context,
                text: self.text + message_line(reply.message),
                done: reply.message_context == 0,
            }
        } else {
            Rendering {
                code: self.code,
                message_context: self.message_context,
                text: self.text + unknown_line(self.code),
                done: true,
            }
        }
    }

    /// The rendering after each of `replies`, in order.
    pub open spec fn fed_all(self, replies: Seq<Described>) -> Rendering
        decreases replies.len(),
    {
        if replies.len() == 0 {
            self
        } else {
            self.fed_all(replies.drop_last()).fed(replies.last())
        }
    }
}

/// The text of one status word, in the making.
#[derive(Debug)]
pub struct CodeText {
    code: u32,
    message_context: u32,
    text: String,
    done: bool,
}

impl View for CodeText {
    type V = Rendering;

    closed spec fn view(&self) -> Rendering {
        Rendering {
            code: self.code,
            message_context: self.message_context,
            text: self.text@,
            done: self.done,
        }
    }
}

impl CodeText {
    /// Starts the rendering of `code`: no text yet, first query due.
    pub fn new(code: u32) -> (r: CodeText)
        ensures
            r@ == Rendering::start(code),
    {
        CodeText { code, message_context: 0, text: String::new(), done: false }
    }

    /// The query to put to the service next, or `None` when the rendering is
    /// finished.
    pub fn call(&self) -> (r: Option<DisplayCall>)
        ensures
            r == self@.pending(),
            r is None <==> self@.done,
    {
        if self.done {
            None
        } else {
            Some(
                DisplayCall {
                    code: self.code,
                    status_type: GSS_C_GSS_CODE,
                    message_context: self.message_context,
                },
            )
        }
    }

    /// Takes in the service's reply to the query that was due.
    pub fn feed(&mut self, reply: DisplayReply<'_>)
        ensures
            final(self)@ == old(self)@.fed(reply@),
    {
        if self.done {
            return ;
        }
        if reply.major == GSS_S_COMPLETE {
            let message = from_utf8_lossy(reply.message);
            self.text.append("gssapi error ");
            self.text.append(message.as_str());
            self.text.append("\n");
            self.message_context = reply.message_context;
            self.done = reply.message_context == 0;
            assert(self.text@ =~= old(self).text@ + message_line(reply.message@));
        } else {
            self.text.append("gssapi unknown error code ");
            push_decimal(&mut self.text, self.code);
            self.text.append("\n");
            self.done = true;
            assert(self.text@ =~= old(self).text@ + unknown_line(self.code));
        }
    }

    /// Whether the rendering is finished.
    pub fn is_done(&self) -> (r: bool)
        ensures
            r == self@.done,
    {
        self.done
    }

    /// The lines collected so far.
    pub fn into_string(self) -> (r: String)
        ensures
            r@ == self@.text,
    {
        self.text
    }
}

/// The rendering of an error, as a mathematical value: that of its primary
/// word, followed by that of its secondary word.
pub struct ErrorRendering {
    /// The rendering of the primary status word.
    pub major: Rendering,
    /// The rendering of the secondary status word.
    pub minor: Rendering,
}

impl ErrorRendering {
    /// The rendering of `e` before the first query.
    pub open spec fn start(e: Error) -> ErrorRendering {
        ErrorRendering { major: Rendering::start(e.major), minor: Rendering::start(e.minor) }
    }

    /// The query that is due, if any: the primary word is rendered to its end
    /// before the secondary word is begun.
    pub open spec fn pending(self) -> Option<DisplayCall> {
        if !self.major.done {
            self.major.pending()
        } else {
            self.minor.pending()
        }
    }

    /// The rendering after `reply`, which goes to the word whose query was
    /// due.
    pub open spec fn fed(self, reply: Described) -> ErrorRendering {
        if !self.major.done {
            ErrorRendering { major: self.major.fed(reply), minor: self.minor }
        } else {
            ErrorRendering { major: self.major, minor: self.minor.fed(reply) }
        }
    }

    /// The rendering after each of `replies`, in order.
    pub open spec fn fed_all(self, replies: Seq<Described>) -> ErrorRendering
        decreases replies.len(),
    {
        if replies.len() == 0 {
            self
        } else {
            self.fed_all(replies.drop_last()).fed(replies.last())
        }
    }

    /// Whether both words are rendered to their end.
    pub open spec fn done(self) -> bool {
        self.major.done && self.minor.done
    }

    /// The text so far: the lines of the primary word, then those of the
    /// secondary word.
    pub open spec fn text(self) -> Seq<char> {
        self.major.text + self.minor.text
    }
}

/// The text of an error, in the making.
#[derive(Debug)]
pub struct ErrorText {
    major: CodeText,
    minor: CodeText,
}

impl View for ErrorText {
    type V = ErrorRendering;

    closed spec fn view(&self) -> ErrorRendering {
        ErrorRendering { major: self.major@, minor: self.minor@ }
    }
}

impl ErrorText {
    /// The query to put to the service next, or `None` when both status words
    /// are rendered.
    pub fn call(&self) -> (r: Option<DisplayCall>)
        ensures
            r == self@.pending(),
            r is None <==> self@.done(),
    {
        if !self.major.is_done() {
            self.major.call()
        } else {
            self.minor.call()
        }
    }

    /// Takes in the service's reply to the query that was due.
    pub fn feed(&mut self, reply: DisplayReply<'_>)
        ensures
            final(self)@ == old(self)@.fed(reply@),
    {
        if !self.major.is_done() {
            self.major.feed(reply);
        } else {
            self.minor.feed(reply);
        }
    }

    /// Whether both status words are rendered.
    pub fn is_done(&self) -> (r: bool)
        ensures
            r == self@.done(),
    {
        self.major.is_done() && self.minor.is_done()
    }

    /// The text collected so far.
    pub fn into_string(self) -> (r: String)
        ensures
            r@ == self@.text(),
    {
        let ErrorText { major, minor } = self;
        let tail = minor.into_string();
        major.into_string().concat(tail.as_str())
    }
}

impl Error {
    /// Starts the rendering of the status word `code`.
    pub fn fmt_code(code: u32) -> (r: CodeText)
        ensures
            r@ == Rendering::start(code),
    {
        CodeText::new(code)
    }

    /// Starts the rendering of this error: its primary word, then its
    /// secondary word.
    pub fn fmt(&self) -> (r: ErrorText)
        ensures
            r@ == ErrorRendering::start(*self),
    {
        ErrorText { major: Error::fmt_code(self.major), minor: Error::fmt_code(self.minor) }
    }
}

/// While the service keeps answering with success and a cursor that is not
/// zero, the rendering stays open, holds one line for each message in the
/// order of the replies, and carries the cursor of the latest reply.
pub proof fn lemma_open_while_cursor_set(code: u32, replies: Seq<Described>)
    requires
        forall|i: int|
            0 <= i < replies.len() ==> (#[trigger] replies[i]).major == GSS_S_COMPLETE
                && replies[i].message_context != 0,
    ensures
        Rendering::start(code).fed_all(replies) == (Rendering {
            code,
            message_context: if replies.len() == 0 {
                0
            } else {
                replies.last().message_context
            },
            text: message_lines(replies),
            done: false,
        }),
    decreases replies.len(),
{
    if replies.len() > 0 {
        let front = replies.drop_last();
        assert forall|i: int| 0 <= i < front.len() implies (#[trigger] front[i]).major
            == GSS_S_COMPLETE && front[i].message_context != 0 by {
            assert(front[i] == replies[i]);
        }
        lemma_open_while_cursor_set(code, front);
    }
}

/// A status word that is described in several messages is rendered as all of
/// them, in order, and the rendering ends exactly when the cursor returns to
/// zero: it is finished after the last reply and after none before it. Each
/// query carries the cursor of the reply before it, the first one zero.
pub proof fn lemma_messages_concatenate(code: u32, replies: Seq<Described>)
    requires
        replies.len() > 0,
        forall|i: int| 0 <= i < replies.len() ==> (#[trigger] replies[i]).major == GSS_S_COMPLETE,
        forall|i: int| 0 <= i < replies.len() - 1 ==> (#[trigger] replies[i]).message_context != 0,
        replies.last().message_context == 0,
    ensures
        Rendering::start(code).fed_all(replies).done,
        Rendering::start(code).fed_all(replies).text == message_lines(replies),
        Rendering::start(code).fed_all(replies).pending() is None,
        forall|k: int|
            0 <= k < replies.len() ==> (#[trigger] Rendering::start(code).fed_all(
                replies.take(k),
            )).pending() == Some(
                DisplayCall {
                    code,
                    status_type: GSS_C_GSS_CODE,
                    message_context: if k == 0 {
                        0
                    } else {
                        replies[k - 1].message_context
                    },
                },
            ),
{
    let front = replies.drop_last();
    assert forall|k: int| 0 <= k < replies.len() implies (#[trigger] Rendering::start(
        code,
    ).fed_all(replies.take(k))).pending() == Some(
        DisplayCall {
            code,
            status_type: GSS_C_GSS_CODE,
            message_context: if k == 0 {
                0
            } else {
                replies[k - 1].message_context
            },
        },
    ) by {
        let head = replies.take(k);
        assert forall|i: int| 0 <= i < head.len() implies (#[trigger] head[i]).major
            == GSS_S_COMPLETE && head[i].message_context != 0 by {
            assert(head[i] == replies[i]);
        }
        lemma_open_while_cursor_set(code, head);
        if k > 0 {
            assert(head.last() == replies[k - 1]);
        }
    }
    assert(front =~= replies.take(replies.len() - 1));
    assert forall|i: int| 0 <= i < front.len() implies (#[trigger] front[i]).major
        == GSS_S_COMPLETE && front[i].message_context != 0 by {
        assert(front[i] == replies[i]);
    }
    lemma_open_while_cursor_set(code, front);
}

/// A status word that the service cannot describe does not keep the rendering
/// going: the first failed reply adds the line for an unknown status word,
/// after the lines of the messages before it, and finishes the rendering.
pub proof fn lemma_unknown_code_ends(code: u32, replies: Seq<Described>, failed: Described)
    requires
        forall|i: int|
            0 <= i < replies.len() ==> (#[trigger] replies[i]).major == GSS_S_COMPLETE
                && replies[i].message_context != 0,
        failed.major != GSS_S_COMPLETE,
    ensures
        Rendering::start(code).fed_all(replies.push(failed)).done,
        Rendering::start(code).fed_all(replies.push(failed)).text == message_lines(replies)
            + unknown_line(code),
{
    lemma_open_while_cursor_set(code, replies);
    assert(replies.push(failed).drop_last() =~= replies);
}

/// A finished rendering is final: further replies change neither its text nor
/// anything else, and no query is due.
pub proof fn lemma_done_is_final(r: Rendering, replies: Seq<Described>)
    requires
        r.done,
    ensures
        r.fed_all(replies) == r,
        r.pending() is None,
    decreases replies.len(),
{
    if replies.len() > 0 {
        lemma_done_is_final(r, replies.drop_last());
    }
}

/// Feeding replies one after the other is feeding them all: the rendering
/// after `first + second` is the rendering after `first`, fed `second`.
pub proof fn lemma_fed_all_splits(r: ErrorRendering, first: Seq<Described>, second: Seq<Described>)
    ensures
        r.fed_all(first + second) == r.fed_all(first).fed_all(second),
    decreases second.len(),
{
    if second.len() == 0 {
        assert(first + second =~= first);
    } else {
        assert((first + second).drop_last() =~= first + second.drop_last());
        assert((first + second).last() == second.last());
        lemma_fed_all_splits(r, first, second.drop_last());
    }
}

/// While the primary word is still being rendered, every reply goes to it
/// and the secondary word is untouched.
proof fn lemma_major_first(e: Error, replies: Seq<Described>)
    requires
        forall|k: int|
            0 <= k < replies.len() ==> !(#[trigger] Rendering::start(e.major).fed_all(
                replies.take(k),
            )).done,
    ensures
        ErrorRendering::start(e).fed_all(replies) == (ErrorRendering {
            major: Rendering::start(e.major).fed_all(replies),
            minor: Rendering::start(e.minor),
        }),
    decreases replies.len(),
{
    if replies.len() > 0 {
        let front = replies.drop_last();
        assert forall|k: int| 0 <= k < front.len() implies !(#[trigger] Rendering::start(
            e.major,
        ).fed_all(front.take(k))).done by {
            assert(front.take(k) =~= replies.take(k));
        }
        lemma_major_first(e, front);
        assert(front =~= replies.take(replies.len() - 1));
    }
}

/// Once the primary word is rendered, every reply goes to the secondary word.
proof fn lemma_minor_second(r: ErrorRendering, replies: Seq<Described>)
    requires
        r.major.done,
    ensures
        r.fed_all(replies) == (ErrorRendering {
            major: r.major,
            minor: r.minor.fed_all(replies),
        }),
    decreases replies.len(),
{
    if replies.len() > 0 {
        lemma_minor_second(r, replies.drop_last());
    }
}

/// An error is rendered as the messages of its primary word followed by the
/// messages of its secondary word, and the rendering is finished when the
/// cursor has returned to zero for both.
pub proof fn lemma_error_text(e: Error, major: Seq<Described>, minor: Seq<Described>)
    requires
        major.len() > 0,
        forall|i: int| 0 <= i < major.len() ==> (#[trigger] major[i]).major == GSS_S_COMPLETE,
        forall|i: int| 0 <= i < major.len() - 1 ==> (#[trigger] major[i]).message_context != 0,
        major.last().message_context == 0,
        minor.len() > 0,
        forall|i: int| 0 <= i < minor.len() ==> (#[trigger] minor[i]).major == GSS_S_COMPLETE,
        forall|i: int| 0 <= i < minor.len() - 1 ==> (#[trigger] minor[i]).message_context != 0,
        minor.last().message_context == 0,
    ensures
        ErrorRendering::start(e).fed_all(major + minor).done(),
        ErrorRendering::start(e).fed_all(major + minor).text() == message_lines(major)
            + message_lines(minor),
{
    lemma_messages_concatenate(e.major, major);
    lemma_messages_concatenate(e.minor, minor);
    lemma_major_first(e, major);
    lemma_fed_all_splits(ErrorRendering::start(e), major, minor);
    lemma_minor_second(ErrorRendering::start(e).fed_all(major), minor);
}

} // verus!
