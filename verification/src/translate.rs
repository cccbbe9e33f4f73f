//! The error translator: what the reply to a call says of it, as a value or as
//! a message.
//!
//! A call can fail in three ways. The engine does not offer the operation; the
//! call returns a status that is not zero; or the call hands back what is of
//! no use, bytes that are no text or a null handle. Each becomes a message, and
//! nothing else tells them apart. For a status that is not zero the message is
//! the engine's own text, which takes one more call to look up.

use crate::native::{outcome, Call, CallModel, Handle, Operation, Plan, Reply, ReplyModel, Step};
use crate::text::{decode, decoded, missing_message, missing_text, no_handle_message,
    no_handle_text, undecodable_message, undecodable_text};
use vstd::prelude::*;
use vstd::slice::slice_subrange;

verus! {

/// The engine's text for a status, from the reply to the call that looks it
/// up.
pub open spec fn native_text(described: ReplyModel) -> Seq<char> {
    match described {
        ReplyModel::Missing => missing_text(Operation::Strerror),
        ReplyModel::Returned { text, .. } => match decoded(text) {
            Some(text) => text,
            None => undecodable_text(Operation::Strerror),
        },
    }
}

/// What the reply to a call that returns no status says of it: the call was
/// made, or the engine does not offer it.
pub open spec fn offered(operation: Operation, reply: ReplyModel) -> Result<(), Seq<char>> {
    match reply {
        ReplyModel::Missing => Err(missing_text(operation)),
        ReplyModel::Returned { .. } => Ok(()),
    }
}

/// What the reply to a call that returns a status says of it, given the
/// replies that came after it. A status that is not zero is looked up with the
/// engine, and the reply to that is the first of `later`.
pub open spec fn translated(operation: Operation, reply: ReplyModel, later: Seq<ReplyModel>)
    -> Plan<Result<(), Seq<char>>> {
    match reply {
        ReplyModel::Missing => Plan::Done(Err(missing_text(operation))),
        ReplyModel::Returned { status, .. } => if status == 0 {
            Plan::Done(Ok(()))
        } else if later.len() == 0 {
            Plan::Invoke(CallModel::Strerror { status })
        } else {
            Plan::Done(Err(native_text(later[0])))
        },
    }
}

/// What the reply to a call that yields a handle says of it: the handle that
/// the call wrote, once the call has succeeded. A call that reports success and
/// wrote a null handle has failed, with a message of its own.
pub open spec fn yielded_handle(operation: Operation, reply: ReplyModel, later: Seq<ReplyModel>)
    -> Plan<Result<Handle, Seq<char>>> {
    match translated(operation, reply, later) {
        Plan::Invoke(call) => Plan::Invoke(call),
        Plan::Done(Err(message)) => Plan::Done(Err(message)),
        Plan::Done(Ok(_)) => if reply->handle.is_null() {
            Plan::Done(Err(no_handle_text(operation)))
        } else {
            Plan::Done(Ok(reply->handle))
        },
    }
}

/// The text that a reply holds, or the message that its bytes are none.
pub open spec fn text_of(operation: Operation, reply: ReplyModel) -> Result<
    Seq<char>,
    Seq<char>,
> {
    match decoded(reply->text) {
        Some(text) => Ok(text),
        None => Err(undecodable_text(operation)),
    }
}

/// What the reply to a call that yields a string says of it: the text that
/// the call wrote, once the call has succeeded.
pub open spec fn yielded_text(operation: Operation, reply: ReplyModel, later: Seq<ReplyModel>)
    -> Plan<Result<Seq<char>, Seq<char>>> {
    match translated(operation, reply, later) {
        Plan::Invoke(call) => Plan::Invoke(call),
        Plan::Done(Err(message)) => Plan::Done(Err(message)),
        Plan::Done(Ok(_)) => Plan::Done(text_of(operation, reply)),
    }
}

/// The message for a status that is not zero: the engine's own text for it,
/// from the reply to the call that looks it up.
pub fn native_message(described: &Reply) -> (message: String)
    ensures
        message@ == native_text(described@),
{
    match described {
        Reply::Missing => missing_message(Operation::Strerror),
        Reply::Returned { text, .. } => match decode(text.as_slice()) {
            Some(text) => text,
            None => undecodable_message(Operation::Strerror),
        },
    }
}

/// Judges the reply to a call that returns no status. Such a call cannot
/// report a failure of its own: it fails only where the engine does not offer
/// it.
pub fn gate(operation: Operation, reply: &Reply) -> (result: Result<(), String>)
    ensures
        outcome(result) == offered(operation, reply@),
{
    match reply {
        Reply::Missing => Err(missing_message(operation)),
        Reply::Returned { .. } => Ok(()),
    }
}

/// Judges the reply to a call that returns a status: the call succeeded, or
/// why it did not. `later` holds the replies that came after `reply`.
pub fn translate(operation: Operation, reply: &Reply, later: &[Reply]) -> (step: Step<
    Result<(), String>,
>)
    ensures
        step@ == translated(operation, reply@, later.deep_view()),
{
    match reply {
        Reply::Missing => Step::Done(Err(missing_message(operation))),
        Reply::Returned { status, .. } => {
            if *status == 0 {
                Step::Done(Ok(()))
            } else if later.len() == 0 {
                Step::Invoke(Call::Strerror { status: *status })
            } else {
                Step::Done(Err(native_message(&later[0])))
            }
        },
    }
}

/// Judges the reply to a call that yields a handle: the handle that the call
/// wrote, or why there is none. `later` holds the replies that came after
/// `reply`.
pub fn handle_from(operation: Operation, reply: &Reply, later: &[Reply]) -> (step: Step<
    Result<Handle, String>,
>)
    ensures
        step@ == yielded_handle(operation, reply@, later.deep_view()),
{
    match translate(operation, reply, later) {
        Step::Invoke(call) => Step::Invoke(call),
        Step::Done(Err(message)) => Step::Done(Err(message)),
        Step::Done(Ok(_)) => match reply {
            Reply::Returned { handle, .. } if !handle.is_null() => Step::Done(Ok(*handle)),
            _ => Step::Done(Err(no_handle_message(operation))),
        },
    }
}

/// Judges the reply to a call that yields a string: the text that the call
/// wrote, or why there is none. `later` holds the replies that came after
/// `reply`.
pub fn text_from(operation: Operation, reply: &Reply, later: &[Reply]) -> (step: Step<
    Result<String, String>,
>)
    ensures
        step@ == yielded_text(operation, reply@, later.deep_view()),
{
    match translate(operation, reply, later) {
        Step::Invoke(call) => Step::Invoke(call),
        Step::Done(Err(message)) => Step::Done(Err(message)),
        Step::Done(Ok(_)) => match reply {
            Reply::Returned { text, .. } => match decode(text.as_slice()) {
                Some(text) => Step::Done(Ok(text)),
                None => Step::Done(Err(undecodable_message(operation))),
            },
            Reply::Missing => Step::Done(Err(missing_message(operation))),
        },
    }
}

/// The replies that came after the first.
pub(crate) fn after_first(replies: &[Reply]) -> (later: &[Reply])
    requires
        replies@.len() > 0,
    ensures
        later.deep_view() == replies.deep_view().skip(1),
{
    let later = slice_subrange(replies, 1, replies.len());
    assert(later.deep_view() =~= replies.deep_view().skip(1));
    later
}

} // verus!
