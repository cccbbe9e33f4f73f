//! Connections: the handle on an open database.

use crate::native::{Call, CallModel, Handle, Operation, Plan, Reply, ReplyModel, Step};
use crate::session::Session;
use crate::text::OPEN_CONFIG;
use crate::translate::{after_first, handle_from, yielded_handle};
use vstd::prelude::*;
use vstd::string::*;

verus! {

/// An open database. It owns one connection handle of the engine, which is
/// closed by the call that [`Connection::close`] names. The handle is never
/// null.
#[derive(Debug, PartialEq, Eq)]
pub struct Connection {
    handle: Handle,
}

impl View for Connection {
    type V = Handle;

    closed spec fn view(&self) -> Handle {
        self.handle
    }
}

/// Opening a database, given the replies so far: first the call that opens it
/// in the default home directory and with no event handler, creating it where
/// it is missing; then the handle that the call wrote, or why there is none.
pub open spec fn open_plan(replies: Seq<ReplyModel>) -> Plan<Result<Handle, Seq<char>>> {
    if replies.len() == 0 {
        Plan::Invoke(
            CallModel::Open { home: None, event_handler: None, config: Some(OPEN_CONFIG@) },
        )
    } else {
        yielded_handle(Operation::Open, replies[0], replies.skip(1))
    }
}

/// Opens a database in the default home directory, creating it where it is
/// missing, and gives the connection to it.
pub fn open(replies: &[Reply]) -> (step: Step<Result<Connection, String>>)
    ensures
        step@ == open_plan(replies.deep_view()),
{
    if replies.len() == 0 {
        Step::Invoke(
            Call::Open {
                home: None,
                event_handler: None,
                config: Some(String::from_str(OPEN_CONFIG)),
            },
        )
    } else {
        match handle_from(Operation::Open, &replies[0], after_first(replies)) {
            Step::Invoke(call) => Step::Invoke(call),
            Step::Done(Ok(handle)) => Step::Done(Ok(Connection { handle })),
            Step::Done(Err(message)) => Step::Done(Err(message)),
        }
    }
}

impl Connection {
    #[verifier::type_invariant]
    spec fn holds_a_handle(self) -> bool {
        !self.handle.is_null()
    }

    /// The handle that the connection owns.
    pub fn handle(&self) -> (handle: Handle)
        ensures
            handle == self@,
            !handle.is_null(),
    {
        proof {
            use_type_invariant(self);
        }
        self.handle
    }

    /// Opening a session on the connection `connection`, given the replies so
    /// far: first the call that opens it, with no event handler and no
    /// configuration; then the handle that the call wrote, or why there is
    /// none.
    pub open spec fn open_session_plan(connection: Handle, replies: Seq<ReplyModel>) -> Plan<
        Result<Handle, Seq<char>>,
    > {
        if replies.len() == 0 {
            Plan::Invoke(
                CallModel::OpenSession { connection, event_handler: None, config: None },
            )
        } else {
            yielded_handle(Operation::OpenSession, replies[0], replies.skip(1))
        }
    }

    /// Opens a session on the connection. The connection itself stays as it
    /// is.
    pub fn open_session(&mut self, replies: &[Reply]) -> (step: Step<Result<Session, String>>)
        ensures
            step@ == Self::open_session_plan(old(self)@, replies.deep_view()),
            final(self)@ == old(self)@,
    {
        if replies.len() == 0 {
            Step::Invoke(
                Call::OpenSession { connection: self.handle, event_handler: None, config: None },
            )
        } else {
            match handle_from(Operation::OpenSession, &replies[0], after_first(replies)) {
                Step::Invoke(call) => Step::Invoke(call),
                Step::Done(Ok(handle)) => Step::Done(Ok(Session::holding(handle))),
                Step::Done(Err(message)) => Step::Done(Err(message)),
            }
        }
    }

    /// Giving up the connection `connection`: the call that closes its
    /// handle, with no configuration.
    pub open spec fn close_plan(connection: Handle) -> CallModel {
        CallModel::CloseConnection { connection, config: None }
    }

    /// Gives the connection up: the call that closes its handle. Whatever the
    /// engine replies to it is of no account.
    #[must_use]
    pub fn close(self) -> (call: Call)
        ensures
            call@ == Self::close_plan(self@),
            !self@.is_null(),
    {
        proof {
            use_type_invariant(&self);
        }
        Call::CloseConnection { connection: self.handle, config: None }
    }
}

} // verus!
