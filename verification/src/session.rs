//! Sessions: the handle through which tables are created and cursors opened.

use crate::cursor::{Cursor, CursorModel, Position};
use crate::native::{Call, CallModel, Handle, Operation, Plan, Reply, ReplyModel, Step};
use crate::text::{crosses, table_uri, table_uri_of, TABLE_CONFIG};
use crate::translate::{after_first, handle_from, translate, translated, yielded_handle};
use vstd::prelude::*;
use vstd::string::*;

verus! {

/// A session of a connection. It owns one session handle of the engine, which
/// is closed by the call that [`Session::close`] names. The handle is never
/// null. A session is of use only while the connection it was opened on is.
#[derive(Debug, PartialEq, Eq)]
pub struct Session {
    handle: Handle,
}

impl View for Session {
    type V = Handle;

    closed spec fn view(&self) -> Handle {
        self.handle
    }
}

impl Session {
    #[verifier::type_invariant]
    spec fn holds_a_handle(self) -> bool {
        !self.handle.is_null()
    }

    /// The session that owns `handle`.
    pub(crate) fn holding(handle: Handle) -> (session: Session)
        requires
            !handle.is_null(),
        ensures
            session@ == handle,
    {
        Session { handle }
    }

    /// The handle that the session owns.
    pub fn handle(&self) -> (handle: Handle)
        ensures
            handle == self@,
            !handle.is_null(),
    {
        proof {
            use_type_invariant(self);
        }
        self.handle
    }

    /// Creating the table `name` through the session `session`, given the
    /// replies so far: first the call that creates it, under its identifier and
    /// with strings for keys and values; then what the call came to.
    pub open spec fn create_table_plan(
        session: Handle,
        name: Seq<char>,
        replies: Seq<ReplyModel>,
    ) -> Plan<Result<(), Seq<char>>> {
        if replies.len() == 0 {
            Plan::Invoke(
                CallModel::Create {
                    session,
                    uri: table_uri_of(name),
                    config: Some(TABLE_CONFIG@),
                },
            )
        } else {
            translated(Operation::Create, replies[0], replies.skip(1))
        }
    }

    /// Creates a table named `name` that holds pairs of a key and a value,
    /// both strings. The session itself stays as it is. The name holds no zero
    /// character, unless it is known already that the engine does not offer the
    /// call: then no name is handed over.
    pub fn create_table(&mut self, name: &str, replies: &[Reply]) -> (step: Step<
        Result<(), String>,
    >)
        requires
            crosses(name@) || (replies@.len() > 0 && replies@[0] is Missing),
        ensures
            step@ == Self::create_table_plan(old(self)@, name@, replies.deep_view()),
            final(self)@ == old(self)@,
    {
        if replies.len() == 0 {
            Step::Invoke(
                Call::Create {
                    session: self.handle,
                    uri: table_uri(name),
                    config: Some(String::from_str(TABLE_CONFIG)),
                },
            )
        } else {
            translate(Operation::Create, &replies[0], after_first(replies))
        }
    }

    /// The cursor that the engine opened on `handle`.
    pub open spec fn cursor_on(handle: Handle) -> CursorModel {
        CursorModel { handle, position: Position::BeforeFirst }
    }

    /// Opening a cursor on the table `name` through the session `session`,
    /// given the replies so far: first the call that opens it, on the table's
    /// identifier, with no cursor to duplicate and no configuration; then the
    /// cursor on the handle that the call wrote, placed before the first
    /// record, or why there is none.
    pub open spec fn open_cursor_plan(
        session: Handle,
        name: Seq<char>,
        replies: Seq<ReplyModel>,
    ) -> Plan<Result<CursorModel, Seq<char>>> {
        if replies.len() == 0 {
            Plan::Invoke(
                CallModel::OpenCursor {
                    session,
                    uri: table_uri_of(name),
                    to_duplicate: None,
                    config: None,
                },
            )
        } else {
            match yielded_handle(Operation::OpenCursor, replies[0], replies.skip(1)) {
                Plan::Invoke(call) => Plan::Invoke(call),
                Plan::Done(Ok(handle)) => Plan::Done(Ok(Self::cursor_on(handle))),
                Plan::Done(Err(message)) => Plan::Done(Err(message)),
            }
        }
    }

    /// Opens a cursor on the table `table_name`. The session itself stays as
    /// it is. The name holds no zero character, unless it is known already that
    /// the engine does not offer the call: then no name is handed over.
    pub fn open_cursor(&mut self, table_name: &str, replies: &[Reply]) -> (step: Step<
        Result<Cursor, String>,
    >)
        requires
            crosses(table_name@) || (replies@.len() > 0 && replies@[0] is Missing),
        ensures
            step@ == Self::open_cursor_plan(old(self)@, table_name@, replies.deep_view()),
            final(self)@ == old(self)@,
    {
        if replies.len() == 0 {
            Step::Invoke(
                Call::OpenCursor {
                    session: self.handle,
                    uri: table_uri(table_name),
                    to_duplicate: None,
                    config: None,
                },
            )
        } else {
            match handle_from(Operation::OpenCursor, &replies[0], after_first(replies)) {
                Step::Invoke(call) => Step::Invoke(call),
                Step::Done(Ok(handle)) => Step::Done(Ok(Cursor::opened(handle))),
                Step::Done(Err(message)) => Step::Done(Err(message)),
            }
        }
    }

    /// Giving up the session `session`: the call that closes its handle, with
    /// no configuration.
    pub open spec fn close_plan(session: Handle) -> CallModel {
        CallModel::CloseSession { session, config: None }
    }

    /// Gives the session up: the call that closes its handle. Whatever the
    /// engine replies to it is of no account.
    #[must_use]
    pub fn close(self) -> (call: Call)
        ensures
            call@ == Self::close_plan(self@),
            !self@.is_null(),
    {
        proof {
            use_type_invariant(&self);
        }
        Call::CloseSession { session: self.handle, config: None }
    }
}

} // verus!
