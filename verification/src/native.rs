//! The vocabulary spoken with the engine: handles, calls, replies and steps.
//!
//! Nothing here touches the engine. An operation of this library names the
//! call that has to be made next, as a [`Call`]; whoever holds the engine makes
//! that call and hands back what came of it, as a [`Reply`].

use vstd::prelude::*;

verus! {

/// A status code as the engine returns it. Zero reports success, every other
/// value an error.
pub type Status = libc::c_int;

/// An opaque reference to something that the engine holds (a connection, a
/// session, a cursor), by its address.
#[derive(Clone, Copy, Debug, PartialEq, Eq, Structural)]
pub struct Handle {
    pub address: usize,
}

impl Handle {
    /// The handle that refers to nothing.
    pub fn null() -> (handle: Handle)
        ensures
            handle.address == 0,
    {
        Handle { address: 0 }
    }

    /// Whether the handle refers to nothing.
    pub open spec fn spec_is_null(&self) -> bool {
        self.address == 0
    }

    /// Whether the handle refers to nothing.
    #[verifier::when_used_as_spec(spec_is_null)]
    pub fn is_null(&self) -> (null: bool)
        ensures
            null == self.spec_is_null(),
    {
        self.address == 0
    }
}

impl View for Handle {
    type V = Handle;

    open spec fn view(&self) -> Handle {
        *self
    }
}

/// The functions of the engine that this library asks for: its two free
/// functions, and the slots of the three handles' function tables.
#[derive(Clone, Copy, Debug, PartialEq, Eq, Structural)]
pub enum Operation {
    Open,
    Strerror,
    OpenSession,
    Create,
    OpenCursor,
    SetKey,
    SetValue,
    Insert,
    Reset,
    Next,
    GetKey,
    GetValue,
}

/// One call into the engine, argument by argument, the output parameters left
/// out. An argument that is absent is passed as null.
#[derive(Debug, PartialEq, Eq)]
pub enum Call {
    /// The free function that opens the database in the directory `home`, or
    /// in the default one.
    Open { home: Option<String>, event_handler: Option<Handle>, config: Option<String> },
    /// The free function that gives the engine's text for a status. The text
    /// is the string of the reply.
    Strerror { status: Status },
    OpenSession { connection: Handle, event_handler: Option<Handle>, config: Option<String> },
    CloseConnection { connection: Handle, config: Option<String> },
    Create { session: Handle, uri: String, config: Option<String> },
    OpenCursor {
        session: Handle,
        uri: String,
        to_duplicate: Option<Handle>,
        config: Option<String>,
    },
    CloseSession { session: Handle, config: Option<String> },
    SetKey { cursor: Handle, key: String },
    SetValue { cursor: Handle, value: String },
    Insert { cursor: Handle },
    Reset { cursor: Handle },
    Next { cursor: Handle },
    GetKey { cursor: Handle },
    GetValue { cursor: Handle },
    CloseCursor { cursor: Handle },
}

/// A string that may be absent, as the characters it holds.
pub open spec fn characters(string: Option<String>) -> Option<Seq<char>> {
    match string {
        Some(string) => Some(string@),
        None => None,
    }
}

/// A [`Call`] with its strings as sequences of characters.
pub enum CallModel {
    Open { home: Option<Seq<char>>, event_handler: Option<Handle>, config: Option<Seq<char>> },
    Strerror { status: Status },
    OpenSession { connection: Handle, event_handler: Option<Handle>, config: Option<Seq<char>> },
    CloseConnection { connection: Handle, config: Option<Seq<char>> },
    Create { session: Handle, uri: Seq<char>, config: Option<Seq<char>> },
    OpenCursor {
        session: Handle,
        uri: Seq<char>,
        to_duplicate: Option<Handle>,
        config: Option<Seq<char>>,
    },
    CloseSession { session: Handle, config: Option<Seq<char>> },
    SetKey { cursor: Handle, key: Seq<char> },
    SetValue { cursor: Handle, value: Seq<char> },
    Insert { cursor: Handle },
    Reset { cursor: Handle },
    Next { cursor: Handle },
    GetKey { cursor: Handle },
    GetValue { cursor: Handle },
    CloseCursor { cursor: Handle },
}

impl CallModel {
    /// The handle that the call is made on: the one whose function table holds
    /// the function. The two free functions are made on none.
    pub open spec fn target(self) -> Option<Handle> {
        match self {
            CallModel::Open { .. } => None,
            CallModel::Strerror { .. } => None,
            CallModel::OpenSession { connection, .. } => Some(connection),
            CallModel::CloseConnection { connection, .. } => Some(connection),
            CallModel::Create { session, .. } => Some(session),
            CallModel::OpenCursor { session, .. } => Some(session),
            CallModel::CloseSession { session, .. } => Some(session),
            CallModel::SetKey { cursor, .. } => Some(cursor),
            CallModel::SetValue { cursor, .. } => Some(cursor),
            CallModel::Insert { cursor } => Some(cursor),
            CallModel::Reset { cursor } => Some(cursor),
            CallModel::Next { cursor } => Some(cursor),
            CallModel::GetKey { cursor } => Some(cursor),
            CallModel::GetValue { cursor } => Some(cursor),
            CallModel::CloseCursor { cursor } => Some(cursor),
        }
    }
}

impl View for Call {
    type V = CallModel;

    open spec fn view(&self) -> CallModel {
        match *self {
            Call::Open { home, event_handler, config } => CallModel::Open {
                home: characters(home),
                event_handler,
                config: characters(config),
            },
            Call::Strerror { status } => CallModel::Strerror { status },
            Call::OpenSession { connection, event_handler, config } => CallModel::OpenSession {
                connection,
                event_handler,
                config: characters(config),
            },
            Call::CloseConnection { connection, config } => CallModel::CloseConnection {
                connection,
                config: characters(config),
            },
            Call::Create { session, uri, config } => CallModel::Create {
                session,
                uri: uri@,
                config: characters(config),
            },
            Call::OpenCursor { session, uri, to_duplicate, config } => CallModel::OpenCursor {
                session,
                uri: uri@,
                to_duplicate,
                config: characters(config),
            },
            Call::CloseSession { session, config } => CallModel::CloseSession {
                session,
                config: characters(config),
            },
            Call::SetKey { cursor, key } => CallModel::SetKey { cursor, key: key@ },
            Call::SetValue { cursor, value } => CallModel::SetValue { cursor, value: value@ },
            Call::Insert { cursor } => CallModel::Insert { cursor },
            Call::Reset { cursor } => CallModel::Reset { cursor },
            Call::Next { cursor } => CallModel::Next { cursor },
            Call::GetKey { cursor } => CallModel::GetKey { cursor },
            Call::GetValue { cursor } => CallModel::GetValue { cursor },
            Call::CloseCursor { cursor } => CallModel::CloseCursor { cursor },
        }
    }
}

/// What came of one call.
#[derive(Debug, PartialEq, Eq)]
pub enum Reply {
    /// The slot of the function table is unset: the engine does not offer the
    /// operation, and nothing was called.
    Missing,
    /// The call was made and has returned.
    Returned {
        /// The status that the call returned; zero for a native function that
        /// returns no status.
        status: Status,
        /// The handle that the call wrote through its out-parameter. Read only
        /// where `status` is zero and the call yields a handle.
        handle: Handle,
        /// The bytes of the string that the call returned or wrote through its
        /// out-parameter, without the terminating zero. Read only where
        /// `status` is zero and the call yields a string.
        text: Vec<u8>,
    },
}

/// A [`Reply`] with its bytes as sequences.
pub enum ReplyModel {
    Missing,
    Returned { status: Status, handle: Handle, text: Seq<u8> },
}

impl ReplyModel {
    /// Whether the call was made and reported success.
    pub open spec fn succeeded(self) -> bool {
        self matches ReplyModel::Returned { status, .. } && status == 0
    }
}

impl View for Reply {
    type V = ReplyModel;

    open spec fn view(&self) -> ReplyModel {
        match *self {
            Reply::Missing => ReplyModel::Missing,
            Reply::Returned { status, handle, text } => ReplyModel::Returned {
                status,
                handle,
                text: text@,
            },
        }
    }
}

impl DeepView for Reply {
    type V = ReplyModel;

    open spec fn deep_view(&self) -> ReplyModel {
        self@
    }
}

impl Reply {
    /// The reply of a call that returned `status` and wrote nothing.
    pub fn status(status: Status) -> (reply: Reply)
        ensures
            reply@ == (ReplyModel::Returned {
                status,
                handle: Handle { address: 0 },
                text: seq![],
            }),
    {
        Reply::Returned { status, handle: Handle::null(), text: Vec::new() }
    }

    /// The reply of a call that succeeded and wrote `handle`.
    pub fn handle(handle: Handle) -> (reply: Reply)
        ensures
            reply@ == (ReplyModel::Returned { status: 0, handle, text: seq![] }),
    {
        Reply::Returned { status: 0, handle, text: Vec::new() }
    }

    /// The reply of a call that succeeded and handed back the bytes `text`.
    pub fn text(text: Vec<u8>) -> (reply: Reply)
        ensures
            reply@ == (ReplyModel::Returned {
                status: 0,
                handle: Handle { address: 0 },
                text: text@,
            }),
    {
        Reply::Returned { status: 0, handle: Handle::null(), text }
    }

    /// Whether the call was made and reported success.
    pub fn succeeded(&self) -> (ok: bool)
        ensures
            ok == self@.succeeded(),
    {
        match self {
            Reply::Missing => false,
            Reply::Returned { status, .. } => *status == 0,
        }
    }
}

/// Where an operation of this library stands, given the replies so far.
#[derive(Debug, PartialEq, Eq)]
#[must_use]
pub enum Step<T> {
    /// The engine has to be called: make this call, append its reply to the
    /// replies, and ask again.
    Invoke(Call),
    /// The operation is over, with this result.
    Done(T),
}

/// A [`Step`] over the models of its call and of its result.
pub enum Plan<T> {
    Invoke(CallModel),
    Done(T),
}

/// A result of this library over the model of its value and the characters
/// of its message.
pub open spec fn outcome<T: View>(result: Result<T, String>) -> Result<T::V, Seq<char>> {
    match result {
        Ok(value) => Ok(value@),
        Err(message) => Err(message@),
    }
}

impl<T: View> View for Step<Result<T, String>> {
    type V = Plan<Result<T::V, Seq<char>>>;

    open spec fn view(&self) -> Plan<Result<T::V, Seq<char>>> {
        match *self {
            Step::Invoke(call) => Plan::Invoke(call@),
            Step::Done(result) => Plan::Done(outcome(result)),
        }
    }
}

} // verus!
