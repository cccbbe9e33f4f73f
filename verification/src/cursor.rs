//! Cursors: reading and writing the records of one table.

use crate::native::{Call, CallModel, Handle, Operation, Plan, Reply, ReplyModel, Step};
use crate::text::{crosses, decode, decoded};
use crate::translate::{after_first, gate, offered, text_from, translate, translated,
    yielded_text};
use vstd::prelude::*;
use vstd::string::*;

verus! {

/// Where a cursor stands in the scan of its table, as opening, resetting and
/// moving it have left it.
#[derive(Clone, Copy, Debug, PartialEq, Eq, Structural)]
pub enum Position {
    /// Before the first record: the next advance starts the scan.
    BeforeFirst,
    /// On a record.
    OnRecord,
    /// The scan is over: the engine had no next record to go to, or a record
    /// could not be read.
    Exhausted,
}

/// A key and its value, as one record of a table holds them.
#[derive(Debug, PartialEq, Eq)]
pub struct KeyValuePair {
    pub key: String,
    pub value: String,
}

/// A [`KeyValuePair`] with its strings as sequences of characters.
pub struct Record {
    pub key: Seq<char>,
    pub value: Seq<char>,
}

impl View for KeyValuePair {
    type V = Record;

    open spec fn view(&self) -> Record {
        Record { key: self.key@, value: self.value@ }
    }
}

impl View for Step<Option<KeyValuePair>> {
    type V = Plan<Option<Record>>;

    open spec fn view(&self) -> Plan<Option<Record>> {
        match *self {
            Step::Invoke(call) => Plan::Invoke(call@),
            Step::Done(Some(pair)) => Plan::Done(Some(pair@)),
            Step::Done(None) => Plan::Done(None),
        }
    }
}

/// A cursor on one table. It owns one cursor handle of the engine, which is
/// closed by the call that [`Cursor::close`] names, and it keeps track of where
/// its scan stands. The handle is never null. A cursor is of use only while
/// the session it was opened through is.
#[derive(Debug, PartialEq, Eq)]
pub struct Cursor {
    handle: Handle,
    position: Position,
}

/// What a [`Cursor`] holds.
pub struct CursorModel {
    pub handle: Handle,
    pub position: Position,
}

impl CursorModel {
    /// The same cursor, standing at `position`.
    pub open spec fn at(self, position: Position) -> CursorModel {
        CursorModel { handle: self.handle, position }
    }
}

impl View for Cursor {
    type V = CursorModel;

    closed spec fn view(&self) -> CursorModel {
        CursorModel { handle: self.handle, position: self.position }
    }
}

/// Two steps in a row: what `first` asks for or fails with; and, once it has
/// succeeded, `rest`.
pub open spec fn then<T>(first: Plan<Result<(), Seq<char>>>, rest: Plan<Result<T, Seq<char>>>)
    -> Plan<Result<T, Seq<char>>> {
    match first {
        Plan::Invoke(call) => Plan::Invoke(call),
        Plan::Done(Err(message)) => Plan::Done(Err(message)),
        Plan::Done(Ok(_)) => rest,
    }
}

/// The text that the reply to a read holds, where the read succeeded and its
/// bytes are text.
pub open spec fn read_of(reply: ReplyModel) -> Option<Seq<char>> {
    if reply.succeeded() {
        decoded(reply->text)
    } else {
        None
    }
}

/// The record that the replies to the two reads hold, where both succeeded.
pub open spec fn record_of(key: ReplyModel, value: ReplyModel) -> Option<Record> {
    match (read_of(key), read_of(value)) {
        (Some(key), Some(value)) => Some(Record { key, value }),
        _ => None,
    }
}

/// The text that the reply to a read holds, where the read succeeded and its
/// bytes are text.
fn read(reply: &Reply) -> (text: Option<String>)
    ensures
        match text {
            Some(text) => read_of(reply@) == Some(text@),
            None => read_of(reply@) is None,
        },
{
    match reply {
        Reply::Returned { status, text, .. } => if *status == 0 {
            decode(text.as_slice())
        } else {
            None
        },
        Reply::Missing => None,
    }
}

impl Cursor {
    #[verifier::type_invariant]
    spec fn holds_a_handle(self) -> bool {
        !self.handle.is_null()
    }

    /// The cursor on `handle`, as the engine opens it: before the first
    /// record.
    pub(crate) fn opened(handle: Handle) -> (cursor: Cursor)
        requires
            !handle.is_null(),
        ensures
            cursor@ == (CursorModel { handle, position: Position::BeforeFirst }),
    {
        Cursor { handle, position: Position::BeforeFirst }
    }

    /// The handle that the cursor owns.
    pub fn handle(&self) -> (handle: Handle)
        ensures
            handle == self@.handle,
            !handle.is_null(),
    {
        proof {
            use_type_invariant(self);
        }
        self.handle
    }

    /// Where the cursor stands.
    pub fn position(&self) -> (position: Position)
        ensures
            position == self@.position,
    {
        self.position
    }

    /// Staging `key` on the cursor `cursor`, given the replies so far.
    pub open spec fn set_key_plan(cursor: Handle, key: Seq<char>, replies: Seq<ReplyModel>)
        -> Plan<Result<(), Seq<char>>> {
        if replies.len() == 0 {
            Plan::Invoke(CallModel::SetKey { cursor, key })
        } else {
            Plan::Done(offered(Operation::SetKey, replies[0]))
        }
    }

    /// Stages `key` for the next insert. The call returns nothing, so this
    /// fails only where the engine does not offer it. The key holds no zero
    /// character.
    pub fn set_key(&mut self, key: &str, replies: &[Reply]) -> (step: Step<Result<(), String>>)
        requires
            crosses(key@),
        ensures
            step@ == Self::set_key_plan(old(self)@.handle, key@, replies.deep_view()),
            final(self)@ == old(self)@,
    {
        if replies.len() == 0 {
            Step::Invoke(Call::SetKey { cursor: self.handle, key: String::from_str(key) })
        } else {
            Step::Done(gate(Operation::SetKey, &replies[0]))
        }
    }

    /// Staging `value` on the cursor `cursor`, given the replies so far.
    pub open spec fn set_value_plan(cursor: Handle, value: Seq<char>, replies: Seq<ReplyModel>)
        -> Plan<Result<(), Seq<char>>> {
        if replies.len() == 0 {
            Plan::Invoke(CallModel::SetValue { cursor, value })
        } else {
            Plan::Done(offered(Operation::SetValue, replies[0]))
        }
    }

    /// Stages `value` for the next insert. The call returns nothing, so this
    /// fails only where the engine does not offer it. The value holds no zero
    /// character.
    pub fn set_value(&mut self, value: &str, replies: &[Reply]) -> (step: Step<
        Result<(), String>,
    >)
        requires
            crosses(value@),
        ensures
            step@ == Self::set_value_plan(old(self)@.handle, value@, replies.deep_view()),
            final(self)@ == old(self)@,
    {
        if replies.len() == 0 {
            Step::Invoke(Call::SetValue { cursor: self.handle, value: String::from_str(value) })
        } else {
            Step::Done(gate(Operation::SetValue, &replies[0]))
        }
    }

    /// Committing what is staged on the cursor `cursor`, given the replies so
    /// far.
    pub open spec fn insert_plan(cursor: Handle, replies: Seq<ReplyModel>) -> Plan<
        Result<(), Seq<char>>,
    > {
        if replies.len() == 0 {
            Plan::Invoke(CallModel::Insert { cursor })
        } else {
            translated(Operation::Insert, replies[0], replies.skip(1))
        }
    }

    /// Commits the staged key and value as a record of the table, in place of
    /// the record that had the key, if there was one.
    pub fn insert(&mut self, replies: &[Reply]) -> (step: Step<Result<(), String>>)
        ensures
            step@ == Self::insert_plan(old(self)@.handle, replies.deep_view()),
            final(self)@ == old(self)@,
    {
        if replies.len() == 0 {
            Step::Invoke(Call::Insert { cursor: self.handle })
        } else {
            translate(Operation::Insert, &replies[0], after_first(replies))
        }
    }

    /// Inserting the pair of `key` and `value` through the cursor `cursor`,
    /// given the replies so far: the key is staged, then the value, then both
    /// are committed, and the first of the three that fails ends it.
    pub open spec fn insert_pair_plan(
        cursor: Handle,
        key: Seq<char>,
        value: Seq<char>,
        replies: Seq<ReplyModel>,
    ) -> Plan<Result<(), Seq<char>>> {
        then(
            Self::set_key_plan(cursor, key, replies),
            then(
                Self::set_value_plan(cursor, value, replies.skip(1)),
                Self::insert_plan(cursor, replies.skip(2)),
            ),
        )
    }

    /// Inserts `value` under `key` into the cursor's table. Neither holds a
    /// zero character: such a string cannot be handed to the engine whole, and
    /// no call is named for it.
    pub fn insert_pair(&mut self, key: &str, value: &str, replies: &[Reply]) -> (step: Step<
        Result<(), String>,
    >)
        requires
            crosses(key@),
            crosses(value@),
        ensures
            step@ == Self::insert_pair_plan(old(self)@.handle, key@, value@, replies.deep_view()),
            final(self)@ == old(self)@,
    {
        match self.set_key(key, replies) {
            Step::Done(Ok(_)) => {},
            step => {
                return step;
            },
        }
        let after_key = after_first(replies);
        match self.set_value(value, after_key) {
            Step::Done(Ok(_)) => {},
            step => {
                return step;
            },
        }
        let after_value = after_first(after_key);
        assert(after_value.deep_view() == replies.deep_view().skip(2));
        self.insert(after_value)
    }

    /// Resetting the cursor `cursor`, given the replies so far.
    pub open spec fn reset_plan(cursor: Handle, replies: Seq<ReplyModel>) -> Plan<
        Result<(), Seq<char>>,
    > {
        if replies.len() == 0 {
            Plan::Invoke(CallModel::Reset { cursor })
        } else {
            translated(Operation::Reset, replies[0], replies.skip(1))
        }
    }

    /// The cursor after [`Cursor::reset`]: before the first record once the
    /// call has succeeded, and where it stood until then.
    pub open spec fn after_reset(cursor: CursorModel, replies: Seq<ReplyModel>) -> CursorModel {
        if replies.len() > 0 && replies[0].succeeded() {
            cursor.at(Position::BeforeFirst)
        } else {
            cursor
        }
    }

    /// Places the cursor before the first record of its table, so that the
    /// scan starts over.
    pub fn reset(&mut self, replies: &[Reply]) -> (step: Step<Result<(), String>>)
        ensures
            step@ == Self::reset_plan(old(self)@.handle, replies.deep_view()),
            final(self)@ == Self::after_reset(old(self)@, replies.deep_view()),
    {
        proof {
            use_type_invariant(&*self);
        }
        if replies.len() == 0 {
            Step::Invoke(Call::Reset { cursor: self.handle })
        } else {
            if replies[0].succeeded() {
                self.position = Position::BeforeFirst;
            }
            translate(Operation::Reset, &replies[0], after_first(replies))
        }
    }

    /// Moving the cursor `cursor` to the next record, given the replies so
    /// far.
    pub open spec fn advance_plan(cursor: Handle, replies: Seq<ReplyModel>) -> Plan<
        Result<(), Seq<char>>,
    > {
        if replies.len() == 0 {
            Plan::Invoke(CallModel::Next { cursor })
        } else {
            translated(Operation::Next, replies[0], replies.skip(1))
        }
    }

    /// The cursor after [`Cursor::advance`]: on a record once the call has
    /// succeeded, at the end of the scan once the call has failed, and where it
    /// stood until the call is made. Where the engine does not offer the call,
    /// none is made and the cursor stays where it stood.
    pub open spec fn after_advance(cursor: CursorModel, replies: Seq<ReplyModel>) -> CursorModel {
        if replies.len() == 0 || replies[0] is Missing {
            cursor
        } else if replies[0].succeeded() {
            cursor.at(Position::OnRecord)
        } else {
            cursor.at(Position::Exhausted)
        }
    }

    /// Moves the cursor to the next record in the order of the table. This
    /// fails at the end of the table as it does on any other error of the
    /// engine.
    pub fn advance(&mut self, replies: &[Reply]) -> (step: Step<Result<(), String>>)
        ensures
            step@ == Self::advance_plan(old(self)@.handle, replies.deep_view()),
            final(self)@ == Self::after_advance(old(self)@, replies.deep_view()),
    {
        proof {
            use_type_invariant(&*self);
        }
        if replies.len() == 0 {
            Step::Invoke(Call::Next { cursor: self.handle })
        } else {
            match &replies[0] {
                Reply::Missing => {},
                Reply::Returned { status, .. } => {
                    if *status == 0 {
                        self.position = Position::OnRecord;
                    } else {
                        self.position = Position::Exhausted;
                    }
                },
            }
            translate(Operation::Next, &replies[0], after_first(replies))
        }
    }

    /// Reading the key under the cursor `cursor`, given the replies so far.
    pub open spec fn get_key_plan(cursor: Handle, replies: Seq<ReplyModel>) -> Plan<
        Result<Seq<char>, Seq<char>>,
    > {
        if replies.len() == 0 {
            Plan::Invoke(CallModel::GetKey { cursor })
        } else {
            yielded_text(Operation::GetKey, replies[0], replies.skip(1))
        }
    }

    /// Reads the key of the record that the cursor is on.
    pub fn get_key(&mut self, replies: &[Reply]) -> (step: Step<Result<String, String>>)
        ensures
            step@ == Self::get_key_plan(old(self)@.handle, replies.deep_view()),
            final(self)@ == old(self)@,
    {
        if replies.len() == 0 {
            Step::Invoke(Call::GetKey { cursor: self.handle })
        } else {
            text_from(Operation::GetKey, &replies[0], after_first(replies))
        }
    }

    /// Reading the value under the cursor `cursor`, given the replies so far.
    pub open spec fn get_value_plan(cursor: Handle, replies: Seq<ReplyModel>) -> Plan<
        Result<Seq<char>, Seq<char>>,
    > {
        if replies.len() == 0 {
            Plan::Invoke(CallModel::GetValue { cursor })
        } else {
            yielded_text(Operation::GetValue, replies[0], replies.skip(1))
        }
    }

    /// Reads the value of the record that the cursor is on.
    pub fn get_value(&mut self, replies: &[Reply]) -> (step: Step<Result<String, String>>)
        ensures
            step@ == Self::get_value_plan(old(self)@.handle, replies.deep_view()),
            final(self)@ == old(self)@,
    {
        if replies.len() == 0 {
            Step::Invoke(Call::GetValue { cursor: self.handle })
        } else {
            text_from(Operation::GetValue, &replies[0], after_first(replies))
        }
    }

    /// Producing the next record of the scan, given the replies so far. A scan
    /// that is over produces nothing and asks for nothing. Otherwise the cursor
    /// is moved on; where that fails the scan is over. Then the key is read,
    /// then the value, whatever came of the key; the record is produced where
    /// both reads succeeded, and the scan is over where one did not.
    pub open spec fn next_record_plan(cursor: CursorModel, replies: Seq<ReplyModel>) -> Plan<
        Option<Record>,
    > {
        if cursor.position == Position::Exhausted {
            Plan::Done(None)
        } else if replies.len() == 0 {
            Plan::Invoke(CallModel::Next { cursor: cursor.handle })
        } else if !replies[0].succeeded() {
            Plan::Done(None)
        } else if replies.len() == 1 {
            Plan::Invoke(CallModel::GetKey { cursor: cursor.handle })
        } else if replies.len() == 2 {
            Plan::Invoke(CallModel::GetValue { cursor: cursor.handle })
        } else {
            Plan::Done(record_of(replies[1], replies[2]))
        }
    }

    /// The cursor after [`Cursor::next_record`]: on a record once one was
    /// produced, at the end of the scan once none was, and where it stood
    /// until then.
    pub open spec fn after_next_record(cursor: CursorModel, replies: Seq<ReplyModel>)
        -> CursorModel {
        match Self::next_record_plan(cursor, replies) {
            Plan::Invoke(_) => cursor,
            Plan::Done(Some(_)) => cursor.at(Position::OnRecord),
            Plan::Done(None) => cursor.at(Position::Exhausted),
        }
    }

    /// Produces the next record of the scan, or nothing where the scan is
    /// over. Why a scan ended is not told: the end of the table and a failure
    /// look the same. A scan that is over stays so until the cursor is reset.
    pub fn next_record(&mut self, replies: &[Reply]) -> (step: Step<Option<KeyValuePair>>)
        ensures
            step@ == Self::next_record_plan(old(self)@, replies.deep_view()),
            final(self)@ == Self::after_next_record(old(self)@, replies.deep_view()),
    {
        proof {
            use_type_invariant(&*self);
        }
        if self.position == Position::Exhausted {
            return Step::Done(None);
        }
        if replies.len() == 0 {
            return Step::Invoke(Call::Next { cursor: self.handle });
        }
        if !replies[0].succeeded() {
            self.position = Position::Exhausted;
            return Step::Done(None);
        }
        if replies.len() == 1 {
            return Step::Invoke(Call::GetKey { cursor: self.handle });
        }
        if replies.len() == 2 {
            return Step::Invoke(Call::GetValue { cursor: self.handle });
        }
        match (read(&replies[1]), read(&replies[2])) {
            (Some(key), Some(value)) => {
                self.position = Position::OnRecord;
                Step::Done(Some(KeyValuePair { key, value }))
            },
            _ => {
                self.position = Position::Exhausted;
                Step::Done(None)
            },
        }
    }

    /// Giving up the cursor `cursor`: the call that closes its handle.
    pub open spec fn close_plan(cursor: CursorModel) -> CallModel {
        CallModel::CloseCursor { cursor: cursor.handle }
    }

    /// Gives the cursor up: the call that closes its handle. Whatever the
    /// engine replies to it is of no account.
    #[must_use]
    pub fn close(self) -> (call: Call)
        ensures
            call@ == Self::close_plan(self@),
            !self@.handle.is_null(),
    {
        proof {
            use_type_invariant(&self);
        }
        Call::CloseCursor { cursor: self.handle }
    }
}

} // verus!
