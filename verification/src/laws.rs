//! What holds of the operations taken together.

use crate::connection::{open_plan, Connection};
use crate::cursor::{read_of, Cursor, CursorModel, Position, Record};
use crate::native::{CallModel, Handle, Plan, ReplyModel};
use crate::session::Session;
use crate::text::{crosses, table_uri_of};
use vstd::prelude::*;
use vstd::utf8::*;

verus! {

/// The replies to one run of [`Cursor::next_record`] in which the engine hands
/// over `record`: the cursor moves on, and the two reads yield the key and the
/// value.
pub open spec fn hands_over(replies: Seq<ReplyModel>, record: Record) -> bool {
    &&& replies.len() == 3
    &&& replies[0].succeeded()
    &&& read_of(replies[1]) == Some(record.key)
    &&& read_of(replies[2]) == Some(record.value)
}

/// The replies to one run of [`Cursor::next_record`] in which the engine has
/// no next record to go to, or fails to go to it.
pub open spec fn hands_over_nothing(replies: Seq<ReplyModel>) -> bool {
    replies.len() == 1 && !replies[0].succeeded()
}

/// The records that runs of [`Cursor::next_record`] produce one after the
/// other, each run with its replies, up to the first run that produces none.
pub open spec fn scan(cursor: CursorModel, runs: Seq<Seq<ReplyModel>>) -> Seq<Record>
    decreases runs.len(),
{
    if runs.len() == 0 {
        Seq::empty()
    } else {
        match Cursor::next_record_plan(cursor, runs[0]) {
            Plan::Done(Some(record)) => seq![record] + scan(
                Cursor::after_next_record(cursor, runs[0]),
                runs.drop_first(),
            ),
            _ => Seq::empty(),
        }
    }
}

/// The cursor after the runs of [`scan`].
pub open spec fn after_scan(cursor: CursorModel, runs: Seq<Seq<ReplyModel>>) -> CursorModel
    decreases runs.len(),
{
    if runs.len() == 0 {
        cursor
    } else {
        match Cursor::next_record_plan(cursor, runs[0]) {
            Plan::Done(Some(_)) => after_scan(
                Cursor::after_next_record(cursor, runs[0]),
                runs.drop_first(),
            ),
            _ => Cursor::after_next_record(cursor, runs[0]),
        }
    }
}

/// A cursor is opened on the table that was created under the same name, and
/// it stands before the first record: creating a table and opening a cursor
/// on it name the same identifier to the engine, and whenever the engine opens
/// the cursor, the cursor that comes out holds the handle that the engine
/// wrote and stands before the first record.
pub proof fn law_cursor_on_created_table(session: Handle, name: Seq<char>, opened: ReplyModel)
    requires
        crosses(name),
        opened.succeeded(),
        !opened->handle.is_null(),
    ensures
        Session::create_table_plan(session, name, Seq::empty()) matches Plan::Invoke(
            CallModel::Create { uri: created, .. },
        ) && Session::open_cursor_plan(session, name, Seq::empty()) matches Plan::Invoke(
            CallModel::OpenCursor { uri: sought, .. },
        ) && created == sought && sought == table_uri_of(name),
        Session::open_cursor_plan(session, name, seq![opened]) == Plan::Done(
            Ok::<CursorModel, Seq<char>>(
                CursorModel { handle: opened->handle, position: Position::BeforeFirst },
            ),
        ),
{
}

/// A pair that was inserted reads back as it was: inserting hands the engine
/// the key and the value unchanged, and once the cursor is reset, a run in
/// which the engine hands back the bytes of that key and that value produces
/// exactly the pair.
pub proof fn law_inserted_pair_reads_back(
    cursor: CursorModel,
    key: Seq<char>,
    value: Seq<char>,
    inserted: Seq<ReplyModel>,
    reset: ReplyModel,
    read: Seq<ReplyModel>,
)
    requires
        crosses(key),
        crosses(value),
        Cursor::insert_pair_plan(cursor.handle, key, value, inserted) == Plan::Done(
            Ok::<(), Seq<char>>(()),
        ),
        reset.succeeded(),
        read.len() == 3,
        read[0].succeeded(),
        read[1].succeeded(),
        read[2].succeeded(),
        read[1]->text == encode_utf8(key),
        read[2]->text == encode_utf8(value),
    ensures
        inserted.len() >= 3,
        Cursor::insert_pair_plan(cursor.handle, key, value, inserted.take(0)) == Plan::<
            Result<(), Seq<char>>,
        >::Invoke(CallModel::SetKey { cursor: cursor.handle, key }),
        Cursor::insert_pair_plan(cursor.handle, key, value, inserted.take(1)) == Plan::<
            Result<(), Seq<char>>,
        >::Invoke(CallModel::SetValue { cursor: cursor.handle, value }),
        Cursor::insert_pair_plan(cursor.handle, key, value, inserted.take(2)) == Plan::<
            Result<(), Seq<char>>,
        >::Invoke(CallModel::Insert { cursor: cursor.handle }),
        Cursor::next_record_plan(Cursor::after_reset(cursor, seq![reset]), read) == Plan::Done(
            Some(Record { key, value }),
        ),
{
    broadcast use {encode_utf8_valid_utf8, encode_utf8_decode_utf8};

    assert(inserted.take(1).skip(1) =~= Seq::<ReplyModel>::empty());
    assert(inserted.take(2).skip(2) =~= Seq::<ReplyModel>::empty());
    assert(inserted.take(2).skip(1)[0] == inserted[1]);
    assert(inserted.skip(1)[0] == inserted[1]);
}

/// A scan yields every record that the engine hands over, each once and in
/// the engine's order, and then ends: where run after run the engine hands
/// over `records` and after the last of them has nothing more, the runs produce
/// exactly `records`, and leave the cursor at the end of the scan.
pub proof fn law_scan_yields_each_record_once(
    cursor: CursorModel,
    records: Seq<Record>,
    runs: Seq<Seq<ReplyModel>>,
)
    requires
        cursor.position != Position::Exhausted,
        runs.len() == records.len() + 1,
        forall|i: int| 0 <= i < records.len() ==> hands_over(#[trigger] runs[i], records[i]),
        hands_over_nothing(runs[records.len() as int]),
    ensures
        scan(cursor, runs) == records,
        after_scan(cursor, runs) == cursor.at(Position::Exhausted),
    decreases records.len(),
{
    if records.len() == 0 {
    } else {
        let next = Cursor::after_next_record(cursor, runs[0]);
        assert(hands_over(runs[0], records[0]));
        assert forall|i: int| 0 <= i < records.drop_first().len() implies hands_over(
            #[trigger] runs.drop_first()[i],
            records.drop_first()[i],
        ) by {
            assert(hands_over(runs[i + 1], records[i + 1]));
        }
        law_scan_yields_each_record_once(next, records.drop_first(), runs.drop_first());
        assert(seq![records[0]] + records.drop_first() =~= records);
    }
}

/// A scan that is over stays over: the run in which the engine has no next
/// record produces nothing, and tells no error apart from the end of the
/// table; every run after it produces nothing either, and asks the engine for
/// nothing, whatever the replies.
pub proof fn law_exhausted_scan_yields_nothing(
    cursor: CursorModel,
    last: Seq<ReplyModel>,
    later: Seq<ReplyModel>,
)
    requires
        hands_over_nothing(last),
    ensures
        Cursor::next_record_plan(cursor, last) == Plan::<Option<Record>>::Done(None),
        Cursor::after_next_record(cursor, last) == cursor.at(Position::Exhausted),
        Cursor::next_record_plan(cursor.at(Position::Exhausted), later) == Plan::<
            Option<Record>,
        >::Done(None),
        Cursor::after_next_record(cursor.at(Position::Exhausted), later) == cursor.at(
            Position::Exhausted,
        ),
{
}

/// Resetting twice is resetting once, and a reset makes the scan start over
/// wherever the cursor stood: after one successful reset or after two, and
/// also after a scan that has ended, the same runs produce the records that
/// they produce on a cursor that was just opened.
pub proof fn law_reset_replays_scan(
    cursor: CursorModel,
    first: ReplyModel,
    second: ReplyModel,
    runs: Seq<Seq<ReplyModel>>,
)
    requires
        first.succeeded(),
        second.succeeded(),
    ensures
        Cursor::after_reset(cursor, seq![first]) == cursor.at(Position::BeforeFirst),
        Cursor::after_reset(Cursor::after_reset(cursor, seq![first]), seq![second])
            == Cursor::after_reset(cursor, seq![first]),
        scan(Cursor::after_reset(cursor, seq![first]), runs) == scan(
            cursor.at(Position::BeforeFirst),
            runs,
        ),
        scan(
            Cursor::after_reset(after_scan(cursor.at(Position::BeforeFirst), runs), seq![first]),
            runs,
        ) == scan(cursor.at(Position::BeforeFirst), runs),
{
    lemma_scan_keeps_handle(cursor.at(Position::BeforeFirst), runs);
}

/// A scan moves the cursor and leaves its handle alone.
proof fn lemma_scan_keeps_handle(cursor: CursorModel, runs: Seq<Seq<ReplyModel>>)
    ensures
        after_scan(cursor, runs).handle == cursor.handle,
    decreases runs.len(),
{
    if runs.len() > 0 {
        lemma_scan_keeps_handle(Cursor::after_next_record(cursor, runs[0]), runs.drop_first());
    }
}

/// Producing a record is moving on and reading: on a scan that is not over, a
/// run produces the record of `key` and `value` exactly where, on the same
/// replies, [`Cursor::advance`] succeeds, [`Cursor::get_key`] gives `key` and
/// [`Cursor::get_value`] gives `value`.
pub proof fn law_next_record_is_advance_then_reads(
    cursor: CursorModel,
    moved: ReplyModel,
    key_read: ReplyModel,
    value_read: ReplyModel,
    key: Seq<char>,
    value: Seq<char>,
)
    requires
        cursor.position != Position::Exhausted,
    ensures
        Cursor::next_record_plan(cursor, seq![moved, key_read, value_read]) == Plan::Done(
            Some(Record { key, value }),
        ) <==> {
            &&& Cursor::advance_plan(cursor.handle, seq![moved]) == Plan::Done(
                Ok::<(), Seq<char>>(()),
            )
            &&& Cursor::get_key_plan(cursor.handle, seq![key_read]) == Plan::Done(
                Ok::<Seq<char>, Seq<char>>(key),
            )
            &&& Cursor::get_value_plan(cursor.handle, seq![value_read]) == Plan::Done(
                Ok::<Seq<char>, Seq<char>>(value),
            )
        },
{
    assert(seq![moved].skip(1) =~= Seq::<ReplyModel>::empty());
    assert(seq![key_read].skip(1) =~= Seq::<ReplyModel>::empty());
    assert(seq![value_read].skip(1) =~= Seq::<ReplyModel>::empty());
}

/// Every operation ends: an opening, a creation, an insert, a reset, an
/// advance or a read is over once it has two replies, a staging once it has
/// one, the production of a record once it has three, and the insertion of a
/// pair once it has four.
pub proof fn law_operations_end(
    cursor: CursorModel,
    name: Seq<char>,
    key: Seq<char>,
    value: Seq<char>,
    replies: Seq<ReplyModel>,
)
    ensures
        replies.len() >= 1 ==> {
            &&& Cursor::set_key_plan(cursor.handle, key, replies) is Done
            &&& Cursor::set_value_plan(cursor.handle, value, replies) is Done
        },
        replies.len() >= 2 ==> {
            &&& open_plan(replies) is Done
            &&& Connection::open_session_plan(cursor.handle, replies) is Done
            &&& Session::create_table_plan(cursor.handle, name, replies) is Done
            &&& Session::open_cursor_plan(cursor.handle, name, replies) is Done
            &&& Cursor::insert_plan(cursor.handle, replies) is Done
            &&& Cursor::reset_plan(cursor.handle, replies) is Done
            &&& Cursor::advance_plan(cursor.handle, replies) is Done
            &&& Cursor::get_key_plan(cursor.handle, replies) is Done
            &&& Cursor::get_value_plan(cursor.handle, replies) is Done
        },
        replies.len() >= 3 ==> Cursor::next_record_plan(cursor, replies) is Done,
        replies.len() >= 4 ==> Cursor::insert_pair_plan(cursor.handle, key, value, replies)
            is Done,
{
}

/// A wrapper touches no handle but its own: whatever the replies, every call
/// that an operation of a connection, a session or a cursor asks for is made
/// on the handle of that wrapper, or is one of the engine's free functions.
pub proof fn law_calls_stay_on_own_handle(
    cursor: CursorModel,
    name: Seq<char>,
    key: Seq<char>,
    value: Seq<char>,
    replies: Seq<ReplyModel>,
)
    ensures
        open_plan(replies) matches Plan::Invoke(call) ==> call.target() is None,
        Connection::open_session_plan(cursor.handle, replies) matches Plan::Invoke(call)
            ==> call.target() == Some(cursor.handle) || call is Strerror,
        Connection::close_plan(cursor.handle).target() == Some(cursor.handle),
        Session::create_table_plan(cursor.handle, name, replies) matches Plan::Invoke(call)
            ==> call.target() == Some(cursor.handle) || call is Strerror,
        Session::open_cursor_plan(cursor.handle, name, replies) matches Plan::Invoke(call)
            ==> call.target() == Some(cursor.handle) || call is Strerror,
        Session::close_plan(cursor.handle).target() == Some(cursor.handle),
        Cursor::set_key_plan(cursor.handle, key, replies) matches Plan::Invoke(call)
            ==> call.target() == Some(cursor.handle),
        Cursor::set_value_plan(cursor.handle, value, replies) matches Plan::Invoke(call)
            ==> call.target() == Some(cursor.handle),
        Cursor::insert_plan(cursor.handle, replies) matches Plan::Invoke(call) ==> call.target()
            == Some(cursor.handle) || call is Strerror,
        Cursor::insert_pair_plan(cursor.handle, key, value, replies) matches Plan::Invoke(call)
            ==> call.target() == Some(cursor.handle) || call is Strerror,
        Cursor::reset_plan(cursor.handle, replies) matches Plan::Invoke(call) ==> call.target()
            == Some(cursor.handle) || call is Strerror,
        Cursor::advance_plan(cursor.handle, replies) matches Plan::Invoke(call)
            ==> call.target() == Some(cursor.handle) || call is Strerror,
        Cursor::get_key_plan(cursor.handle, replies) matches Plan::Invoke(call)
            ==> call.target() == Some(cursor.handle) || call is Strerror,
        Cursor::get_value_plan(cursor.handle, replies) matches Plan::Invoke(call)
            ==> call.target() == Some(cursor.handle) || call is Strerror,
        Cursor::next_record_plan(cursor, replies) matches Plan::Invoke(call) ==> call.target()
            == Some(cursor.handle),
        Cursor::close_plan(cursor).target() == Some(cursor.handle),
{
}

/// No wrapper holds a null handle: whatever the replies, a connection, a
/// session or a cursor that comes out of its opening holds a handle that
/// refers to something.
pub proof fn law_handles_are_never_null(
    parent: Handle,
    name: Seq<char>,
    replies: Seq<ReplyModel>,
)
    ensures
        open_plan(replies) matches Plan::Done(Ok(connection)) ==> !connection.is_null(),
        Connection::open_session_plan(parent, replies) matches Plan::Done(Ok(session))
            ==> !session.is_null(),
        Session::open_cursor_plan(parent, name, replies) matches Plan::Done(Ok(cursor))
            ==> !cursor.handle.is_null(),
{
}

/// Each wrapper closes the handle that it was opened on, and no other: the
/// call that gives up a connection, a session or a cursor names the handle that
/// the engine wrote when it was opened.
pub proof fn law_close_names_opened_handle(
    parent: Handle,
    name: Seq<char>,
    opened: ReplyModel,
)
    requires
        opened.succeeded(),
        !opened->handle.is_null(),
    ensures
        open_plan(seq![opened]) matches Plan::Done(Ok(connection))
            && Connection::close_plan(connection) == (CallModel::CloseConnection {
            connection: opened->handle,
            config: None,
        }),
        Connection::open_session_plan(parent, seq![opened]) matches Plan::Done(Ok(session))
            && Session::close_plan(session) == (CallModel::CloseSession {
            session: opened->handle,
            config: None,
        }),
        Session::open_cursor_plan(parent, name, seq![opened]) matches Plan::Done(Ok(cursor))
            && Cursor::close_plan(cursor) == (CallModel::CloseCursor { cursor: opened->handle }),
{
}

} // verus!
