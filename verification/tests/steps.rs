//! Each operation, step by step, on replies written out by hand.

use wiredtiger::text::{can_cross, decode, table_uri, OPEN_CONFIG, TABLE_CONFIG, TABLE_PREFIX};
use wiredtiger::{
    open, Call, Connection, Cursor, Handle, KeyValuePair, Position, Reply, Session, Step,
};

const NOT_FOUND: i32 = -31803;

fn at(address: usize) -> Handle {
    Handle { address }
}

fn connection(address: usize) -> Connection {
    match open(&[Reply::handle(at(address))]) {
        Step::Done(Ok(connection)) => connection,
        other => panic!("no connection: {:?}", other),
    }
}

fn session(address: usize) -> Session {
    match connection(1).open_session(&[Reply::handle(at(address))]) {
        Step::Done(Ok(session)) => session,
        other => panic!("no session: {:?}", other),
    }
}

fn cursor(address: usize) -> Cursor {
    match session(2).open_cursor("users", &[Reply::handle(at(address))]) {
        Step::Done(Ok(cursor)) => cursor,
        other => panic!("no cursor: {:?}", other),
    }
}

fn text(s: &str) -> Reply {
    Reply::text(s.as_bytes().to_vec())
}

#[test]
fn the_fixed_strings_are_those_of_the_engine() {
    assert_eq!(OPEN_CONFIG, "create");
    assert_eq!(TABLE_CONFIG, "key_format=S,value_format=S");
    assert_eq!(TABLE_PREFIX, "table:");
}

#[test]
fn a_table_is_known_by_its_prefixed_name() {
    assert_eq!(table_uri("users"), "table:users");
    assert_eq!(table_uri(""), "table:");
    assert_eq!(table_uri("a:b"), "table:a:b");
}

#[test]
fn decode_gives_the_text_of_well_formed_bytes() {
    assert_eq!(decode(b"John Doe"), Some("John Doe".to_string()));
    assert_eq!(decode(&[]), Some(String::new()));
    assert_eq!(decode(&[0xc3, 0xa9, 0xe2, 0x82, 0xac]), Some("\u{e9}\u{20ac}".to_string()));
}

#[test]
fn decode_gives_nothing_for_ill_formed_bytes() {
    assert_eq!(decode(&[0xff]), None);
    assert_eq!(decode(&[0x4a, 0xc3]), None);
    assert_eq!(decode(&[0xc0, 0x80]), None);
    assert_eq!(decode(&[0xed, 0xa0, 0x80]), None);
}

#[test]
fn open_asks_for_the_database_to_be_created() {
    assert_eq!(
        open(&[]),
        Step::Invoke(Call::Open {
            home: None,
            event_handler: None,
            config: Some("create".to_string()),
        })
    );
}

#[test]
fn open_gives_the_connection_on_the_handle_written() {
    match open(&[Reply::handle(at(0x1000))]) {
        Step::Done(Ok(connection)) => assert_eq!(connection.handle(), at(0x1000)),
        other => panic!("{:?}", other),
    }
}

#[test]
fn open_looks_a_failing_status_up_and_reports_its_text() {
    let failed = Reply::status(13);
    assert_eq!(open(&[Reply::status(13)]), Step::Invoke(Call::Strerror { status: 13 }));
    assert_eq!(
        open(&[failed, text("Permission denied")]),
        Step::Done(Err("Permission denied".to_string()))
    );
}

#[test]
fn an_opening_that_wrote_no_handle_has_failed() {
    assert_eq!(
        open(&[Reply::handle(at(0))]),
        Step::Done(Err("Failed to get a handle from wiredtiger_open".to_string()))
    );
    assert_eq!(
        connection(0x1000).open_session(&[Reply::status(0)]),
        Step::Done(Err("Failed to get a handle from open_session".to_string()))
    );
    assert_eq!(
        session(0x2000).open_cursor("users", &[Reply::handle(Handle::null())]),
        Step::Done(Err("Failed to get a handle from open_cursor".to_string()))
    );
}

#[test]
fn open_session_names_its_connection() {
    let mut connection = connection(0x1000);
    assert_eq!(
        connection.open_session(&[]),
        Step::Invoke(Call::OpenSession {
            connection: at(0x1000),
            event_handler: None,
            config: None,
        })
    );
    assert_eq!(connection.handle(), at(0x1000));
}

#[test]
fn open_session_gives_the_session_on_the_handle_written() {
    let mut connection = connection(0x1000);
    match connection.open_session(&[Reply::handle(at(0x2000))]) {
        Step::Done(Ok(session)) => assert_eq!(session.handle(), at(0x2000)),
        other => panic!("{:?}", other),
    }
}

#[test]
fn open_session_without_the_slot_names_what_is_missing() {
    let mut connection = connection(0x1000);
    assert_eq!(
        connection.open_session(&[Reply::Missing]),
        Step::Done(Err("Failed to get open_session".to_string()))
    );
}

#[test]
fn open_session_reports_the_text_of_a_failing_status() {
    let mut connection = connection(0x1000);
    assert_eq!(
        connection.open_session(&[Reply::status(12)]),
        Step::Invoke(Call::Strerror { status: 12 })
    );
    assert_eq!(
        connection.open_session(&[Reply::status(12), text("Cannot allocate memory")]),
        Step::Done(Err("Cannot allocate memory".to_string()))
    );
}

#[test]
fn a_connection_closes_its_own_handle() {
    assert_eq!(
        connection(0x1000).close(),
        Call::CloseConnection { connection: at(0x1000), config: None }
    );
}

#[test]
fn create_table_names_the_table_and_its_formats() {
    let mut session = session(0x2000);
    assert_eq!(
        session.create_table("users", &[]),
        Step::Invoke(Call::Create {
            session: at(0x2000),
            uri: "table:users".to_string(),
            config: Some("key_format=S,value_format=S".to_string()),
        })
    );
}

#[test]
fn create_table_succeeds_on_status_zero() {
    let mut session = session(0x2000);
    assert_eq!(session.create_table("users", &[Reply::status(0)]), Step::Done(Ok(())));
}

#[test]
fn create_table_without_the_slot_names_what_is_missing() {
    let mut session = session(0x2000);
    assert_eq!(
        session.create_table("users", &[Reply::Missing]),
        Step::Done(Err("Failed to get create".to_string()))
    );
}

#[test]
fn create_table_reports_the_text_of_a_failing_status() {
    let mut session = session(0x2000);
    assert_eq!(
        session.create_table("users", &[Reply::status(22)]),
        Step::Invoke(Call::Strerror { status: 22 })
    );
    assert_eq!(
        session.create_table("users", &[Reply::status(22), text("Invalid argument")]),
        Step::Done(Err("Invalid argument".to_string()))
    );
}

#[test]
fn open_cursor_names_the_table() {
    let mut session = session(0x2000);
    assert_eq!(
        session.open_cursor("users", &[]),
        Step::Invoke(Call::OpenCursor {
            session: at(0x2000),
            uri: "table:users".to_string(),
            to_duplicate: None,
            config: None,
        })
    );
}

#[test]
fn open_cursor_gives_a_cursor_before_the_first_record() {
    let mut session = session(0x2000);
    match session.open_cursor("users", &[Reply::handle(at(0x3000))]) {
        Step::Done(Ok(cursor)) => {
            assert_eq!(cursor.handle(), at(0x3000));
            assert_eq!(cursor.position(), Position::BeforeFirst);
        }
        other => panic!("{:?}", other),
    }
}

#[test]
fn open_cursor_without_the_slot_names_what_is_missing() {
    let mut session = session(0x2000);
    assert_eq!(
        session.open_cursor("users", &[Reply::Missing]),
        Step::Done(Err("Failed to get open_cursor".to_string()))
    );
}

#[test]
fn open_cursor_reports_the_text_of_a_failing_status() {
    let mut session = session(0x2000);
    assert_eq!(
        session.open_cursor("nowhere", &[Reply::status(2), text("No such file or directory")]),
        Step::Done(Err("No such file or directory".to_string()))
    );
}

#[test]
fn a_session_closes_its_own_handle() {
    assert_eq!(session(0x2000).close(), Call::CloseSession { session: at(0x2000), config: None });
}

#[test]
fn set_key_hands_the_key_over_and_fails_only_where_it_is_missing() {
    let mut cursor = cursor(0x3000);
    assert_eq!(
        cursor.set_key("1", &[]),
        Step::Invoke(Call::SetKey { cursor: at(0x3000), key: "1".to_string() })
    );
    assert_eq!(cursor.set_key("1", &[Reply::status(0)]), Step::Done(Ok(())));
    assert_eq!(cursor.set_key("1", &[Reply::status(5)]), Step::Done(Ok(())));
    assert_eq!(
        cursor.set_key("1", &[Reply::Missing]),
        Step::Done(Err("Failed to get set_key".to_string()))
    );
}

#[test]
fn set_value_hands_the_value_over_and_fails_only_where_it_is_missing() {
    let mut cursor = cursor(0x3000);
    assert_eq!(
        cursor.set_value("John Doe", &[]),
        Step::Invoke(Call::SetValue { cursor: at(0x3000), value: "John Doe".to_string() })
    );
    assert_eq!(cursor.set_value("John Doe", &[Reply::status(0)]), Step::Done(Ok(())));
    assert_eq!(
        cursor.set_value("John Doe", &[Reply::Missing]),
        Step::Done(Err("Failed to get set_value".to_string()))
    );
}

#[test]
fn insert_commits_and_reports_each_failure() {
    let mut cursor = cursor(0x3000);
    assert_eq!(cursor.insert(&[]), Step::Invoke(Call::Insert { cursor: at(0x3000) }));
    assert_eq!(cursor.insert(&[Reply::status(0)]), Step::Done(Ok(())));
    assert_eq!(
        cursor.insert(&[Reply::Missing]),
        Step::Done(Err("Failed to get insert".to_string()))
    );
    assert_eq!(cursor.insert(&[Reply::status(28)]), Step::Invoke(Call::Strerror { status: 28 }));
    assert_eq!(
        cursor.insert(&[Reply::status(28), text("No space left on device")]),
        Step::Done(Err("No space left on device".to_string()))
    );
}

#[test]
fn insert_pair_stages_the_key_then_the_value_then_commits() {
    let mut cursor = cursor(0x3000);
    let done = || Reply::status(0);
    assert_eq!(
        cursor.insert_pair("1", "John Doe", &[]),
        Step::Invoke(Call::SetKey { cursor: at(0x3000), key: "1".to_string() })
    );
    assert_eq!(
        cursor.insert_pair("1", "John Doe", &[done()]),
        Step::Invoke(Call::SetValue { cursor: at(0x3000), value: "John Doe".to_string() })
    );
    assert_eq!(
        cursor.insert_pair("1", "John Doe", &[done(), done()]),
        Step::Invoke(Call::Insert { cursor: at(0x3000) })
    );
    assert_eq!(cursor.insert_pair("1", "John Doe", &[done(), done(), done()]), Step::Done(Ok(())));
    assert_eq!(cursor.position(), Position::BeforeFirst);
}

#[test]
fn insert_pair_ends_at_the_first_failure() {
    let mut cursor = cursor(0x3000);
    let done = || Reply::status(0);
    assert_eq!(
        cursor.insert_pair("1", "John Doe", &[Reply::Missing]),
        Step::Done(Err("Failed to get set_key".to_string()))
    );
    assert_eq!(
        cursor.insert_pair("1", "John Doe", &[done(), Reply::Missing]),
        Step::Done(Err("Failed to get set_value".to_string()))
    );
    assert_eq!(
        cursor.insert_pair("1", "John Doe", &[done(), done(), Reply::Missing]),
        Step::Done(Err("Failed to get insert".to_string()))
    );
    assert_eq!(
        cursor.insert_pair("1", "John Doe", &[done(), done(), Reply::status(28)]),
        Step::Invoke(Call::Strerror { status: 28 })
    );
    assert_eq!(
        cursor.insert_pair(
            "1",
            "John Doe",
            &[done(), done(), Reply::status(28), text("No space left on device")]
        ),
        Step::Done(Err("No space left on device".to_string()))
    );
}

#[test]
fn reset_places_the_cursor_before_the_first_record() {
    let mut cursor = cursor(0x3000);
    assert_eq!(cursor.advance(&[Reply::status(0)]), Step::Done(Ok(())));
    assert_eq!(cursor.position(), Position::OnRecord);
    assert_eq!(cursor.reset(&[]), Step::Invoke(Call::Reset { cursor: at(0x3000) }));
    assert_eq!(cursor.position(), Position::OnRecord);
    assert_eq!(cursor.reset(&[Reply::status(0)]), Step::Done(Ok(())));
    assert_eq!(cursor.position(), Position::BeforeFirst);
}

#[test]
fn a_failed_reset_leaves_the_cursor_where_it_stood() {
    let mut cursor = cursor(0x3000);
    assert_eq!(cursor.advance(&[Reply::status(0)]), Step::Done(Ok(())));
    assert_eq!(
        cursor.reset(&[Reply::Missing]),
        Step::Done(Err("Failed to get reset".to_string()))
    );
    assert_eq!(cursor.position(), Position::OnRecord);
    assert_eq!(cursor.reset(&[Reply::status(16)]), Step::Invoke(Call::Strerror { status: 16 }));
    assert_eq!(
        cursor.reset(&[Reply::status(16), text("Device or resource busy")]),
        Step::Done(Err("Device or resource busy".to_string()))
    );
    assert_eq!(cursor.position(), Position::OnRecord);
}

#[test]
fn advance_moves_onto_a_record_or_ends_the_scan() {
    let mut cursor = cursor(0x3000);
    assert_eq!(cursor.advance(&[]), Step::Invoke(Call::Next { cursor: at(0x3000) }));
    assert_eq!(cursor.position(), Position::BeforeFirst);
    assert_eq!(cursor.advance(&[Reply::status(0)]), Step::Done(Ok(())));
    assert_eq!(cursor.position(), Position::OnRecord);
    assert_eq!(
        cursor.advance(&[Reply::status(NOT_FOUND)]),
        Step::Invoke(Call::Strerror { status: NOT_FOUND })
    );
    assert_eq!(
        cursor.advance(&[Reply::status(NOT_FOUND), text("WT_NOTFOUND: item not found")]),
        Step::Done(Err("WT_NOTFOUND: item not found".to_string()))
    );
    assert_eq!(cursor.position(), Position::Exhausted);
}

#[test]
fn advance_without_the_slot_names_what_is_missing_and_moves_nothing() {
    let mut cursor = cursor(0x3000);
    assert_eq!(
        cursor.advance(&[Reply::Missing]),
        Step::Done(Err("Failed to get next".to_string()))
    );
    assert_eq!(cursor.position(), Position::BeforeFirst);
    assert_eq!(cursor.advance(&[Reply::status(0)]), Step::Done(Ok(())));
    assert_eq!(
        cursor.advance(&[Reply::Missing]),
        Step::Done(Err("Failed to get next".to_string()))
    );
    assert_eq!(cursor.position(), Position::OnRecord);
    assert_eq!(cursor.advance(&[Reply::status(NOT_FOUND)]), Step::Invoke(Call::Strerror {
        status: NOT_FOUND
    }));
    assert_eq!(cursor.position(), Position::Exhausted);
    assert_eq!(
        cursor.advance(&[Reply::Missing]),
        Step::Done(Err("Failed to get next".to_string()))
    );
    assert_eq!(cursor.position(), Position::Exhausted);
}

#[test]
fn a_name_with_a_zero_is_never_handed_over_where_the_slot_is_unset() {
    let mut session = session(0x2000);
    assert_eq!(
        session.create_table("us\0ers", &[Reply::Missing]),
        Step::Done(Err("Failed to get create".to_string()))
    );
    assert_eq!(
        session.open_cursor("us\0ers", &[Reply::Missing]),
        Step::Done(Err("Failed to get open_cursor".to_string()))
    );
}

#[test]
fn a_text_crosses_where_it_holds_no_zero() {
    assert!(can_cross(""));
    assert!(can_cross("users"));
    assert!(can_cross("John Doe"));
    assert!(can_cross("\u{fc}ber 0"));
    assert!(!can_cross("\0"));
    assert!(!can_cross("us\0ers"));
    assert!(!can_cross("users\0"));
    assert!(!can_cross("\0users"));
    assert!(!can_cross("\u{20ac}\0\u{20ac}"));
}

#[test]
fn get_key_reads_the_text_and_reports_each_failure() {
    let mut cursor = cursor(0x3000);
    assert_eq!(cursor.get_key(&[]), Step::Invoke(Call::GetKey { cursor: at(0x3000) }));
    assert_eq!(cursor.get_key(&[text("1")]), Step::Done(Ok("1".to_string())));
    assert_eq!(
        cursor.get_key(&[Reply::Missing]),
        Step::Done(Err("Failed to get get_key".to_string()))
    );
    assert_eq!(cursor.get_key(&[Reply::status(22)]), Step::Invoke(Call::Strerror { status: 22 }));
    assert_eq!(
        cursor.get_key(&[Reply::status(22), text("Invalid argument")]),
        Step::Done(Err("Invalid argument".to_string()))
    );
    assert_eq!(
        cursor.get_key(&[Reply::text(vec![0x31, 0xff])]),
        Step::Done(Err("Failed to decode get_key".to_string()))
    );
}

#[test]
fn get_value_reads_the_text_and_reports_each_failure() {
    let mut cursor = cursor(0x3000);
    assert_eq!(cursor.get_value(&[]), Step::Invoke(Call::GetValue { cursor: at(0x3000) }));
    assert_eq!(cursor.get_value(&[text("John Doe")]), Step::Done(Ok("John Doe".to_string())));
    assert_eq!(
        cursor.get_value(&[Reply::Missing]),
        Step::Done(Err("Failed to get get_value".to_string()))
    );
    assert_eq!(
        cursor.get_value(&[Reply::status(22), text("Invalid argument")]),
        Step::Done(Err("Invalid argument".to_string()))
    );
    assert_eq!(
        cursor.get_value(&[Reply::text(vec![0xc3])]),
        Step::Done(Err("Failed to decode get_value".to_string()))
    );
}

#[test]
fn a_status_whose_text_is_no_text_is_reported_as_such() {
    let mut cursor = cursor(0x3000);
    assert_eq!(
        cursor.insert(&[Reply::status(28), Reply::text(vec![0xff, 0xfe])]),
        Step::Done(Err("Failed to decode wiredtiger_strerror".to_string()))
    );
    assert_eq!(
        cursor.insert(&[Reply::status(28), Reply::Missing]),
        Step::Done(Err("Failed to get wiredtiger_strerror".to_string()))
    );
}

#[test]
fn open_without_the_function_names_what_is_missing() {
    assert_eq!(
        open(&[Reply::Missing]),
        Step::Done(Err("Failed to get wiredtiger_open".to_string()))
    );
}

#[test]
fn next_record_moves_on_then_reads_the_key_then_the_value() {
    let mut cursor = cursor(0x3000);
    let moved = || Reply::status(0);
    assert_eq!(cursor.next_record(&[]), Step::Invoke(Call::Next { cursor: at(0x3000) }));
    assert_eq!(cursor.next_record(&[moved()]), Step::Invoke(Call::GetKey { cursor: at(0x3000) }));
    assert_eq!(
        cursor.next_record(&[moved(), text("2")]),
        Step::Invoke(Call::GetValue { cursor: at(0x3000) })
    );
    assert_eq!(cursor.position(), Position::BeforeFirst);
    assert_eq!(
        cursor.next_record(&[moved(), text("2"), text("Jane Doe")]),
        Step::Done(Some(KeyValuePair { key: "2".to_string(), value: "Jane Doe".to_string() }))
    );
    assert_eq!(cursor.position(), Position::OnRecord);
}

#[test]
fn next_record_ends_the_scan_where_the_cursor_cannot_move_on() {
    let mut cursor = cursor(0x3000);
    assert_eq!(cursor.next_record(&[Reply::status(NOT_FOUND)]), Step::Done(None));
    assert_eq!(cursor.position(), Position::Exhausted);
    let mut cursor = self::cursor(0x3000);
    assert_eq!(cursor.next_record(&[Reply::Missing]), Step::Done(None));
    assert_eq!(cursor.position(), Position::Exhausted);
}

#[test]
fn next_record_ends_the_scan_where_a_read_fails() {
    let moved = || Reply::status(0);
    let mut cursor = cursor(0x3000);
    assert_eq!(
        cursor.next_record(&[moved(), Reply::status(22)]),
        Step::Invoke(Call::GetValue { cursor: at(0x3000) })
    );
    assert_eq!(cursor.next_record(&[moved(), Reply::status(22), text("v")]), Step::Done(None));
    assert_eq!(cursor.position(), Position::Exhausted);
    let mut cursor = self::cursor(0x3000);
    assert_eq!(cursor.next_record(&[moved(), text("k"), Reply::Missing]), Step::Done(None));
    assert_eq!(cursor.position(), Position::Exhausted);
    let mut cursor = self::cursor(0x3000);
    assert_eq!(
        cursor.next_record(&[moved(), text("k"), Reply::text(vec![0x80])]),
        Step::Done(None)
    );
    assert_eq!(cursor.position(), Position::Exhausted);
}

#[test]
fn a_scan_that_is_over_asks_for_nothing_until_it_is_reset() {
    let mut cursor = cursor(0x3000);
    assert_eq!(cursor.next_record(&[Reply::status(NOT_FOUND)]), Step::Done(None));
    assert_eq!(cursor.next_record(&[]), Step::Done(None));
    assert_eq!(cursor.next_record(&[Reply::status(0), text("k"), text("v")]), Step::Done(None));
    assert_eq!(cursor.position(), Position::Exhausted);
    assert_eq!(cursor.reset(&[Reply::status(0)]), Step::Done(Ok(())));
    assert_eq!(cursor.next_record(&[]), Step::Invoke(Call::Next { cursor: at(0x3000) }));
}

#[test]
fn a_cursor_closes_its_own_handle() {
    assert_eq!(cursor(0x3000).close(), Call::CloseCursor { cursor: at(0x3000) });
}

#[test]
fn replies_past_the_end_of_an_operation_change_nothing() {
    let mut session = session(0x2000);
    assert_eq!(
        session.create_table("users", &[Reply::status(0), Reply::status(9), Reply::Missing]),
        Step::Done(Ok(()))
    );
    let mut cursor = cursor(0x3000);
    assert_eq!(
        cursor.insert_pair("1", "x", &[Reply::Missing, Reply::status(0), Reply::status(0)]),
        Step::Done(Err("Failed to get set_key".to_string()))
    );
}
