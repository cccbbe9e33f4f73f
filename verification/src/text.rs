//! The strings that cross the boundary: the fixed configuration strings, the
//! names of tables, the messages of this library, and the decoding of the bytes
//! that the engine hands back.

use crate::native::Operation;
use vstd::prelude::*;
use vstd::string::*;
use vstd::utf8::*;

verus! {

/// The configuration with which a database is opened: create it if it is not
/// there yet.
pub const OPEN_CONFIG: &'static str = "create";

/// The configuration with which a table is created: its keys and its values
/// are strings.
pub const TABLE_CONFIG: &'static str = "key_format=S,value_format=S";

/// What precedes a table's name in the identifier that the engine knows it by.
pub const TABLE_PREFIX: &'static str = "table:";

/// Whether a text can be handed to the engine whole. The engine takes a string
/// as the bytes up to the first zero, so a text that holds the zero character
/// cannot.
pub open spec fn crosses(text: Seq<char>) -> bool {
    forall|i: int| 0 <= i < text.len() ==> text[i] != '\0'
}

/// Whether `text` can be handed to the engine whole: it holds no zero
/// character.
pub fn can_cross(text: &str) -> (whole: bool)
    ensures
        whole == crosses(text@),
{
    let mut whole = true;
    for c in it: text.chars()
        invariant
            it.seq() == text@,
            whole == (forall|i: int| 0 <= i < it.index() ==> text@[i] != '\0'),
    {
        if c == '\0' {
            whole = false;
        }
    }
    whole
}

/// The identifier of the table named `name`.
pub open spec fn table_uri_of(name: Seq<char>) -> Seq<char> {
    TABLE_PREFIX@ + name
}

/// The identifier that the engine knows the table `name` by.
pub fn table_uri(name: &str) -> (uri: String)
    ensures
        uri@ == table_uri_of(name@),
{
    String::from_str(TABLE_PREFIX).concat(name)
}

impl Operation {
    /// The name of the operation, as the engine spells it.
    pub open spec fn name_of(self) -> Seq<char> {
        match self {
            Operation::Open => "wiredtiger_open"@,
            Operation::Strerror => "wiredtiger_strerror"@,
            Operation::OpenSession => "open_session"@,
            Operation::Create => "create"@,
            Operation::OpenCursor => "open_cursor"@,
            Operation::SetKey => "set_key"@,
            Operation::SetValue => "set_value"@,
            Operation::Insert => "insert"@,
            Operation::Reset => "reset"@,
            Operation::Next => "next"@,
            Operation::GetKey => "get_key"@,
            Operation::GetValue => "get_value"@,
        }
    }

    /// The name of the operation, as the engine spells it.
    pub fn name(&self) -> (name: &'static str)
        ensures
            name@ == self.name_of(),
    {
        match self {
            Operation::Open => "wiredtiger_open",
            Operation::Strerror => "wiredtiger_strerror",
            Operation::OpenSession => "open_session",
            Operation::Create => "create",
            Operation::OpenCursor => "open_cursor",
            Operation::SetKey => "set_key",
            Operation::SetValue => "set_value",
            Operation::Insert => "insert",
            Operation::Reset => "reset",
            Operation::Next => "next",
            Operation::GetKey => "get_key",
            Operation::GetValue => "get_value",
        }
    }
}

/// The message for an operation that the engine does not offer.
pub open spec fn missing_text(operation: Operation) -> Seq<char> {
    "Failed to get "@ + operation.name_of()
}

/// The message for an operation that reported success and wrote no handle.
pub open spec fn no_handle_text(operation: Operation) -> Seq<char> {
    "Failed to get a handle from "@ + operation.name_of()
}

/// The message for an operation whose bytes are no text.
pub open spec fn undecodable_text(operation: Operation) -> Seq<char> {
    "Failed to decode "@ + operation.name_of()
}

/// The message for an operation that the engine does not offer: its slot in
/// the function table is unset.
pub fn missing_message(operation: Operation) -> (message: String)
    ensures
        message@ == missing_text(operation),
{
    String::from_str("Failed to get ").concat(operation.name())
}

/// The message for an operation that reported success and wrote a null
/// handle.
pub fn no_handle_message(operation: Operation) -> (message: String)
    ensures
        message@ == no_handle_text(operation),
{
    String::from_str("Failed to get a handle from ").concat(operation.name())
}

/// The message for an operation that handed back bytes that are not UTF-8.
pub fn undecodable_message(operation: Operation) -> (message: String)
    ensures
        message@ == undecodable_text(operation),
{
    String::from_str("Failed to decode ").concat(operation.name())
}

/// `std::str::from_utf8`: the bytes as a string slice where they are
/// well-formed UTF-8, and nothing where they are not. The slice borrows the
/// bytes, so its bytes are the ones given.
#[verifier::external_body]
fn utf8(bytes: &[u8]) -> (text: Option<&str>)
    ensures
        text is Some <==> valid_utf8(bytes@),
        text matches Some(s) ==> s.spec_bytes() == bytes@,
{
    match std::str::from_utf8(bytes) {
        Ok(s) => Some(s),
        Err(_) => None,
    }
}

/// The text that the bytes encode, where they encode one.
pub open spec fn decoded(bytes: Seq<u8>) -> Option<Seq<char>> {
    if valid_utf8(bytes) {
        Some(decode_utf8(bytes))
    } else {
        None
    }
}

/// Decodes bytes that the engine handed back: the text where they are
/// well-formed UTF-8, nothing where they are not.
pub fn decode(bytes: &[u8]) -> (text: Option<String>)
    ensures
        match text {
            Some(s) => decoded(bytes@) == Some(s@),
            None => decoded(bytes@) is None,
        },
{
    match utf8(bytes) {
        Some(s) => {
            proof {
                encode_utf8_decode_utf8(s@);
            }
            Some(String::from_str(s))
        },
        None => None,
    }
}

} // verus!
