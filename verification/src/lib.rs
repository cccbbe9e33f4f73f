//! A driver for the handle API of the WiredTiger storage engine: connections,
//! sessions and cursors over tables of string keys and string values.
//!
//! The library never calls the engine. Each operation takes the replies that
//! the engine has given to it so far and answers with a [`Step`]: either the
//! call that has to be made next, or the operation's result. Whoever holds the
//! engine runs an operation by asking it with no replies, making the call that
//! it names, appending the reply, and asking again until the operation is done.
//! A wrapper is given up with its `close`, which names the call that closes its
//! handle.
//!
//! The engine takes a string as the bytes up to the first zero. A key, a value
//! or a name that holds the zero character cannot be handed over whole, and the
//! operations that hand one over leave it out of what they take:
//! [`text::can_cross`] tells beforehand.

pub mod connection;
pub mod cursor;
pub mod laws;
pub mod native;
pub mod session;
pub mod text;
pub mod translate;

pub use connection::{open, Connection};
pub use cursor::{Cursor, KeyValuePair, Position};
pub use native::{Call, Handle, Operation, Reply, Status, Step};
pub use session::Session;
