//! Errors reported by the surrounding D-Bus client.
//!
//! The connection layer lives outside this library; it hands errors in
//! as plain message strings, classified by where they arose: the bus
//! itself, or a standard (`org.freedesktop.DBus`) interface.

use vstd::prelude::*;

verus! {

/// A result whose error side is the console's own error type.
pub type DBusConsoleResult<T> = Result<T, DBusConsoleError>;

/// An error from the bus connection (`DBusError`) or from a standard
/// interface call (`FdoError`), carrying the peer's message text.
#[derive(Debug, PartialEq)]
pub enum DBusConsoleError {
    DBusError(String),
    FdoError(String),
}

impl Clone for DBusConsoleError {
    /// Cloning keeps the classification and the message.
    fn clone(&self) -> (r: Self)
        ensures
            r == *self,
    {
        match self {
            DBusConsoleError::DBusError(m) => DBusConsoleError::DBusError(m.clone()),
            DBusConsoleError::FdoError(m) => DBusConsoleError::FdoError(m.clone()),
        }
    }
}

} // verus!
