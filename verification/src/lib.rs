//! A small console library for composing D-Bus method calls.
//!
//! The heart of the crate is [`tokenizer`]: a verified maximal-munch lexer
//! for the literal micro-language in which a user types a call's argument
//! list (numbers, quoted strings, struct/array/dict delimiters, separators).
//!
//! Terminal rendering, input events and the bus connection itself are left
//! to the binary built on top of this crate; the library only computes.

pub mod app;
pub mod dbus;
pub mod error;
pub mod filter;
pub mod tokenizer;
pub mod ui;
