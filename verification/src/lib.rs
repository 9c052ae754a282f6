//! A generator of builders.
//!
//! Given the description of a record (its name and, for every field, a name,
//! a declared type and the attribute text attached to it), the crate
//! classifies each field as plain, optional or repeated, and lays out the
//! companion builder: the storage behind each field, one setter per field and
//! the `build` operation that checks the required fields and assembles the
//! record. The layout is a description, not code: printing it is left to the
//! caller.
//!
//! [`runtime::Builder`] runs such a layout on values, so that what the
//! generated builder does can be stated, proved and tried out.

pub mod attribute;
pub mod classify;
pub mod cmd;
pub mod conf;
pub mod diagnostic;
pub mod helper;
pub mod laws;
pub mod layout;
pub mod runtime;
pub mod text;
pub mod types;
