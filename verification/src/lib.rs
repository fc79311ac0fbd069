//! Typed identifiers and scalar wrappers for the Steam review API.

pub mod language;
pub mod laws;
pub mod newtypes;
pub mod order;
pub mod text;

pub use language::{LangParseError, Language, Names, Projection};
pub use newtypes::{Minutes, UnixTimestamp};
