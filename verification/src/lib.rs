//! Chart trace descriptions that encode themselves as JSON documents.
//!
//! A trace is built with a fluent interface, one setter per attribute, and is
//! encoded as a JSON object that holds the attributes that were set, each
//! under its wire key, and nothing for the attributes that were not.

pub mod common;
pub mod encode;
pub mod json;
pub mod object;
mod private;
pub mod trace;
pub mod traces;

pub use trace::{EncodeError, Trace};
pub use traces::bar::Bar;
