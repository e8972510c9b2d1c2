//! The traces, one module for each kind.

pub mod bar;
