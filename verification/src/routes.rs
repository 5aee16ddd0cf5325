//! The request handlers, one module each, and the table that says
//! which path leads to which.

pub mod greet;
pub mod hello;
pub mod status;
pub mod table;
