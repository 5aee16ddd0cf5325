//! A small greeting service: three request handlers, the startup
//! configuration that picks the listening address, and the text
//! rendering both of them rest on.
//!
//! Every handler is a pure function from its input to a `Response`;
//! the server loop that carries responses over the wire lives outside
//! this library.

pub mod config;
pub mod decimal;
pub mod json;
pub mod response;
pub mod routes;
