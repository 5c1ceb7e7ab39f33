//! The decision logic of a blocking forward proxy: request-line parsing,
//! the shared block list, request draining and per-connection dispatch.

pub mod text;
pub mod parser;
pub mod site_blocking;
pub mod stream_io;
pub mod handler;
pub mod connection;
pub mod cli;
