//! Core logic of a small interactive HTTP request tool.
//!
//! The library assembles one outgoing request from user-edited form state
//! (method name, raw URL, parameter and header rows, raw body) and renders
//! the outcome of a dispatch as three display strings (status line, header
//! block, body block). The surrounding user interface and the network call
//! itself live outside the library; they hand plain values in and take plain
//! values back.

pub mod request;
pub mod response;
pub mod rows;
pub mod strutil;
pub mod url;
