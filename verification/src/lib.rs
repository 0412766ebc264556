//! A small, verified HTTP client core: it parses `key=value` body tokens,
//! builds a JSON request body, plans GET/POST requests, negotiates the
//! response content type, and renders a response for the terminal.
//!
//! Network and terminal I/O stay outside the library; the functions here
//! compute, from plain values, what a request should carry and how a
//! received response should be displayed.

pub mod body;
pub mod errors;
pub mod json;
pub mod kv;
pub mod media;
pub mod render;
pub mod request;
pub mod text;
