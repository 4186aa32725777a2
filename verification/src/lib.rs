//! The decisions of a media tool server, verified.
//!
//! The server offers tools over a JSON-RPC endpoint: finding titles, requesting them, changing and
//! removing what the libraries hold, recommending, and saying what is playing. This crate decides;
//! it sends nothing. A tool is a function from its arguments and the replies that came so far to
//! the next step ([`tool::Step`] and its kin): send this request, or answer, or fail. Whoever runs
//! the server sends the request, adds the reply and asks again, so that no step can be skipped.
//!
//! Contracts speak of views: [`json::JsonView`] for JSON, sequences of characters for text. Numbers
//! that are not whole are carried as decimal text or as the bits of their binary64 form
//! ([`number`]), and are computed outside.

pub mod http;
pub mod json;
pub mod laws;
pub mod mcp_server;
pub mod media;
pub mod mesh;
pub mod number;
pub mod order;
pub mod rating;
pub mod registry;
pub mod schema;
pub mod text;
pub mod tool;
pub mod tool_cache;
