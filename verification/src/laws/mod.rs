//! What the server promises, in terms of what goes into it and what comes out.
//!
//! Each law speaks of the calls that the other modules carry out: of the fields of their arguments,
//! of the replies of services, and of the fields of answers and requests.

pub mod domain;
pub mod json;
pub mod now_playing;
pub mod numbers;
pub mod organize;
pub mod recommend;
pub mod request;
pub mod search;
pub mod server;
pub mod services;
pub mod surface;
pub mod taste_memory;
pub mod text;
