//! A minimal HTTP gateway: command-line resolution of where to listen, and
//! the answer to a single request read from a connection.
use vstd::prelude::*;

pub mod cli;
pub mod http;
pub mod json;
pub mod text;

pub use cli::{gateway_config, parse_flag_value, parse_port, usage, Listen};
pub use http::{respond, respond_to_text, Route};
pub use json::escape_json;

verus! {

} // verus!
