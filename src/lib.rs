//! Client protocol for the VNDB database service: requests rendered to their
//! wire text, and responses cut out of a byte stream and parsed.
//!
//! Each frame on the wire ends with the byte `0x04`. A request is a command
//! word followed by its arguments; a response is a command word
//! (`ok`, `results`, `dbstats`, `error`) followed by a JSON payload.
use vstd::prelude::*;

pub mod json;
pub mod text;
pub mod request;
pub mod response;
pub mod codec;
pub mod decode;
pub mod results;
pub mod framing;

verus! {

} // verus!
