//! An exchange connectivity engine: the request-signing and
//! response-classification layer behind authenticated REST calls, and the
//! decision core of a WebSocket streaming loop.  Every function here carries
//! a contract; the network itself is driven by thin unverified callers that
//! perform exactly the actions these functions prescribe.

pub mod client;
pub mod config;
pub mod engine;
pub mod errors;
pub mod sign;
pub mod streams;
