//! The closed error taxonomy of the connectivity engine.  Every operation of
//! the transport client and of the streaming engine reports its failure as one
//! of these kinds; nothing in the library panics on exchange input.

use vstd::prelude::*;

verus! {

/// One failure class per way an exchange interaction can go wrong.
///
/// The two dedicated domain kinds, `InvalidPrice` and `InvalidListenKey`, are
/// promoted from `DomainRejection` when the exchange's `(code, message)` pair
/// matches the known constants; every other pair stays a `DomainRejection`
/// carrying code and message verbatim.
#[derive(Clone, Debug)]
pub enum Error {
    /// Network-level failure: connect, timeout, send or receive.
    TransportFailure(String),
    /// The WebSocket upgrade handshake was rejected.
    HandshakeFailure(String),
    /// The server rejected the credentials.
    AuthFailure,
    /// The explicit service-unavailable status.
    ServerUnavailable,
    /// The server reported an internal error.
    ServerInternalError,
    /// The exchange rejected the order price.
    InvalidPrice,
    /// The exchange rejected an invalid or expired listen key; carries the
    /// exchange's message.
    InvalidListenKey(String),
    /// Any other exchange-reported rejection, code and message verbatim.
    DomainRejection { code: i64, message: String },
    /// A payload did not match the expected shape.
    DecodeFailure(String),
    /// Unexpected close, exhausted stream, or another protocol breach.
    ProtocolViolation(String),
    /// The channel to the event consumer is gone.
    ConsumerUnreachable,
    /// A status code outside the classified set.
    UnknownStatus(u16),
}

/// The exact message the exchange attaches to code -1013 when it rejects an
/// order for its price.
pub open spec fn invalid_price_message() -> Seq<char> {
    "Invalid price."@
}

/// Exchange error code for a rejected order price.
pub const CODE_INVALID_PRICE: i64 = -1013;

/// Exchange error code for an invalid or expired listen key.
pub const CODE_INVALID_LISTEN_KEY: i64 = -1125;

} // verus!
