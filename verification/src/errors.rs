use vstd::prelude::*;

verus! {

/// Rejection of a peer: certificate or token problems discovered while
/// authenticating, or an authentication-tag mismatch when opening a sealed
/// frame. Every variant is fail-closed: nothing is relayed or revealed.
#[derive(Clone, Copy, Debug, PartialEq, Eq, Structural)]
pub enum AuthError {
    CertMissing,
    CertInvalid,
    TokenExpired,
    TokenInvalid,
    ClaimMismatch,
    TagMismatch,
}

/// Failure of the key-encapsulation exchange.
#[derive(Clone, Copy, Debug, PartialEq, Eq, Structural)]
pub enum KeyExchangeError {
    /// The received ciphertext does not have the shape the mechanism expects.
    MalformedCiphertext,
}

/// Failure while sealing under a session key.
#[derive(Clone, Copy, Debug, PartialEq, Eq, Structural)]
pub enum CryptoError {
    /// The per-key nonce counter has no fresh value left; sealing again
    /// would reuse a nonce, so the key must be retired instead.
    NonceExhausted,
    /// The plaintext exceeds what the underlying cipher accepts in one seal.
    MessageTooLong,
}

/// Failure to reach the upstream endpoint.
#[derive(Clone, Copy, Debug, PartialEq, Eq, Structural)]
pub enum ConnectionError {
    DialTimeout,
    DialRefused,
}

/// Failure while wiring the telemetry sink.
#[derive(Clone, Copy, Debug, PartialEq, Eq, Structural)]
pub enum TelemetryError {
    Registration,
    Encoding,
}

/// The category a terminal tunnel error falls under; reported once to the
/// telemetry sink when the tunnel closes.
#[derive(Clone, Copy, Debug, PartialEq, Eq, Structural)]
pub enum ErrorClass {
    Auth,
    Crypto,
    Connection,
    Relay,
}

/// How a tunnel ended: a clean end-of-stream on either side, or a terminal
/// error of some class.
#[derive(Clone, Copy, Debug, PartialEq, Eq, Structural)]
pub enum Outcome {
    Normal,
    Error(ErrorClass),
}

} // verus!
