//! A zero-trust tunnel gateway core: a peer's identity is verified before any
//! byte is forwarded, a session key is agreed through a post-quantum
//! key-encapsulation exchange, traffic is protected by an authenticated
//! cipher derived from that exchange, and a per-connection state machine
//! drives authenticate, key-exchange, relay and close in strict order.

pub mod cipher;
pub mod errors;
pub mod identity;
pub mod kem;
pub mod server;
pub mod telemetry;
pub mod tunnel;
