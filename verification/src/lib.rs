//! Two-party threshold ECDSA wallet: the session rules of the key-holding
//! server and the bookkeeping of the client wallet.
//!
//! The server walks each session through key generation, chain-code
//! agreement, signing and rotation, one request at a time; this crate decides
//! which request is in order, which stored artifacts it consumes and which it
//! leaves behind. The client side derives addresses, selects coins and
//! assembles signatures. The cryptographic rounds themselves are run by the
//! caller, who reports their outcome back.

pub mod auth;
pub mod number;
pub mod routes;
pub mod server;
pub mod storage;
mod text;
pub mod utils;
pub mod wallet;
