//! Request handling, one module per family of endpoints.

pub mod ecdsa;
pub mod eth;
pub mod locks;
pub mod session;
pub mod signature;
