//! Layout of the persistent key-value store.

pub mod db;
