//! Structured values that the directory stores as binary blobs or packed
//! integers.

pub mod dfsr;
pub mod dns;
pub mod exchange;
pub mod lengths;
pub mod replication;
pub mod schema;
pub mod security;
pub mod terminal_services;
pub mod trust;
