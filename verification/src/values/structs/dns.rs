//! Zone properties and resource records of the DNS server.

pub mod property;
pub mod record;
