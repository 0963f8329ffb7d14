//! Decoders for the attribute values of a directory service that follows
//! the Active Directory schema: security identifiers and descriptors, DNS
//! records, replication metadata, trust information and related blobs.

pub mod bits;
pub mod guid;
pub mod oid_prefix;
pub mod oid_round_trip;
pub mod text;
pub mod time;
pub mod values;
pub mod wire;
