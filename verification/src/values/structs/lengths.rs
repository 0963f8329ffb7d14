//! The lengths of records: a record that a decoder accepts has no byte
//! that belongs to none of its fields. For each record, `consumed` adds up
//! the lengths of its fields as the record itself declares them, and a law
//! says that the sum is the length of the buffer.

use crate::values::structs::dns::property::DnsProperty;
use crate::values::structs::dns::record::{
    count_name_len, data_shape, name_end, string_len, string_offset, string_ok, strings_count,
    strings_fill, Data, DataShape, DnsRecord, NamingAuthorityPointerData,
};
use crate::values::structs::replication::{ReplUpToDateVector2, RepsFromTo};
use crate::values::structs::schema::{entry_offset, PrefixMap, SchemaInfo};
use crate::values::structs::security::acl::{ace_offset, Acl};
use crate::values::structs::security::key_credential_link::{
    entries_count, entries_fill, link_entry_end, link_entry_offset, KeyCredentialLinkBlob,
    KeyCredentialLinkEntry,
};
use crate::values::structs::security::Sid;
use crate::values::structs::terminal_services::{parameter_offset, UserParameters};
use crate::values::structs::trust::{
    record_offset, record_shape, scanner_dns_at, text_end, RecordShape, TrustForestTrustInfo,
    TrustInfoRecord,
};
use crate::wire::{le_u16, le_u32, tail};
use vstd::prelude::*;

verus! {

impl SchemaInfo {
    /// The bytes of the fields: the marker, the version and the GUID.
    pub open spec fn consumed() -> int {
        1int + 4 + 16
    }
}

/// A version record of the schema has no byte outside its fields.
pub proof fn lemma_schema_info_length(b: Seq<u8>)
    requires
        SchemaInfo::wire_ok(b),
    ensures
        SchemaInfo::consumed() == b.len(),
{
}

impl ReplUpToDateVector2 {
    /// The bytes of the fields: four numbers of four bytes and the
    /// cursors, each a GUID and two numbers of eight bytes.
    pub open spec fn consumed(b: Seq<u8>) -> int {
        4 + 4 + 4 + 4 + 16 * le_u32(b, 8) + 8 * le_u32(b, 8) + 8 * le_u32(b, 8)
    }
}

/// A vector of cursors has no byte outside its fields.
pub proof fn lemma_up_to_date_vector_length(b: Seq<u8>)
    requires
        ReplUpToDateVector2::wire_ok(b),
    ensures
        ReplUpToDateVector2::consumed(b) == b.len(),
{
}

impl RepsFromTo {
    /// The bytes of the fields: the header of 212 bytes, the padding
    /// between the header and the address of the partner, and the
    /// address.
    pub open spec fn consumed(b: Seq<u8>) -> int {
        212 + (le_u32(b, 36) - 212) + le_u32(b, 40)
    }
}

/// The description of a partner whose address lies after the header and
/// ends where the buffer ends has no byte outside its fields. The decoder
/// also accepts descriptions whose address lies elsewhere in the buffer.
pub proof fn lemma_reps_from_to_length(b: Seq<u8>)
    requires
        RepsFromTo::wire_ok(b),
        le_u32(b, 36) >= 212,
        le_u32(b, 36) + le_u32(b, 40) == b.len(),
    ensures
        RepsFromTo::consumed(b) == b.len(),
{
}

/// The bytes of the first `k` character strings of a run.
pub open spec fn strings_total(b: Seq<u8>, k: nat) -> int
    decreases k,
{
    if k == 0 {
        0
    } else {
        strings_total(b, (k - 1) as nat) + string_len(tail(b, string_offset(b, (k - 1) as nat)))
    }
}

/// The strings of a run that starts at string `j` and fills the buffer end
/// where the buffer ends.
pub proof fn lemma_strings_total(b: Seq<u8>, j: nat)
    requires
        0 <= string_offset(b, j) <= b.len(),
        strings_fill(b, string_offset(b, j)),
        strings_total(b, j) == string_offset(b, j),
    ensures
        strings_total(b, j + strings_count(b, string_offset(b, j))) == b.len(),
    decreases b.len() - string_offset(b, j),
{
    let at = string_offset(b, j);
    if at < b.len() {
        assert(string_ok(tail(b, at)));
        assert(tail(b, at)[0] == b[at]);
        assert(string_offset(b, j + 1) == at + 1 + b[at]);
        assert(strings_total(b, j + 1) == strings_total(b, j) + string_len(tail(b, at)));
        lemma_strings_total(b, j + 1);
        assert(strings_count(b, at) == 1 + strings_count(b, string_offset(b, j + 1)));
    }
}

impl Data {
    /// The bytes of the fields of the data `b` of a record of type `kind`.
    /// A field that reaches to the end of the data has what is left.
    pub open spec fn consumed(kind: u16, b: Seq<u8>) -> int {
        match data_shape(kind) {
            DataShape::Tombstone => 8,
            DataShape::Ipv4 => 4,
            DataShape::NodeName => count_name_len(tail(b, 0)),
            DataShape::StartOfAuthority => 4 + 4 + 4 + 4 + 4 + count_name_len(tail(b, 20))
                + count_name_len(tail(b, name_end(b, 20))),
            DataShape::Bytes => b.len() as int,
            DataShape::WellKnownService => 4 + 1 + (b.len() - 5),
            DataShape::Strings => strings_total(b, strings_count(b, 0)),
            DataShape::Mailbox => count_name_len(tail(b, 0)) + count_name_len(
                tail(b, name_end(b, 0)),
            ),
            DataShape::PreferenceName => 2 + count_name_len(tail(b, 2)),
            DataShape::Signature => 2 + 1 + 1 + 4 + 4 + 4 + 2 + count_name_len(tail(b, 18)) + (
            b.len() - name_end(b, 18)),
            DataShape::Key => 2 + 1 + 1 + (b.len() - 4),
            DataShape::Ipv6 => 16,
            DataShape::NextDomain => 16 + count_name_len(tail(b, 16)),
            DataShape::Service => 2 + 2 + 2 + count_name_len(tail(b, 6)),
            DataShape::Atma => 1 + (b.len() - 1),
            DataShape::NamingAuthorityPointer => 2 + 2 + string_len(tail(b, 4)) + string_len(
                tail(b, NamingAuthorityPointerData::service_at(b)),
            ) + string_len(tail(b, NamingAuthorityPointerData::substitution_at(b)))
                + count_name_len(tail(b, NamingAuthorityPointerData::replacement_at(b))),
            DataShape::DelegationSigner => 2 + 1 + 1 + (b.len() - 4),
            DataShape::NextSecureRecord => count_name_len(tail(b, 0)) + (b.len() - name_end(b, 0)),
            DataShape::NextSecureRecord3 => 1 + 1 + 2 + 1 + 1 + b[4] + b[5] + (b.len() - (6 + b[4]
                + b[5])),
            DataShape::NextSecureRecord3Parameters => 1 + 1 + 2 + 1 + b[4],
            DataShape::TlsAssociation => 1 + 1 + 1 + (b.len() - 3),
            DataShape::Wins => 4 + 4 + 4 + 4 + 4 * le_u32(b, 12),
            DataShape::WinsReverse => 4 + 4 + 4 + string_len(tail(b, 12)),
            DataShape::Other => b.len() as int,
        }
    }
}

/// The data of a resource record has no byte outside its fields.
pub proof fn lemma_record_data_length(kind: u16, b: Seq<u8>)
    requires
        Data::wire_ok(kind, b),
    ensures
        Data::consumed(kind, b) == b.len(),
{
    match data_shape(kind) {
        DataShape::Strings => {
            lemma_strings_total(b, 0);
        },
        DataShape::NodeName => {
            assert(tail(b, 0)[0] == b[0]);
        },
        DataShape::StartOfAuthority => {
            assert(tail(b, 20)[0] == b[20]);
            assert(tail(b, name_end(b, 20))[0] == b[name_end(b, 20)]);
        },
        DataShape::Mailbox => {
            assert(tail(b, 0)[0] == b[0]);
            assert(tail(b, name_end(b, 0))[0] == b[name_end(b, 0)]);
        },
        DataShape::PreferenceName => {
            assert(tail(b, 2)[0] == b[2]);
        },
        DataShape::Signature => {
            assert(tail(b, 18)[0] == b[18]);
        },
        DataShape::NextDomain => {
            assert(tail(b, 16)[0] == b[16]);
        },
        DataShape::Service => {
            assert(tail(b, 6)[0] == b[6]);
        },
        DataShape::NamingAuthorityPointer => {
            let s = NamingAuthorityPointerData::service_at(b);
            let u = NamingAuthorityPointerData::substitution_at(b);
            let r = NamingAuthorityPointerData::replacement_at(b);
            assert(tail(b, 4)[0] == b[4]);
            assert(tail(b, s)[0] == b[s]);
            assert(tail(b, u)[0] == b[u]);
            assert(tail(b, r)[0] == b[r]);
        },
        DataShape::NextSecureRecord => {
            assert(tail(b, 0)[0] == b[0]);
        },
        DataShape::WinsReverse => {
            assert(tail(b, 12)[0] == b[12]);
        },
        _ => {},
    }
}

impl DnsRecord {
    /// The bytes of the fields: the header of 24 bytes and the data.
    pub open spec fn consumed(b: Seq<u8>) -> int {
        2 + 2 + 2 + 2 + 4 + 4 + 4 + 4 + Data::consumed(le_u16(b, 2) as u16, tail(b, 24))
    }
}

/// A resource record has no byte outside its fields.
pub proof fn lemma_dns_record_length(b: Seq<u8>)
    requires
        DnsRecord::wire_ok(b),
    ensures
        DnsRecord::consumed(b) == b.len(),
        DnsRecord::consumed(b) == 24 + le_u16(b, 0),
{
    lemma_record_data_length(le_u16(b, 2) as u16, tail(b, 24));
}

impl DnsProperty {
    /// The bytes of the fields: the header of 20 bytes, the data, whose
    /// length the header gives, and the name, which has what is left.
    pub open spec fn consumed(b: Seq<u8>) -> int {
        4 + 4 + 4 + 4 + 4 + le_u32(b, 0) + (b.len() - DnsProperty::name_at(b))
    }
}

/// A property of a zone has no byte outside its fields, and its name has
/// one byte at least.
pub proof fn lemma_dns_property_length(b: Seq<u8>)
    requires
        DnsProperty::wire_ok(b),
    ensures
        DnsProperty::consumed(b) == b.len(),
        b.len() - DnsProperty::name_at(b) >= 1,
{
}

impl TrustInfoRecord {
    /// The bytes of the fields of the record `b`: the header of 17 bytes
    /// and the body, by the type of the record.
    pub open spec fn consumed(b: Seq<u8>) -> int {
        4 + 4 + 8 + 1 + match record_shape(b[16]) {
            RecordShape::Name => 4 + le_u32(b, 17),
            RecordShape::Domain => 4 + le_u32(b, 17) + 4 + le_u32(b, text_end(b, 17)) + 4 + le_u32(
                b,
                text_end(b, text_end(b, 17)),
            ),
            RecordShape::Scanner => 4 + 4 + 1 + b[25] + 4 + le_u32(b, scanner_dns_at(b)) + 4
                + le_u32(b, text_end(b, scanner_dns_at(b))),
            RecordShape::Binary => 4 + le_u32(b, 17),
        }
    }
}

/// A record of the trust information has no byte outside its fields, and
/// its length field counts all of them but itself.
pub proof fn lemma_trust_record_length(b: Seq<u8>)
    requires
        TrustInfoRecord::wire_ok(b),
    ensures
        TrustInfoRecord::consumed(b) == b.len(),
        b.len() == 4 + le_u32(b, 0),
{
}

/// The bytes of the first `k` records of the trust information `b`, each
/// with the length that its length field gives.
pub open spec fn records_total(b: Seq<u8>, k: nat) -> int
    decreases k,
{
    if k == 0 {
        0
    } else {
        records_total(b, (k - 1) as nat) + 4 + le_u32(b, record_offset(b, (k - 1) as nat))
    }
}

/// Record `k` starts after the header and the records before it.
pub proof fn lemma_records_total(b: Seq<u8>, k: nat)
    ensures
        record_offset(b, k) == 8 + records_total(b, k),
    decreases k,
{
    if k > 0 {
        lemma_records_total(b, (k - 1) as nat);
    }
}

impl TrustForestTrustInfo {
    /// The bytes of the fields: the version, the count and the records.
    pub open spec fn consumed(b: Seq<u8>) -> int {
        4 + 4 + records_total(b, le_u32(b, 4) as nat)
    }
}

/// Trust information has no byte outside its fields: after the last of
/// the records that it announces, the buffer ends.
pub proof fn lemma_trust_info_length(b: Seq<u8>)
    requires
        TrustForestTrustInfo::wire_ok(b),
    ensures
        TrustForestTrustInfo::consumed(b) == b.len(),
{
    lemma_records_total(b, le_u32(b, 4) as nat);
}

/// The bytes of the first `k` entries of the prefix table `b`.
pub open spec fn prefixes_total(b: Seq<u8>, k: nat) -> int
    decreases k,
{
    if k == 0 {
        0
    } else {
        prefixes_total(b, (k - 1) as nat) + 2 + 2 + le_u16(
            b,
            entry_offset(b, (k - 1) as nat) + 2,
        )
    }
}

/// Entry `k` starts after the header and the entries before it.
pub proof fn lemma_prefixes_total(b: Seq<u8>, k: nat)
    ensures
        entry_offset(b, k) == 8 + prefixes_total(b, k),
    decreases k,
{
    if k > 0 {
        lemma_prefixes_total(b, (k - 1) as nat);
    }
}

impl PrefixMap {
    /// The bytes of the fields: the count, the length and the entries.
    pub open spec fn consumed(b: Seq<u8>) -> int {
        4 + 4 + prefixes_total(b, le_u32(b, 0) as nat)
    }
}

/// A prefix table has no byte outside its fields, and its length field
/// gives its length.
pub proof fn lemma_prefix_map_length(b: Seq<u8>)
    requires
        PrefixMap::wire_ok(b),
    ensures
        PrefixMap::consumed(b) == b.len(),
        le_u32(b, 4) == b.len(),
{
    lemma_prefixes_total(b, le_u32(b, 0) as nat);
}

impl KeyCredentialLinkEntry {
    /// The bytes of the fields of the entry `b`: the length, the
    /// identifier and the data.
    pub open spec fn consumed(b: Seq<u8>) -> int {
        2 + 1 + le_u16(b, 0)
    }
}

/// An entry of a key credential link has no byte outside its fields.
pub proof fn lemma_link_entry_length(b: Seq<u8>)
    requires
        KeyCredentialLinkEntry::wire_ok(b),
    ensures
        KeyCredentialLinkEntry::consumed(b) == b.len(),
{
}

/// The entries of a link that fill it from entry `j` on end where the
/// link ends.
pub proof fn lemma_link_entries_end(d: Seq<u8>, j: nat)
    requires
        0 <= link_entry_offset(d, j) <= d.len(),
        entries_fill(d, link_entry_offset(d, j)),
    ensures
        link_entry_offset(d, j + entries_count(d, link_entry_offset(d, j))) == d.len(),
    decreases d.len() - link_entry_offset(d, j),
{
    let at = link_entry_offset(d, j);
    if at < d.len() {
        assert(link_entry_offset(d, j + 1) == link_entry_end(d, at));
        lemma_link_entries_end(d, j + 1);
        assert(entries_count(d, at) == 1 + entries_count(d, link_entry_offset(d, j + 1)));
    }
}

impl KeyCredentialLinkBlob {
    /// The bytes of the fields of the link `d`: the version and the
    /// entries.
    pub open spec fn consumed(d: Seq<u8>) -> int {
        link_entry_offset(d, entries_count(d, 4))
    }
}

/// A key credential link has no byte outside its fields: after the last
/// of its entries, the link ends.
pub proof fn lemma_key_credential_link_length(d: Seq<u8>)
    requires
        KeyCredentialLinkBlob::wire_ok(d),
    ensures
        KeyCredentialLinkBlob::consumed(d) == d.len(),
{
    lemma_link_entries_end(d, 0);
}

impl UserParameters {
    /// The code units of the fields: 48 units of older data, the
    /// signature, the count and the parameters.
    pub open spec fn consumed(u: Seq<u16>) -> int {
        parameter_offset(u, u[49] as nat)
    }
}

/// The parameters of the terminal services have no code unit outside
/// their fields: after the last of the parameters that they announce, the
/// units end.
pub proof fn lemma_user_parameters_length(u: Seq<u16>)
    requires
        UserParameters::units_ok(u),
    ensures
        UserParameters::consumed(u) == u.len(),
{
}

impl Acl {
    /// The bytes of the fields of the list `b`: the header and the
    /// entries, each with the size that it declares.
    pub open spec fn consumed(b: Seq<u8>) -> int {
        ace_offset(b, le_u16(b, 4) as nat)
    }
}

/// An access control list has no byte outside its fields, and its size
/// field gives its length.
pub proof fn lemma_acl_length(b: Seq<u8>)
    requires
        Acl::wire_ok(b),
    ensures
        Acl::consumed(b) == b.len(),
        le_u16(b, 2) == b.len(),
{
}

/// A security identifier has no byte outside its fields.
pub proof fn lemma_sid_length(b: Seq<u8>)
    requires
        Sid::wire_ok(b),
    ensures
        1 + 1 + 6 + 4 * b[1] == b.len(),
{
}

} // verus!
