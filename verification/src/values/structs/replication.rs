//! Replication metadata: cursors, partners and signatures.

use crate::guid::{text_order, Guid};
use crate::time::{utc_seconds_relative_to_1601, Timestamp};
use crate::values::{nul_terminated_text_at, nul_terminated_utf16le_string_at_offset};
use crate::wire::{
    copy_range, le_i64, le_u32, le_u64, read_i64_le, read_u32_le, read_u64_le,
};
use vstd::prelude::*;

verus! {

/// `g` is the identifier that the 16 bytes of `b` at `at` hold.
pub open spec fn guid_is(g: Guid, b: Seq<u8>, at: int) -> bool {
    g.bytes@ == text_order(b.subrange(at, at + 16))
}

fn guid_at(bytes: &[u8], at: usize) -> (r: Guid)
    requires
        at + 16 <= bytes.len(),
    ensures
        guid_is(r, bytes@, at as int),
{
    match Guid::from_slice_le(&bytes[at..at + 16]) {
        Some(g) => g,
        None => Guid { bytes: [0u8; 16] },
    }
}

/// How far the changes of one source have been applied.
#[derive(Clone, Copy, Debug, PartialEq, Eq, Hash, PartialOrd, Ord)]
pub struct Repl2Cursor {
    pub uuid_dsa: Guid,
    pub usn_high_prop_update: u64,
    pub time_last_sync_success: Timestamp,
}

impl Repl2Cursor {
    /// `b` is one cursor of 32 bytes.
    pub open spec fn wire_ok(b: Seq<u8>) -> bool {
        b.len() == 32
    }

    /// `self` is the cursor that `b` holds.
    pub open spec fn decoded_from(&self, b: Seq<u8>) -> bool {
        &&& guid_is(self.uuid_dsa, b, 0)
        &&& self.usn_high_prop_update == le_u64(b, 16)
        &&& self.time_last_sync_success == Timestamp::of_seconds(le_i64(b, 24))
    }

    /// Decodes a cursor.
    pub fn try_from_bytes(bytes: &[u8]) -> (r: Option<Repl2Cursor>)
        ensures
            r is Some <==> Repl2Cursor::wire_ok(bytes@),
            r matches Some(c) ==> c.decoded_from(bytes@),
    {
        if bytes.len() != 32 {
            return None;
        }
        let uuid_dsa: Guid = guid_at(bytes, 0);
        let usn_high_prop_update: u64 = read_u64_le(bytes, 16);
        let time_seconds: i64 = read_i64_le(bytes, 24);
        let time_last_sync_success: Timestamp = utc_seconds_relative_to_1601(time_seconds);
        Some(Repl2Cursor { uuid_dsa, usn_high_prop_update, time_last_sync_success })
    }
}

/// The cursors of a replica, in version 2 of their layout.
#[derive(Clone, Debug, PartialEq, Eq, Hash, PartialOrd, Ord)]
pub struct ReplUpToDateVector2 {
    pub version: u32,
    pub reserved1: u32,
    pub reserved2: u32,
    pub cursors: Vec<Repl2Cursor>,
}

impl ReplUpToDateVector2 {
    /// `b` is a vector of version 2: a header of 16 bytes, which gives the
    /// count of the cursors, and as many cursors of 32 bytes, and no more.
    pub open spec fn wire_ok(b: Seq<u8>) -> bool {
        &&& b.len() >= 16
        &&& le_u32(b, 0) == 2
        &&& b.len() == 16 + 32 * le_u32(b, 8)
    }

    /// `self` is the vector that `b` holds.
    pub open spec fn decoded_from(&self, b: Seq<u8>) -> bool {
        &&& self.version == 2
        &&& self.reserved1 == le_u32(b, 4)
        &&& self.reserved2 == le_u32(b, 12)
        &&& self.cursors@.len() == le_u32(b, 8)
        &&& forall|j: int|
            0 <= j < le_u32(b, 8) ==> (#[trigger] self.cursors@[j]).decoded_from(
                b.subrange(16 + 32 * j, 48 + 32 * j),
            )
    }

    /// Decodes the cursors of a replica.
    pub fn try_from_bytes(bytes: &[u8]) -> (r: Option<ReplUpToDateVector2>)
        ensures
            r is Some <==> ReplUpToDateVector2::wire_ok(bytes@),
            r matches Some(v) ==> v.decoded_from(bytes@),
    {
        let ghost b = bytes@;
        if bytes.len() < 16 {
            return None;
        }
        let version: u32 = read_u32_le(bytes, 0);
        if version != 2 {
            return None;
        }
        let reserved1: u32 = read_u32_le(bytes, 4);
        let num_cursors: usize = read_u32_le(bytes, 8) as usize;
        let reserved2: u32 = read_u32_le(bytes, 12);
        if (bytes.len() - 16) % 32 != 0 || (bytes.len() - 16) / 32 != num_cursors {
            return None;
        }
        let mut cursors: Vec<Repl2Cursor> = Vec::new();
        let mut i: usize = 0;
        while i < num_cursors
            invariant
                b == bytes@,
                b.len() == bytes.len(),
                b.len() == 16 + 32 * num_cursors,
                i <= num_cursors,
                cursors@.len() == i,
                forall|j: int|
                    0 <= j < i ==> (#[trigger] cursors@[j]).decoded_from(
                        b.subrange(16 + 32 * j, 48 + 32 * j),
                    ),
            decreases num_cursors - i,
        {
            let offset: usize = 16 + i * 32;
            let cursor: Repl2Cursor = match Repl2Cursor::try_from_bytes(
                &bytes[offset..offset + 32],
            ) {
                Some(c) => c,
                None => {
                    return None;
                },
            };
            cursors.push(cursor);
            i += 1;
        }
        Some(ReplUpToDateVector2 { version, reserved1, reserved2, cursors })
    }
}

/// The hours of the week at which replication may run: 84 bytes, four
/// bits for each hour.
#[derive(Clone, Copy, Debug, PartialEq, Eq, Hash, PartialOrd, Ord)]
pub struct ReplTimes {
    pub times: [u8; 84],
}

impl ReplTimes {
    /// Takes the schedule from a buffer of 84 bytes.
    pub fn try_from_bytes(bytes: &[u8]) -> (r: Option<ReplTimes>)
        ensures
            r is Some <==> bytes@.len() == 84,
            r matches Some(t) ==> t.times@ == bytes@,
    {
        if bytes.len() != 84 {
            return None;
        }
        let mut times: [u8; 84] = [0u8; 84];
        let mut i: usize = 0;
        while i < 84
            invariant
                bytes.len() == 84,
                i <= 84,
                forall|j: int| 0 <= j < i ==> times@[j] == bytes@[j],
            decreases 84 - i,
        {
            times[i] = bytes[i];
            i += 1;
        }
        assert(times@ =~= bytes@);
        Some(ReplTimes { times })
    }
}

/// The update sequence numbers up to which a partner has been followed.
#[derive(Clone, Copy, Debug, PartialEq, Eq, Structural, Hash, PartialOrd, Ord)]
pub struct UsnVector {
    pub usn_high_obj_update: u64,
    pub usn_reserved: u64,
    pub usn_high_prop_update: u64,
}

impl UsnVector {
    /// Decodes three numbers of 64 bits from a buffer of 24 bytes.
    pub fn try_from_bytes(bytes: &[u8]) -> (r: Option<UsnVector>)
        ensures
            r is Some <==> bytes@.len() == 24,
            r matches Some(v) ==> {
                &&& v.usn_high_obj_update == le_u64(bytes@, 0)
                &&& v.usn_reserved == le_u64(bytes@, 8)
                &&& v.usn_high_prop_update == le_u64(bytes@, 16)
            },
    {
        if bytes.len() != 24 {
            return None;
        }
        let usn_high_obj_update: u64 = read_u64_le(bytes, 0);
        let usn_reserved: u64 = read_u64_le(bytes, 8);
        let usn_high_prop_update: u64 = read_u64_le(bytes, 16);
        Some(UsnVector { usn_high_obj_update, usn_reserved, usn_high_prop_update })
    }
}

/// The network name of a partner.
#[derive(Clone, Debug, PartialEq, Eq, Hash, PartialOrd, Ord)]
pub struct MtxAddr {
    pub name: Vec<u8>,
}

impl MtxAddr {
    /// `b` starts with a name: a length byte and as many bytes.
    pub open spec fn wire_ok(b: Seq<u8>) -> bool {
        b.len() >= 1 && 1 + b[0] <= b.len()
    }

    /// Decodes the name that `bytes` starts with.
    pub fn try_from_bytes(bytes: &[u8]) -> (r: Option<MtxAddr>)
        ensures
            r is Some <==> MtxAddr::wire_ok(bytes@),
            r matches Some(m) ==> m.name@ == bytes@.subrange(1, 1 + bytes@[0]),
    {
        if bytes.len() < 1 {
            return None;
        }
        let byte_count: usize = bytes[0] as usize;
        if byte_count > bytes.len() - 1 {
            return None;
        }
        let name: Vec<u8> = copy_range(bytes, 1, 1 + byte_count);
        Some(MtxAddr { name })
    }
}

/// A partner by the name and the instance of its service.
#[derive(Clone, Debug, PartialEq, Eq, Hash, PartialOrd, Ord)]
pub struct DsaRpcInst {
    pub server: Option<String>,
    pub annotation: Option<String>,
    pub instance: Option<String>,
    pub instance_guid: Option<Guid>,
}

impl DsaRpcInst {
    /// `b` starts with the description of a partner: a size of 20 bytes
    /// or more that `b` can hold, and four offsets that lie within `b`.
    pub open spec fn wire_ok(b: Seq<u8>) -> bool {
        &&& b.len() >= 4
        &&& 20 <= le_u32(b, 0) <= b.len()
        &&& le_u32(b, 4) < b.len()
        &&& le_u32(b, 8) < b.len()
        &&& le_u32(b, 12) < b.len()
        &&& le_u32(b, 16) > 0 ==> le_u32(b, 16) + 16 <= b.len()
    }

    /// `self` is the description that `b` holds. A text that cannot be
    /// decoded counts as absent.
    pub open spec fn decoded_from(&self, b: Seq<u8>) -> bool {
        &&& option_text(self.server) == nul_terminated_text_at(b, le_u32(b, 4), true)
        &&& option_text(self.annotation) == nul_terminated_text_at(b, le_u32(b, 8), true)
        &&& option_text(self.instance) == nul_terminated_text_at(b, le_u32(b, 12), true)
        &&& if le_u32(b, 16) > 0 {
            self.instance_guid matches Some(g) && guid_is(g, b, le_u32(b, 16))
        } else {
            self.instance_guid is None
        }
    }

    /// Decodes the description of a partner.
    pub fn try_from_bytes(bytes: &[u8]) -> (r: Option<DsaRpcInst>)
        ensures
            r is Some <==> DsaRpcInst::wire_ok(bytes@),
            r matches Some(d) ==> d.decoded_from(bytes@),
    {
        if bytes.len() < 4 {
            return None;
        }
        let byte_count: usize = read_u32_le(bytes, 0) as usize;
        if byte_count > bytes.len() {
            return None;
        }
        if byte_count < 20 {
            return None;
        }
        let server_offset: usize = read_u32_le(bytes, 4) as usize;
        let annotation_offset: usize = read_u32_le(bytes, 8) as usize;
        let instance_offset: usize = read_u32_le(bytes, 12) as usize;
        let instance_guid_offset: usize = read_u32_le(bytes, 16) as usize;
        if server_offset >= bytes.len() {
            return None;
        }
        if annotation_offset >= bytes.len() {
            return None;
        }
        if instance_offset >= bytes.len() {
            return None;
        }
        if instance_guid_offset > 0 && (instance_guid_offset > bytes.len() || bytes.len()
            - instance_guid_offset < 16) {
            return None;
        }
        let server: Option<String> = nul_terminated_utf16le_string_at_offset(
            bytes,
            server_offset,
            true,
        );
        let annotation: Option<String> = nul_terminated_utf16le_string_at_offset(
            bytes,
            annotation_offset,
            true,
        );
        let instance: Option<String> = nul_terminated_utf16le_string_at_offset(
            bytes,
            instance_offset,
            true,
        );
        let instance_guid: Option<Guid> = if instance_guid_offset > 0 {
            Some(guid_at(bytes, instance_guid_offset))
        } else {
            None
        };
        Some(DsaRpcInst { server, annotation, instance, instance_guid })
    }
}

/// The text of an optional string.
pub open spec fn option_text(s: Option<String>) -> Option<Seq<char>> {
    match s {
        Some(t) => Some(t@),
        None => None,
    }
}

/// The address of a partner: by name in version 1, by instance in
/// version 2.
#[derive(Clone, Debug, PartialEq, Eq, Hash, PartialOrd, Ord)]
pub enum OtherDra {
    V1(MtxAddr),
    V2(DsaRpcInst),
}

/// A partner from which, or to which, a replica is replicated.
#[derive(Clone, Debug, PartialEq, Eq, Hash, PartialOrd, Ord)]
pub struct RepsFromTo {
    pub version: u32,
    pub reserved0: u32,
    pub consecutive_failures: u32,
    pub time_last_success: Timestamp,
    pub time_last_attempt: Timestamp,
    pub result_last_attempt: u32,
    pub other_dra: OtherDra,
    pub replica_flags: u32,
    pub schedule: ReplTimes,
    pub reserved1: u32,
    pub usn_vec: UsnVector,
    pub dsa_object: Guid,
    pub invocation_id: Guid,
    pub transport_object: Guid,
    pub reserved2: u32,
}

impl RepsFromTo {
    /// The address of the partner within `b`.
    pub open spec fn other_dra_bytes(b: Seq<u8>) -> Seq<u8> {
        b.subrange(le_u32(b, 36), le_u32(b, 36) + le_u32(b, 40))
    }

    /// `b` describes a partner: a header of 212 bytes of version 1 or 2,
    /// whose size field does not exceed `b`, and a well-formed address of
    /// the partner where the header says that it lies, within `b`.
    pub open spec fn wire_ok(b: Seq<u8>) -> bool {
        &&& b.len() >= 212
        &&& 1 <= le_u32(b, 0) <= 2
        &&& le_u32(b, 8) <= b.len()
        &&& le_u32(b, 36) + le_u32(b, 40) <= b.len()
        &&& if le_u32(b, 0) == 1 {
            MtxAddr::wire_ok(RepsFromTo::other_dra_bytes(b))
        } else {
            DsaRpcInst::wire_ok(RepsFromTo::other_dra_bytes(b))
        }
    }

    /// `self` is the description that `b` holds.
    pub open spec fn decoded_from(&self, b: Seq<u8>) -> bool {
        let dra = RepsFromTo::other_dra_bytes(b);
        &&& self.version == le_u32(b, 0)
        &&& self.reserved0 == le_u32(b, 4)
        &&& self.consecutive_failures == le_u32(b, 12)
        &&& self.time_last_success == Timestamp::of_seconds(le_i64(b, 16))
        &&& self.time_last_attempt == Timestamp::of_seconds(le_i64(b, 24))
        &&& self.result_last_attempt == le_u32(b, 32)
        &&& match self.other_dra {
            OtherDra::V1(m) => le_u32(b, 0) == 1 && m.name@ == dra.subrange(1, 1 + dra[0]),
            OtherDra::V2(d) => le_u32(b, 0) == 2 && d.decoded_from(dra),
        }
        &&& self.replica_flags == le_u32(b, 44)
        &&& self.schedule.times@ == b.subrange(48, 132)
        &&& self.reserved1 == le_u32(b, 132)
        &&& self.usn_vec.usn_high_obj_update == le_u64(b, 136)
        &&& self.usn_vec.usn_reserved == le_u64(b, 144)
        &&& self.usn_vec.usn_high_prop_update == le_u64(b, 152)
        &&& guid_is(self.dsa_object, b, 160)
        &&& guid_is(self.invocation_id, b, 176)
        &&& guid_is(self.transport_object, b, 192)
        &&& self.reserved2 == le_u32(b, 208)
    }

    /// Decodes the description of a partner.
    pub fn try_from_bytes(bytes: &[u8]) -> (r: Option<RepsFromTo>)
        ensures
            r is Some <==> RepsFromTo::wire_ok(bytes@),
            r matches Some(p) ==> p.decoded_from(bytes@),
    {
        if bytes.len() < 212 {
            return None;
        }
        let version: u32 = read_u32_le(bytes, 0);
        if version < 1 || version > 2 {
            return None;
        }
        let reserved0: u32 = read_u32_le(bytes, 4);
        let cb: usize = read_u32_le(bytes, 8) as usize;
        if cb > bytes.len() {
            return None;
        }
        let consecutive_failures: u32 = read_u32_le(bytes, 12);
        let secs_last_success: i64 = read_i64_le(bytes, 16);
        let secs_last_attempt: i64 = read_i64_le(bytes, 24);
        let result_last_attempt: u32 = read_u32_le(bytes, 32);
        let other_dra_offset: usize = read_u32_le(bytes, 36) as usize;
        let other_dra_length: usize = read_u32_le(bytes, 40) as usize;
        let replica_flags: u32 = read_u32_le(bytes, 44);
        let schedule: ReplTimes = match ReplTimes::try_from_bytes(&bytes[48..132]) {
            Some(s) => s,
            None => {
                return None;
            },
        };
        let reserved1: u32 = read_u32_le(bytes, 132);
        let usn_vec: UsnVector = match UsnVector::try_from_bytes(&bytes[136..160]) {
            Some(u) => u,
            None => {
                return None;
            },
        };
        let dsa_object: Guid = guid_at(bytes, 160);
        let invocation_id: Guid = guid_at(bytes, 176);
        let transport_object: Guid = guid_at(bytes, 192);
        let reserved2: u32 = read_u32_le(bytes, 208);

        if other_dra_offset > bytes.len() || other_dra_length > bytes.len() - other_dra_offset {
            return None;
        }
        let other_dra_slice: &[u8] = &bytes[other_dra_offset..other_dra_offset + other_dra_length];
        let other_dra: OtherDra = if version == 1 {
            match MtxAddr::try_from_bytes(other_dra_slice) {
                Some(m) => OtherDra::V1(m),
                None => {
                    return None;
                },
            }
        } else {
            match DsaRpcInst::try_from_bytes(other_dra_slice) {
                Some(d) => OtherDra::V2(d),
                None => {
                    return None;
                },
            }
        };
        let time_last_success: Timestamp = utc_seconds_relative_to_1601(secs_last_success);
        let time_last_attempt: Timestamp = utc_seconds_relative_to_1601(secs_last_attempt);
        Some(
            RepsFromTo {
                version,
                reserved0,
                consecutive_failures,
                time_last_success,
                time_last_attempt,
                result_last_attempt,
                other_dra,
                replica_flags,
                schedule,
                reserved1,
                usn_vec,
                dsa_object,
                invocation_id,
                transport_object,
                reserved2,
            },
        )
    }
}

/// The state of the signature of a directory service agent.
#[derive(Clone, Debug, PartialEq, Eq, Hash, PartialOrd, Ord)]
pub struct DsaSignatureState1 {
    pub version: u32,
    pub flags: u32,
    pub padding0: u32,
    pub backup_error_latency_secs: u64,
    pub dsa_guid: Guid,
}

impl DsaSignatureState1 {
    /// `b` starts with a signature state of version 1: a size of 40 bytes
    /// or more that `b` can hold.
    pub open spec fn wire_ok(b: Seq<u8>) -> bool {
        &&& b.len() >= 8
        &&& le_u32(b, 0) == 1
        &&& 40 <= le_u32(b, 4) <= b.len()
    }

    /// `self` is the signature state that `b` holds.
    pub open spec fn decoded_from(&self, b: Seq<u8>) -> bool {
        &&& self.version == 1
        &&& self.flags == le_u32(b, 8)
        &&& self.padding0 == le_u32(b, 12)
        &&& self.backup_error_latency_secs == le_u64(b, 16)
        &&& guid_is(self.dsa_guid, b, 24)
    }

    /// Decodes a signature state.
    pub fn try_from_bytes(bytes: &[u8]) -> (r: Option<DsaSignatureState1>)
        ensures
            r is Some <==> DsaSignatureState1::wire_ok(bytes@),
            r matches Some(d) ==> d.decoded_from(bytes@),
    {
        if bytes.len() < 8 {
            return None;
        }
        let version: u32 = read_u32_le(bytes, 0);
        if version != 1 {
            return None;
        }
        let byte_count: usize = read_u32_le(bytes, 4) as usize;
        if byte_count > bytes.len() {
            return None;
        }
        if byte_count < 40 {
            return None;
        }
        let flags: u32 = read_u32_le(bytes, 8);
        let padding0: u32 = read_u32_le(bytes, 12);
        let backup_error_latency_secs: u64 = read_u64_le(bytes, 16);
        let dsa_guid: Guid = guid_at(bytes, 24);
        Some(DsaSignatureState1 { version, flags, padding0, backup_error_latency_secs, dsa_guid })
    }
}

} // verus!
