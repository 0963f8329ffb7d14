//! Security identifiers, access control lists and security descriptors.

pub mod ace;
pub mod acl;
pub mod claim;
pub mod descriptor;
pub mod key_credential_link;
pub mod masks;
pub mod round_trip;
pub mod sddl;

pub use ace::{Ace, AceData};
pub use acl::{Acl, AclRevision};
pub use claim::{ClaimSecurityAttribute1, ClaimValues};
pub use descriptor::SecurityDescriptor;
pub use masks::{AccessMask, AceFlags, ClaimFlags, MandatoryMask, SecurityDescriptorControl};

use crate::text::{decimal, parse_u64, push_decimal, unsigned_decimal};
use crate::wire::{be_u48, le_u32, read_u32_le, read_u48_be};
use vstd::prelude::*;
use vstd::string::StringSliceAdditionalSpecFns;

verus! {

/// A security identifier.
#[derive(Clone, Debug, PartialEq, Eq, Hash, PartialOrd, Ord)]
pub struct Sid {
    pub version: u8,
    /// The identifier authority, a 48-bit number.
    pub authority: u64,
    pub subauthorities: Vec<u32>,
}

impl Sid {
    /// The identifier is one that the decoder and the parser give: of
    /// version 1, with an authority of 48 bits.
    pub open spec fn well_formed(&self) -> bool {
        self.version == 1 && self.authority <= 0xFFFF_FFFF_FFFF
    }

    /// `b` starts with a version 1 identifier whose subauthorities all lie
    /// within `b`.
    pub open spec fn starts(b: Seq<u8>) -> bool {
        &&& b.len() >= 8
        &&& b[0] == 1
        &&& b.len() >= 8 + 4 * (b[1] as int)
    }

    /// The number of bytes that the identifier at the start of `b` takes.
    pub open spec fn wire_len(b: Seq<u8>) -> int {
        8 + 4 * (b[1] as int)
    }

    /// `b` is exactly one version 1 identifier.
    pub open spec fn wire_ok(b: Seq<u8>) -> bool {
        Sid::starts(b) && b.len() == Sid::wire_len(b)
    }

    /// `self` is the identifier that `b` holds.
    pub open spec fn decoded_from(&self, b: Seq<u8>) -> bool {
        &&& self.version == 1
        &&& self.authority == be_u48(b, 2)
        &&& self.subauthorities@.len() == b[1] as int
        &&& forall|i: int|
            0 <= i < b[1] as int ==> #[trigger] self.subauthorities@[i] == le_u32(b, 8 + 4 * i)
    }

    /// The number of subauthorities that the identifier at the start of
    /// `bytes` announces, where it is a version 1 identifier that lies
    /// within `bytes`.
    pub fn subauthority_count_from_slice(bytes: &[u8]) -> (r: Option<usize>)
        ensures
            r is Some <==> Sid::starts(bytes@),
            r matches Some(n) ==> n == bytes@[1] as int,
    {
        if bytes.len() < 8 {
            return None;
        }
        let version: u8 = bytes[0];
        if version != 1 {
            return None;
        }
        let subauthority_count: usize = bytes[1] as usize;
        if bytes.len() < 8 + 4 * subauthority_count {
            return None;
        }
        Some(subauthority_count)
    }

    /// The length of the identifier that `bytes` starts with.
    pub fn get_length(bytes: &[u8]) -> (r: Option<usize>)
        ensures
            r is Some <==> Sid::starts(bytes@),
            r matches Some(n) ==> n == Sid::wire_len(bytes@),
    {
        match Sid::subauthority_count_from_slice(bytes) {
            Some(subauthority_count) => Some(8 + 4 * subauthority_count),
            None => None,
        }
    }

    /// Decodes an identifier that fills `bytes` exactly.
    pub fn try_from_bytes(bytes: &[u8]) -> (r: Option<Sid>)
        ensures
            r is Some <==> Sid::wire_ok(bytes@),
            r matches Some(s) ==> s.decoded_from(bytes@) && s.well_formed(),
    {
        let subauthority_count: usize = match Sid::subauthority_count_from_slice(bytes) {
            Some(n) => n,
            None => return None,
        };
        let total_size: usize = 8 + 4 * subauthority_count;
        if bytes.len() != total_size {
            return None;
        }
        let authority: u64 = read_u48_be(bytes, 2);
        let mut subauthorities: Vec<u32> = Vec::new();
        let mut i: usize = 0;
        while i < subauthority_count
            invariant
                i <= subauthority_count,
                bytes.len() == 8 + 4 * subauthority_count,
                subauthorities@.len() == i,
                forall|j: int|
                    0 <= j < i ==> #[trigger] subauthorities@[j] == le_u32(bytes@, 8 + 4 * j),
            decreases subauthority_count - i,
        {
            let sub_auth: u32 = read_u32_le(bytes, 8 + 4 * i);
            subauthorities.push(sub_auth);
            i += 1;
        }
        Some(Sid { version: 1, authority, subauthorities })
    }

    /// The text form, `S-<version>-<authority>` and `-<subauthority>` for
    /// each subauthority.
    pub open spec fn text(&self) -> Seq<char> {
        sid_text(self.version, self.authority, self.subauthorities@)
    }

    /// Renders the text form.
    pub fn to_string(&self) -> (r: String)
        ensures
            r@ == self.text(),
    {
        let mut out: String = String::new();
        out.push('S');
        out.push('-');
        push_decimal(&mut out, self.version as u64);
        out.push('-');
        push_decimal(&mut out, self.authority);
        assert(out@ =~= sid_text_upto(self.version, self.authority, self.subauthorities@, 0));
        let mut i: usize = 0;
        while i < self.subauthorities.len()
            invariant
                i <= self.subauthorities@.len(),
                out@ == sid_text_upto(self.version, self.authority, self.subauthorities@, i as int),
            decreases self.subauthorities@.len() - i,
        {
            out.push('-');
            push_decimal(&mut out, self.subauthorities[i] as u64);
            i += 1;
        }
        out
    }

    /// The short alias of a well-known identifier. Identifiers that are
    /// relative to a domain have none.
    pub open spec fn alias(&self) -> Option<Seq<char>> {
        let subs = self.subauthorities@;
        if self.version != 1 {
            None
        } else if subs.len() == 1 {
            alias_of_one(self.authority, subs[0])
        } else if subs.len() == 2 {
            alias_of_two(self.authority, subs[0], subs[1])
        } else {
            None
        }
    }

    /// Looks the identifier up among the well-known ones.
    pub fn as_well_known_sddl_sid_string(&self) -> (r: Option<&'static str>)
        ensures
            r matches Some(t) ==> self.alias() == Some(t@),
            r is None ==> self.alias() is None,
    {
        if self.version != 1 {
            return None;
        }
        let n: usize = self.subauthorities.len();
        if n == 1 {
            let s0: u32 = self.subauthorities[0];
            match self.authority {
                1 => match s0 {
                    0 => Some("WD"),
                    _ => None,
                },
                3 => match s0 {
                    0 => Some("CO"),
                    1 => Some("CG"),
                    4 => Some("OW"),
                    _ => None,
                },
                5 => match s0 {
                    2 => Some("NU"),
                    4 => Some("IU"),
                    6 => Some("SU"),
                    7 => Some("AN"),
                    9 => Some("ED"),
                    10 => Some("PS"),
                    11 => Some("AU"),
                    12 => Some("RC"),
                    18 => Some("SY"),
                    19 => Some("LS"),
                    20 => Some("NS"),
                    33 => Some("WR"),
                    _ => None,
                },
                16 => match s0 {
                    4096 => Some("LW"),
                    8192 => Some("ME"),
                    8448 => Some("MP"),
                    12288 => Some("HI"),
                    16384 => Some("SI"),
                    _ => None,
                },
                18 => match s0 {
                    2 => Some("SS"),
                    _ => None,
                },
                _ => None,
            }
        } else if n == 2 {
            let s0: u32 = self.subauthorities[0];
            let s1: u32 = self.subauthorities[1];
            if self.authority == 5 && s0 == 32 {
                match s1 {
                    544 => Some("BA"),
                    545 => Some("BU"),
                    546 => Some("BG"),
                    547 => Some("PU"),
                    548 => Some("AO"),
                    549 => Some("SO"),
                    550 => Some("PO"),
                    551 => Some("BO"),
                    552 => Some("RE"),
                    553 => Some("RS"),
                    554 => Some("RU"),
                    555 => Some("RD"),
                    556 => Some("NO"),
                    558 => Some("MU"),
                    559 => Some("LU"),
                    568 => Some("IS"),
                    569 => Some("CY"),
                    573 => Some("ER"),
                    574 => Some("CD"),
                    575 => Some("RA"),
                    576 => Some("ES"),
                    578 => Some("HA"),
                    579 => Some("AA"),
                    584 => Some("HO"),
                    _ => None,
                }
            } else if self.authority == 15 && s0 == 2 && s1 == 1 {
                Some("AC")
            } else {
                None
            }
        } else {
            None
        }
    }

    /// The form in which a security descriptor string names the identifier:
    /// the alias where there is one, the text form otherwise.
    pub open spec fn sddl_text(&self) -> Seq<char> {
        match self.alias() {
            Some(t) => t,
            None => self.text(),
        }
    }

    /// Renders the identifier for a security descriptor string.
    pub fn to_sddl_sid_string(&self) -> (r: String)
        ensures
            r@ == self.sddl_text(),
    {
        match self.as_well_known_sddl_sid_string() {
            Some(s) => s.to_owned(),
            None => self.to_string(),
        }
    }
}

/// The text form of an identifier up to and including subauthority
/// `k - 1`.
pub open spec fn sid_text_upto(version: u8, authority: u64, subs: Seq<u32>, k: int) -> Seq<char>
    decreases k,
{
    if k <= 0 {
        seq!['S', '-'] + decimal(version as nat) + seq!['-'] + decimal(authority as nat)
    } else {
        sid_text_upto(version, authority, subs, k - 1) + seq!['-'] + decimal(subs[k - 1] as nat)
    }
}

/// The text form of an identifier: `S-<version>-<authority>` and
/// `-<subauthority>` for each subauthority.
pub open spec fn sid_text(version: u8, authority: u64, subs: Seq<u32>) -> Seq<char> {
    sid_text_upto(version, authority, subs, subs.len() as int)
}

/// The alias of the version 1 identifier `S-1-<authority>-<s0>`.
pub open spec fn alias_of_one(authority: u64, s0: u32) -> Option<Seq<char>> {
    if authority == 1 {
        // world authority
        if s0 == 0 { Some("WD"@) } else { None }
    } else if authority == 3 {
        // creator authority
        if s0 == 0 { Some("CO"@) }
        else if s0 == 1 { Some("CG"@) }
        else if s0 == 4 { Some("OW"@) }
        else { None }
    } else if authority == 5 {
        // NT authority
        if s0 == 2 { Some("NU"@) }
        else if s0 == 4 { Some("IU"@) }
        else if s0 == 6 { Some("SU"@) }
        else if s0 == 7 { Some("AN"@) }
        else if s0 == 9 { Some("ED"@) }
        else if s0 == 10 { Some("PS"@) }
        else if s0 == 11 { Some("AU"@) }
        else if s0 == 12 { Some("RC"@) }
        else if s0 == 18 { Some("SY"@) }
        else if s0 == 19 { Some("LS"@) }
        else if s0 == 20 { Some("NS"@) }
        else if s0 == 33 { Some("WR"@) }
        else { None }
    } else if authority == 16 {
        // mandatory label authority
        if s0 == 4096 { Some("LW"@) }
        else if s0 == 8192 { Some("ME"@) }
        else if s0 == 8448 { Some("MP"@) }
        else if s0 == 12288 { Some("HI"@) }
        else if s0 == 16384 { Some("SI"@) }
        else { None }
    } else if authority == 18 {
        // authentication authority
        if s0 == 2 { Some("SS"@) } else { None }
    } else {
        None
    }
}

/// The alias of the version 1 identifier `S-1-<authority>-<s0>-<s1>`.
pub open spec fn alias_of_two(authority: u64, s0: u32, s1: u32) -> Option<Seq<char>> {
    if authority == 5 && s0 == 32 {
        // built-in domain
        if s1 == 544 { Some("BA"@) }
        else if s1 == 545 { Some("BU"@) }
        else if s1 == 546 { Some("BG"@) }
        else if s1 == 547 { Some("PU"@) }
        else if s1 == 548 { Some("AO"@) }
        else if s1 == 549 { Some("SO"@) }
        else if s1 == 550 { Some("PO"@) }
        else if s1 == 551 { Some("BO"@) }
        else if s1 == 552 { Some("RE"@) }
        else if s1 == 553 { Some("RS"@) }
        else if s1 == 554 { Some("RU"@) }
        else if s1 == 555 { Some("RD"@) }
        else if s1 == 556 { Some("NO"@) }
        else if s1 == 558 { Some("MU"@) }
        else if s1 == 559 { Some("LU"@) }
        else if s1 == 568 { Some("IS"@) }
        else if s1 == 569 { Some("CY"@) }
        else if s1 == 573 { Some("ER"@) }
        else if s1 == 574 { Some("CD"@) }
        else if s1 == 575 { Some("RA"@) }
        else if s1 == 576 { Some("ES"@) }
        else if s1 == 578 { Some("HA"@) }
        else if s1 == 579 { Some("AA"@) }
        else if s1 == 584 { Some("HO"@) }
        else { None }
    } else if authority == 15 && s0 == 2 && s1 == 1 {
        // application package authority
        Some("AC"@)
    } else {
        None
    }
}

/// Why a text is not the text form of a security identifier.
#[derive(Clone, Copy, Debug, PartialEq, Eq, Structural)]
pub enum SidParseError {
    /// The text does not start with `S-`.
    MissingPrefix,
    /// The version is not written as `1`.
    NotVersion1,
    /// An authority is not a decimal number of at most 64 bits.
    NotANumber,
    /// The top authority does not fit into 48 bits.
    AuthorityTooLarge,
    /// A subauthority does not fit into 32 bits.
    SubauthorityTooLarge,
    /// No top authority follows the version.
    NoAuthority,
}

impl SidParseError {
    /// The sentence that says what is wrong.
    pub open spec fn message_text(self) -> Seq<char> {
        match self {
            SidParseError::MissingPrefix => "SID string does not start with \"S-\""@,
            SidParseError::NotVersion1 => "not a version 1 SID"@,
            SidParseError::NotANumber => "one of the authorities is not parseable as u64"@,
            SidParseError::AuthorityTooLarge => "top authority does not fit into 48 bits"@,
            SidParseError::SubauthorityTooLarge => "subauthority does not fit into 32 bits"@,
            SidParseError::NoAuthority => "no top authority specified"@,
        }
    }

    /// A sentence that says what is wrong.
    pub fn message(&self) -> (r: &'static str)
        ensures
            r@ == self.message_text(),
    {
        match self {
            SidParseError::MissingPrefix => "SID string does not start with \"S-\"",
            SidParseError::NotVersion1 => "not a version 1 SID",
            SidParseError::NotANumber => "one of the authorities is not parseable as u64",
            SidParseError::AuthorityTooLarge => "top authority does not fit into 48 bits",
            SidParseError::SubauthorityTooLarge => "subauthority does not fit into 32 bits",
            SidParseError::NoAuthority => "no top authority specified",
        }
    }
}

/// The index of the first `-` at or after `from`; the length of `b` where
/// there is none.
pub open spec fn dash_from(b: Seq<u8>, from: int) -> int
    decreases b.len() - from,
{
    if from >= b.len() {
        b.len() as int
    } else if b[from] == 0x2D {
        from
    } else {
        dash_from(b, from + 1)
    }
}

/// Where piece `k` starts. The pieces are what stands between the hyphens
/// of the text after its first two bytes.
pub open spec fn piece_start(b: Seq<u8>, k: nat) -> int
    decreases k,
{
    if k == 0 {
        2
    } else {
        dash_from(b, piece_start(b, (k - 1) as nat)) + 1
    }
}

/// Whether the text has a piece `k`.
pub open spec fn has_piece(b: Seq<u8>, k: nat) -> bool {
    k < b.len() && piece_start(b, k) <= b.len()
}

/// Piece `k` of the text.
pub open spec fn piece(b: Seq<u8>, k: nat) -> Seq<u8> {
    b.subrange(piece_start(b, k), dash_from(b, piece_start(b, k)))
}

/// The number of pieces from piece `k` on.
pub open spec fn pieces_from(b: Seq<u8>, k: nat) -> nat
    decreases b.len() - k,
{
    if !has_piece(b, k) {
        0
    } else {
        1 + pieces_from(b, k + 1)
    }
}

/// What is wrong with piece `k`, if anything: piece 0 is the version and
/// reads `1`, piece 1 is the top authority, the others are subauthorities.
pub open spec fn piece_error(b: Seq<u8>, k: nat) -> Option<SidParseError> {
    let p = piece(b, k);
    let n = unsigned_decimal(p, u64::MAX as int);
    if k == 0 {
        if p == seq![0x31u8] {
            None
        } else {
            Some(SidParseError::NotVersion1)
        }
    } else if n is None {
        Some(SidParseError::NotANumber)
    } else if k == 1 && n.unwrap() > 0xFFFF_FFFF_FFFF {
        Some(SidParseError::AuthorityTooLarge)
    } else if k > 1 && n.unwrap() > 0xFFFF_FFFF {
        Some(SidParseError::SubauthorityTooLarge)
    } else {
        None
    }
}

/// The first error from piece `k` on.
pub open spec fn error_from(b: Seq<u8>, k: nat) -> Option<SidParseError>
    decreases b.len() - k,
{
    if !has_piece(b, k) {
        if k < 2 {
            Some(SidParseError::NoAuthority)
        } else {
            None
        }
    } else if piece_error(b, k) is Some {
        piece_error(b, k)
    } else {
        error_from(b, k + 1)
    }
}

/// Why `b` is not the text form of an identifier; `None` where it is one.
pub open spec fn sid_text_error(b: Seq<u8>) -> Option<SidParseError> {
    if !(b.len() >= 2 && b[0] == 0x53 && b[1] == 0x2D) {
        Some(SidParseError::MissingPrefix)
    } else {
        error_from(b, 0)
    }
}

impl Sid {
    /// `self` is the identifier that the text `b` writes.
    pub open spec fn parsed_from(&self, b: Seq<u8>) -> bool {
        &&& self.version == 1
        &&& Some(self.authority as int) == unsigned_decimal(piece(b, 1), u64::MAX as int)
        &&& self.subauthorities@.len() + 2 == pieces_from(b, 0)
        &&& forall|i: int|
            0 <= i < self.subauthorities@.len() ==> Some(#[trigger] self.subauthorities@[i] as int)
                == unsigned_decimal(piece(b, (i + 2) as nat), u64::MAX as int)
    }

    /// Reads the text form `S-1-<authority>` followed by `-<subauthority>`
    /// any number of times.
    pub fn from_str(s: &str) -> (r: Result<Sid, SidParseError>)
        ensures
            match r {
                Ok(sid) => sid_text_error(s.spec_bytes()) is None && sid.parsed_from(
                    s.spec_bytes(),
                ) && sid.well_formed(),
                Err(e) => sid_text_error(s.spec_bytes()) == Some(e),
            },
    {
        let bytes: &[u8] = s.as_bytes();
        let ghost b = bytes@;
        if bytes.len() < 2 || bytes[0] != 0x53 || bytes[1] != 0x2D {
            return Err(SidParseError::MissingPrefix);
        }
        let mut top_authority: u64 = 0;
        let mut subauthorities: Vec<u32> = Vec::new();
        let mut k: usize = 0;
        let mut start: usize = 2;
        let mut more: bool = true;
        while more
            invariant
                b == bytes@,
                b == s.spec_bytes(),
                b.len() >= 2 && b[0] == 0x53 && b[1] == 0x2D,
                more ==> 2 + k <= start <= b.len(),
                more ==> start == piece_start(b, k as nat),
                !more ==> 2 + k <= b.len() + 1 && piece_start(b, k as nat) == b.len() + 1,
                error_from(b, 0) == error_from(b, k as nat),
                pieces_from(b, 0) == k + pieces_from(b, k as nat),
                k >= 2 ==> Some(top_authority as int) == unsigned_decimal(
                    piece(b, 1),
                    u64::MAX as int,
                ),
                k >= 2 ==> top_authority <= 0xFFFF_FFFF_FFFF,
                k < 2 ==> subauthorities@.len() == 0,
                k >= 2 ==> subauthorities@.len() == k - 2,
                forall|i: int|
                    0 <= i < subauthorities@.len() ==> Some(#[trigger] subauthorities@[i] as int)
                        == unsigned_decimal(piece(b, (i + 2) as nat), u64::MAX as int),
            decreases
                    (if more {
                        b.len() + 1 - start
                    } else {
                        0
                    }),
        {
            let mut end: usize = start;
            while end < bytes.len() && bytes[end] != 0x2D
                invariant
                    b == bytes@,
                    start <= end <= b.len(),
                    dash_from(b, start as int) == dash_from(b, end as int),
                decreases b.len() - end,
            {
                end += 1;
            }
            assert(end == dash_from(b, start as int));
            assert(has_piece(b, k as nat));
            let part: &[u8] = &bytes[start..end];
            assert(part@ == piece(b, k as nat));
            if k == 0 {
                if !(part.len() == 1 && part[0] == 0x31) {
                    proof {
                        if part@ == seq![0x31u8] {
                            assert(part@.len() == 1);
                            assert(part@[0] == 0x31u8);
                        }
                    }
                    return Err(SidParseError::NotVersion1);
                }
                assert(part@ =~= seq![0x31u8]);
            } else {
                let n: u64 = match parse_u64(part) {
                    Some(n) => n,
                    None => {
                        return Err(SidParseError::NotANumber);
                    },
                };
                if k == 1 {
                    if n > 0x0000_FFFF_FFFF_FFFF {
                        return Err(SidParseError::AuthorityTooLarge);
                    }
                    top_authority = n;
                } else {
                    if n > 0xFFFF_FFFF {
                        return Err(SidParseError::SubauthorityTooLarge);
                    }
                    subauthorities.push(n as u32);
                }
            }
            assert(piece_error(b, k as nat) is None);
            k += 1;
            if end == bytes.len() {
                more = false;
            } else {
                start = end + 1;
            }
        }
        assert(!has_piece(b, k as nat));
        if k < 2 {
            return Err(SidParseError::NoAuthority);
        }
        Ok(Sid { version: 1, authority: top_authority, subauthorities })
    }
}

} // verus!
