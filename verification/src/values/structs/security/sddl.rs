//! The security descriptor definition language: the text form of access
//! control entries, lists and security descriptors.
//!
//! The text is written only where it says all that the value holds. An
//! entry with application data, with a flag or a right that has no code,
//! or of a type that has no code has no text, and neither has a list or a
//! descriptor that holds such an entry.

use super::ace::{Ace, AceData};
use super::acl::Acl;
use super::descriptor::SecurityDescriptor;
use super::masks::{AccessMask, AceFlags, MandatoryMask, SecurityDescriptorControl};
use super::Sid;
use crate::guid::{hyphenated, Guid};
use crate::text::{opt, opt_str};
use vstd::prelude::*;
use vstd::string::StringExecFns;

verus! {

/// The code of the type of an entry. The callback object types for
/// granting audit and denial have none.
pub open spec fn type_text(data: AceData) -> Option<Seq<char>> {
    match data {
        AceData::AccessAllowed { .. } => Some("A"@),
        AceData::AccessDenied { .. } => Some("D"@),
        AceData::SystemAudit { .. } => Some("AU"@),
        AceData::AccessAllowedObject { .. } => Some("OA"@),
        AceData::AccessDeniedObject { .. } => Some("OD"@),
        AceData::SystemAuditObject { .. } => Some("OU"@),
        AceData::AccessAllowedCallback { .. } => Some("XA"@),
        AceData::AccessDeniedCallback { .. } => Some("XD"@),
        AceData::AccessAllowedCallbackObject { .. } => Some("ZA"@),
        AceData::AccessDeniedCallbackObject { .. } => None,
        AceData::SystemAuditCallback { .. } => Some("XU"@),
        AceData::SystemAuditCallbackObject { .. } => None,
        AceData::SystemMandatoryLabel { .. } => Some("ML"@),
        AceData::SystemResourceAttribute { .. } => Some("RA"@),
        AceData::SystemScopedPolicyId { .. } => Some("SP"@),
        AceData::Other { .. } => None,
    }
}

fn type_str(data: &AceData) -> (r: Option<&'static str>)
    ensures
        r matches Some(t) ==> type_text(*data) == Some(t@),
        r is None ==> type_text(*data) is None,
{
    match data {
        AceData::AccessAllowed { .. } => Some("A"),
        AceData::AccessDenied { .. } => Some("D"),
        AceData::SystemAudit { .. } => Some("AU"),
        AceData::AccessAllowedObject { .. } => Some("OA"),
        AceData::AccessDeniedObject { .. } => Some("OD"),
        AceData::SystemAuditObject { .. } => Some("OU"),
        AceData::AccessAllowedCallback { .. } => Some("XA"),
        AceData::AccessDeniedCallback { .. } => Some("XD"),
        AceData::AccessAllowedCallbackObject { .. } => Some("ZA"),
        AceData::AccessDeniedCallbackObject { .. } => None,
        AceData::SystemAuditCallback { .. } => Some("XU"),
        AceData::SystemAuditCallbackObject { .. } => None,
        AceData::SystemMandatoryLabel { .. } => Some("ML"),
        AceData::SystemResourceAttribute { .. } => Some("RA"),
        AceData::SystemScopedPolicyId { .. } => Some("SP"),
        AceData::Other { .. } => None,
    }
}

/// The codes of the flags of an entry, in the order of the language.
pub open spec fn flags_text(f: AceFlags) -> Seq<char> {
    opt(f.has(AceFlags::CONTAINER_INHERIT), "CI"@) + opt(f.has(AceFlags::OBJECT_INHERIT), "OI"@)
        + opt(f.has(AceFlags::NO_PROPAGATE_INHERIT), "NP"@) + opt(
        f.has(AceFlags::INHERIT_ONLY),
        "IO"@,
    ) + opt(f.has(AceFlags::INHERITED), "ID"@) + opt(
        f.has(AceFlags::SUCCESSFUL_ACCESS_FLAG),
        "SA"@,
    ) + opt(f.has(AceFlags::FAILED_ACCESS_FLAG), "FA"@)
}

fn flags_string(f: &AceFlags) -> (r: String)
    ensures
        r@ == flags_text(*f),
{
    let mut out: String = opt_str(f.contains(AceFlags::CONTAINER_INHERIT), "CI").to_owned();
    out.append(opt_str(f.contains(AceFlags::OBJECT_INHERIT), "OI"));
    out.append(opt_str(f.contains(AceFlags::NO_PROPAGATE_INHERIT), "NP"));
    out.append(opt_str(f.contains(AceFlags::INHERIT_ONLY), "IO"));
    out.append(opt_str(f.contains(AceFlags::INHERITED), "ID"));
    out.append(opt_str(f.contains(AceFlags::SUCCESSFUL_ACCESS_FLAG), "SA"));
    out.append(opt_str(f.contains(AceFlags::FAILED_ACCESS_FLAG), "FA"));
    out
}

/// The codes of the rights of an access mask, in the order of the
/// language.
pub open spec fn rights_text(m: AccessMask) -> Seq<char> {
    opt(m.has(AccessMask::DS_CREATE_CHILD), "CC"@) + opt(m.has(AccessMask::DS_DELETE_CHILD), "DC"@)
        + opt(m.has(AccessMask::DS_LIST_CHILDREN), "LC"@) + opt(
        m.has(AccessMask::DS_SELF_WRITE),
        "SW"@,
    ) + opt(m.has(AccessMask::DS_READ_PROP), "RP"@) + opt(m.has(AccessMask::DS_WRITE_PROP), "WP"@)
        + opt(m.has(AccessMask::DS_DELETE_TREE), "DT"@) + opt(
        m.has(AccessMask::DS_LIST_OBJECT),
        "LO"@,
    ) + opt(m.has(AccessMask::DS_CONTROL_ACCESS), "CR"@) + opt(m.has(AccessMask::DELETE), "SD"@)
        + opt(m.has(AccessMask::READ_CONTROL), "RC"@) + opt(m.has(AccessMask::WRITE_DACL), "WD"@)
        + opt(m.has(AccessMask::WRITE_OWNER), "WO"@)
}

fn rights_string(m: &AccessMask) -> (r: String)
    ensures
        r@ == rights_text(*m),
{
    let mut out: String = opt_str(m.contains(AccessMask::DS_CREATE_CHILD), "CC").to_owned();
    out.append(opt_str(m.contains(AccessMask::DS_DELETE_CHILD), "DC"));
    out.append(opt_str(m.contains(AccessMask::DS_LIST_CHILDREN), "LC"));
    out.append(opt_str(m.contains(AccessMask::DS_SELF_WRITE), "SW"));
    out.append(opt_str(m.contains(AccessMask::DS_READ_PROP), "RP"));
    out.append(opt_str(m.contains(AccessMask::DS_WRITE_PROP), "WP"));
    out.append(opt_str(m.contains(AccessMask::DS_DELETE_TREE), "DT"));
    out.append(opt_str(m.contains(AccessMask::DS_LIST_OBJECT), "LO"));
    out.append(opt_str(m.contains(AccessMask::DS_CONTROL_ACCESS), "CR"));
    out.append(opt_str(m.contains(AccessMask::DELETE), "SD"));
    out.append(opt_str(m.contains(AccessMask::READ_CONTROL), "RC"));
    out.append(opt_str(m.contains(AccessMask::WRITE_DACL), "WD"));
    out.append(opt_str(m.contains(AccessMask::WRITE_OWNER), "WO"));
    out
}

/// The codes of the policy of a mandatory label, in the order of the
/// language.
pub open spec fn label_text(m: MandatoryMask) -> Seq<char> {
    opt(m.has(MandatoryMask::NO_READ_UP), "NR"@) + opt(m.has(MandatoryMask::NO_WRITE_UP), "NW"@)
        + opt(m.has(MandatoryMask::NO_EXECUTE_UP), "NX"@)
}

fn label_string(m: &MandatoryMask) -> (r: String)
    ensures
        r@ == label_text(*m),
{
    let mut out: String = opt_str(m.contains(MandatoryMask::NO_READ_UP), "NR").to_owned();
    out.append(opt_str(m.contains(MandatoryMask::NO_WRITE_UP), "NW"));
    out.append(opt_str(m.contains(MandatoryMask::NO_EXECUTE_UP), "NX"));
    out
}

/// The text of an optional GUID: empty where there is none.
pub open spec fn guid_text(g: Option<Guid>) -> Seq<char> {
    match g {
        Some(v) => hyphenated(v.bytes@),
        None => Seq::empty(),
    }
}

fn guid_string(g: &Option<Guid>) -> (r: String)
    ensures
        r@ == guid_text(*g),
{
    match g {
        Some(v) => v.to_string(),
        None => String::new(),
    }
}

/// The text of the mask of an entry: its rights, or the policy of a
/// mandatory label. There is none where a bit of the mask has no code.
pub open spec fn mask_text(data: AceData) -> Option<Seq<char>> {
    match data.mask_of() {
        Some(m) => if m.only_named() {
            Some(rights_text(m))
        } else {
            None
        },
        None => match data.label_mask_of() {
            Some(l) => if l.only_named() {
                Some(label_text(l))
            } else {
                None
            },
            None => None,
        },
    }
}

fn mask_string(data: &AceData) -> (r: Option<String>)
    ensures
        r matches Some(t) ==> mask_text(*data) == Some(t@),
        r is None ==> mask_text(*data) is None,
{
    match data.access_mask() {
        Some(mask) => {
            if !mask.is_truncated() {
                return None;
            }
            Some(rights_string(&mask))
        },
        None => match data {
            AceData::SystemMandatoryLabel { mask, .. } => {
                if !mask.is_truncated() {
                    return None;
                }
                Some(label_string(mask))
            },
            _ => None,
        },
    }
}

impl Ace {
    /// Whether the language can write the entry down: it has no application
    /// data, its type has a code, and its flags and its mask hold no bit
    /// without a code.
    pub open spec fn writable(&self) -> bool {
        &&& self.application_data@.len() == 0
        &&& type_text(self.data) is Some
        &&& self.flags.only_named()
        &&& mask_text(self.data) is Some
        &&& self.data.sid_of() is Some
    }

    /// The text
    /// `(<type>;<flags>;<rights>;<object GUID>;<inherited object GUID>;<SID>)`.
    pub open spec fn sddl(&self) -> Option<Seq<char>> {
        if self.writable() {
            Some(
                "("@ + type_text(self.data).unwrap() + ";"@ + flags_text(self.flags) + ";"@
                    + mask_text(self.data).unwrap() + ";"@ + guid_text(self.data.object_type_of())
                    + ";"@ + guid_text(self.data.inherited_object_type_of()) + ";"@
                    + self.data.sid_of().unwrap().sddl_text() + ")"@,
            )
        } else {
            None
        }
    }

    /// Writes the entry in the security descriptor definition language.
    pub fn try_to_string(&self) -> (r: Option<String>)
        ensures
            r matches Some(t) ==> self.sddl() == Some(t@),
            r is None ==> self.sddl() is None,
    {
        if self.application_data.len() > 0 {
            return None;
        }
        let ace_type: &'static str = match type_str(&self.data) {
            Some(t) => t,
            None => {
                return None;
            },
        };
        if !self.flags.is_truncated() {
            return None;
        }
        let mask: String = match mask_string(&self.data) {
            Some(m) => m,
            None => {
                return None;
            },
        };
        let sid: &Sid = match self.data.sid() {
            Some(s) => s,
            None => {
                return None;
            },
        };
        let mut ret: String = "(".to_owned();
        ret.append(ace_type);
        ret.append(";");
        ret.append(flags_string(&self.flags).as_str());
        ret.append(";");
        ret.append(mask.as_str());
        ret.append(";");
        ret.append(guid_string(&self.data.object_guid()).as_str());
        ret.append(";");
        ret.append(guid_string(&self.data.inherit_object_guid()).as_str());
        ret.append(";");
        ret.append(sid.to_sddl_sid_string().as_str());
        ret.append(")");
        Some(ret)
    }
}

/// The texts of the first `k` entries, one after the other; none where
/// one of them has no text.
pub open spec fn entries_sddl(entries: Seq<Ace>, k: int) -> Option<Seq<char>>
    decreases k,
{
    if k <= 0 {
        Some(Seq::empty())
    } else if entries_sddl(entries, k - 1) is Some && entries[k - 1].sddl() is Some {
        Some(entries_sddl(entries, k - 1).unwrap() + entries[k - 1].sddl().unwrap())
    } else {
        None
    }
}

/// Once an entry has no text, no longer run of entries has one.
pub proof fn lemma_entries_sddl_none(entries: Seq<Ace>, k: int, n: int)
    requires
        0 <= k <= n,
        entries_sddl(entries, k) is None,
    ensures
        entries_sddl(entries, n) is None,
    decreases n - k,
{
    if k < n {
        lemma_entries_sddl_none(entries, k + 1, n);
    }
}

impl Acl {
    /// The texts of the entries of the list, one after the other.
    pub open spec fn sddl(&self) -> Option<Seq<char>> {
        entries_sddl(self.entries@, self.entries@.len() as int)
    }

    /// Writes the entries of the list in the security descriptor
    /// definition language.
    pub fn try_to_string(&self) -> (r: Option<String>)
        ensures
            r matches Some(t) ==> self.sddl() == Some(t@),
            r is None ==> self.sddl() is None,
    {
        let mut ret: String = String::new();
        let mut i: usize = 0;
        while i < self.entries.len()
            invariant
                i <= self.entries@.len(),
                entries_sddl(self.entries@, i as int) == Some(ret@),
            decreases self.entries@.len() - i,
        {
            match self.entries[i].try_to_string() {
                Some(t) => {
                    ret.append(t.as_str());
                },
                None => {
                    proof {
                        lemma_entries_sddl_none(
                            self.entries@,
                            i + 1,
                            self.entries@.len() as int,
                        );
                    }
                    return None;
                },
            }
            i += 1;
        }
        Some(ret)
    }
}

/// The flags of a list: protected, inheritance required, inherited.
pub open spec fn acl_flags_text(protected: bool, required: bool, inherited: bool) -> Seq<char> {
    opt(protected, "P"@) + opt(required, "AR"@) + opt(inherited, "AI"@)
}

/// The part of the text for the owner or the group, after its tag.
pub open spec fn sid_part(tag: Seq<char>, sid: Option<Sid>) -> Seq<char> {
    match sid {
        Some(s) => tag + s.sddl_text(),
        None => Seq::empty(),
    }
}

/// The part of the text for a list, after its tag and its flags.
pub open spec fn acl_part(tag: Seq<char>, flags: Seq<char>, acl: Option<Acl>) -> Option<Seq<char>> {
    match acl {
        Some(a) => match a.sddl() {
            Some(t) => Some(tag + flags + t),
            None => None,
        },
        None => Some(Seq::empty()),
    }
}

fn sid_part_string(tag: &'static str, sid: &Option<Sid>) -> (r: String)
    ensures
        r@ == sid_part(tag@, *sid),
{
    match sid {
        Some(s) => {
            let mut out: String = tag.to_owned();
            out.append(s.to_sddl_sid_string().as_str());
            out
        },
        None => String::new(),
    }
}

fn acl_part_string(
    tag: &'static str,
    protected: bool,
    required: bool,
    inherited: bool,
    acl: &Option<Acl>,
) -> (r: Option<String>)
    ensures
        r matches Some(t) ==> acl_part(tag@, acl_flags_text(protected, required, inherited), *acl)
            == Some(t@),
        r is None ==> acl_part(tag@, acl_flags_text(protected, required, inherited), *acl) is None,
{
    match acl {
        Some(a) => {
            let mut flags: String = opt_str(protected, "P").to_owned();
            flags.append(opt_str(required, "AR"));
            flags.append(opt_str(inherited, "AI"));
            let mut out: String = tag.to_owned();
            out.append(flags.as_str());
            match a.try_to_string() {
                Some(t) => {
                    out.append(t.as_str());
                    Some(out)
                },
                None => None,
            }
        },
        None => Some(String::new()),
    }
}

impl SecurityDescriptor {
    /// The control flags that the language cannot express.
    pub const UNWRITABLE: u16 = 0x402B;

    /// The part of the text for the discretionary list.
    pub open spec fn dacl_part(&self) -> Option<Seq<char>> {
        acl_part(
            "D:"@,
            acl_flags_text(
                self.control.has(SecurityDescriptorControl::DACL_PROTECTED),
                self.control.has(SecurityDescriptorControl::DACL_AUTO_INHERIT_REQ),
                self.control.has(SecurityDescriptorControl::DACL_AUTO_INHERITED),
            ),
            self.dacl,
        )
    }

    /// The part of the text for the system list.
    pub open spec fn sacl_part(&self) -> Option<Seq<char>> {
        acl_part(
            "S:"@,
            acl_flags_text(
                self.control.has(SecurityDescriptorControl::SACL_PROTECTED),
                self.control.has(SecurityDescriptorControl::SACL_AUTO_INHERIT_REQ),
                self.control.has(SecurityDescriptorControl::SACL_AUTO_INHERITED),
            ),
            self.sacl,
        )
    }

    /// The text `O:<owner>G:<group>D:<flags><entries>S:<flags><entries>`,
    /// each part only where the descriptor has the field. There is none
    /// where one of the "defaulted" flags or the resource manager control
    /// flag is set, or where an entry has no text.
    pub open spec fn sddl(&self) -> Option<Seq<char>> {
        if self.control.has_any(SecurityDescriptor::UNWRITABLE) {
            None
        } else if self.dacl_part() is None || self.sacl_part() is None {
            None
        } else {
            Some(
                sid_part("O:"@, self.owner) + sid_part("G:"@, self.group)
                    + self.dacl_part().unwrap() + self.sacl_part().unwrap(),
            )
        }
    }

    /// Writes the descriptor in the security descriptor definition
    /// language.
    pub fn try_to_string(&self) -> (r: Option<String>)
        ensures
            r matches Some(t) ==> self.sddl() == Some(t@),
            r is None ==> self.sddl() is None,
    {
        if self.control.intersects(SecurityDescriptor::UNWRITABLE) {
            return None;
        }
        let mut ret: String = sid_part_string("O:", &self.owner);
        ret.append(sid_part_string("G:", &self.group).as_str());
        let dacl: String = match acl_part_string(
            "D:",
            self.control.contains(SecurityDescriptorControl::DACL_PROTECTED),
            self.control.contains(SecurityDescriptorControl::DACL_AUTO_INHERIT_REQ),
            self.control.contains(SecurityDescriptorControl::DACL_AUTO_INHERITED),
            &self.dacl,
        ) {
            Some(t) => t,
            None => {
                return None;
            },
        };
        ret.append(dacl.as_str());
        let sacl: String = match acl_part_string(
            "S:",
            self.control.contains(SecurityDescriptorControl::SACL_PROTECTED),
            self.control.contains(SecurityDescriptorControl::SACL_AUTO_INHERIT_REQ),
            self.control.contains(SecurityDescriptorControl::SACL_AUTO_INHERITED),
            &self.sacl,
        ) {
            Some(t) => t,
            None => {
                return None;
            },
        };
        ret.append(sacl.as_str());
        Some(ret)
    }
}

/// A run of entries that has a text holds only entries that have one.
pub proof fn lemma_entries_sddl_some(entries: Seq<Ace>, n: int, i: int)
    requires
        0 <= i < n,
        entries_sddl(entries, n) is Some,
    ensures
        entries[i].sddl() is Some,
    decreases n,
{
    if i < n - 1 {
        lemma_entries_sddl_some(entries, n - 1, i);
    }
}

/// Where a security descriptor has a text, every entry of its lists can
/// be written down: it has no application data, its flags and its mask
/// hold only bits that have a code, and its type has one.
pub proof fn lemma_sddl_entries_writable(sd: SecurityDescriptor, acl: Acl, i: int)
    requires
        sd.sddl() is Some,
        sd.dacl == Some(acl) || sd.sacl == Some(acl),
        0 <= i < acl.entries@.len(),
    ensures
        acl.entries@[i].writable(),
        acl.entries@[i].application_data@.len() == 0,
        acl.entries@[i].flags.only_named(),
        match acl.entries@[i].data.mask_of() {
            Some(m) => m.only_named(),
            None => acl.entries@[i].data.label_mask_of() matches Some(l) && l.only_named(),
        },
{
    assert(acl.sddl() is Some);
    lemma_entries_sddl_some(acl.entries@, acl.entries@.len() as int, i);
}

/// A list with an entry that cannot be written down has no text.
pub proof fn lemma_unwritable_entry_blocks_list(acl: Acl, i: int)
    requires
        0 <= i < acl.entries@.len(),
        !acl.entries@[i].writable(),
    ensures
        acl.sddl() is None,
{
    if acl.sddl() is Some {
        lemma_entries_sddl_some(acl.entries@, acl.entries@.len() as int, i);
    }
}

/// A security descriptor with a list that holds an entry that cannot be
/// written down has no text.
pub proof fn lemma_unwritable_entry_blocks_descriptor(sd: SecurityDescriptor, acl: Acl, i: int)
    requires
        sd.dacl == Some(acl) || sd.sacl == Some(acl),
        0 <= i < acl.entries@.len(),
        !acl.entries@[i].writable(),
    ensures
        sd.sddl() is None,
{
    lemma_unwritable_entry_blocks_list(acl, i);
}

/// Flags with a bit that has no code are not all named.
pub proof fn lemma_unknown_flag_bit(flags: u8, bit: u8)
    by (bit_vector)
    requires
        bit != 0,
        bit & 0xDF == 0,
    ensures
        (flags | bit) & 0xDF != (flags | bit),
{
}

/// An access mask with a bit that has no code is not all named.
pub proof fn lemma_unknown_access_bit(mask: u32, bit: u32)
    by (bit_vector)
    requires
        bit != 0,
        bit & 0x000F_01FF == 0,
    ensures
        (mask | bit) & 0x000F_01FF != (mask | bit),
{
}

/// A mandatory label mask with a bit that has no code is not all named.
pub proof fn lemma_unknown_label_bit(mask: u32, bit: u32)
    by (bit_vector)
    requires
        bit != 0,
        bit & 0x0000_0007 == 0,
    ensures
        (mask | bit) & 0x0000_0007 != (mask | bit),
{
}

/// Whether the flags of `changed` are those of `before` with the bit
/// `bit` set, which has no code.
pub open spec fn flag_bit_set(changed: Ace, before: Ace, bit: u8) -> bool {
    &&& bit != 0
    &&& bit & AceFlags::ALL == 0
    &&& changed.flags.bits == before.flags.bits | bit
}

/// Whether the access mask of `changed` is that of `before` with the bit
/// `bit` set, which has no code.
pub open spec fn access_bit_set(changed: Ace, before: Ace, bit: u32) -> bool {
    &&& bit != 0
    &&& bit & AccessMask::ALL == 0
    &&& changed.data.mask_of() is Some
    &&& before.data.mask_of() is Some
    &&& changed.data.mask_of().unwrap().bits == before.data.mask_of().unwrap().bits | bit
}

/// Whether the mandatory label mask of `changed` is that of `before` with
/// the bit `bit` set, which has no code.
pub open spec fn label_bit_set(changed: Ace, before: Ace, bit: u32) -> bool {
    &&& bit != 0
    &&& bit & MandatoryMask::ALL == 0
    &&& changed.data.label_mask_of() is Some
    &&& before.data.label_mask_of() is Some
    &&& changed.data.label_mask_of().unwrap().bits == before.data.label_mask_of().unwrap().bits
        | bit
}

/// An entry in which a bit without a code has been set, in its flags or
/// in its mask, cannot be written down, whatever it was before.
pub proof fn lemma_unknown_bit_blocks_entry(changed: Ace, before: Ace, flag_bit: u8, mask_bit: u32)
    requires
        flag_bit_set(changed, before, flag_bit) || access_bit_set(changed, before, mask_bit)
            || label_bit_set(changed, before, mask_bit),
    ensures
        !changed.writable(),
        changed.sddl() is None,
{
    if flag_bit_set(changed, before, flag_bit) {
        lemma_unknown_flag_bit(before.flags.bits, flag_bit);
    } else if access_bit_set(changed, before, mask_bit) {
        lemma_unknown_access_bit(before.data.mask_of().unwrap().bits, mask_bit);
    } else {
        lemma_unknown_label_bit(before.data.label_mask_of().unwrap().bits, mask_bit);
    }
}

/// Setting a bit without a code in an entry of a security descriptor takes
/// the text of the descriptor away: a descriptor one of whose lists holds
/// an entry in which such a bit has been set, in its flags or in its mask,
/// has no text, whatever the entry was before.
pub proof fn lemma_unknown_bit_blocks_descriptor(
    sd: SecurityDescriptor,
    acl: Acl,
    i: int,
    before: Ace,
    flag_bit: u8,
    mask_bit: u32,
)
    requires
        sd.dacl == Some(acl) || sd.sacl == Some(acl),
        0 <= i < acl.entries@.len(),
        flag_bit_set(acl.entries@[i], before, flag_bit) || access_bit_set(
            acl.entries@[i],
            before,
            mask_bit,
        ) || label_bit_set(acl.entries@[i], before, mask_bit),
    ensures
        sd.sddl() is None,
{
    lemma_unknown_bit_blocks_entry(acl.entries@[i], before, flag_bit, mask_bit);
    lemma_unwritable_entry_blocks_descriptor(sd, acl, i);
}

} // verus!
