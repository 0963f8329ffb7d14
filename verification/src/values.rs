//! Attribute values and their decoders.

pub mod bitmasks;
pub mod enums;
pub mod forms;
pub mod structs;

use crate::guid::{hyphenated, text_order, Guid};
use crate::text::{
    base64_encode, base64_len, base64_standard, hex_byte_upper, hex_numeral_upper, opt,
    opt_str, push_hex_byte_upper, push_hex_upper, signed_numeral, signed_string, str_eq,
    string_from_utf16, texts, utf16_decoded,
};
use crate::text::{
    decimal, decimal_i32, decimal_i64, decimal_u32, parse_i32, parse_i64, parse_u32, bits_of_i32,
    bits_of_i64, unsigned_32, unsigned_64, unsigned_string,
};
use crate::time::{negative_interval_to_duration, utc_ticks_relative_to_1601, Interval, Timestamp};
use crate::values::enums::{AttributeSyntax, OmObjectClass};
use crate::values::forms::{
    binary_form, binary_form_of, string_form, string_form_of, BinaryForm, FlagFamily, IntKind,
    NamedNumber, StringForm,
};
use crate::values::structs::dfsr::{dfsr_schedule_lines, schedule_lines};
use crate::values::structs::security::key_credential_link::{dn_part, hex_part, unhex};
use crate::values::structs::security::SecurityDescriptor;
use crate::bits::is_bit_set;
use crate::values::structs::dns::property::DnsProperty;
use crate::values::structs::dns::record::DnsRecord;
use crate::values::structs::exchange::{ExchangeVersion, InternetEncoding, TextMessagingState};
use crate::values::structs::replication::{DsaSignatureState1, ReplUpToDateVector2, RepsFromTo};
use crate::values::structs::schema::{PrefixMap, SchemaInfo};
use crate::values::structs::security::key_credential_link::KeyCredentialLinkBlob;
use crate::values::structs::security::{sid_text, Sid};
use crate::values::structs::terminal_services::UserParameters;
use crate::values::structs::trust::TrustForestTrustInfo;
use crate::wire::{be_u16, be_u48, le_u16, le_u32, read_u16_be, read_u16_le};
use vstd::prelude::*;
use vstd::string::{StringExecFns, StringSliceAdditionalSpecFns};
use vstd::utf8::{decode_utf8, encode_utf8, valid_utf8};
use crate::text::utf16_encoded;

verus! {

/// The index of the first zero word of `b` at or after word `k`, where `b`
/// is read as little-endian 16-bit words; the number of complete words
/// where there is none.
pub open spec fn nul_scan(b: Seq<u8>, k: int) -> int
    decreases b.len() - 2 * k,
{
    if k < 0 || 2 * k + 2 > b.len() {
        k
    } else if le_u16(b, 2 * k) == 0 {
        k
    } else {
        nul_scan(b, k + 1)
    }
}

/// The words of `b` before its first zero word. A buffer that ends in half
/// a word before any zero word has none.
pub open spec fn nul_terminated_units(b: Seq<u8>) -> Option<Seq<u16>> {
    let n = nul_scan(b, 0);
    if 2 * n + 1 == b.len() {
        None
    } else {
        Some(Seq::new(n as nat, |k: int| le_u16(b, 2 * k) as u16))
    }
}

/// The UTF-16 text that `b` holds up to its first zero word.
pub open spec fn nul_terminated_text(b: Seq<u8>) -> Option<Seq<char>> {
    match nul_terminated_units(b) {
        Some(units) => utf16_decoded(units),
        None => None,
    }
}

/// Decodes little-endian UTF-16 up to the first zero word or the end of
/// the buffer.
pub fn nul_terminated_utf16le_string(bytes: &[u8]) -> (r: Option<String>)
    ensures
        r is Some <==> nul_terminated_text(bytes@) is Some,
        r matches Some(s) ==> Some(s@) == nul_terminated_text(bytes@),
{
    let mut words: Vec<u16> = Vec::new();
    let mut i: usize = 0;
    while bytes.len() - 2 * i >= 2
        invariant
            2 * i <= bytes.len(),
            nul_scan(bytes@, 0) == nul_scan(bytes@, i as int),
            words@ == Seq::new(i as nat, |k: int| le_u16(bytes@, 2 * k) as u16),
        decreases bytes.len() - 2 * i,
    {
        let word: u16 = read_u16_le(bytes, 2 * i);
        if word == 0 {
            return string_from_utf16(words.as_slice());
        }
        words.push(word);
        i += 1;
        proof {
            assert(words@ =~= Seq::new(i as nat, |k: int| le_u16(bytes@, 2 * k) as u16));
        }
    }
    if bytes.len() - 2 * i == 1 {
        return None;
    }
    string_from_utf16(words.as_slice())
}

/// The text at `offset`, where offset zero may stand for "no text".
pub open spec fn nul_terminated_text_at(b: Seq<u8>, offset: int, zero_offset_is_null: bool) -> Option<
    Seq<char>,
> {
    if (zero_offset_is_null && offset == 0) || offset > b.len() {
        None
    } else {
        nul_terminated_text(b.subrange(offset, b.len() as int))
    }
}

/// Decodes the little-endian UTF-16 text that starts at `offset`.
pub fn nul_terminated_utf16le_string_at_offset(
    bytes: &[u8],
    offset: usize,
    zero_offset_is_null: bool,
) -> (r: Option<String>)
    ensures
        r is Some <==> nul_terminated_text_at(bytes@, offset as int, zero_offset_is_null) is Some,
        r matches Some(s) ==> Some(s@) == nul_terminated_text_at(
            bytes@,
            offset as int,
            zero_offset_is_null,
        ),
{
    if zero_offset_is_null && offset == 0 {
        return None;
    }
    if offset > bytes.len() {
        return None;
    }
    nul_terminated_utf16le_string(&bytes[offset..bytes.len()])
}

/// A value of an attribute as a directory server hands it out.
#[derive(Clone, Debug, PartialEq, Eq, Hash, PartialOrd, Ord)]
pub enum LdapValue {
    String(String),
    Binary(Vec<u8>),
}

impl LdapValue {
    /// Whether the value is the text `value`.
    pub open spec fn is_text(&self, value: Seq<char>) -> bool {
        self matches LdapValue::String(s) && s@ == value
    }

    /// Whether the value is the text `value`.
    pub fn is_string(&self, value: &str) -> (r: bool)
        ensures
            r == self.is_text(value@),
    {
        match self {
            LdapValue::String(s) => str_eq(value, s.as_str()),
            LdapValue::Binary(_) => false,
        }
    }
}

/// Whether one of the values is the text `name`.
pub open spec fn holds_text(values: Seq<LdapValue>, name: Seq<char>) -> bool {
    exists|i: int| 0 <= i < values.len() && (#[trigger] values[i]).is_text(name)
}

/// Whether one of the values is the text `name`.
pub fn any_is_string(values: &[LdapValue], name: &str) -> (r: bool)
    ensures
        r == holds_text(values@, name@),
{
    let mut i: usize = 0;
    while i < values.len()
        invariant
            i <= values.len(),
            forall|j: int| 0 <= j < i ==> !(#[trigger] values@[j]).is_text(name@),
        decreases values.len() - i,
    {
        if values[i].is_string(name) {
            return true;
        }
        i += 1;
    }
    false
}

/// Whether a text in UTF-8 can be shown as it is: it is empty, or it does
/// not start with NUL, line feed, carriage return, space, colon or `<`
/// and holds no NUL, line feed or carriage return.
pub open spec fn is_safe(b: Seq<u8>) -> bool {
    b.len() == 0 || {
        &&& b[0] != 0x00 && b[0] != 0x0A && b[0] != 0x0D && b[0] != 0x20 && b[0] != 0x3A && b[0]
            != 0x3C
        &&& forall|i: int|
            1 <= i < b.len() ==> #[trigger] b[i] != 0x00 && b[i] != 0x0A && b[i] != 0x0D
    }
}

/// Whether a text can be shown as it is.
pub fn is_safe_ldap_string(string: &str) -> (r: bool)
    ensures
        r == is_safe(string.spec_bytes()),
{
    let bytes: &[u8] = string.as_bytes();
    if bytes.len() == 0 {
        return true;
    }
    let first_char: u8 = bytes[0];
    if first_char == 0x00 || first_char == 0x0A || first_char == 0x0D || first_char == 0x20
        || first_char == 0x3A || first_char == 0x3C {
        return false;
    }
    let mut i: usize = 1;
    while i < bytes.len()
        invariant
            bytes@ == string.spec_bytes(),
            1 <= i <= bytes.len(),
            forall|j: int|
                1 <= j < i ==> #[trigger] bytes@[j] != 0x00 && bytes@[j] != 0x0A && bytes@[j]
                    != 0x0D,
        decreases bytes.len() - i,
    {
        let c: u8 = bytes[i];
        if c == 0x00 || c == 0x0A || c == 0x0D {
            return false;
        }
        i += 1;
    }
    true
}

/// A structure that was decoded from a value and is shown as a dump of
/// its fields.
#[derive(Clone, Debug, PartialEq, Eq, Hash)]
pub enum Structure {
    ReplUpToDateVector2(ReplUpToDateVector2),
    RepsFromTo(RepsFromTo),
    DnsProperty(DnsProperty),
    DnsRecord(DnsRecord),
    DsaSignatureState1(DsaSignatureState1),
    TrustForestTrustInfo(TrustForestTrustInfo),
    PrefixMap(PrefixMap),
    SchemaInfo(SchemaInfo),
    UserParameters(UserParameters),
    KeyCredentialLinkBlob(KeyCredentialLinkBlob),
    TextMessagingState(TextMessagingState),
    ExchangeVersion(ExchangeVersion),
    InternetEncoding(InternetEncoding),
}

/// What is shown for one value of an attribute.
#[derive(Clone, Debug, PartialEq, Eq, Hash)]
pub enum Output {
    /// A text, shown on one line after the name and `: `.
    Line(String),
    /// A text in Base64, shown on one line after the name and `:: `.
    Encoded(String),
    /// Lines, shown below the name and `:::`, each after a space.
    Lines(Vec<String>),
    /// A text and a point in time, shown on one line after the name and
    /// `: `, the time in brackets and in the local time zone.
    Time { text: String, time: Timestamp },
    /// A structure, shown below the name and `:::` as a dump of its
    /// fields, each line after a space.
    Structure(Structure),
}

impl Output {
    /// The output is the line `t`.
    pub open spec fn is_line(&self, t: Seq<char>) -> bool {
        self matches Output::Line(s) && s@ == t
    }

    /// The output is the Base64 text `t`.
    pub open spec fn is_encoded(&self, t: Seq<char>) -> bool {
        self matches Output::Encoded(s) && s@ == t
    }

    /// The output is the lines `l`.
    pub open spec fn is_lines(&self, l: Seq<Seq<char>>) -> bool {
        self matches Output::Lines(v) && texts(v@) == l
    }

    /// The output is the text `t` with the time `time`.
    pub open spec fn is_time(&self, t: Seq<char>, time: Timestamp) -> bool {
        self matches Output::Time { text, time: at } && text@ == t && at == time
    }

    /// The output is the text `value` as a text: as it is where that is
    /// safe, in Base64 otherwise.
    pub open spec fn is_plain(&self, value: Seq<char>) -> bool {
        if is_safe(encode_utf8(value)) {
            self.is_line(value)
        } else {
            self.is_encoded(base64_standard(encode_utf8(value)))
        }
    }

    /// The output is the hexadecimal dump of `b`.
    pub open spec fn is_hexdump(&self, b: Seq<u8>) -> bool {
        self.is_lines(hexdump_rows(b))
    }
}

/// Shows a text as a text: as it is where that is safe, in Base64
/// otherwise.
pub fn output_string_value_as_string(str_value: &str) -> (r: Output)
    requires
        base64_len(str_value.spec_bytes().len()) <= usize::MAX,
    ensures
        r.is_plain(str_value@),
{
    if is_safe_ldap_string(str_value) {
        Output::Line(str_value.to_owned())
    } else {
        Output::Encoded(base64_encode(str_value.as_bytes()))
    }
}

/// The offset at the start of a row of a dump: eight hexadecimal digits
/// in upper case, or as many as the offset needs.
pub open spec fn offset_text(n: nat) -> Seq<char> {
    if n < 0x1_0000_0000 {
        hex_byte_upper((n / 0x100_0000) as u8) + hex_byte_upper((n / 0x1_0000 % 0x100) as u8)
            + hex_byte_upper((n / 0x100 % 0x100) as u8) + hex_byte_upper((n % 0x100) as u8)
    } else {
        hex_numeral_upper(n)
    }
}

/// Row `row` of the dump of `b` up to its byte `k`: the offset and, after
/// a space each, the bytes in two hexadecimal digits, with one more space
/// before the ninth.
pub open spec fn row_upto(b: Seq<u8>, row: int, k: int) -> Seq<char>
    decreases k,
{
    if k <= 0 {
        offset_text((16 * row) as nat)
    } else {
        row_upto(b, row, k - 1) + opt(k - 1 == 8, " "@) + " "@ + hex_byte_upper(
            b[16 * row + k - 1],
        )
    }
}

/// The number of bytes in row `row` of the dump of `b`.
pub open spec fn row_len(b: Seq<u8>, row: int) -> int {
    if b.len() - 16 * row < 16 {
        b.len() - 16 * row
    } else {
        16
    }
}

/// The rows of the hexadecimal dump of `b`, 16 bytes to a row.
pub open spec fn hexdump_rows(b: Seq<u8>) -> Seq<Seq<char>> {
    Seq::new(((b.len() + 15) / 16) as nat, |row: int| row_upto(b, row, row_len(b, row)))
}

/// Shows bytes as a hexadecimal dump.
pub fn output_binary_value_as_hexdump(bin_value: &[u8]) -> (r: Output)
    ensures
        r.is_hexdump(bin_value@),
{
    let ghost b = bin_value@;
    let mut rows: Vec<String> = Vec::new();
    let mut offset: usize = 0;
    while offset < bin_value.len()
        invariant
            b == bin_value@,
            offset <= bin_value.len() + 15,
            offset % 16 == 0,
            rows@.len() == offset / 16,
            forall|j: int|
                0 <= j < rows@.len() ==> (#[trigger] rows@[j])@ == row_upto(b, j, row_len(b, j)),
        decreases bin_value.len() + 16 - offset,
    {
        let mut row: String = String::new();
        if (offset as u64) < 0x1_0000_0000 {
            push_hex_byte_upper(&mut row, (offset / 0x100_0000) as u8);
            push_hex_byte_upper(&mut row, (offset / 0x1_0000 % 0x100) as u8);
            push_hex_byte_upper(&mut row, (offset / 0x100 % 0x100) as u8);
            push_hex_byte_upper(&mut row, (offset % 0x100) as u8);
            assert(row@ =~= offset_text(offset as nat));
        } else {
            push_hex_upper(&mut row, offset as u64);
            assert(row@ =~= offset_text(offset as nat));
        }
        let in_row: usize = if bin_value.len() - offset < 16 {
            bin_value.len() - offset
        } else {
            16
        };
        let mut i: usize = 0;
        while i < in_row
            invariant
                b == bin_value@,
                offset % 16 == 0,
                offset + in_row <= bin_value.len(),
                i <= in_row,
                row@ == row_upto(b, offset as int / 16, i as int),
            decreases in_row - i,
        {
            row.append(opt_str(i == 8, " "));
            row.append(" ");
            push_hex_byte_upper(&mut row, bin_value[offset + i]);
            i += 1;
        }
        rows.push(row);
        if bin_value.len() - offset <= 16 {
            offset = offset + in_row;
            assert(offset == bin_value.len());
            assert(texts(rows@) =~= hexdump_rows(b));
            return Output::Lines(rows);
        }
        offset += 16;
    }
    assert(texts(rows@) =~= hexdump_rows(b));
    Output::Lines(rows)
}

/// The code units of a text in UTF-16 after its byte order mark, which
/// says in which order the bytes of a unit come; none where `b` has no
/// byte order mark or ends in half a unit.
pub open spec fn marked_units(b: Seq<u8>) -> Option<Seq<u16>> {
    if b.len() % 2 != 0 || b.len() < 2 {
        None
    } else if le_u16(b, 0) == 0xFEFF {
        Some(Seq::new((b.len() / 2 - 1) as nat, |j: int| le_u16(b, 2 + 2 * j) as u16))
    } else if le_u16(b, 0) == 0xFFFE {
        Some(Seq::new((b.len() / 2 - 1) as nat, |j: int| be_u16(b, 2 + 2 * j) as u16))
    } else {
        None
    }
}

/// Where the line that starts at `from` ends: at the first carriage
/// return or line feed, or where the units end.
pub open spec fn line_end(u: Seq<u16>, from: int) -> int
    decreases u.len() - from,
{
    if from < 0 || from >= u.len() {
        u.len() as int
    } else if u[from] == 0x000D || u[from] == 0x000A {
        from
    } else {
        line_end(u, from + 1)
    }
}

/// Where the line after the line that ends at `end` starts: after the
/// line break, which is a carriage return and a line feed, or one of
/// them.
pub open spec fn next_line(u: Seq<u16>, end: int) -> int {
    if end + 1 < u.len() && u[end] == 0x000D && u[end + 1] == 0x000A {
        end + 2
    } else {
        end + 1
    }
}

/// Where line `j` starts.
pub open spec fn line_start(u: Seq<u16>, j: nat) -> int
    decreases j,
{
    if j == 0 {
        0
    } else {
        next_line(u, line_end(u, line_start(u, (j - 1) as nat)))
    }
}

/// The number of lines from the line that starts at `from` on. A text
/// that ends in a line break has an empty line after it.
pub open spec fn lines_from(u: Seq<u16>, from: int) -> nat
    decreases u.len() + 1 - from,
{
    if from < 0 || from > u.len() || line_end(u, from) < from || line_end(u, from) > u.len() {
        0
    } else {
        1 + lines_from(u, next_line(u, line_end(u, from)))
    }
}

/// The code units of line `j`.
pub open spec fn line_units(u: Seq<u16>, j: nat) -> Seq<u16> {
    u.subrange(line_start(u, j), line_end(u, line_start(u, j)))
}

/// Every line is UTF-16.
pub open spec fn lines_ok(u: Seq<u16>) -> bool {
    forall|j: nat| j < lines_from(u, 0) ==> utf16_decoded(#[trigger] line_units(u, j)) is Some
}

/// The lines of the text.
pub open spec fn text_lines(u: Seq<u16>) -> Seq<Seq<char>> {
    Seq::new(lines_from(u, 0), |j: int| utf16_decoded(line_units(u, j as nat)).unwrap())
}

/// The first line break at or after `from` lies at or after `from`, within
/// the units or at their end.
pub proof fn lemma_line_end_bounds(u: Seq<u16>, from: int)
    requires
        0 <= from <= u.len(),
    ensures
        from <= line_end(u, from) <= u.len(),
    decreases u.len() - from,
{
    if from < u.len() && u[from] != 0x000D && u[from] != 0x000A {
        lemma_line_end_bounds(u, from + 1);
    }
}

fn read_marked_units(bin_value: &[u8]) -> (r: Option<Vec<u16>>)
    ensures
        r is Some <==> marked_units(bin_value@) is Some,
        r matches Some(v) ==> Some(v@) == marked_units(bin_value@),
{
    if bin_value.len() % 2 != 0 {
        return None;
    }
    if bin_value.len() < 2 {
        return None;
    }
    let bom: u16 = read_u16_le(bin_value, 0);
    let little_endian: bool = if bom == 0xFEFF {
        true
    } else if bom == 0xFFFE {
        false
    } else {
        return None;
    };
    let count: usize = bin_value.len() / 2 - 1;
    let mut words: Vec<u16> = Vec::new();
    let mut j: usize = 0;
    while j < count
        invariant
            bin_value.len() % 2 == 0,
            bin_value.len() >= 2,
            count == bin_value.len() / 2 - 1,
            j <= count,
            words@.len() == j,
            forall|k: int|
                0 <= k < j ==> #[trigger] words@[k] == if little_endian {
                    le_u16(bin_value@, 2 + 2 * k) as u16
                } else {
                    be_u16(bin_value@, 2 + 2 * k) as u16
                },
        decreases count - j,
    {
        let word: u16 = if little_endian {
            read_u16_le(bin_value, 2 + 2 * j)
        } else {
            read_u16_be(bin_value, 2 + 2 * j)
        };
        words.push(word);
        j += 1;
    }
    proof {
        assert(words@ =~= marked_units(bin_value@).unwrap());
    }
    Some(words)
}

fn decode_text_lines(units: &[u16]) -> (r: Option<Vec<String>>)
    ensures
        r is Some <==> lines_ok(units@),
        r matches Some(l) ==> texts(l@) == text_lines(units@),
{
    let ghost u = units@;
    let mut lines: Vec<String> = Vec::new();
    let mut start: usize = 0;
    let mut more: bool = true;
    while more
        invariant
            u == units@,
            more ==> start <= u.len(),
            more ==> start == line_start(u, lines@.len()),
            !more ==> line_start(u, lines@.len()) == u.len() + 1,
            lines_from(u, 0) == lines@.len() + lines_from(u, line_start(u, lines@.len())),
            forall|j: nat|
                j < lines@.len() ==> utf16_decoded(#[trigger] line_units(u, j)) == Some(
                    lines@[j as int]@,
                ),
        decreases
                (if more {
                    u.len() + 1 - start
                } else {
                    0
                }),
    {
        let mut end: usize = start;
        while end < units.len() && units[end] != 0x000D && units[end] != 0x000A
            invariant
                u == units@,
                start <= end <= u.len(),
                line_end(u, start as int) == line_end(u, end as int),
            decreases u.len() - end,
        {
            end += 1;
        }
        assert(end == line_end(u, start as int));
        let ghost j = lines@.len();
        let line: String = match string_from_utf16(&units[start..end]) {
            Some(l) => l,
            None => {
                assert(utf16_decoded(line_units(u, j)) is None);
                assert(lines_from(u, start as int) > 0);
                return None;
            },
        };
        lines.push(line);
        if end == units.len() {
            more = false;
            assert(lines_from(u, (u.len() + 1) as int) == 0);
        } else if units[end] == 0x000D && end + 1 < units.len() && units[end + 1] == 0x000A {
            start = end + 2;
        } else {
            start = end + 1;
        }
        proof {
            if more {
                lemma_line_end_bounds(u, start as int);
            }
        }
    }
    proof {
        assert(lines_from(u, (u.len() + 1) as int) == 0);
        assert(texts(lines@) =~= text_lines(u));
    }
    Some(lines)
}

/// Shows a text in UTF-16 after a byte order mark as its lines; as a dump
/// where it is none.
pub fn output_utf16_string_with_bom(bin_value: &[u8]) -> (r: Output)
    ensures
        match marked_units(bin_value@) {
            Some(u) => if lines_ok(u) {
                r.is_lines(text_lines(u))
            } else {
                r.is_hexdump(bin_value@)
            },
            None => r.is_hexdump(bin_value@),
        },
{
    let words: Vec<u16> = match read_marked_units(bin_value) {
        Some(w) => w,
        None => {
            return output_binary_value_as_hexdump(bin_value);
        },
    };
    match decode_text_lines(words.as_slice()) {
        Some(lines) => Output::Lines(lines),
        None => output_binary_value_as_hexdump(bin_value),
    }
}

/// The subauthorities of the security identifier `b`.
pub open spec fn subauthorities_of(b: Seq<u8>) -> Seq<u32> {
    Seq::new(b[1] as nat, |i: int| le_u32(b, 8 + 4 * i) as u32)
}

/// Whether the output `o` shows the security descriptor `d`, which `b`
/// holds: its text where it has one, a dump of `b` otherwise.
pub open spec fn shows_descriptor(o: Output, d: SecurityDescriptor, b: Seq<u8>) -> bool {
    match d.sddl() {
        Some(t) => o.is_line(t),
        None => o.is_hexdump(b),
    }
}

/// Whether the output `o` shows the bytes `b` in the form `form`: what
/// the bytes hold where they have the form, a dump of them otherwise.
pub open spec fn shows_binary(o: Output, form: BinaryForm, b: Seq<u8>) -> bool {
    match form {
        BinaryForm::Guid => if b.len() == 16 {
            o.is_line(hyphenated(text_order(b)))
        } else {
            o.is_hexdump(b)
        },
        BinaryForm::Sid => if Sid::wire_ok(b) {
            o.is_line(sid_text(1, be_u48(b, 2) as u64, subauthorities_of(b)))
        } else {
            o.is_hexdump(b)
        },
        BinaryForm::ReplUpToDateVector => if ReplUpToDateVector2::wire_ok(b) {
            o matches Output::Structure(Structure::ReplUpToDateVector2(v)) && v.decoded_from(b)
        } else {
            o.is_hexdump(b)
        },
        BinaryForm::RepsFromTo => if RepsFromTo::wire_ok(b) {
            o matches Output::Structure(Structure::RepsFromTo(v)) && v.decoded_from(b)
        } else {
            o.is_hexdump(b)
        },
        BinaryForm::DnsProperty => if DnsProperty::wire_ok(b) {
            o matches Output::Structure(Structure::DnsProperty(v)) && v.decoded_from(b)
        } else {
            o.is_hexdump(b)
        },
        BinaryForm::DnsRecord => if DnsRecord::wire_ok(b) {
            o matches Output::Structure(Structure::DnsRecord(v)) && v.decoded_from(b)
        } else {
            o.is_hexdump(b)
        },
        BinaryForm::DsaSignature => if DsaSignatureState1::wire_ok(b) {
            o matches Output::Structure(Structure::DsaSignatureState1(v)) && v.decoded_from(b)
        } else {
            o.is_hexdump(b)
        },
        BinaryForm::TrustForestTrustInfo => if TrustForestTrustInfo::wire_ok(b) {
            o matches Output::Structure(Structure::TrustForestTrustInfo(v)) && v.decoded_from(b)
        } else {
            o.is_hexdump(b)
        },
        BinaryForm::PrefixMap => if PrefixMap::wire_ok(b) {
            o matches Output::Structure(Structure::PrefixMap(v)) && v.decoded_from(b)
        } else {
            o.is_hexdump(b)
        },
        BinaryForm::SchemaInfo => if SchemaInfo::wire_ok(b) {
            o matches Output::Structure(Structure::SchemaInfo(v)) && v.decoded_from(b)
        } else {
            o.is_hexdump(b)
        },
        BinaryForm::UserParameters => if valid_utf8(b) && UserParameters::units_ok(
            utf16_encoded(decode_utf8(b)),
        ) {
            o matches Output::Structure(Structure::UserParameters(v)) && v.decoded_from(
                utf16_encoded(decode_utf8(b)),
            )
        } else {
            o.is_hexdump(b)
        },
        BinaryForm::SecurityDescriptor => if SecurityDescriptor::wire_ok(b) {
            exists|d: SecurityDescriptor| #[trigger] d.decoded_from(b) && shows_descriptor(o, d, b)
        } else {
            o.is_hexdump(b)
        },
        BinaryForm::Utf16Text => match marked_units(b) {
            Some(u) => if lines_ok(u) {
                o.is_lines(text_lines(u))
            } else {
                o.is_hexdump(b)
            },
            None => o.is_hexdump(b),
        },
        BinaryForm::DfsrSchedule => if b.len() == 336 {
            o.is_lines(schedule_lines(b))
        } else {
            o.is_hexdump(b)
        },
        BinaryForm::OmObjectClass => exists|c: OmObjectClass|
            #[trigger] c.bytes() == b && c.canonical() && o.is_line(c.debug_text()),
    }
}

/// Shows bytes as a GUID; as a dump where they are none.
pub fn output_guid_value(value: &[u8]) -> (r: Output)
    ensures
        shows_binary(r, BinaryForm::Guid, value@),
{
    match Guid::from_slice_le(value) {
        Some(guid) => Output::Line(guid.to_string()),
        None => output_binary_value_as_hexdump(value),
    }
}

/// Shows bytes as a security identifier; as a dump where they are none.
pub fn output_sid_value(value: &[u8]) -> (r: Output)
    ensures
        shows_binary(r, BinaryForm::Sid, value@),
{
    match Sid::try_from_bytes(value) {
        Some(sid) => {
            assert(sid.subauthorities@ =~= subauthorities_of(value@));
            Output::Line(sid.to_string())
        },
        None => output_binary_value_as_hexdump(value),
    }
}

/// Shows the binary value `value` of the attribute `key` in the form of
/// the attribute. There is no output where the attribute has no form.
pub fn output_special_binary_value(key: &str, value: &[u8]) -> (r: Option<Output>)
    ensures
        r is Some <==> binary_form(key@) is Some,
        r matches Some(o) ==> shows_binary(o, binary_form(key@).unwrap(), value@),
{
    let form: BinaryForm = match binary_form_of(key) {
        Some(f) => f,
        None => {
            return None;
        },
    };
    let output: Output = match form {
        BinaryForm::Guid => output_guid_value(value),
        BinaryForm::Sid => output_sid_value(value),
        BinaryForm::ReplUpToDateVector => match ReplUpToDateVector2::try_from_bytes(value) {
            Some(v) => Output::Structure(Structure::ReplUpToDateVector2(v)),
            None => output_binary_value_as_hexdump(value),
        },
        BinaryForm::RepsFromTo => match RepsFromTo::try_from_bytes(value) {
            Some(v) => Output::Structure(Structure::RepsFromTo(v)),
            None => output_binary_value_as_hexdump(value),
        },
        BinaryForm::DnsProperty => match DnsProperty::try_from_bytes(value) {
            Some(v) => Output::Structure(Structure::DnsProperty(v)),
            None => output_binary_value_as_hexdump(value),
        },
        BinaryForm::DnsRecord => match DnsRecord::try_from_bytes(value) {
            Some(v) => Output::Structure(Structure::DnsRecord(v)),
            None => output_binary_value_as_hexdump(value),
        },
        BinaryForm::DsaSignature => match DsaSignatureState1::try_from_bytes(value) {
            Some(v) => Output::Structure(Structure::DsaSignatureState1(v)),
            None => output_binary_value_as_hexdump(value),
        },
        BinaryForm::TrustForestTrustInfo => match TrustForestTrustInfo::try_from_bytes(value) {
            Some(v) => Output::Structure(Structure::TrustForestTrustInfo(v)),
            None => output_binary_value_as_hexdump(value),
        },
        BinaryForm::PrefixMap => match PrefixMap::try_from_bytes(value) {
            Some(v) => Output::Structure(Structure::PrefixMap(v)),
            None => output_binary_value_as_hexdump(value),
        },
        BinaryForm::SchemaInfo => match SchemaInfo::try_from_bytes(value) {
            Some(v) => Output::Structure(Structure::SchemaInfo(v)),
            None => output_binary_value_as_hexdump(value),
        },
        BinaryForm::UserParameters => match UserParameters::try_from_bytes(value) {
            Some(v) => Output::Structure(Structure::UserParameters(v)),
            None => output_binary_value_as_hexdump(value),
        },
        BinaryForm::SecurityDescriptor => match SecurityDescriptor::try_from_bytes(value) {
            Some(sd) => {
                let o: Output = match sd.try_to_string() {
                    Some(sd_string) => Output::Line(sd_string),
                    None => output_binary_value_as_hexdump(value),
                };
                assert(sd.decoded_from(value@) && shows_descriptor(o, sd, value@));
                o
            },
            None => output_binary_value_as_hexdump(value),
        },
        BinaryForm::Utf16Text => output_utf16_string_with_bom(value),
        BinaryForm::DfsrSchedule => match dfsr_schedule_lines(value) {
            Some(lines) => Output::Lines(lines),
            None => output_binary_value_as_hexdump(value),
        },
        BinaryForm::OmObjectClass => match OmObjectClass::try_from_bytes(value) {
            Some(class) => {
                let o: Output = Output::Line(class.to_debug_string());
                assert(class.bytes() == value@ && class.canonical() && o.is_line(
                    class.debug_text(),
                ));
                o
            },
            None => output_binary_value_as_hexdump(value),
        },
    };
    Some(output)
}

/// The number that the text `b` writes in integers of the kind `kind`.
pub open spec fn number_of(kind: IntKind, b: Seq<u8>) -> Option<int> {
    match kind {
        IntKind::U32 => decimal_u32(b),
        IntKind::I32 => decimal_i32(b),
        IntKind::I64 => decimal_i64(b),
    }
}

/// The bits of the number `v` in integers of the kind `kind`.
pub open spec fn pattern_of(kind: IntKind, v: int) -> u64 {
    match kind {
        IntKind::U32 => v as u64,
        IntKind::I32 => unsigned_32(v) as u64,
        IntKind::I64 => unsigned_64(v) as u64,
    }
}

/// The text of an interval: its days, hours, minutes and seconds.
pub open spec fn interval_text(i: Interval) -> Seq<char> {
    signed_numeral(i.days as int) + "d "@ + signed_numeral(i.hours as int) + "h "@ + signed_numeral(
        i.minutes as int,
    ) + "min "@ + signed_numeral(i.seconds as int) + "s"@
}

/// The interval that the count `v` of ticks stands for.
pub open spec fn interval_of(v: int) -> Interval {
    if v <= 0 {
        Interval::of((-v) / 10_000_000, false)
    } else {
        Interval::of(v / 10_000_000, true)
    }
}

/// Whether the output `o` shows the text `value` in the form `form`.
///
/// A set of flags and a number with a name are decimal numbers: zero is
/// shown alone, any other number with its text form in brackets after
/// it. A point in time and an interval are shown after the text. A
/// structure is shown as what the text holds. A text that does not have
/// the form is shown as a plain text.
pub open spec fn shows_string(o: Output, form: StringForm, value: Seq<char>) -> bool {
    let b = encode_utf8(value);
    match form {
        StringForm::Flags(family) => match number_of(family.int_kind(), b) {
            Some(v) => if v == 0 {
                o.is_line(decimal(0))
            } else {
                o.is_line(
                    signed_numeral(v) + " ("@ + family.text(pattern_of(family.int_kind(), v))
                        + ")"@,
                )
            },
            None => o.is_plain(value),
        },
        StringForm::Number(kind) => match decimal_u32(b) {
            Some(v) => if v == 0 {
                o.is_line(decimal(0))
            } else {
                match kind.text(v as u32) {
                    Some(t) => o.is_line(decimal(v as nat) + " ("@ + t + ")"@),
                    None => o.is_plain(value),
                }
            },
            None => o.is_plain(value),
        },
        StringForm::Syntax => exists|s: AttributeSyntax|
            #[trigger] s.oid() == value && s.canonical() && o.is_line(
                value + " ("@ + s.debug_text() + ")"@,
            ),
        StringForm::KeyCredentialLink => if KeyCredentialLinkBlob::text_ok(b) {
            o matches Output::Structure(Structure::KeyCredentialLinkBlob(k)) && k.decoded_from(
                unhex(hex_part(b)),
                dn_part(b),
            )
        } else {
            o.is_plain(value)
        },
        StringForm::TextMessagingState => if decimal_i32(b) is Some && !is_bit_set(
            unsigned_32(decimal_i32(b).unwrap()),
            31,
        ) {
            o == Output::Structure(
                Structure::TextMessagingState(
                    TextMessagingState::of_bits(unsigned_32(decimal_i32(b).unwrap())),
                ),
            )
        } else {
            o.is_plain(value)
        },
        StringForm::ExchangeVersion => if decimal_i64(b) is Some {
            o == Output::Structure(
                Structure::ExchangeVersion(
                    ExchangeVersion::of_bits(unsigned_64(decimal_i64(b).unwrap())),
                ),
            )
        } else {
            o.is_plain(value)
        },
        StringForm::InternetEncoding => if decimal_i32(b) is Some {
            o == Output::Structure(
                Structure::InternetEncoding(
                    InternetEncoding::of_bits(unsigned_32(decimal_i32(b).unwrap())),
                ),
            )
        } else {
            o.is_plain(value)
        },
        StringForm::Time => match decimal_i64(b) {
            Some(ticks) => o.is_time(value, Timestamp::of_ticks(ticks)),
            None => o.is_plain(value),
        },
        StringForm::Oid => o.is_plain(value),
        StringForm::Interval => match decimal_i64(b) {
            Some(v) => if v == i64::MIN {
                o.is_line(value + " (never)"@)
            } else {
                o.is_line(value + " ("@ + interval_text(interval_of(v)) + ")"@)
            },
            None => o.is_plain(value),
        },
        StringForm::SystemFlags => false,
        StringForm::Options => false,
    }
}

fn output_flags(family: FlagFamily, value: &str) -> (r: Output)
    requires
        base64_len(value.spec_bytes().len()) <= usize::MAX,
    ensures
        shows_string(r, StringForm::Flags(family), value@),
{
    let kind: IntKind = family.kind();
    let (number, bits): (i64, u64) = match kind {
        IntKind::U32 => match parse_u32(value.as_bytes()) {
            Some(v) => (v as i64, v as u64),
            None => {
                return output_string_value_as_string(value);
            },
        },
        IntKind::I32 => match parse_i32(value.as_bytes()) {
            Some(v) => (v as i64, bits_of_i32(v) as u64),
            None => {
                return output_string_value_as_string(value);
            },
        },
        IntKind::I64 => match parse_i64(value.as_bytes()) {
            Some(v) => (v, bits_of_i64(v)),
            None => {
                return output_string_value_as_string(value);
            },
        },
    };
    if number == 0 {
        return Output::Line(unsigned_string(0));
    }
    let mut out: String = signed_string(number);
    out.append(" (");
    out.append(family.to_debug_string(bits).as_str());
    out.append(")");
    Output::Line(out)
}

fn output_number(kind: NamedNumber, value: &str) -> (r: Output)
    requires
        base64_len(value.spec_bytes().len()) <= usize::MAX,
    ensures
        shows_string(r, StringForm::Number(kind), value@),
{
    let number: u32 = match parse_u32(value.as_bytes()) {
        Some(v) => v,
        None => {
            return output_string_value_as_string(value);
        },
    };
    if number == 0 {
        return Output::Line(unsigned_string(0));
    }
    match kind.to_debug_string(number) {
        Some(name) => {
            let mut out: String = unsigned_string(number as u64);
            out.append(" (");
            out.append(name.as_str());
            out.append(")");
            Output::Line(out)
        },
        None => output_string_value_as_string(value),
    }
}

/// Shows a count of ticks since 1601 with the point in time that it
/// stands for; as a plain text where it is no number.
pub fn output_timestamp_value(value: &str) -> (r: Output)
    requires
        base64_len(value.spec_bytes().len()) <= usize::MAX,
    ensures
        shows_string(r, StringForm::Time, value@),
{
    match parse_i64(value.as_bytes()) {
        Some(parsed) => Output::Time {
            text: value.to_owned(),
            time: utc_ticks_relative_to_1601(parsed),
        },
        None => output_string_value_as_string(value),
    }
}

/// Shows a count of ticks below zero with the interval that it stands
/// for, and the least number of 64 bits as "never"; as a plain text where
/// it is no number.
pub fn output_negative_interval_value(value: &str) -> (r: Output)
    requires
        base64_len(value.spec_bytes().len()) <= usize::MAX,
    ensures
        shows_string(r, StringForm::Interval, value@),
{
    let parsed: i64 = match parse_i64(value.as_bytes()) {
        Some(p) => p,
        None => {
            return output_string_value_as_string(value);
        },
    };
    match negative_interval_to_duration(parsed) {
        None => {
            let mut out: String = value.to_owned();
            out.append(" (never)");
            Output::Line(out)
        },
        Some(interval) => {
            let mut text: String = signed_string(interval.days);
            text.append("d ");
            text.append(signed_string(interval.hours).as_str());
            text.append("h ");
            text.append(signed_string(interval.minutes).as_str());
            text.append("min ");
            text.append(signed_string(interval.seconds).as_str());
            text.append("s");
            let mut out: String = value.to_owned();
            out.append(" (");
            out.append(text.as_str());
            out.append(")");
            Output::Line(out)
        },
    }
}

/// Shows the text value `value` of the attribute `key` of an object of
/// the classes `object_classes` in the form of the attribute. There is no
/// output where the attribute has no form.
pub fn output_special_string_value(key: &str, value: &str, object_classes: &[LdapValue]) -> (r:
    Option<Output>)
    requires
        base64_len(value.spec_bytes().len()) <= usize::MAX,
    ensures
        r is Some <==> string_form(key@, object_classes@) is Some,
        r matches Some(o) ==> shows_string(
            o,
            string_form(key@, object_classes@).unwrap(),
            value@,
        ),
{
    let form: StringForm = match string_form_of(key, object_classes) {
        Some(f) => f,
        None => {
            return None;
        },
    };
    let output: Output = match form {
        StringForm::Flags(family) => output_flags(family, value),
        StringForm::Number(kind) => output_number(kind, value),
        StringForm::Syntax => match AttributeSyntax::try_from_str(value) {
            Some(syntax) => {
                let mut out: String = value.to_owned();
                out.append(" (");
                out.append(syntax.to_debug_string().as_str());
                out.append(")");
                let o: Output = Output::Line(out);
                assert(syntax.oid() == value@ && syntax.canonical() && o.is_line(
                    value@ + " ("@ + syntax.debug_text() + ")"@,
                ));
                o
            },
            None => output_string_value_as_string(value),
        },
        StringForm::KeyCredentialLink => match KeyCredentialLinkBlob::try_from_str(value) {
            Some(v) => Output::Structure(Structure::KeyCredentialLinkBlob(v)),
            None => output_string_value_as_string(value),
        },
        StringForm::TextMessagingState => match TextMessagingState::try_from_str(value) {
            Some(v) => Output::Structure(Structure::TextMessagingState(v)),
            None => output_string_value_as_string(value),
        },
        StringForm::ExchangeVersion => match ExchangeVersion::try_from_str(value) {
            Some(v) => Output::Structure(Structure::ExchangeVersion(v)),
            None => output_string_value_as_string(value),
        },
        StringForm::InternetEncoding => match InternetEncoding::try_from_str(value) {
            Some(v) => Output::Structure(Structure::InternetEncoding(v)),
            None => output_string_value_as_string(value),
        },
        StringForm::Time => output_timestamp_value(value),
        StringForm::Oid => output_string_value_as_string(value),
        StringForm::Interval => output_negative_interval_value(value),
        StringForm::SystemFlags => {
            return None;
        },
        StringForm::Options => {
            return None;
        },
    };
    Some(output)
}

/// Whether the output `o` shows the value `value` of the attribute `key`
/// of an object of the classes `classes`.
///
/// A binary value is shown in the binary form of the attribute, or as a
/// dump. A text value is shown in the text form of the attribute; without
/// one, as bytes in the binary form of the attribute; without that one
/// too, as a plain text.
pub open spec fn shows_value(o: Output, key: Seq<char>, value: LdapValue, classes: Seq<LdapValue>) -> bool {
    match value {
        LdapValue::Binary(bin_value) => match binary_form(key) {
            Some(form) => shows_binary(o, form, bin_value@),
            None => o.is_hexdump(bin_value@),
        },
        LdapValue::String(str_value) => match string_form(key, classes) {
            Some(form) => shows_string(o, form, str_value@),
            None => match binary_form(key) {
                Some(form) => shows_binary(o, form, encode_utf8(str_value@)),
                None => o.is_plain(str_value@),
            },
        },
    }
}

/// Whether every text among the values is short enough to be written in
/// Base64.
pub open spec fn values_fit(values: Seq<LdapValue>) -> bool {
    forall|i: int|
        0 <= i < values.len() ==> ((#[trigger] values[i]) matches LdapValue::String(s)
            ==> base64_len(encode_utf8(s@).len()) <= usize::MAX)
}

/// Shows the values of the attribute `key` of an object of the classes
/// `object_classes`, one output for each value.
pub fn output_values(key: &str, values: &[LdapValue], object_classes: &[LdapValue]) -> (r: Vec<
    Output,
>)
    requires
        values_fit(values@),
    ensures
        r@.len() == values@.len(),
        forall|i: int|
            0 <= i < values@.len() ==> shows_value(
                #[trigger] r@[i],
                key@,
                values@[i],
                object_classes@,
            ),
{
    let mut outputs: Vec<Output> = Vec::new();
    let mut i: usize = 0;
    while i < values.len()
        invariant
            values_fit(values@),
            i <= values.len(),
            outputs@.len() == i,
            forall|j: int|
                0 <= j < i ==> shows_value(
                    #[trigger] outputs@[j],
                    key@,
                    values@[j],
                    object_classes@,
                ),
        decreases values.len() - i,
    {
        let output: Output = match &values[i] {
            LdapValue::Binary(bin_value) => match output_special_binary_value(
                key,
                bin_value.as_slice(),
            ) {
                Some(o) => o,
                None => output_binary_value_as_hexdump(bin_value.as_slice()),
            },
            LdapValue::String(str_value) => match output_special_string_value(
                key,
                str_value.as_str(),
                object_classes,
            ) {
                Some(o) => o,
                None => match output_special_binary_value(key, str_value.as_str().as_bytes()) {
                    Some(o) => o,
                    None => output_string_value_as_string(str_value.as_str()),
                },
            },
        };
        outputs.push(output);
        i += 1;
    }
    outputs
}

} // verus!
