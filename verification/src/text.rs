//! Text: UTF-8 and UTF-16 buffers, comparison, decimal and hexadecimal
//! numerals.

use vstd::prelude::*;
use vstd::utf8::{decode_utf8, encode_utf8, encode_utf8_decode_utf8, valid_utf8};

verus! {

/// What `String::from_utf16` makes of a sequence of UTF-16 code units:
/// the text, or nothing where a surrogate stands unpaired.
pub uninterp spec fn utf16_decoded(units: Seq<u16>) -> Option<Seq<char>>;

/// The UTF-16 code units of a text, as `str::encode_utf16` yields them.
pub uninterp spec fn utf16_encoded(chars: Seq<char>) -> Seq<u16>;

/// The text in Base64 with the standard alphabet and padding that
/// `base64::Engine::encode` of `base64::prelude::BASE64_STANDARD` makes of
/// bytes.
pub uninterp spec fn base64_standard(bytes: Seq<u8>) -> Seq<char>;

/// The text that `Debug` of `str` makes of a text: the text in double
/// quotes, with escapes for what cannot be shown as it is.
pub uninterp spec fn debug_quoted(chars: Seq<char>) -> Seq<char>;

/// The length of the Base64 text of `n` bytes: four characters for every
/// three bytes or part of them.
pub open spec fn base64_len(n: nat) -> nat {
    if n % 3 == 0 {
        n / 3 * 4
    } else {
        n / 3 * 4 + 4
    }
}

/// `String::push`: the character is appended.
pub assume_specification[ std::string::String::push ](s: &mut std::string::String, c: char)
    ensures
        final(s)@ == old(s)@.push(c),
;

/// `String::from_utf8`: succeeds exactly on well-formed UTF-8 and yields
/// the text that the bytes encode.
#[verifier::external_body]
pub(crate) fn string_from_utf8(bytes: &[u8]) -> (r: Option<String>)
    ensures
        r is Some <==> valid_utf8(bytes@),
        r matches Some(s) ==> s@ == decode_utf8(bytes@),
{
    String::from_utf8(bytes.to_vec()).ok()
}

/// `Engine::encode` of `BASE64_STANDARD`, which panics where the length of
/// the text does not fit the machine's word: the text is a function of the
/// bytes alone.
#[verifier::external_body]
pub(crate) fn base64_encode(bytes: &[u8]) -> (r: String)
    requires
        base64_len(bytes@.len()) <= usize::MAX,
    ensures
        r@ == base64_standard(bytes@),
{
    base64::prelude::Engine::encode(&base64::prelude::BASE64_STANDARD, bytes)
}

/// `Debug` of `str`: the result is a function of the text alone.
#[verifier::external_body]
pub(crate) fn string_debug(s: &str) -> (r: String)
    ensures
        r@ == debug_quoted(s@),
{
    format!("{:?}", s)
}

/// `String::from_utf16`: the result is a function of the code units alone.
#[verifier::external_body]
pub(crate) fn string_from_utf16(units: &[u16]) -> (r: Option<String>)
    ensures
        r is Some <==> utf16_decoded(units@) is Some,
        r matches Some(s) ==> Some(s@) == utf16_decoded(units@),
{
    String::from_utf16(units).ok()
}

/// `str::encode_utf16`, collected.
#[verifier::external_body]
pub(crate) fn string_to_utf16(s: &str) -> (r: Vec<u16>)
    ensures
        r@ == utf16_encoded(s@),
{
    s.encode_utf16().collect()
}

/// Two texts are equal when their UTF-8 encodings are.
pub proof fn lemma_utf8_injective(a: Seq<char>, b: Seq<char>)
    requires
        encode_utf8(a) == encode_utf8(b),
    ensures
        a == b,
{
    encode_utf8_decode_utf8(a);
    encode_utf8_decode_utf8(b);
}

/// Compares two byte strings.
pub fn bytes_eq(a: &[u8], b: &[u8]) -> (r: bool)
    ensures
        r == (a@ == b@),
{
    if a.len() != b.len() {
        return false;
    }
    let mut i: usize = 0;
    while i < a.len()
        invariant
            a.len() == b.len(),
            i <= a.len(),
            a@.subrange(0, i as int) == b@.subrange(0, i as int),
        decreases a.len() - i,
    {
        if a[i] != b[i] {
            return false;
        }
        proof {
            assert(a@.subrange(0, i + 1) =~= a@.subrange(0, i as int).push(a@[i as int]));
            assert(b@.subrange(0, i + 1) =~= b@.subrange(0, i as int).push(b@[i as int]));
        }
        i += 1;
    }
    proof {
        assert(a@ =~= a@.subrange(0, i as int));
        assert(b@ =~= b@.subrange(0, i as int));
    }
    true
}

/// Compares two texts.
pub fn str_eq(a: &str, b: &str) -> (r: bool)
    ensures
        r == (a@ == b@),
{
    let same: bool = bytes_eq(a.as_bytes(), b.as_bytes());
    proof {
        if same {
            lemma_utf8_injective(a@, b@);
        }
    }
    same
}

/// The character of a decimal digit.
pub open spec fn digit_char(d: int) -> char {
    (('0' as u8) + d) as char
}

/// The decimal numeral of `n`, without sign or leading zeros.
pub open spec fn decimal(n: nat) -> Seq<char>
    decreases n,
{
    if n < 10 {
        seq![digit_char(n as int)]
    } else {
        decimal(n / 10).push(digit_char((n % 10) as int))
    }
}

/// Appends the decimal numeral of `n`.
pub fn push_decimal(s: &mut String, n: u64)
    ensures
        final(s)@ == old(s)@ + decimal(n as nat),
    decreases n,
{
    if n >= 10 {
        push_decimal(s, n / 10);
    }
    let d: u8 = (n % 10) as u8;
    let c: char = (0x30u8 + d) as char;
    s.push(c);
    proof {
        assert(c == digit_char((n % 10) as int));
        if n < 10 {
            assert(old(s)@ + decimal(n as nat) =~= old(s)@.push(c));
        } else {
            assert(old(s)@ + decimal(n as nat) =~= (old(s)@ + decimal((n / 10) as nat)).push(c));
        }
    }
}

/// The character of a hexadecimal digit, in upper case.
pub open spec fn hex_upper(d: int) -> char {
    if d < 10 {
        (('0' as u8) + d) as char
    } else {
        (('A' as u8) + d - 10) as char
    }
}

/// The character of a hexadecimal digit, in lower case.
pub open spec fn hex_lower(d: int) -> char {
    if d < 10 {
        (('0' as u8) + d) as char
    } else {
        (('a' as u8) + d - 10) as char
    }
}

/// The two upper-case hexadecimal digits of a byte.
pub open spec fn hex_byte_upper(b: u8) -> Seq<char> {
    seq![hex_upper(b as int / 16), hex_upper(b as int % 16)]
}

/// The two lower-case hexadecimal digits of a byte.
pub open spec fn hex_byte_lower(b: u8) -> Seq<char> {
    seq![hex_lower(b as int / 16), hex_lower(b as int % 16)]
}

fn hex_digit(d: u8, upper: bool) -> (c: char)
    requires
        d < 16,
    ensures
        c == if upper { hex_upper(d as int) } else { hex_lower(d as int) },
{
    if d < 10 {
        (0x30u8 + d) as char
    } else if upper {
        (0x41u8 + (d - 10)) as char
    } else {
        (0x61u8 + (d - 10)) as char
    }
}

/// Appends the two upper-case hexadecimal digits of `b`.
pub fn push_hex_byte_upper(s: &mut String, b: u8)
    ensures
        final(s)@ == old(s)@ + hex_byte_upper(b),
{
    s.push(hex_digit(b / 16, true));
    s.push(hex_digit(b % 16, true));
    proof {
        assert(s@ =~= old(s)@ + hex_byte_upper(b));
    }
}

/// Every byte is an ASCII decimal digit.
pub open spec fn all_digits(d: Seq<u8>) -> bool {
    forall|i: int| 0 <= i < d.len() ==> 0x30 <= #[trigger] d[i] <= 0x39
}

/// The number that a run of decimal digits writes.
pub open spec fn digits_value(d: Seq<u8>) -> int
    decreases d.len(),
{
    if d.len() == 0 {
        0
    } else {
        digits_value(d.drop_last()) * 10 + (d.last() as int - 0x30)
    }
}

/// The number that a non-empty run of decimal digits writes.
pub open spec fn digits_number(d: Seq<u8>) -> Option<int> {
    if d.len() > 0 && all_digits(d) {
        Some(digits_value(d))
    } else {
        None
    }
}

/// The number that `p` writes in decimal, with an optional `+` in front,
/// where it is at most `max`.
pub open spec fn unsigned_decimal(p: Seq<u8>, max: int) -> Option<int> {
    let d = if p.len() > 0 && p[0] == 0x2B {
        p.skip(1)
    } else {
        p
    };
    if digits_number(d) is Some && digits_number(d).unwrap() <= max {
        digits_number(d)
    } else {
        None
    }
}

/// The number that `p` writes in decimal, with an optional sign in front,
/// where it lies between `min` and `max`.
pub open spec fn signed_decimal(p: Seq<u8>, min: int, max: int) -> Option<int> {
    if p.len() > 0 && p[0] == 0x2D {
        let d = p.skip(1);
        if digits_number(d) is Some && -digits_number(d).unwrap() >= min {
            Some(-digits_number(d).unwrap())
        } else {
            None
        }
    } else {
        unsigned_decimal(p, max)
    }
}

/// A run of digits writes at least what any of its prefixes writes.
pub proof fn lemma_digits_value_prefix(d: Seq<u8>, k: int)
    requires
        all_digits(d),
        0 <= k <= d.len(),
    ensures
        0 <= digits_value(d.take(k)) <= digits_value(d),
    decreases d.len() - k,
{
    if k == d.len() {
        assert(d.take(k) =~= d);
        lemma_digits_value_nonnegative(d);
    } else {
        lemma_digits_value_prefix(d, k + 1);
        assert(d.take(k + 1).drop_last() =~= d.take(k));
        assert(d.take(k + 1).last() == d[k]);
        lemma_digits_value_nonnegative(d.take(k));
    }
}

/// A run of digits writes a natural number.
pub proof fn lemma_digits_value_nonnegative(d: Seq<u8>)
    requires
        all_digits(d),
    ensures
        0 <= digits_value(d),
    decreases d.len(),
{
    if d.len() > 0 {
        lemma_digits_value_nonnegative(d.drop_last());
    }
}

/// Reads the digits `bytes[from..]` as a number that fits 64 bits.
pub fn parse_digits(bytes: &[u8], from: usize) -> (r: Option<u64>)
    requires
        from <= bytes.len(),
    ensures
        r matches Some(v) ==> digits_number(bytes@.skip(from as int)) == Some(v as int),
        r is None ==> digits_number(bytes@.skip(from as int)) is None || digits_number(
            bytes@.skip(from as int),
        ).unwrap() > u64::MAX,
{
    let ghost d = bytes@.skip(from as int);
    if from == bytes.len() {
        return None;
    }
    let mut acc: u64 = 0;
    let mut i: usize = from;
    while i < bytes.len()
        invariant
            from <= i <= bytes.len(),
            d == bytes@.skip(from as int),
            all_digits(d.take(i - from)),
            acc == digits_value(d.take(i - from)),
        decreases bytes.len() - i,
    {
        let c: u8 = bytes[i];
        if c < 0x30 || c > 0x39 {
            proof {
                assert(d[i - from] == c);
            }
            return None;
        }
        let digit: u64 = (c - 0x30) as u64;
        proof {
            assert(d.take(i - from + 1).drop_last() =~= d.take(i - from));
            assert(d.take(i - from + 1).last() == c);
            assert(all_digits(d.take(i - from + 1))) by {
                assert forall|j: int| 0 <= j < i - from + 1 implies 0x30 <= #[trigger] d.take(
                    i - from + 1,
                )[j] <= 0x39 by {
                    if j < i - from {
                        assert(d.take(i - from)[j] == d.take(i - from + 1)[j]);
                    }
                }
            }
        }
        if acc > (u64::MAX - digit) / 10 {
            proof {
                if all_digits(d) {
                    lemma_digits_value_prefix(d, i - from + 1);
                }
            }
            return None;
        }
        acc = acc * 10 + digit;
        i += 1;
    }
    proof {
        assert(d.take(i - from) =~= d);
    }
    Some(acc)
}

/// Reads an unsigned decimal number, as `str::parse::<u64>` does.
pub fn parse_u64(bytes: &[u8]) -> (r: Option<u64>)
    ensures
        r matches Some(v) ==> unsigned_decimal(bytes@, u64::MAX as int) == Some(v as int),
        r is None ==> unsigned_decimal(bytes@, u64::MAX as int) is None,
{
    if bytes.len() > 0 && bytes[0] == 0x2B {
        parse_digits(bytes, 1)
    } else {
        proof {
            assert(bytes@.skip(0) =~= bytes@);
        }
        parse_digits(bytes, 0)
    }
}

/// Reads a signed decimal number, as `str::parse::<i64>` does.
pub fn parse_i64(bytes: &[u8]) -> (r: Option<i64>)
    ensures
        r matches Some(v) ==> signed_decimal(bytes@, i64::MIN as int, i64::MAX as int) == Some(
            v as int,
        ),
        r is None ==> signed_decimal(bytes@, i64::MIN as int, i64::MAX as int) is None,
{
    if bytes.len() > 0 && bytes[0] == 0x2D {
        match parse_digits(bytes, 1) {
            Some(magnitude) => {
                if magnitude > 0x8000_0000_0000_0000 {
                    None
                } else if magnitude == 0x8000_0000_0000_0000 {
                    Some(i64::MIN)
                } else {
                    Some(-(magnitude as i64))
                }
            },
            None => None,
        }
    } else {
        match parse_u64(bytes) {
            Some(magnitude) => {
                if magnitude > 0x7FFF_FFFF_FFFF_FFFF {
                    None
                } else {
                    Some(magnitude as i64)
                }
            },
            None => None,
        }
    }
}

/// The unsigned reading of the 32 bits of a signed number.
pub open spec fn unsigned_32(v: int) -> int {
    if v < 0 {
        v + 0x1_0000_0000
    } else {
        v
    }
}

/// The unsigned reading of the 64 bits of a signed number.
pub open spec fn unsigned_64(v: int) -> int {
    if v < 0 {
        v + 0x1_0000_0000_0000_0000
    } else {
        v
    }
}

/// The number that `p` writes as a signed decimal number of 32 bits.
pub open spec fn decimal_i32(p: Seq<u8>) -> Option<int> {
    signed_decimal(p, i32::MIN as int, i32::MAX as int)
}

/// The number that `p` writes as a signed decimal number of 64 bits.
pub open spec fn decimal_i64(p: Seq<u8>) -> Option<int> {
    signed_decimal(p, i64::MIN as int, i64::MAX as int)
}

/// The number that `p` writes as an unsigned decimal number of 32 bits.
pub open spec fn decimal_u32(p: Seq<u8>) -> Option<int> {
    unsigned_decimal(p, u32::MAX as int)
}

/// A number that is written within a range is written within any wider
/// range, and within a narrower one where it lies in it.
pub proof fn lemma_signed_decimal_range(p: Seq<u8>, min1: int, max1: int, min2: int, max2: int)
    requires
        min1 <= min2 <= 0 <= max2 <= max1,
    ensures
        signed_decimal(p, min2, max2) == match signed_decimal(p, min1, max1) {
            Some(v) => if min2 <= v <= max2 {
                Some(v)
            } else {
                None
            },
            None => None,
        },
{
    if p.len() > 0 && p[0] == 0x2D {
        if all_digits(p.skip(1)) {
            lemma_digits_value_nonnegative(p.skip(1));
        }
    } else {
        let d = if p.len() > 0 && p[0] == 0x2B {
            p.skip(1)
        } else {
            p
        };
        if all_digits(d) {
            lemma_digits_value_nonnegative(d);
        }
    }
}

/// Reads a signed decimal number of 32 bits, as `str::parse::<i32>` does.
pub fn parse_i32(bytes: &[u8]) -> (r: Option<i32>)
    ensures
        r matches Some(v) ==> decimal_i32(bytes@) == Some(v as int),
        r is None ==> decimal_i32(bytes@) is None,
{
    proof {
        lemma_signed_decimal_range(
            bytes@,
            i64::MIN as int,
            i64::MAX as int,
            i32::MIN as int,
            i32::MAX as int,
        );
    }
    match parse_i64(bytes) {
        Some(v) => {
            if v < i32::MIN as i64 || v > i32::MAX as i64 {
                None
            } else {
                Some(v as i32)
            }
        },
        None => None,
    }
}

/// Reads an unsigned decimal number of 32 bits, as `str::parse::<u32>`
/// does.
pub fn parse_u32(bytes: &[u8]) -> (r: Option<u32>)
    ensures
        r matches Some(v) ==> decimal_u32(bytes@) == Some(v as int),
        r is None ==> decimal_u32(bytes@) is None,
{
    match parse_u64(bytes) {
        Some(v) => {
            if v > u32::MAX as u64 {
                None
            } else {
                Some(v as u32)
            }
        },
        None => None,
    }
}

/// The 32 bits of a signed number, read as an unsigned number.
pub fn bits_of_i32(v: i32) -> (r: u32)
    ensures
        r == unsigned_32(v as int),
{
    if v < 0 {
        ((v as i64) + 0x1_0000_0000) as u32
    } else {
        v as u32
    }
}

/// The 64 bits of a signed number, read as an unsigned number.
pub fn bits_of_i64(v: i64) -> (r: u64)
    ensures
        r == unsigned_64(v as int),
{
    if v < 0 {
        ((v as i128) + 0x1_0000_0000_0000_0000) as u64
    } else {
        v as u64
    }
}

/// `t` where `present` holds, the empty text otherwise.
pub open spec fn opt(present: bool, t: Seq<char>) -> Seq<char> {
    if present {
        t
    } else {
        Seq::empty()
    }
}

/// `t` where `present` holds, the empty text otherwise.
pub fn opt_str(present: bool, t: &'static str) -> (r: &'static str)
    ensures
        r@ == opt(present, t@),
{
    if present {
        t
    } else {
        proof {
            reveal_strlit("");
            assert(""@ =~= Seq::<char>::empty());
        }
        ""
    }
}

/// The hexadecimal numeral of `n` in lower case, without leading zeros.
pub open spec fn hex_numeral(n: nat) -> Seq<char>
    decreases n,
{
    if n < 16 {
        seq![hex_lower(n as int)]
    } else {
        hex_numeral(n / 16).push(hex_lower((n % 16) as int))
    }
}

/// Appends the hexadecimal numeral of `n`.
pub fn push_hex(s: &mut String, n: u64)
    ensures
        final(s)@ == old(s)@ + hex_numeral(n as nat),
    decreases n,
{
    if n >= 16 {
        push_hex(s, n / 16);
    }
    let c: char = hex_digit((n % 16) as u8, false);
    s.push(c);
    proof {
        if n < 16 {
            assert(old(s)@ + hex_numeral(n as nat) =~= old(s)@.push(c));
        } else {
            assert(old(s)@ + hex_numeral(n as nat) =~= (old(s)@ + hex_numeral((n / 16) as nat)).push(
                c,
            ));
        }
    }
}

/// The decimal numeral of `v`, with a minus sign where `v` lies below
/// zero.
pub open spec fn signed_numeral(v: int) -> Seq<char> {
    if v < 0 {
        seq!['-'] + decimal((-v) as nat)
    } else {
        decimal(v as nat)
    }
}

/// Renders the decimal numeral of `v`.
pub fn signed_string(v: i64) -> (r: String)
    ensures
        r@ == signed_numeral(v as int),
{
    let mut out: String = String::new();
    if v < 0 {
        out.push('-');
        let magnitude: u64 = if v == i64::MIN {
            0x8000_0000_0000_0000
        } else {
            (-v) as u64
        };
        push_decimal(&mut out, magnitude);
        assert(out@ =~= seq!['-'] + decimal((-v) as nat));
    } else {
        push_decimal(&mut out, v as u64);
        assert(out@ =~= decimal(v as nat));
    }
    out
}

/// Renders the decimal numeral of `v`.
pub fn unsigned_string(v: u64) -> (r: String)
    ensures
        r@ == decimal(v as nat),
{
    let mut out: String = String::new();
    push_decimal(&mut out, v);
    assert(out@ =~= decimal(v as nat));
    out
}

/// The texts of strings.
pub open spec fn texts(lines: Seq<String>) -> Seq<Seq<char>> {
    Seq::new(lines.len(), |i: int| lines[i]@)
}

/// The hexadecimal numeral of `n` in upper case, without leading zeros.
pub open spec fn hex_numeral_upper(n: nat) -> Seq<char>
    decreases n,
{
    if n < 16 {
        seq![hex_upper(n as int)]
    } else {
        hex_numeral_upper(n / 16).push(hex_upper((n % 16) as int))
    }
}

/// Appends the upper-case hexadecimal numeral of `n`.
pub fn push_hex_upper(s: &mut String, n: u64)
    ensures
        final(s)@ == old(s)@ + hex_numeral_upper(n as nat),
    decreases n,
{
    if n >= 16 {
        push_hex_upper(s, n / 16);
    }
    let c: char = hex_digit((n % 16) as u8, true);
    s.push(c);
    proof {
        if n < 16 {
            assert(old(s)@ + hex_numeral_upper(n as nat) =~= old(s)@.push(c));
        } else {
            assert(old(s)@ + hex_numeral_upper(n as nat) =~= (old(s)@ + hex_numeral_upper(
                (n / 16) as nat,
            )).push(c));
        }
    }
}

} // verus!
