//! The text form of a security identifier reads back as the identifier.

use super::{
    dash_from, error_from, has_piece, piece, piece_error, piece_start, pieces_from, sid_text_error, sid_text_upto, Sid,
};
use crate::text::{all_digits, decimal, digit_char, digits_value, unsigned_decimal};
use vstd::prelude::*;
use vstd::utf8::{encode_utf8, is_ascii_chars, is_ascii_chars_encode_utf8};

verus! {

/// The bytes of a text of ASCII characters.
pub open spec fn ascii(t: Seq<char>) -> Seq<u8> {
    Seq::new(t.len(), |i: int| t[i] as u8)
}

/// The decimal numeral of `n` in bytes.
pub open spec fn digits_of(n: nat) -> Seq<u8> {
    ascii(decimal(n))
}

/// The decimal numeral of a number is a run of digits that writes the
/// number.
pub proof fn lemma_digits_of(n: nat)
    ensures
        digits_of(n).len() >= 1,
        all_digits(digits_of(n)),
        digits_value(digits_of(n)) == n,
        is_ascii_chars(decimal(n)),
    decreases n,
{
    if n < 10 {
        let c = digit_char(n as int);
        assert(decimal(n) =~= seq![c]);
        assert(digits_of(n) =~= seq![(0x30 + n) as u8]);
        assert(digits_of(n).drop_last() =~= Seq::<u8>::empty());
        assert(digits_value(digits_of(n).drop_last()) == 0);
    } else {
        lemma_digits_of(n / 10);
        let c = digit_char((n % 10) as int);
        assert(decimal(n) =~= decimal(n / 10).push(c));
        assert(digits_of(n) =~= digits_of(n / 10).push((0x30 + n % 10) as u8));
        assert(digits_of(n).drop_last() =~= digits_of(n / 10));
        assert forall|i: int| 0 <= i < digits_of(n).len() implies 0x30 <= #[trigger] digits_of(
            n,
        )[i] <= 0x39 by {
            if i < digits_of(n / 10).len() {
                assert(digits_of(n)[i] == digits_of(n / 10)[i]);
            }
        }
        assert forall|i: int| 0 <= i < decimal(n).len() implies '\0' <= #[trigger] decimal(n)[i]
            <= '\u{7f}' by {
            if i < decimal(n / 10).len() {
                assert(decimal(n)[i] == decimal(n / 10)[i]);
            }
        }
    }
}

/// The decimal numeral of a number reads back as the number.
pub proof fn lemma_digits_read_back(n: nat, max: int)
    requires
        n <= max,
    ensures
        unsigned_decimal(digits_of(n), max) == Some(n as int),
{
    lemma_digits_of(n);
    assert(digits_of(n)[0] != 0x2B);
}

/// The text form of a version 1 identifier in bytes, up to and including
/// subauthority `k - 1`.
pub open spec fn text_bytes_upto(authority: u64, subs: Seq<u32>, k: int) -> Seq<u8>
    decreases k,
{
    if k <= 0 {
        seq![0x53u8, 0x2Du8, 0x31u8, 0x2Du8] + digits_of(authority as nat)
    } else {
        text_bytes_upto(authority, subs, k - 1) + seq![0x2Du8] + digits_of(subs[k - 1] as nat)
    }
}

/// The text form of a version 1 identifier is ASCII, and its bytes are
/// those of `text_bytes_upto`.
pub proof fn lemma_text_bytes(authority: u64, subs: Seq<u32>, k: int)
    requires
        0 <= k <= subs.len(),
    ensures
        is_ascii_chars(sid_text_upto(1, authority, subs, k)),
        ascii(sid_text_upto(1, authority, subs, k)) == text_bytes_upto(authority, subs, k),
        text_bytes_upto(authority, subs, k).len() >= 5 + 2 * k,
    decreases k,
{
    if k == 0 {
        lemma_digits_of(authority as nat);
        assert(decimal(1) =~= seq!['1']);
        let t = sid_text_upto(1, authority, subs, 0);
        assert(t =~= seq!['S', '-', '1', '-'] + decimal(authority as nat));
        assert(ascii(t) =~= text_bytes_upto(authority, subs, 0));
        assert forall|i: int| 0 <= i < t.len() implies '\0' <= #[trigger] t[i] <= '\u{7f}' by {
            if i >= 4 {
                assert(t[i] == decimal(authority as nat)[i - 4]);
            }
        }
    } else {
        lemma_text_bytes(authority, subs, k - 1);
        lemma_digits_of(subs[k - 1] as nat);
        let p = sid_text_upto(1, authority, subs, k - 1);
        let d = decimal(subs[k - 1] as nat);
        let t = sid_text_upto(1, authority, subs, k);
        assert(t =~= p + seq!['-'] + d);
        assert(ascii(t) =~= ascii(p) + seq![0x2Du8] + digits_of(subs[k - 1] as nat));
        assert forall|i: int| 0 <= i < t.len() implies '\0' <= #[trigger] t[i] <= '\u{7f}' by {
            if i < p.len() {
                assert(t[i] == p[i]);
            } else if i > p.len() {
                assert(t[i] == d[i - p.len() - 1]);
            }
        }
    }
}

/// The text up to a subauthority is the start of the text up to a later
/// one; a hyphen and the numeral of the next subauthority follow it.
pub proof fn lemma_text_prefix(authority: u64, subs: Seq<u32>, k: int, n: int)
    requires
        0 <= k <= n <= subs.len(),
    ensures
        text_bytes_upto(authority, subs, k).len() <= text_bytes_upto(authority, subs, n).len(),
        text_bytes_upto(authority, subs, n).subrange(
            0,
            text_bytes_upto(authority, subs, k).len() as int,
        ) == text_bytes_upto(authority, subs, k),
        k < n ==> {
            &&& text_bytes_upto(authority, subs, k + 1).len() <= text_bytes_upto(
                authority,
                subs,
                n,
            ).len()
            &&& text_bytes_upto(authority, subs, n)[text_bytes_upto(authority, subs, k).len() as int]
                == 0x2D
            &&& text_bytes_upto(authority, subs, n).subrange(
                text_bytes_upto(authority, subs, k).len() as int + 1,
                text_bytes_upto(authority, subs, k + 1).len() as int,
            ) == digits_of(subs[k] as nat)
        },
    decreases n - k,
{
    let t = text_bytes_upto(authority, subs, n);
    let p = text_bytes_upto(authority, subs, k);
    if k == n {
        assert(t.subrange(0, p.len() as int) =~= p);
    } else {
        let q = text_bytes_upto(authority, subs, k + 1);
        let d = digits_of(subs[k] as nat);
        assert(q =~= p + seq![0x2Du8] + d);
        lemma_text_prefix(authority, subs, k + 1, n);
        assert(t.subrange(0, q.len() as int) == q);
        assert(t.subrange(0, p.len() as int) =~= p) by {
            assert forall|i: int| 0 <= i < p.len() implies t.subrange(0, p.len() as int)[i]
                == p[i] by {
                assert(t.subrange(0, q.len() as int)[i] == q[i]);
            }
        }
        assert(t[p.len() as int] == 0x2D) by {
            assert(t.subrange(0, q.len() as int)[p.len() as int] == q[p.len() as int]);
        }
        assert(t.subrange(p.len() as int + 1, q.len() as int) =~= d) by {
            assert forall|i: int| 0 <= i < d.len() implies t.subrange(
                p.len() as int + 1,
                q.len() as int,
            )[i] == d[i] by {
                assert(t.subrange(0, q.len() as int)[p.len() + 1 + i] == q[p.len() + 1 + i]);
            }
        }
    }
}

/// Over a run without a hyphen that a hyphen or the end of the text
/// follows, the first hyphen is found where the run ends.
pub proof fn lemma_dash_after_run(t: Seq<u8>, from: int, to: int)
    requires
        0 <= from <= to <= t.len(),
        forall|i: int| from <= i < to ==> #[trigger] t[i] != 0x2D,
        to < t.len() ==> t[to] == 0x2D,
    ensures
        dash_from(t, from) == to,
    decreases to - from,
{
    if from < to {
        lemma_dash_after_run(t, from + 1, to);
    }
}

/// Where piece `j` of the text form starts: the version after `S-`, the
/// authority after `S-1-`, each subauthority after the hyphen that follows
/// what comes before it.
pub open spec fn piece_begin(authority: u64, subs: Seq<u32>, j: nat) -> int {
    if j == 0 {
        2
    } else if j == 1 {
        4
    } else {
        text_bytes_upto(authority, subs, j - 2).len() as int + 1
    }
}

/// Where piece `j` of the text form ends.
pub open spec fn piece_stop(authority: u64, subs: Seq<u32>, j: nat) -> int {
    if j == 0 {
        3
    } else {
        text_bytes_upto(authority, subs, j - 1).len() as int
    }
}

/// The number that piece `j` of the text form writes, for `j` above zero.
pub open spec fn piece_number(authority: u64, subs: Seq<u32>, j: nat) -> nat {
    if j <= 1 {
        authority as nat
    } else {
        subs[j - 2] as nat
    }
}

/// The pieces of the text form lie where `piece_begin` and `piece_stop`
/// say, and hold the version, the authority and the subauthorities.
pub proof fn lemma_pieces(authority: u64, subs: Seq<u32>, j: nat)
    requires
        j <= subs.len() + 1,
    ensures
        ({
            let t = text_bytes_upto(authority, subs, subs.len() as int);
            &&& piece_start(t, j) == piece_begin(authority, subs, j)
            &&& dash_from(t, piece_begin(authority, subs, j)) == piece_stop(authority, subs, j)
            &&& 0 <= piece_begin(authority, subs, j) <= piece_stop(authority, subs, j) <= t.len()
            &&& j < t.len()
            &&& t[0] == 0x53
            &&& t[1] == 0x2D
            &&& has_piece(t, j)
            &&& j == 0 ==> piece(t, j) == seq![0x31u8]
            &&& j >= 1 ==> piece(t, j) == digits_of(piece_number(authority, subs, j))
            &&& piece_start(t, j + 1) == piece_stop(authority, subs, j) + 1
        }),
    decreases j,
{
    let n = subs.len() as int;
    let t = text_bytes_upto(authority, subs, n);
    let t0 = text_bytes_upto(authority, subs, 0);
    lemma_text_prefix(authority, subs, 0, n);
    lemma_text_bytes(authority, subs, n);
    lemma_digits_of(authority as nat);
    assert(t0 =~= seq![0x53u8, 0x2Du8, 0x31u8, 0x2Du8] + digits_of(authority as nat));
    assert forall|i: int| 0 <= i < t0.len() implies t[i] == #[trigger] t0[i] by {
        assert(t.subrange(0, t0.len() as int)[i] == t0[i]);
    }
    assert(t[0] == t0[0] && t[1] == t0[1] && t[2] == t0[2] && t[3] == t0[3]);
    if j == 0 {
        lemma_dash_after_run(t, 2, 3);
        assert(piece(t, 0) =~= seq![0x31u8]);
    } else {
        lemma_pieces(authority, subs, (j - 1) as nat);
        let from = piece_begin(authority, subs, j);
        let to = piece_stop(authority, subs, j);
        let d = digits_of(piece_number(authority, subs, j));
        lemma_digits_of(piece_number(authority, subs, j));
        if j == 1 {
            assert(from == 4 && to == t0.len());
            assert(t.subrange(4, to) =~= d) by {
                assert forall|i: int| 0 <= i < d.len() implies t.subrange(4, to)[i] == d[i] by {
                    assert(t[4 + i] == t0[4 + i]);
                }
            }
        } else {
            lemma_text_prefix(authority, subs, j - 2, n);
            lemma_text_bytes(authority, subs, j - 2);
            assert(t.subrange(from, to) == d);
        }
        if j - 1 < n {
            lemma_text_prefix(authority, subs, j - 1, n);
        }
        assert forall|i: int| from <= i < to implies #[trigger] t[i] != 0x2D by {
            assert(t.subrange(from, to)[i - from] == d[i - from]);
        }
        lemma_dash_after_run(t, from, to);
        lemma_text_bytes(authority, subs, j - 1);
    }
}

/// The text form has one piece for the version, one for the authority and
/// one for each subauthority.
pub proof fn lemma_piece_count(authority: u64, subs: Seq<u32>, j: nat)
    requires
        j <= subs.len() + 2,
    ensures
        pieces_from(text_bytes_upto(authority, subs, subs.len() as int), j) == subs.len() + 2 - j,
    decreases subs.len() + 2 - j,
{
    let t = text_bytes_upto(authority, subs, subs.len() as int);
    if j == subs.len() + 2 {
        lemma_pieces(authority, subs, (j - 1) as nat);
        assert(piece_start(t, j) == t.len() + 1);
    } else {
        lemma_pieces(authority, subs, j);
        lemma_piece_count(authority, subs, j + 1);
    }
}

/// No piece of the text form of an identifier whose authority fits 48
/// bits is in error.
pub proof fn lemma_no_error(authority: u64, subs: Seq<u32>, j: nat)
    requires
        authority <= 0xFFFF_FFFF_FFFF,
        j <= subs.len() + 2,
    ensures
        error_from(text_bytes_upto(authority, subs, subs.len() as int), j) is None || (j < 2
            && subs.len() + 2 < 2),
    decreases subs.len() + 2 - j,
{
    let t = text_bytes_upto(authority, subs, subs.len() as int);
    if j == subs.len() + 2 {
        lemma_pieces(authority, subs, (j - 1) as nat);
        assert(piece_start(t, j) == t.len() + 1);
        assert(!has_piece(t, j));
    } else {
        lemma_pieces(authority, subs, j);
        if j >= 1 {
            lemma_digits_read_back(piece_number(authority, subs, j), u64::MAX as int);
        }
        assert(piece_error(t, j) is None);
        lemma_no_error(authority, subs, j + 1);
    }
}

/// The text form of a well-formed security identifier reads back as the
/// same identifier: the parser accepts the text, and whatever it makes of
/// the text has the version, the authority and the subauthorities of the
/// identifier.
pub proof fn lemma_sid_text_reads_back(s: Sid)
    requires
        s.well_formed(),
    ensures
        sid_text_error(encode_utf8(s.text())) is None,
        forall|r: Sid|
            r.parsed_from(encode_utf8(s.text())) ==> r.version == s.version && r.authority
                == s.authority && r.subauthorities@ == s.subauthorities@,
{
    let subs = s.subauthorities@;
    let n = subs.len() as int;
    let t = text_bytes_upto(s.authority, subs, n);
    lemma_text_bytes(s.authority, subs, n);
    is_ascii_chars_encode_utf8(s.text());
    assert(encode_utf8(s.text()) =~= t);
    lemma_pieces(s.authority, subs, 0);
    lemma_no_error(s.authority, subs, 0);
    lemma_piece_count(s.authority, subs, 0);
    assert forall|r: Sid| r.parsed_from(t) implies r.version == s.version && r.authority
        == s.authority && r.subauthorities@ == s.subauthorities@ by {
        lemma_pieces(s.authority, subs, 1);
        lemma_digits_read_back(s.authority as nat, u64::MAX as int);
        assert(r.subauthorities@.len() == n);
        assert forall|i: int| 0 <= i < n implies r.subauthorities@[i] == subs[i] by {
            lemma_pieces(s.authority, subs, (i + 2) as nat);
            lemma_digits_read_back(subs[i] as nat, u64::MAX as int);
        }
        assert(r.subauthorities@ =~= subs);
    }
}

/// The text form of a security identifier that was decoded from bytes
/// reads back as the same identifier.
pub proof fn lemma_sid_text_round_trip(s: Sid, b: Seq<u8>)
    requires
        Sid::wire_ok(b),
        s.decoded_from(b),
    ensures
        sid_text_error(encode_utf8(s.text())) is None,
        forall|r: Sid|
            r.parsed_from(encode_utf8(s.text())) ==> r.version == s.version && r.authority
                == s.authority && r.subauthorities@ == s.subauthorities@,
{
    lemma_sid_text_reads_back(s);
}

} // verus!
