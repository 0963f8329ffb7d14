//! Prefixes of object identifiers in the Basic Encoding Rules.
//!
//! An object identifier is a sequence of arcs. Each arc is written in base
//! 128, most significant digit first, one digit to a byte; the top bit of a
//! byte says that another digit of the same arc follows. The first arc of
//! the encoding stands for the first two arcs of the identifier.

use crate::bits::{bit_is_set, bit_range, extract_bits_u8, is_bit_set};
use crate::text::decimal;
use num_bigint::BigUint;
use vstd::arithmetic::power2::{lemma2_to64, pow2};
use vstd::prelude::*;
use vstd::string::StringExecFns;

verus! {

/// `num_bigint::BigUint`, an unsigned integer of any size, of which the
/// verifier knows the value alone.
#[verifier::external_type_specification]
#[verifier::external_body]
pub struct ExBigUint(BigUint);

/// The natural number that an unsigned big integer holds.
pub uninterp spec fn big_value(n: BigUint) -> nat;

/// `Clone` for `BigUint`: the copy holds the same value.
pub assume_specification[ <BigUint as Clone>::clone ](n: &BigUint) -> (r: BigUint)
    ensures
        big_value(r) == big_value(*n),
;

/// `BigUint::from` for `u64`: the big integer with the same value.
#[verifier::external_body]
fn big_from_u64(value: u64) -> (r: BigUint)
    ensures
        big_value(r) == value,
{
    BigUint::from(value)
}

/// `Shl<u32>` for `BigUint`: the value times two to the power of `bits`.
#[verifier::external_body]
fn big_shl(n: BigUint, bits: u32) -> (r: BigUint)
    ensures
        big_value(r) == big_value(n) * pow2(bits as nat),
{
    n << bits
}

/// `Add` for `BigUint`: the sum.
#[verifier::external_body]
fn big_add(a: BigUint, b: BigUint) -> (r: BigUint)
    ensures
        big_value(r) == big_value(a) + big_value(b),
{
    a + b
}

/// `Sub` for `BigUint`, which panics where the difference would lie below
/// zero: the difference.
#[verifier::external_body]
fn big_sub(a: &BigUint, b: &BigUint) -> (r: BigUint)
    requires
        big_value(*a) >= big_value(*b),
    ensures
        big_value(r) == big_value(*a) - big_value(*b),
{
    a - b
}

/// `<` on `BigUint`: the order of the values.
#[verifier::external_body]
fn big_lt(a: &BigUint, b: &BigUint) -> (r: bool)
    ensures
        r == (big_value(*a) < big_value(*b)),
{
    a < b
}

/// `Display` of `BigUint`: the decimal numeral of the value.
#[verifier::external_body]
fn big_to_string(n: &BigUint) -> (r: String)
    ensures
        r@ == decimal(big_value(*n)),
{
    n.to_string()
}

/// Whether another digit of the same arc follows the byte.
pub open spec fn continues(byte: u8) -> bool {
    is_bit_set(byte as int, 7)
}

/// The number that the digits `b[from..to]` write in base 128.
pub open spec fn ber_value(b: Seq<u8>, from: int, to: int) -> nat
    decreases to - from,
{
    if to <= from {
        0
    } else {
        ber_value(b, from, to - 1) * 128 + bit_range(b[to - 1] as int, 0, 7) as nat
    }
}

/// Where the arc that starts at `from` ends: after its first byte that no
/// digit follows, or where `b` ends.
pub open spec fn arc_end(b: Seq<u8>, from: int) -> int
    decreases b.len() - from,
{
    if from < 0 || from >= b.len() {
        b.len() as int
    } else if !continues(b[from]) {
        from + 1
    } else {
        arc_end(b, from + 1)
    }
}

/// Whether the arc that starts at `from` is complete: `b` holds its last
/// digit.
pub open spec fn arc_complete(b: Seq<u8>, from: int) -> bool {
    0 <= from < b.len() && !continues(b[arc_end(b, from) - 1])
}

/// Where arc `j` of the encoding `b` starts.
pub open spec fn arc_start(b: Seq<u8>, j: nat) -> int
    decreases j,
{
    if j == 0 {
        0
    } else {
        arc_end(b, arc_start(b, (j - 1) as nat))
    }
}

/// The number of complete arcs from `from` on.
pub open spec fn complete_arcs(b: Seq<u8>, from: int) -> nat
    decreases b.len() - from,
{
    if !arc_complete(b, from) || arc_end(b, from) <= from || arc_end(b, from) > b.len() {
        0
    } else {
        1 + complete_arcs(b, arc_end(b, from))
    }
}

/// The number that arc `j` of the encoding `b` writes.
pub open spec fn encoded_arc(b: Seq<u8>, j: nat) -> nat {
    ber_value(b, arc_start(b, j), arc_start(b, j + 1))
}

/// The first arc of an identifier whose first encoded arc is `first`.
pub open spec fn first_arc(first: nat) -> nat {
    if first < 40 {
        0
    } else if first < 80 {
        1
    } else {
        2
    }
}

/// The second arc of an identifier whose first encoded arc is `first`.
pub open spec fn second_arc(first: nat) -> nat {
    if first < 40 {
        first
    } else if first < 80 {
        (first - 40) as nat
    } else {
        (first - 80) as nat
    }
}

/// The arcs of the identifier that the complete arcs of `b` determine.
pub open spec fn fixed_arcs_of(b: Seq<u8>) -> Seq<nat> {
    if complete_arcs(b, 0) == 0 {
        Seq::empty()
    } else {
        Seq::new(
            complete_arcs(b, 0) + 1,
            |i: int|
                if i == 0 {
                    first_arc(encoded_arc(b, 0))
                } else if i == 1 {
                    second_arc(encoded_arc(b, 0))
                } else {
                    encoded_arc(b, (i - 1) as nat)
                },
        )
    }
}

/// Where the incomplete arc at the end of `b` starts; the length of `b`
/// where `b` ends in a complete arc.
pub open spec fn partial_at(b: Seq<u8>) -> int {
    arc_start(b, complete_arcs(b, 0))
}

/// The digits of the incomplete arc at the end of `b`.
pub open spec fn partial_arc(b: Seq<u8>) -> Seq<u8> {
    b.subrange(partial_at(b), b.len() as int)
}

/// The least arc that the incomplete arc at the end of `b` can become:
/// the one whose digits go on with one zero digit and end with another.
pub open spec fn least_completion(b: Seq<u8>) -> nat {
    ber_value(partial_arc(b) + seq![0x80u8, 0x00u8], 0, (partial_arc(b).len() + 2) as int)
}

/// The greatest arc that the incomplete arc at the end of `b` can become
/// with two more digits.
pub open spec fn greatest_completion(b: Seq<u8>) -> nat {
    ber_value(partial_arc(b) + seq![0xFFu8, 0x7Fu8], 0, (partial_arc(b).len() + 2) as int)
}

/// The start of the range of the arc after the complete ones.
pub open spec fn range_start_of(b: Seq<u8>) -> nat {
    if partial_at(b) < b.len() {
        least_completion(b)
    } else {
        0
    }
}

/// The end of the range of the arc after the complete ones, which the
/// range does not hold.
pub open spec fn range_end_of(b: Seq<u8>) -> nat {
    if partial_at(b) < b.len() {
        greatest_completion(b) + 1
    } else {
        16384
    }
}

/// A prefix of an object identifier: the arcs that are known, and the
/// range in which the arc after them lies.
#[derive(Clone, Debug, PartialEq, Eq, Hash, PartialOrd, Ord)]
pub struct OidPrefix {
    pub fixed_arcs: Vec<BigUint>,
    pub final_range_start: BigUint,
    /// The end of the range, which the range does not hold.
    pub final_range_end: BigUint,
}

impl OidPrefix {
    /// The values of the known arcs.
    pub open spec fn arcs(&self) -> Seq<nat> {
        Seq::new(self.fixed_arcs@.len(), |i: int| big_value(self.fixed_arcs@[i]))
    }

    /// The range holds a number at least.
    pub open spec fn well_formed(&self) -> bool {
        big_value(self.final_range_start) < big_value(self.final_range_end)
    }

    /// `self` is the prefix that the encoding `b` determines.
    pub open spec fn decoded_from(&self, b: Seq<u8>) -> bool {
        &&& self.arcs() == fixed_arcs_of(b)
        &&& big_value(self.final_range_start) == range_start_of(b)
        &&& big_value(self.final_range_end) == range_end_of(b)
    }

    /// Splits `bytes` after its first arc.
    pub fn take_ber_integer_slice(bytes: &[u8]) -> (r: (&[u8], &[u8]))
        ensures
            r.0@ == bytes@.subrange(0, arc_end(bytes@, 0)),
            r.1@ == bytes@.subrange(arc_end(bytes@, 0), bytes@.len() as int),
    {
        let end: usize = arc_end_from(bytes, 0);
        (&bytes[0..end], &bytes[end..bytes.len()])
    }

    /// Whether `bytes` is one complete arc: every byte but the last says
    /// that a digit follows, and the last says that none does.
    pub open spec fn is_terminated(b: Seq<u8>) -> bool {
        &&& b.len() > 0
        &&& forall|i: int| 0 <= i < b.len() - 1 ==> continues(#[trigger] b[i])
        &&& !continues(b[b.len() - 1])
    }

    /// Tests whether `bytes` is one complete arc.
    pub fn is_terminated_ber_integer(bytes: &[u8]) -> (r: bool)
        requires
            bytes.len() > 0,
        ensures
            r == OidPrefix::is_terminated(bytes@),
    {
        let mut i: usize = 0;
        while i < bytes.len() - 1
            invariant
                bytes.len() > 0,
                i <= bytes.len() - 1,
                forall|j: int| 0 <= j < i ==> continues(#[trigger] bytes@[j]),
            decreases bytes.len() - i,
        {
            if !bit_is_set(bytes[i] as u64, 7) {
                return false;
            }
            i += 1;
        }
        !bit_is_set(bytes[bytes.len() - 1] as u64, 7)
    }

    /// The number that one complete arc writes.
    pub fn extract_ber_integer(bytes: &[u8]) -> (r: BigUint)
        requires
            OidPrefix::is_terminated(bytes@),
        ensures
            big_value(r) == ber_value(bytes@, 0, bytes@.len() as int),
    {
        let mut value: BigUint = big_from_u64(0);
        let mut i: usize = 0;
        while i < bytes.len()
            invariant
                i <= bytes.len(),
                big_value(value) == ber_value(bytes@, 0, i as int),
            decreases bytes.len() - i,
        {
            let without_continuation_bit: u8 = extract_bits_u8(bytes[i] as u64, 0, 7);
            proof {
                lemma2_to64();
            }
            value = big_add(big_shl(value, 7), big_from_u64(without_continuation_bit as u64));
            i += 1;
        }
        value
    }

    /// Decodes a prefix of an object identifier. Every complete arc of
    /// `bytes` becomes an arc of the prefix, the first of them two. An
    /// incomplete arc at the end bounds the arc that follows: the range
    /// reaches from its least completion to its greatest completion by two
    /// digits. Without one the range is that of a block of 14 bits.
    pub fn from_ber_bytes(bytes: &[u8]) -> (r: OidPrefix)
        ensures
            r.decoded_from(bytes@),
            r.well_formed(),
    {
        let ghost b = bytes@;
        let mut fixed_arcs: Vec<BigUint> = Vec::new();
        let forty: BigUint = big_from_u64(40);
        let eighty: BigUint = big_from_u64(80);
        let mut start: usize = 0;
        let mut k: usize = 0;
        while start < bytes.len()
            invariant
                b == bytes@,
                big_value(forty) == 40,
                big_value(eighty) == 80,
                k <= start <= b.len(),
                start == arc_start(b, k as nat),
                complete_arcs(b, 0) == k + complete_arcs(b, start as int),
                k == 0 ==> fixed_arcs@.len() == 0,
                k > 0 ==> fixed_arcs@.len() == k + 1,
                k > 0 ==> big_value(fixed_arcs@[0]) == first_arc(encoded_arc(b, 0)),
                k > 0 ==> big_value(fixed_arcs@[1]) == second_arc(encoded_arc(b, 0)),
                forall|i: int|
                    2 <= i < fixed_arcs@.len() ==> big_value(#[trigger] fixed_arcs@[i])
                        == encoded_arc(b, (i - 1) as nat),
            decreases bytes.len() - start,
        {
            let end: usize = arc_end_from(bytes, start);
            let arc_slice: &[u8] = &bytes[start..end];
            proof {
                lemma_arc_end(b, start as int);
                assert(OidPrefix::is_terminated(arc_slice@) == arc_complete(b, start as int)) by {
                    assert forall|i: int| 0 <= i < arc_slice@.len() - 1 implies continues(
                        #[trigger] arc_slice@[i],
                    ) by {
                        assert(arc_slice@[i] == b[start + i]);
                    }
                    assert(arc_slice@[arc_slice@.len() - 1] == b[end - 1]);
                }
            }
            if OidPrefix::is_terminated_ber_integer(arc_slice) {
                let arc_value: BigUint = OidPrefix::extract_ber_integer(arc_slice);
                proof {
                    lemma_ber_value_subrange(b, start as int, end as int, end as int);
                    assert(big_value(arc_value) == encoded_arc(b, k as nat));
                }
                if k == 0 {
                    if big_lt(&arc_value, &forty) {
                        fixed_arcs.push(big_from_u64(0));
                        fixed_arcs.push(arc_value);
                    } else if big_lt(&arc_value, &eighty) {
                        fixed_arcs.push(big_from_u64(1));
                        fixed_arcs.push(big_sub(&arc_value, &forty));
                    } else {
                        fixed_arcs.push(big_from_u64(2));
                        fixed_arcs.push(big_sub(&arc_value, &eighty));
                    }
                } else {
                    fixed_arcs.push(arc_value);
                }
                k += 1;
                start = end;
            } else {
                // the last arc is incomplete
                assert(end == b.len());
                assert(partial_at(b) == start);
                let mut smallest_bytes: Vec<u8> = Vec::new();
                let mut largest_bytes: Vec<u8> = Vec::new();
                let mut i: usize = start;
                while i < end
                    invariant
                        b == bytes@,
                        start <= i <= end,
                        end == b.len(),
                        smallest_bytes@ == b.subrange(start as int, i as int),
                        largest_bytes@ == b.subrange(start as int, i as int),
                        forall|j: int| start <= j < end ==> continues(#[trigger] b[j]),
                    decreases end - i,
                {
                    smallest_bytes.push(bytes[i]);
                    largest_bytes.push(bytes[i]);
                    i += 1;
                }
                smallest_bytes.push(0b1_000_0000);
                smallest_bytes.push(0b0_000_0000);
                largest_bytes.push(0b1_111_1111);
                largest_bytes.push(0b0_111_1111);
                proof {
                    lemma2_to64();
                    assert(continues(0x80u8) && continues(0xFFu8) && !continues(0x00u8)
                        && !continues(0x7Fu8));
                    assert(smallest_bytes@ =~= partial_arc(b) + seq![0x80u8, 0x00u8]);
                    assert(largest_bytes@ =~= partial_arc(b) + seq![0xFFu8, 0x7Fu8]);
                    assert forall|j: int| 0 <= j < smallest_bytes@.len() - 1 implies continues(
                        #[trigger] smallest_bytes@[j],
                    ) by {
                        if j < end - start {
                            assert(smallest_bytes@[j] == b[start + j]);
                        }
                    }
                    assert forall|j: int| 0 <= j < largest_bytes@.len() - 1 implies continues(
                        #[trigger] largest_bytes@[j],
                    ) by {
                        if j < end - start {
                            assert(largest_bytes@[j] == b[start + j]);
                        }
                    }
                }
                let smallest_value: BigUint = OidPrefix::extract_ber_integer(
                    smallest_bytes.as_slice(),
                );
                let largest_value_plus_one: BigUint = big_add(
                    OidPrefix::extract_ber_integer(largest_bytes.as_slice()),
                    big_from_u64(1),
                );
                proof {
                    assert(complete_arcs(b, 0) == k);
                    lemma_fixed_arcs(b, fixed_arcs@);
                    lemma_range(b);
                }
                return OidPrefix {
                    fixed_arcs,
                    final_range_start: smallest_value,
                    final_range_end: largest_value_plus_one,
                };
            }
        }
        proof {
            assert(complete_arcs(b, 0) == k);
            lemma_fixed_arcs(b, fixed_arcs@);
            lemma_range(b);
        }
        // the last arc is complete: the range is that of a block of 14 bits
        let range_start: BigUint = big_from_u64(0b00_00_0000_0000_0000);
        let range_end: BigUint = big_from_u64(0b01_00_0000_0000_0000);
        OidPrefix { fixed_arcs, final_range_start: range_start, final_range_end: range_end }
    }

    /// The text of the known arcs, each followed by a dot.
    pub open spec fn arcs_text(&self, k: int) -> Seq<char>
        decreases k,
    {
        if k <= 0 {
            Seq::empty()
        } else {
            self.arcs_text(k - 1) + decimal(big_value(self.fixed_arcs@[k - 1])) + "."@
        }
    }

    /// The text form: the known arcs, each followed by a dot, and the
    /// range as `(start..end)`.
    pub open spec fn text(&self) -> Seq<char> {
        self.arcs_text(self.fixed_arcs@.len() as int) + "("@ + decimal(
            big_value(self.final_range_start),
        ) + ".."@ + decimal(big_value(self.final_range_end)) + ")"@
    }

    /// Renders the text form.
    pub fn to_string(&self) -> (r: String)
        ensures
            r@ == self.text(),
    {
        let mut out: String = String::new();
        let mut i: usize = 0;
        while i < self.fixed_arcs.len()
            invariant
                i <= self.fixed_arcs@.len(),
                out@ == self.arcs_text(i as int),
            decreases self.fixed_arcs@.len() - i,
        {
            out.append(big_to_string(&self.fixed_arcs[i]).as_str());
            out.append(".");
            i += 1;
        }
        out.append("(");
        out.append(big_to_string(&self.final_range_start).as_str());
        out.append("..");
        out.append(big_to_string(&self.final_range_end).as_str());
        out.append(")");
        out
    }
}

fn arc_end_from(bytes: &[u8], from: usize) -> (r: usize)
    requires
        from <= bytes.len(),
    ensures
        r == arc_end(bytes@, from as int),
        from <= r <= bytes.len(),
{
    let mut split_index: usize = from;
    while split_index < bytes.len()
        invariant
            from <= split_index <= bytes.len(),
            arc_end(bytes@, from as int) == arc_end(bytes@, split_index as int),
        decreases bytes.len() - split_index,
    {
        let is_continuation: bool = bit_is_set(bytes[split_index] as u64, 7);
        split_index += 1;
        if !is_continuation {
            return split_index;
        }
    }
    split_index
}

/// An arc ends after where it starts, within the encoding; every byte of
/// it but the last says that a digit follows.
pub proof fn lemma_arc_end(b: Seq<u8>, from: int)
    requires
        0 <= from < b.len(),
    ensures
        from < arc_end(b, from) <= b.len(),
        forall|i: int| from <= i < arc_end(b, from) - 1 ==> continues(#[trigger] b[i]),
        !arc_complete(b, from) ==> arc_end(b, from) == b.len(),
    decreases b.len() - from,
{
    if continues(b[from]) {
        if from + 1 < b.len() {
            lemma_arc_end(b, from + 1);
        } else {
            assert(arc_end(b, from + 1) == b.len());
        }
    }
}

/// The digits of a part of a buffer write the same number as they do
/// within the buffer.
pub proof fn lemma_ber_value_subrange(b: Seq<u8>, from: int, to: int, end: int)
    requires
        0 <= from <= to <= end <= b.len(),
    ensures
        ber_value(b.subrange(from, end), 0, to - from) == ber_value(b, from, to),
    decreases to - from,
{
    if to > from {
        lemma_ber_value_subrange(b, from, to - 1, end);
    }
}

/// The digits of an arc and two more digits write the number of the arc
/// times 128 squared, and what the two digits write.
pub proof fn lemma_two_more_digits(p: Seq<u8>, high: u8, low: u8)
    ensures
        ber_value(p + seq![high, low], 0, (p.len() + 2) as int) == ber_value(
            p,
            0,
            p.len() as int,
        ) * 16384 + bit_range(high as int, 0, 7) * 128 + bit_range(low as int, 0, 7),
{
    let s = p + seq![high, low];
    let n = p.len() as int;
    lemma2_to64();
    assert(s[n] == high && s[n + 1] == low);
    assert(s.subrange(0, n) =~= p);
    lemma_ber_value_subrange(s, 0, n, n);
    assert(ber_value(s, 0, n + 1) == ber_value(s, 0, n) * 128 + bit_range(high as int, 0, 7));
    assert(ber_value(s, 0, n + 2) == ber_value(s, 0, n + 1) * 128 + bit_range(low as int, 0, 7));
}

/// The range of the arc after the complete ones is the block of 128
/// squared numbers that start with the digits of the incomplete arc; the
/// first such block where there is none. It holds a number at least.
pub proof fn lemma_range(b: Seq<u8>)
    ensures
        range_start_of(b) < range_end_of(b),
        range_end_of(b) == range_start_of(b) + 16384,
        partial_at(b) < b.len() ==> range_start_of(b) == ber_value(
            partial_arc(b),
            0,
            partial_arc(b).len() as int,
        ) * 16384,
{
    if partial_at(b) < b.len() {
        lemma2_to64();
        lemma_two_more_digits(partial_arc(b), 0x80, 0x00);
        lemma_two_more_digits(partial_arc(b), 0xFF, 0x7F);
    }
}

/// The arcs gathered from all of the complete arcs are the arcs of the
/// prefix.
proof fn lemma_fixed_arcs(b: Seq<u8>, arcs: Seq<BigUint>)
    requires
        complete_arcs(b, 0) == 0 ==> arcs.len() == 0,
        complete_arcs(b, 0) > 0 ==> arcs.len() == complete_arcs(b, 0) + 1,
        complete_arcs(b, 0) > 0 ==> big_value(arcs[0]) == first_arc(encoded_arc(b, 0)),
        complete_arcs(b, 0) > 0 ==> big_value(arcs[1]) == second_arc(encoded_arc(b, 0)),
        forall|i: int|
            2 <= i < arcs.len() ==> big_value(#[trigger] arcs[i]) == encoded_arc(
                b,
                (i - 1) as nat,
            ),
    ensures
        Seq::new(arcs.len(), |i: int| big_value(arcs[i])) == fixed_arcs_of(b),
{
    assert(Seq::new(arcs.len(), |i: int| big_value(arcs[i])) =~= fixed_arcs_of(b));
}

} // verus!
