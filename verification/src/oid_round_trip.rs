//! The arcs of an object identifier survive being encoded and decoded
//! again.

use crate::bits::bit_range;
use crate::oid_prefix::{
    arc_complete, arc_end, arc_start, ber_value, complete_arcs, continues, encoded_arc, fixed_arcs_of, lemma_ber_value_subrange, partial_at, range_end_of, range_start_of, };
use vstd::arithmetic::power2::lemma2_to64;
use vstd::prelude::*;

verus! {

/// The digits of `m` in base 128, most significant first, each with the
/// mark that another digit follows; no digit for zero.
pub open spec fn ber_head(m: nat) -> Seq<u8>
    decreases m,
{
    if m == 0 {
        Seq::empty()
    } else {
        ber_head(m / 128).push((128 + m % 128) as u8)
    }
}

/// The shortest encoding of the arc `n`.
pub open spec fn ber_arc(n: nat) -> Seq<u8> {
    ber_head(n / 128).push((n % 128) as u8)
}

/// A byte above 127 says that a digit follows and a byte below 128 that
/// none does; the digit of a byte is what is left of it after 128.
pub proof fn lemma_byte_digit(b: u8)
    ensures
        continues(b) == (b >= 128),
        bit_range(b as int, 0, 7) == b % 128,
{
    lemma2_to64();
}

/// The digits of the head of an arc all say that a digit follows, and
/// write the number that they were made of.
pub proof fn lemma_ber_head(m: nat)
    ensures
        forall|i: int| 0 <= i < ber_head(m).len() ==> continues(#[trigger] ber_head(m)[i]),
        ber_value(ber_head(m), 0, ber_head(m).len() as int) == m,
    decreases m,
{
    if m > 0 {
        lemma_ber_head(m / 128);
        let h = ber_head(m / 128);
        let c = (128 + m % 128) as u8;
        let s = ber_head(m);
        assert(s == h.push(c));
        lemma_byte_digit(c);
        assert forall|i: int| 0 <= i < s.len() implies continues(#[trigger] s[i]) by {
            if i < h.len() {
                assert(s[i] == h[i]);
            }
        }
        assert(s.subrange(0, h.len() as int) =~= h);
        lemma_ber_value_subrange(s, 0, h.len() as int, h.len() as int);
    }
}

/// The encoding of an arc is one complete arc that writes the arc.
pub proof fn lemma_ber_arc(n: nat)
    ensures
        ber_arc(n).len() >= 1,
        forall|i: int| 0 <= i < ber_arc(n).len() - 1 ==> continues(#[trigger] ber_arc(n)[i]),
        !continues(ber_arc(n)[ber_arc(n).len() - 1]),
        ber_value(ber_arc(n), 0, ber_arc(n).len() as int) == n,
{
    lemma_ber_head(n / 128);
    let h = ber_head(n / 128);
    let c = (n % 128) as u8;
    let s = ber_arc(n);
    lemma_byte_digit(c);
    assert forall|i: int| 0 <= i < s.len() - 1 implies continues(#[trigger] s[i]) by {
        assert(s[i] == h[i]);
    }
    assert(s.subrange(0, h.len() as int) =~= h);
    lemma_ber_value_subrange(s, 0, h.len() as int, h.len() as int);
}

/// An arc whose bytes all say that a digit follows, but for the last,
/// ends after that one and is complete.
pub proof fn lemma_arc_end_of_run(b: Seq<u8>, from: int, to: int)
    requires
        0 <= from < to <= b.len(),
        forall|i: int| from <= i < to - 1 ==> continues(#[trigger] b[i]),
        !continues(b[to - 1]),
    ensures
        arc_end(b, from) == to,
        arc_complete(b, from),
    decreases to - from,
{
    if from < to - 1 {
        lemma_arc_end_of_run(b, from + 1, to);
    }
}

/// The number that stands for the arcs in place `j` of an encoding: the
/// first two arcs together in the first place, each other arc alone.
pub open spec fn arc_code(arcs: Seq<nat>, j: nat) -> nat {
    if j == 0 {
        40 * arcs[0] + arcs[1]
    } else {
        arcs[j as int + 1]
    }
}

/// The encoding of what stands in the first `k` places.
pub open spec fn encoded_upto(arcs: Seq<nat>, k: nat) -> Seq<u8>
    decreases k,
{
    if k == 0 {
        Seq::empty()
    } else {
        encoded_upto(arcs, (k - 1) as nat) + ber_arc(arc_code(arcs, (k - 1) as nat))
    }
}

/// The arcs are those of an object identifier: two of them at least, the
/// first at most 2, and the second below 40 unless the first is 2.
pub open spec fn arcs_ok(arcs: Seq<nat>) -> bool {
    &&& arcs.len() >= 2
    &&& arcs[0] <= 2
    &&& arcs[0] < 2 ==> arcs[1] < 40
}

/// The shortest encoding of the arcs of an object identifier; the empty
/// encoding for no arcs.
pub open spec fn encoded(arcs: Seq<nat>) -> Seq<u8> {
    if arcs.len() < 2 {
        Seq::empty()
    } else {
        encoded_upto(arcs, (arcs.len() - 1) as nat)
    }
}

/// The encoding of the first places is the start of the encoding of more
/// places; the encoding of the next place follows it.
pub proof fn lemma_encoded_prefix(arcs: Seq<nat>, k: nat, n: nat)
    requires
        k <= n,
    ensures
        encoded_upto(arcs, k).len() <= encoded_upto(arcs, n).len(),
        encoded_upto(arcs, n).subrange(0, encoded_upto(arcs, k).len() as int) == encoded_upto(
            arcs,
            k,
        ),
        k < n ==> {
            &&& encoded_upto(arcs, k + 1).len() <= encoded_upto(arcs, n).len()
            &&& encoded_upto(arcs, n).subrange(
                encoded_upto(arcs, k).len() as int,
                encoded_upto(arcs, k + 1).len() as int,
            ) == ber_arc(arc_code(arcs, k))
        },
    decreases n - k,
{
    let t = encoded_upto(arcs, n);
    let p = encoded_upto(arcs, k);
    if k == n {
        assert(t.subrange(0, p.len() as int) =~= p);
    } else {
        let q = encoded_upto(arcs, k + 1);
        let a = ber_arc(arc_code(arcs, k));
        assert(q == p + a);
        lemma_encoded_prefix(arcs, k + 1, n);
        assert(t.subrange(0, p.len() as int) =~= p) by {
            assert forall|i: int| 0 <= i < p.len() implies t.subrange(0, p.len() as int)[i]
                == p[i] by {
                assert(t.subrange(0, q.len() as int)[i] == q[i]);
            }
        }
        assert(t.subrange(p.len() as int, q.len() as int) =~= a) by {
            assert forall|i: int| 0 <= i < a.len() implies t.subrange(
                p.len() as int,
                q.len() as int,
            )[i] == a[i] by {
                assert(t.subrange(0, q.len() as int)[p.len() + i] == q[p.len() + i]);
            }
        }
    }
}

/// In the encoding of `n` places, place `j` starts where the encoding of
/// the places before it ends, holds a complete arc, and writes what stands
/// in the place.
pub proof fn lemma_encoded_arcs(arcs: Seq<nat>, n: nat, j: nat)
    requires
        j <= n,
    ensures
        arc_start(encoded_upto(arcs, n), j) == encoded_upto(arcs, j).len(),
        j < n ==> {
            &&& arc_complete(encoded_upto(arcs, n), encoded_upto(arcs, j).len() as int)
            &&& arc_end(encoded_upto(arcs, n), encoded_upto(arcs, j).len() as int)
                == encoded_upto(arcs, j + 1).len()
            &&& encoded_upto(arcs, j).len() < encoded_upto(arcs, j + 1).len() <= encoded_upto(
                arcs,
                n,
            ).len()
            &&& encoded_arc(encoded_upto(arcs, n), j) == arc_code(arcs, j)
        },
    decreases j,
{
    let t = encoded_upto(arcs, n);
    if j > 0 {
        lemma_encoded_arcs(arcs, n, (j - 1) as nat);
    }
    if j < n {
        let from = encoded_upto(arcs, j).len() as int;
        let to = encoded_upto(arcs, j + 1).len() as int;
        let a = ber_arc(arc_code(arcs, j));
        lemma_encoded_prefix(arcs, j, n);
        lemma_ber_arc(arc_code(arcs, j));
        assert(to == from + a.len());
        assert forall|i: int| from <= i < to - 1 implies continues(#[trigger] t[i]) by {
            assert(t.subrange(from, to)[i - from] == a[i - from]);
        }
        assert(t[to - 1] == a[a.len() - 1]) by {
            assert(t.subrange(from, to)[to - 1 - from] == a[to - 1 - from]);
        }
        lemma_arc_end_of_run(t, from, to);
        lemma_ber_value_subrange(t, from, to, to);
    }
}

/// From place `j` on, the encoding of `n` places holds `n - j` complete
/// arcs.
pub proof fn lemma_encoded_count(arcs: Seq<nat>, n: nat, j: nat)
    requires
        j <= n,
    ensures
        complete_arcs(encoded_upto(arcs, n), encoded_upto(arcs, j).len() as int) == n - j,
    decreases n - j,
{
    let t = encoded_upto(arcs, n);
    if j < n {
        lemma_encoded_arcs(arcs, n, j);
        lemma_encoded_count(arcs, n, j + 1);
    } else {
        assert(!arc_complete(t, t.len() as int));
    }
}

/// Decoding the shortest encoding of the arcs of an object identifier
/// gives the arcs back, and the range of a block of 14 bits after them.
pub proof fn lemma_encoding_round_trip(arcs: Seq<nat>)
    requires
        arcs_ok(arcs),
    ensures
        fixed_arcs_of(encoded(arcs)) == arcs,
        range_start_of(encoded(arcs)) == 0,
        range_end_of(encoded(arcs)) == 16384,
{
    let n = (arcs.len() - 1) as nat;
    let t = encoded(arcs);
    lemma_encoded_count(arcs, n, 0);
    lemma_encoded_arcs(arcs, n, n);
    lemma_encoded_arcs(arcs, n, 0);
    assert(complete_arcs(t, 0) == n);
    assert(partial_at(t) == t.len());
    assert forall|i: int| 0 <= i < arcs.len() implies fixed_arcs_of(t)[i] == arcs[i] by {
        if i >= 2 {
            lemma_encoded_arcs(arcs, n, (i - 1) as nat);
        }
    }
    assert(fixed_arcs_of(t) =~= arcs);
}

/// Decoding is stable under encoding again: the arcs that an encoding
/// which ends in a complete arc determines, encoded in the shortest way
/// and decoded again, are the same arcs with the same range after them.
pub proof fn lemma_reparse_stable(b: Seq<u8>)
    requires
        partial_at(b) == b.len(),
    ensures
        fixed_arcs_of(encoded(fixed_arcs_of(b))) == fixed_arcs_of(b),
        range_start_of(encoded(fixed_arcs_of(b))) == range_start_of(b),
        range_end_of(encoded(fixed_arcs_of(b))) == range_end_of(b),
{
    let arcs = fixed_arcs_of(b);
    if complete_arcs(b, 0) == 0 {
        let e = encoded(arcs);
        assert(e.len() == 0);
        assert(complete_arcs(e, 0) == 0);
        assert(fixed_arcs_of(e) =~= arcs);
    } else {
        lemma_encoding_round_trip(arcs);
    }
}

} // verus!
