//! Choosing the winning class from the network's output.
//!
//! A score is handed over as the bit pattern of an IEEE 754 single-precision
//! number: bit 31 is the sign, and the remaining 31 bits, read as an unsigned
//! number, grow with the magnitude. Patterns whose magnitude lies above that of
//! infinity are not numbers.

use crate::labels::label_at;
use vstd::prelude::*;

verus! {

/// The sign bit.
pub const SIGN_BIT: u32 = 0x8000_0000;

/// The magnitude bits of positive and negative infinity.
pub const INFINITY_BITS: u32 = 0x7f80_0000;

/// The pattern without its sign bit.
pub open spec fn magnitude(bits: u32) -> int {
    if bits >= SIGN_BIT {
        bits - SIGN_BIT
    } else {
        bits as int
    }
}

/// The pattern stands for no number.
pub open spec fn is_nan(bits: u32) -> bool {
    magnitude(bits) > INFINITY_BITS
}

/// An integer that orders patterns as the numbers they stand for are ordered:
/// the magnitude for a clear sign bit, its negation for a set one. Both zeros
/// get key 0.
pub open spec fn score_key(bits: u32) -> int {
    if bits >= SIGN_BIT {
        -magnitude(bits)
    } else {
        magnitude(bits)
    }
}

/// The scores can be compared with one another: either there is at most one
/// of them, or each of them is a number.
pub open spec fn comparable(scores: Seq<u32>) -> bool {
    scores.len() >= 2 ==> forall|i: int| 0 <= i < scores.len() ==> !is_nan(#[trigger] scores[i])
}

/// Position `i` holds a greatest score, and every later score is smaller.
pub open spec fn is_winner(scores: Seq<u32>, i: int) -> bool {
    &&& 0 <= i < scores.len()
    &&& forall|j: int| 0 <= j < scores.len() ==> score_key(#[trigger] scores[j]) <= score_key(scores[i])
    &&& forall|j: int| i < j < scores.len() ==> score_key(#[trigger] scores[j]) < score_key(scores[i])
}

/// No two positions win.
pub proof fn lemma_winner_unique(scores: Seq<u32>, i: int, j: int)
    requires
        is_winner(scores, i),
        is_winner(scores, j),
    ensures
        i == j,
{
    if i < j {
        assert(score_key(scores[j]) < score_key(scores[i]));
        assert(score_key(scores[i]) <= score_key(scores[j]));
    } else if j < i {
        assert(score_key(scores[i]) < score_key(scores[j]));
        assert(score_key(scores[j]) <= score_key(scores[i]));
    }
}

/// Keys are equal exactly for equal patterns and for the two zeros.
pub proof fn lemma_key_equal(a: u32, b: u32)
    ensures
        score_key(a) == score_key(b) <==> a == b || (magnitude(a) == 0 && magnitude(b) == 0),
{
}

/// Among numbers of one sign the key grows with the magnitude for a clear
/// sign bit and falls with it for a set one, and no key of a set sign bit
/// lies above a key of a clear one.
pub proof fn lemma_key_order(a: u32, b: u32)
    ensures
        a < SIGN_BIT && b < SIGN_BIT ==> (score_key(a) < score_key(b) <==> a < b),
        a >= SIGN_BIT && b >= SIGN_BIT ==> (score_key(a) < score_key(b) <==> a > b),
        a >= SIGN_BIT && b < SIGN_BIT ==> score_key(a) <= score_key(b),
{
}

/// Tells whether the pattern stands for no number.
pub fn is_nan_bits(bits: u32) -> (b: bool)
    ensures
        b == is_nan(bits),
{
    if bits >= SIGN_BIT {
        bits - SIGN_BIT > INFINITY_BITS
    } else {
        bits > INFINITY_BITS
    }
}

/// The key of a pattern; see [`score_key`].
pub fn key_of(bits: u32) -> (k: i64)
    ensures
        k == score_key(bits),
{
    if bits >= SIGN_BIT {
        -((bits - SIGN_BIT) as i64)
    } else {
        bits as i64
    }
}

/// Tells whether [`argmax`] and [`top_label`] accept the scores.
pub fn can_compare(scores: &[u32]) -> (b: bool)
    ensures
        b == comparable(scores@),
{
    if scores.len() < 2 {
        return true;
    }
    let mut i: usize = 0;
    while i < scores.len()
        invariant
            0 <= i <= scores@.len(),
            scores@.len() >= 2,
            forall|j: int| 0 <= j < i ==> !is_nan(#[trigger] scores@[j]),
        decreases scores@.len() - i,
    {
        if is_nan_bits(scores[i]) {
            assert(is_nan(scores@[i as int]));
            return false;
        }
        i = i + 1;
    }
    true
}

/// The position of the greatest score; of the last one, where several are
/// equally great. There is none exactly when there are no scores.
pub fn argmax(scores: &[u32]) -> (r: Option<usize>)
    requires
        comparable(scores@),
    ensures
        r is None <==> scores@.len() == 0,
        r matches Some(i) ==> is_winner(scores@, i as int),
{
    if scores.len() == 0 {
        return None;
    }
    let mut best: usize = 0;
    let mut best_key: i64 = key_of(scores[0]);
    let mut i: usize = 1;
    while i < scores.len()
        invariant
            1 <= i <= scores@.len(),
            best < i,
            best_key == score_key(scores@[best as int]),
            forall|j: int| 0 <= j < i ==> score_key(#[trigger] scores@[j]) <= best_key,
            forall|j: int| best < j < i ==> score_key(#[trigger] scores@[j]) < best_key,
        decreases scores@.len() - i,
    {
        let key = key_of(scores[i]);
        if key >= best_key {
            best = i;
            best_key = key;
        }
        i = i + 1;
    }
    Some(best)
}

/// The name of the winning class: the label at the position that [`argmax`]
/// picks. There is none when there are no scores, or no label at that
/// position.
pub fn top_label(labels: &Vec<String>, scores: &[u32]) -> (r: Option<String>)
    requires
        comparable(scores@),
    ensures
        r matches Some(name) ==> exists|i: int|
            is_winner(scores@, i) && i < labels@.len() && name@ == labels@[i]@,
        r is None ==> forall|i: int| is_winner(scores@, i) ==> i >= labels@.len(),
{
    match argmax(scores) {
        Some(winner) => {
            let r = label_at(labels, winner);
            proof {
                if r is None {
                    assert forall|i: int| is_winner(scores@, i) implies i >= labels@.len() by {
                        lemma_winner_unique(scores@, i, winner as int);
                    }
                }
            }
            r
        },
        None => None,
    }
}

} // verus!
