//! The dragon curve's turn sequence, built by repeated folding.

use vstd::prelude::*;
use vstd::arithmetic::power2::{pow2, lemma_pow2_unfold, lemma_pow2_strictly_increases, lemma2_to64};
use crate::vectors::{TurnDirection, opposite_of};

verus! {

/// The deepest recursion that `fractal_n_step` accepts: its result, of
/// `2^n - 1` turns, must be addressable.
pub const MAX_DEPTH: u32 = 32;

/// `s` read backwards, with every turn replaced by its opposite: the second
/// half of a fold.
pub open spec fn flipped_reverse(s: Seq<TurnDirection>) -> Seq<TurnDirection> {
    Seq::new(s.len(), |i: int| opposite_of(s[s.len() - 1 - i]))
}

/// One fold: the sequence, a right turn, then the mirrored sequence.
pub open spec fn folded(s: Seq<TurnDirection>) -> Seq<TurnDirection> {
    s + seq![TurnDirection::RIGHT] + flipped_reverse(s)
}

/// The turn sequence of the dragon curve at depth `n`.
pub open spec fn dragon_turns(n: nat) -> Seq<TurnDirection>
    decreases n,
{
    if n <= 1 {
        seq![TurnDirection::RIGHT]
    } else {
        folded(dragon_turns((n - 1) as nat))
    }
}

/// The turn sequence at depth `n >= 1` has `2^n - 1` turns: each fold doubles
/// the sequence and adds one turn.
pub proof fn lemma_dragon_turns_len(n: nat)
    requires
        n >= 1,
    ensures
        dragon_turns(n).len() == pow2(n) - 1,
    decreases n,
{
    lemma_pow2_unfold(n);
    if n == 1 {
        assert(pow2(0) == 1) by {
            lemma2_to64();
        }
    } else {
        lemma_dragon_turns_len((n - 1) as nat);
    }
}

/// The turn sequence depends on the depth alone: two computations at the same
/// depth agree.
pub proof fn lemma_dragon_turns_deterministic(
    n: u32,
    a: Seq<TurnDirection>,
    b: Seq<TurnDirection>,
)
    requires
        a == dragon_turns(n as nat),
        b == dragon_turns(n as nat),
    ensures
        a == b,
{
}

/// Folds `current_step` once: the turns, then a right turn, then the turns
/// read backwards with each one reversed.
pub fn next_fractal_step(current_step: &Vec<TurnDirection>) -> (r: Vec<TurnDirection>)
    requires
        2 * current_step@.len() + 1 <= usize::MAX,
    ensures
        r@ == folded(current_step@),
{
    let len = current_step.len();
    let mut ret: Vec<TurnDirection> = Vec::new();
    let mut i: usize = 0;
    while i < len
        invariant
            len == current_step@.len(),
            i <= len,
            ret@ == current_step@.subrange(0, i as int),
        decreases len - i,
    {
        ret.push(current_step[i]);
        i = i + 1;
    }
    ret.push(TurnDirection::RIGHT);
    let mut j: usize = len;
    while j > 0
        invariant
            len == current_step@.len(),
            2 * len + 1 <= usize::MAX,
            j <= len,
            ret@ == current_step@ + seq![TurnDirection::RIGHT] + flipped_reverse(
                current_step@,
            ).subrange(0, (len - j) as int),
        decreases j,
    {
        j = j - 1;
        ret.push(current_step[j].opposite());
    }
    assert(flipped_reverse(current_step@).subrange(0, len as int) =~= flipped_reverse(
        current_step@,
    ));
    ret
}

/// The turn sequence of the dragon curve at recursion depth `n`; depths 0 and
/// 1 both give the single right turn.
pub fn fractal_n_step(n: u32) -> (r: Vec<TurnDirection>)
    requires
        n <= MAX_DEPTH,
    ensures
        r@ == dragon_turns(n as nat),
        n >= 1 ==> r@.len() == pow2(n as nat) - 1,
    decreases n,
{
    proof {
        if n >= 1 {
            lemma_dragon_turns_len(n as nat);
        }
    }
    if n > 1 {
        let prev = fractal_n_step(n - 1);
        proof {
            lemma_dragon_turns_len((n - 1) as nat);
            lemma2_to64();
            assert(pow2((n - 1) as nat) <= pow2(31)) by {
                if n - 1 < 31 {
                    lemma_pow2_strictly_increases((n - 1) as nat, 31);
                }
            }
        }
        next_fractal_step(&prev)
    } else {
        vec![TurnDirection::RIGHT]
    }
}

} // verus!
