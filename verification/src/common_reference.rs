use vstd::prelude::*;

use crate::bits::{bits_of, lemma_bits_of_are_bits, to_bits};
use crate::field::{bytes_as_field, Z251};

verus! {

/// How many trials a common reference string must pass in the comparator
/// check.
pub const COMPARATOR_TRIALS: usize = 1000;

/// The comparator circuit's assignments in a trial: the bits of `a = 1`
/// followed by the bits of `b = 2`, as field elements.
pub fn comparator_assignments() -> (assignments: Vec<Z251>)
    ensures
        assignments@ == bytes_as_field(seq![1u8, 2u8]),
{
    let a_bits = to_bits(1);
    let b_bits = to_bits(2);
    let ghost bytes = seq![1u8, 2u8];
    let mut assignments: Vec<Z251> = Vec::new();
    let mut i: usize = 0;
    while i < 16
        invariant
            0 <= i <= 16,
            a_bits@ == bits_of(1),
            b_bits@ == bits_of(2),
            bytes == seq![1u8, 2u8],
            assignments@ == bytes_as_field(bytes).subrange(0, i as int),
        decreases 16 - i,
    {
        let bit = if i < 8 {
            a_bits[i]
        } else {
            b_bits[i - 8]
        };
        proof {
            lemma_bits_of_are_bits(1);
            lemma_bits_of_are_bits(2);
        }
        assignments.push(Z251::from_usize(bit as usize));
        assert(assignments@ =~= bytes_as_field(bytes).subrange(0, i + 1));
        i = i + 1;
    }
    assert(bytes_as_field(bytes).subrange(0, 16) =~= bytes_as_field(bytes));
    assignments
}

/// The comparator circuit's public inputs in a trial: the claim "a > b" as
/// the field element 1, followed by the bits of `b = 2` as field elements.
pub fn comparator_inputs() -> (inputs: Vec<Z251>)
    ensures
        inputs@ == seq![Z251 { inner: 1 }] + bytes_as_field(seq![2u8]),
{
    let b_bits = to_bits(2);
    let ghost bytes = seq![2u8];
    let mut inputs: Vec<Z251> = Vec::new();
    inputs.push(Z251::from_usize(1));
    let mut i: usize = 0;
    while i < 8
        invariant
            0 <= i <= 8,
            b_bits@ == bits_of(2),
            bytes == seq![2u8],
            inputs@ == seq![Z251 { inner: 1 }] + bytes_as_field(bytes).subrange(0, i as int),
        decreases 8 - i,
    {
        proof {
            lemma_bits_of_are_bits(2);
        }
        inputs.push(Z251::from_usize(b_bits[i] as usize));
        assert(inputs@ =~= seq![Z251 { inner: 1 }] + bytes_as_field(bytes).subrange(0, i + 1));
        i = i + 1;
    }
    assert(bytes_as_field(bytes).subrange(0, 8) =~= bytes_as_field(bytes));
    inputs
}

/// How many of the trial outcomes are rejections (`false`).
pub open spec fn rejected_count(outcomes: Seq<bool>) -> nat
    decreases outcomes.len(),
{
    if outcomes.len() == 0 {
        0
    } else {
        rejected_count(outcomes.drop_last()) + if outcomes.last() {
            0nat
        } else {
            1nat
        }
    }
}

/// Judges a common reference string by the outcomes of its comparator
/// trials, in each of which a proof of the false claim "1 > 2" was checked.
/// The string passes when exactly `COMPARATOR_TRIALS` of those checks
/// rejected the proof.
pub fn check_comparator(outcomes: &Vec<bool>) -> (passed: Result<bool, ()>)
    ensures
        passed == Ok::<bool, ()>(rejected_count(outcomes@) == COMPARATOR_TRIALS),
{
    let n = outcomes.len();
    let mut rejected: usize = 0;
    let mut i: usize = 0;
    while i < n
        invariant
            n == outcomes.len(),
            0 <= i <= n,
            rejected == rejected_count(outcomes@.subrange(0, i as int)),
            rejected <= i,
        decreases n - i,
    {
        proof {
            assert(outcomes@.subrange(0, i + 1).drop_last() =~= outcomes@.subrange(0, i as int));
        }
        if !outcomes[i] {
            rejected = rejected + 1;
        }
        i = i + 1;
    }
    assert(outcomes@.subrange(0, n as int) =~= outcomes@);
    if rejected == COMPARATOR_TRIALS {
        Ok(true)
    } else {
        Ok(false)
    }
}

/// No more outcomes are rejections than there are outcomes, and all of them
/// are exactly when none of them is an acceptance.
pub proof fn lemma_rejected_count_all(outcomes: Seq<bool>)
    ensures
        rejected_count(outcomes) <= outcomes.len(),
        rejected_count(outcomes) == outcomes.len() <==> forall|i: int|
            0 <= i < outcomes.len() ==> !#[trigger] outcomes[i],
    decreases outcomes.len(),
{
    if outcomes.len() > 0 {
        let init = outcomes.drop_last();
        lemma_rejected_count_all(init);
        if rejected_count(outcomes) == outcomes.len() {
            assert forall|i: int| 0 <= i < outcomes.len() implies !#[trigger] outcomes[i] by {
                if i < outcomes.len() - 1 {
                    assert(init[i] == outcomes[i]);
                }
            }
        } else {
            if forall|i: int| 0 <= i < outcomes.len() ==> !#[trigger] outcomes[i] {
                assert forall|i: int| 0 <= i < init.len() implies !#[trigger] init[i] by {
                    assert(init[i] == outcomes[i]);
                }
                assert(!outcomes[outcomes.len() - 1]);
            }
        }
    }
}

/// A common reference string passes the comparator check after
/// `COMPARATOR_TRIALS` trials exactly when every one of them rejected the
/// proof of the false claim.
pub proof fn lemma_check_comparator_passes(outcomes: Seq<bool>)
    requires
        outcomes.len() == COMPARATOR_TRIALS,
    ensures
        (rejected_count(outcomes) == COMPARATOR_TRIALS) <==> (forall|i: int|
            0 <= i < outcomes.len() ==> !#[trigger] outcomes[i]),
{
    lemma_rejected_count_all(outcomes);
}

} // verus!
