use vstd::prelude::*;

use crate::field::{
    all_valid, bytes_as_field, collect_bits_as_field, lemma_bytes_as_field_append,
    lemma_bytes_as_field_valid, Z251,
};

verus! {

/// A value that may be turned into elements of the circuit's field.
pub trait IntoInnerField {
    type Field;

    fn collect_as_field(self) -> Result<Self::Field, ()>;
}

impl IntoInnerField for Vec<u8> {
    type Field = Vec<Z251>;

    /// Spreads each byte into eight field elements, one per bit, least
    /// significant bit first; this never fails.
    fn collect_as_field(self) -> (field: Result<Vec<Z251>, ()>)
        ensures
            field matches Ok(f) && f@ == bytes_as_field(self@),
    {
        Ok(collect_bits_as_field(&self))
    }
}

impl IntoInnerField for Option<Vec<u8>> {
    type Field = Vec<Z251>;

    /// Spreads the bytes, when there are any, as the plain byte vector does;
    /// fails on `None`.
    fn collect_as_field(self) -> (field: Result<Vec<Z251>, ()>)
        ensures
            self is None ==> field == Err::<Vec<Z251>, ()>(()),
            self matches Some(bytes) ==> (field matches Ok(f) && f@ == bytes_as_field(bytes@)),
    {
        match self {
            Some(x) => Ok(collect_bits_as_field(&x)),
            None => Err(()),
        }
    }
}

/// A zero-knowledge proof together with the tag it was made for.
pub struct PilotOrb<P> {
    pub tag: Vec<u8>,
    pub proof: P,
}

/// The circuit assignments that a proof is made from: the bits of the
/// witness followed by the bits of the variables, as field elements.
pub fn prover_assignments(witness_bits: Vec<u8>, variable_bits: Vec<u8>) -> (assignments: Vec<
    Z251,
>)
    ensures
        assignments@ == bytes_as_field(witness_bits@) + bytes_as_field(variable_bits@),
        assignments@ == bytes_as_field(witness_bits@ + variable_bits@),
        all_valid(assignments@),
{
    proof {
        lemma_bytes_as_field_append(witness_bits@, variable_bits@);
        lemma_bytes_as_field_valid(witness_bits@ + variable_bits@);
    }
    let mut assignments = witness_bits.collect_as_field().unwrap();
    let mut rest = variable_bits.collect_as_field().unwrap();
    assignments.append(&mut rest);
    assignments
}

/// The public inputs that a proof is checked against: each number of
/// `verify_num` as one field element, followed by the bits of `verify_bits`
/// as field elements.
pub fn verifier_inputs(verify_num: Vec<u8>, verify_bits: Vec<u8>) -> (inputs: Vec<Z251>)
    requires
        forall|i: int| 0 <= i < verify_num.len() ==> #[trigger] verify_num[i] < 251,
    ensures
        inputs@ == verify_num@.map_values(|n: u8| Z251 { inner: n }) + bytes_as_field(
            verify_bits@,
        ),
        all_valid(inputs@),
{
    let mut inputs: Vec<Z251> = Vec::new();
    let n = verify_num.len();
    let mut i: usize = 0;
    while i < n
        invariant
            n == verify_num.len(),
            0 <= i <= n,
            forall|j: int| 0 <= j < n ==> #[trigger] verify_num[j] < 251,
            inputs@ == verify_num@.subrange(0, i as int).map_values(|n: u8| Z251 { inner: n }),
        decreases n - i,
    {
        inputs.push(Z251::from_usize(verify_num[i] as usize));
        proof {
            assert(verify_num@.subrange(0, i + 1).map_values(|n: u8| Z251 { inner: n })
                =~= verify_num@.subrange(0, i as int).map_values(|n: u8| Z251 { inner: n }).push(
                Z251 { inner: verify_num[i as int] },
            ));
        }
        i = i + 1;
    }
    assert(verify_num@.subrange(0, n as int) =~= verify_num@);
    let mut bits = verify_bits.collect_as_field().unwrap();
    proof {
        lemma_bytes_as_field_valid(verify_bits@);
    }
    inputs.append(&mut bits);
    inputs
}

} // verus!
