use vstd::prelude::*;

use crate::bits::{
    bit_of, bits_of, bits_value, lemma_bits_of_are_bits, lemma_bits_value_of_bits, to_bits,
};

verus! {

/// An element of the field of integers modulo 251, held by its
/// representative in `0..251`.
#[derive(Clone, Copy, Debug, PartialEq, Eq, Structural)]
pub struct Z251 {
    pub inner: u8,
}

impl Z251 {
    /// The representative lies in `0..251`.
    pub open spec fn is_valid(self) -> bool {
        self.inner < 251
    }

    /// The field element whose representative is `n`.
    pub fn from_usize(n: usize) -> (z: Z251)
        requires
            n < 251,
        ensures
            z.inner == n,
            z.is_valid(),
    {
        Z251 { inner: n as u8 }
    }
}

/// Every element of `elems` is a valid field element.
pub open spec fn all_valid(elems: Seq<Z251>) -> bool {
    forall|k: int| 0 <= k < elems.len() ==> (#[trigger] elems[k]).is_valid()
}

/// The bits of `bytes` as field elements: byte after byte, and within each
/// byte its eight bits least significant first, each bit the field element 0
/// or 1.
pub open spec fn bytes_as_field(bytes: Seq<u8>) -> Seq<Z251> {
    Seq::new((8 * bytes.len()) as nat, |k: int| Z251 { inner: bit_of(bytes[k / 8], k % 8) })
}

/// The representatives of the field elements in `elems`.
pub open spec fn field_values(elems: Seq<Z251>) -> Seq<u8> {
    elems.map_values(|z: Z251| z.inner)
}

/// Spreads each byte of `bytes` into eight field elements, one per bit, least
/// significant bit first.
pub fn collect_bits_as_field(bytes: &Vec<u8>) -> (field: Vec<Z251>)
    ensures
        field@ == bytes_as_field(bytes@),
        all_valid(field@),
{
    let n = bytes.len();
    let mut bit_array: Vec<[u8; 8]> = Vec::new();
    let mut i: usize = 0;
    while i < n
        invariant
            n == bytes.len(),
            0 <= i <= n,
            bit_array.len() == i,
            forall|j: int| 0 <= j < i ==> (#[trigger] bit_array[j])@ == bits_of(bytes[j]),
        decreases n - i,
    {
        bit_array.push(to_bits(bytes[i]));
        i = i + 1;
    }
    let mut field: Vec<Z251> = Vec::new();
    let mut i: usize = 0;
    while i < n
        invariant
            n == bytes.len(),
            n == bit_array.len(),
            0 <= i <= n,
            forall|j: int| 0 <= j < n ==> (#[trigger] bit_array[j])@ == bits_of(bytes[j]),
            field.len() == 8 * i,
            forall|k: int|
                0 <= k < field.len() ==> #[trigger] field[k] == (Z251 { inner: bit_of(bytes[k / 8], k % 8) }),
        decreases n - i,
    {
        let bits = bit_array[i];
        let mut j: usize = 0;
        while j < 8
            invariant
                n == bytes.len(),
                0 <= i < n,
                0 <= j <= 8,
                bits@ == bits_of(bytes[i as int]),
                field.len() == 8 * i + j,
                forall|k: int|
                    0 <= k < field.len() ==> #[trigger] field[k] == (Z251 { inner: bit_of(bytes[k / 8], k % 8) }),
            decreases 8 - j,
        {
            let bit = bits[j];
            proof {
                lemma_bits_of_are_bits(bytes[i as int]);
                assert(bit <= 1);
            }
            field.push(Z251 { inner: bit });
            j = j + 1;
        }
        i = i + 1;
    }
    assert(field@ =~= bytes_as_field(bytes@));
    proof {
        lemma_bytes_as_field_valid(bytes@);
    }
    field
}

/// Each field element that comes from a bit is 0 or 1, so it is valid.
pub proof fn lemma_bytes_as_field_valid(bytes: Seq<u8>)
    ensures
        all_valid(bytes_as_field(bytes)),
        forall|k: int|
            0 <= k < bytes_as_field(bytes).len() ==> #[trigger] bytes_as_field(bytes)[k].inner <= 1,
{
    assert forall|k: int| 0 <= k < bytes_as_field(bytes).len() implies #[trigger] bytes_as_field(
        bytes,
    )[k].inner <= 1 by {
        lemma_bits_of_are_bits(bytes[k / 8]);
        assert(bits_of(bytes[k / 8])[k % 8] <= 1);
    }
}

/// Spreading a concatenation of byte strings into field elements is the
/// concatenation of the spread strings.
pub proof fn lemma_bytes_as_field_append(a: Seq<u8>, b: Seq<u8>)
    ensures
        bytes_as_field(a + b) == bytes_as_field(a) + bytes_as_field(b),
{
    let lhs = bytes_as_field(a + b);
    let rhs = bytes_as_field(a) + bytes_as_field(b);
    assert forall|k: int| 0 <= k < lhs.len() implies #[trigger] lhs[k] == rhs[k] by {
        if k >= 8 * a.len() {
            let k2 = k - 8 * a.len();
            assert(k / 8 == a.len() + k2 / 8);
            assert(k % 8 == k2 % 8);
        }
    }
    assert(lhs =~= rhs);
}

/// The eight field elements that byte `i` of `bytes` was spread into, read
/// back as a little-endian number, give byte `i` again.
pub proof fn lemma_bytes_as_field_chunk(bytes: Seq<u8>, i: int)
    requires
        0 <= i < bytes.len(),
    ensures
        bits_value(field_values(bytes_as_field(bytes).subrange(8 * i, 8 * i + 8))) == bytes[i] as int,
{
    let chunk = field_values(bytes_as_field(bytes).subrange(8 * i, 8 * i + 8));
    assert forall|j: int| 0 <= j < 8 implies #[trigger] chunk[j] == bits_of(bytes[i])[j] by {
        assert((8 * i + j) / 8 == i);
        assert((8 * i + j) % 8 == j);
    }
    assert(chunk =~= bits_of(bytes[i]));
    lemma_bits_value_of_bits(bytes[i]);
}

/// Spreading bytes into field elements loses nothing: two byte strings that
/// spread to the same field elements are equal.
pub proof fn lemma_bytes_as_field_injective(a: Seq<u8>, b: Seq<u8>)
    requires
        bytes_as_field(a) == bytes_as_field(b),
    ensures
        a == b,
{
    assert(8 * a.len() == bytes_as_field(a).len());
    assert(a.len() == b.len());
    assert forall|i: int| 0 <= i < a.len() implies a[i] == b[i] by {
        lemma_bytes_as_field_chunk(a, i);
        lemma_bytes_as_field_chunk(b, i);
    }
    assert(a =~= b);
}

} // verus!
