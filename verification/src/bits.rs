use vstd::prelude::*;

verus! {

/// The bit at position `i` (0 = least significant) of the byte `n`.
pub open spec fn bit_of(n: u8, i: int) -> u8 {
    (n >> (i as u8)) % 2
}

/// The eight bits of `n`, least significant first.
pub open spec fn bits_of(n: u8) -> Seq<u8> {
    Seq::new(8, |i: int| bit_of(n, i))
}

/// Splits a byte into its eight bits, least significant first.
pub fn to_bits(num: u8) -> (bits: [u8; 8])
    ensures
        bits@ == bits_of(num),
{
    let mut n: u8 = num;
    let mut bits: [u8; 8] = [0; 8];
    let mut i: usize = 0;
    assert(num >> 0u8 == num) by (bit_vector);
    while i < 8
        invariant
            0 <= i <= 8,
            bits@.len() == 8,
            n == num >> (i as u8),
            forall|j: int| 0 <= j < i ==> bits@[j] == bit_of(num, j),
        decreases 8 - i,
    {
        bits[i] = n % 2;
        let ghost k: u8 = i as u8;
        assert((num >> k) >> 1u8 == num >> ((k + 1) as u8)) by (bit_vector)
            requires
                k < 8,
        ;
        n = n >> 1;
        i = i + 1;
    }
    assert(bits@ =~= bits_of(num));
    bits
}

/// The number that the bits of `bits` from position `i` on stand for,
/// read least significant first.
pub open spec fn bits_value_from(bits: Seq<u8>, i: int) -> int
    decreases bits.len() - i,
{
    if i < 0 || i >= bits.len() {
        0
    } else {
        bits[i] + 2 * bits_value_from(bits, i + 1)
    }
}

/// The number that a little-endian sequence of bits stands for.
pub open spec fn bits_value(bits: Seq<u8>) -> int {
    bits_value_from(bits, 0)
}

/// The value of eight bits, written out term by term.
proof fn lemma_bits_value_eight(bits: Seq<u8>)
    requires
        bits.len() == 8,
    ensures
        bits_value(bits) == bits[0] + 2 * bits[1] + 4 * bits[2] + 8 * bits[3] + 16 * bits[4] + 32
            * bits[5] + 64 * bits[6] + 128 * bits[7],
{
    reveal_with_fuel(bits_value_from, 9);
}

/// A sequence of eight entries, each of them 0 or 1.
pub open spec fn is_byte_bits(bits: Seq<u8>) -> bool {
    &&& bits.len() == 8
    &&& forall|i: int| 0 <= i < 8 ==> #[trigger] bits[i] <= 1
}

/// Every entry of `bits_of(n)` is a bit.
pub proof fn lemma_bits_of_are_bits(n: u8)
    ensures
        is_byte_bits(bits_of(n)),
{
    assert forall|i: int| 0 <= i < 8 implies #[trigger] bits_of(n)[i] <= 1 by {
        let k = i as u8;
        assert((n >> k) % 2 <= 1) by (bit_vector);
    }
}

/// Splitting a byte into bits loses nothing: the bits, read back as a
/// little-endian number, give the byte again.
pub proof fn lemma_bits_value_of_bits(n: u8)
    ensures
        bits_value(bits_of(n)) == n as int,
{
    let b = bits_of(n);
    lemma_bits_value_eight(b);
    assert(b[0] == (n >> 0u8) % 2 && b[1] == (n >> 1u8) % 2 && b[2] == (n >> 2u8) % 2 && b[3]
        == (n >> 3u8) % 2 && b[4] == (n >> 4u8) % 2 && b[5] == (n >> 5u8) % 2 && b[6] == (n
        >> 6u8) % 2 && b[7] == (n >> 7u8) % 2);
    assert(n as int == ((n >> 0u8) % 2) as int + 2 * ((n >> 1u8) % 2) as int + 4 * ((n >> 2u8)
        % 2) as int + 8 * ((n >> 3u8) % 2) as int + 16 * ((n >> 4u8) % 2) as int + 32 * ((n
        >> 5u8) % 2) as int + 64 * ((n >> 6u8) % 2) as int + 128 * ((n >> 7u8) % 2) as int)
        by (bit_vector);
}

/// Any eight bits are the bits of exactly one byte: the one they stand for.
pub proof fn lemma_bits_of_bits_value(bits: Seq<u8>)
    requires
        is_byte_bits(bits),
    ensures
        0 <= bits_value(bits) < 256,
        bits_of(bits_value(bits) as u8) == bits,
{
    lemma_bits_value_eight(bits);
    let (b0, b1, b2, b3, b4, b5, b6, b7) = (
        bits[0],
        bits[1],
        bits[2],
        bits[3],
        bits[4],
        bits[5],
        bits[6],
        bits[7],
    );
    assert(b0 <= 1 && b1 <= 1 && b2 <= 1 && b3 <= 1 && b4 <= 1 && b5 <= 1 && b6 <= 1 && b7 <= 1);
    let v: int = b0 + 2 * b1 + 4 * b2 + 8 * b3 + 16 * b4 + 32 * b5 + 64 * b6 + 128 * b7;
    assert(bits_value(bits) == v);
    let n: u8 = v as u8;
    assert({
        let n: u8 = (b0 + 2 * b1 + 4 * b2 + 8 * b3 + 16 * b4 + 32 * b5 + 64 * b6 + 128 * b7) as u8;
        &&& (n >> 0u8) % 2 == b0
        &&& (n >> 1u8) % 2 == b1
        &&& (n >> 2u8) % 2 == b2
        &&& (n >> 3u8) % 2 == b3
        &&& (n >> 4u8) % 2 == b4
        &&& (n >> 5u8) % 2 == b5
        &&& (n >> 6u8) % 2 == b6
        &&& (n >> 7u8) % 2 == b7
    }) by (bit_vector)
        requires
            b0 <= 1 && b1 <= 1 && b2 <= 1 && b3 <= 1 && b4 <= 1 && b5 <= 1 && b6 <= 1 && b7 <= 1,
    ;
    assert(bits_of(n) =~= bits);
}

} // verus!
