//! Wire framing: the handshake constants and the two checksum schemes used
//! by the bootloader. A single byte travels with its bitwise complement; a
//! multi-byte payload travels with the XOR fold of all its bytes appended.

use vstd::prelude::*;

verus! {

/// Byte written to wake the bootloader and start synchronisation.
pub const WAKE_BYTE: u8 = 0x7F;

/// Positive acknowledgement byte.
pub const ACK: u8 = 0x79;

/// Negative acknowledgement byte.
pub const NACK: u8 = 0x1F;

/// XOR of all bytes of `s`, folded left to right from 0.
pub open spec fn xor_fold(s: Seq<u8>) -> u8
    decreases s.len(),
{
    if s.len() == 0 {
        0u8
    } else {
        xor_fold(s.drop_last()) ^ s.last()
    }
}

/// Frame for a single byte: the byte followed by its bitwise complement.
pub fn encode_single(b: u8) -> (r: Vec<u8>)
    ensures
        r@.len() == 2,
        r@[0] == b,
        r@[1] == b ^ 0xFF,
{
    let mut frame: Vec<u8> = Vec::new();
    frame.push(b);
    frame.push(b ^ 0xFF);
    frame
}

/// Frame for a multi-byte payload: the payload followed by its XOR fold.
pub fn encode_multi(payload: &Vec<u8>) -> (r: Vec<u8>)
    ensures
        r@ == payload@.push(xor_fold(payload@)),
        r@.len() == payload@.len() + 1,
{
    let mut frame: Vec<u8> = Vec::new();
    let mut checksum: u8 = 0;
    let mut i: usize = 0;
    while i < payload.len()
        invariant
            i <= payload@.len(),
            frame@ == payload@.take(i as int),
            checksum == xor_fold(payload@.take(i as int)),
        decreases payload@.len() - i,
    {
        proof {
            assert(payload@.take(i + 1).drop_last() =~= payload@.take(i as int));
            assert(payload@.take(i + 1).last() == payload@[i as int]);
        }
        frame.push(payload[i]);
        checksum = checksum ^ payload[i];
        i = i + 1;
    }
    proof {
        assert(payload@.take(payload@.len() as int) =~= payload@);
    }
    frame.push(checksum);
    proof {
        assert(frame@ =~= payload@.push(xor_fold(payload@)));
    }
    frame
}

/// XOR-folding distributes over concatenation.
pub proof fn lemma_xor_fold_concat(a: Seq<u8>, b: Seq<u8>)
    ensures
        xor_fold(a + b) == xor_fold(a) ^ xor_fold(b),
    decreases b.len(),
{
    if b.len() == 0 {
        assert(a + b =~= a);
        let x = xor_fold(a);
        assert(x ^ 0u8 == x) by (bit_vector);
    } else {
        lemma_xor_fold_concat(a, b.drop_last());
        assert((a + b).drop_last() =~= a + b.drop_last());
        assert((a + b).last() == b.last());
        let x = xor_fold(a);
        let y = xor_fold(b.drop_last());
        let z = b.last();
        assert((x ^ y) ^ z == x ^ (y ^ z)) by (bit_vector);
    }
}

/// The checksum ignores the order of the payload's bytes: exchanging the two
/// halves of a concatenation keeps the XOR fold, though it changes what the
/// payload means.
pub proof fn lemma_xor_fold_commutes(a: Seq<u8>, b: Seq<u8>)
    ensures
        xor_fold(a + b) == xor_fold(b + a),
{
    lemma_xor_fold_concat(a, b);
    lemma_xor_fold_concat(b, a);
    let x = xor_fold(a);
    let y = xor_fold(b);
    assert(x ^ y == y ^ x) by (bit_vector);
}

/// The four bytes of `x`, most significant first.
pub open spec fn u32_be(x: u32) -> Seq<u8> {
    seq![
        (x / 0x1000000) as u8,
        ((x / 0x10000) % 0x100) as u8,
        ((x / 0x100) % 0x100) as u8,
        (x % 0x100) as u8,
    ]
}

/// Splits `x` into its four bytes, most significant first.
pub fn u32_be_bytes(x: u32) -> (r: Vec<u8>)
    ensures
        r@ == u32_be(x),
        r@.len() == 4,
{
    let b0: u8 = (x / 0x1000000) as u8;
    let b1: u8 = ((x / 0x10000) % 0x100) as u8;
    let b2: u8 = ((x / 0x100) % 0x100) as u8;
    let b3: u8 = (x % 0x100) as u8;
    let mut r: Vec<u8> = Vec::new();
    r.push(b0);
    r.push(b1);
    r.push(b2);
    r.push(b3);
    proof {
        assert(r@ =~= u32_be(x));
    }
    r
}

} // verus!
