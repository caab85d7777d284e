//! The checksum accumulator: a left-to-right wrapping sum of byte values.

use vstd::prelude::*;

verus! {

/// The number of values that the accumulator can hold.
pub open spec fn modulus() -> int {
    usize::MAX + 1
}

/// The sum of the byte values of `bytes`, without any bound.
pub open spec fn byte_sum(bytes: Seq<u8>) -> nat
    decreases bytes.len(),
{
    if bytes.len() == 0 {
        0
    } else {
        byte_sum(bytes.drop_last()) + bytes.last() as nat
    }
}

/// The checksum of `bytes`: their sum, reduced modulo the accumulator's range.
pub open spec fn checksum_of(bytes: Seq<u8>) -> usize {
    (byte_sum(bytes) as int % modulus()) as usize
}

/// One step of the accumulator: `acc` plus `byte`, reduced modulo the
/// accumulator's range.
pub open spec fn absorb_spec(acc: usize, byte: u8) -> usize {
    ((acc + byte) % modulus()) as usize
}

/// Adding a byte to a reduced sum and reducing again gives the reduced sum
/// of the longer sequence.
pub proof fn lemma_absorb_extends(bytes: Seq<u8>, byte: u8)
    ensures
        absorb_spec(checksum_of(bytes), byte) == checksum_of(bytes.push(byte)),
{
    let total: int = byte_sum(bytes) as int;
    let m: int = modulus();
    assert(bytes.push(byte).drop_last() =~= bytes);
    assert(byte_sum(bytes.push(byte)) == total + byte as int);
    assert(((total % m) + byte as int) % m == (total + byte as int) % m) by {
        vstd::arithmetic::div_mod::lemma_add_mod_noop(total, byte as int, m);
        vstd::arithmetic::div_mod::lemma_add_mod_noop(total % m, byte as int, m);
        vstd::arithmetic::div_mod::lemma_mod_twice(total, m);
    }
}

/// The byte sum of a concatenation is the sum of the two byte sums.
pub proof fn lemma_byte_sum_concat(front: Seq<u8>, back: Seq<u8>)
    ensures
        byte_sum(front + back) == byte_sum(front) + byte_sum(back),
    decreases back.len(),
{
    if back.len() == 0 {
        assert(front + back =~= front);
    } else {
        assert((front + back).drop_last() =~= front + back.drop_last());
        lemma_byte_sum_concat(front, back.drop_last());
    }
}

/// The checksum of a concatenation is the sum of the two checksums, reduced
/// modulo the accumulator's range.
pub proof fn lemma_checksum_concat(front: Seq<u8>, back: Seq<u8>)
    ensures
        checksum_of(front + back) == (checksum_of(front) + checksum_of(back)) % modulus(),
{
    let m: int = modulus();
    lemma_byte_sum_concat(front, back);
    vstd::arithmetic::div_mod::lemma_add_mod_noop(byte_sum(front) as int, byte_sum(back) as int, m);
}

/// The checksum of no bytes is zero, and the checksum of one byte is its
/// value.
pub proof fn lemma_checksum_small(byte: u8)
    ensures
        checksum_of(Seq::<u8>::empty()) == 0,
        checksum_of(seq![byte]) == byte,
{
    let m: int = modulus();
    assert(byte_sum(Seq::<u8>::empty()) == 0);
    assert(seq![byte].drop_last() =~= Seq::<u8>::empty());
    assert(seq![byte].last() == byte);
    assert(byte_sum(seq![byte]) == byte as nat);
    vstd::arithmetic::div_mod::lemma_small_mod(0, m as nat);
    vstd::arithmetic::div_mod::lemma_small_mod(byte as nat, m as nat);
}

/// Folds one byte into the accumulator, wrapping at the accumulator's
/// largest value.
pub fn absorb(acc: usize, byte: u8) -> (next: usize)
    ensures
        next == absorb_spec(acc, byte),
        acc + byte <= usize::MAX ==> next == acc + byte,
        acc + byte > usize::MAX ==> next == acc + byte - modulus(),
{
    let next: usize = acc.wrapping_add(byte as usize);
    proof {
        let m: int = modulus();
        let sum: int = acc + byte;
        if sum <= usize::MAX {
            vstd::arithmetic::div_mod::lemma_small_mod(sum as nat, m as nat);
        } else {
            vstd::arithmetic::div_mod::lemma_fundamental_div_mod_converse(sum, m, 1, sum - m);
        }
    }
    next
}

/// The checksum of a byte slice: every byte folded in, from the first to the
/// last, starting from zero.
pub fn checksum(bytes: &[u8]) -> (sum: usize)
    ensures
        sum == checksum_of(bytes@),
{
    let mut acc: usize = 0;
    let mut i: usize = 0;
    proof {
        vstd::arithmetic::div_mod::lemma_small_mod(0, modulus() as nat);
    }
    while i < bytes.len()
        invariant
            i <= bytes.len(),
            acc == checksum_of(bytes@.take(i as int)),
        decreases bytes.len() - i,
    {
        proof {
            lemma_absorb_extends(bytes@.take(i as int), bytes@[i as int]);
            assert(bytes@.take(i as int).push(bytes@[i as int]) =~= bytes@.take(i + 1));
        }
        acc = absorb(acc, bytes[i]);
        i = i + 1;
    }
    assert(bytes@.take(i as int) =~= bytes@);
    acc
}

} // verus!
