//! The Internet checksum: the complement of the one's-complement sum of
//! 16-bit words.
use vstd::prelude::*;

use crate::wire::{be16, be16_bytes, written_at};

verus! {

/// The sum of the 16-bit words of a byte string; an odd last byte counts as
/// the high byte of a word.
pub open spec fn word_sum(s: Seq<u8>) -> nat
    decreases s.len(),
{
    if s.len() == 0 {
        0
    } else if s.len() % 2 == 1 {
        word_sum(s.drop_last()) + be16(s.last(), 0)
    } else {
        word_sum(s.subrange(0, s.len() - 2)) + be16(s[s.len() - 2], s[s.len() - 1])
    }
}

/// The 16-bit one's-complement value of a sum: what is left once every carry
/// has been added back in. Only a sum of zero folds to zero.
pub open spec fn fold(sum: nat) -> nat {
    if sum == 0 {
        0
    } else {
        ((sum - 1) % 65535 + 1) as nat
    }
}

/// The Internet checksum of a byte string.
pub open spec fn internet_checksum(s: Seq<u8>) -> u16 {
    (65535 - fold(word_sum(s))) as u16
}

/// The word sum of a string of even length followed by another is the sum of
/// the two word sums.
pub proof fn lemma_word_sum_concat(a: Seq<u8>, b: Seq<u8>)
    requires
        a.len() % 2 == 0,
    ensures
        word_sum(a + b) == word_sum(a) + word_sum(b),
    decreases b.len(),
{
    let s = a + b;
    if b.len() == 0 {
        assert(s =~= a);
    } else if b.len() % 2 == 1 {
        assert(s.drop_last() =~= a + b.drop_last());
        lemma_word_sum_concat(a, b.drop_last());
    } else {
        assert(s.subrange(0, s.len() - 2) =~= a + b.subrange(0, b.len() - 2));
        lemma_word_sum_concat(a, b.subrange(0, b.len() - 2));
    }
}

/// Adding the carries of a sum back in changes neither its value modulo 65535
/// nor whether it is zero.
proof fn lemma_fold_step(sum: nat)
    requires
        sum > 65535,
    ensures
        0 < sum % 65536 + sum / 65536 < sum,
        fold(sum % 65536 + sum / 65536) == fold(sum),
{
    let q: nat = sum / 65536;
    let next: nat = sum % 65536 + q;
    assert(sum - 1 == (next - 1) + q * 65535);
    vstd::arithmetic::div_mod::lemma_mod_multiples_vanish(q as int, next - 1, 65535);
}

/// A string whose folded word sum is 65535 verifies: this is the test a
/// receiver makes on a header that carries its own checksum.
pub open spec fn verifies(s: Seq<u8>) -> bool {
    fold(word_sum(s)) == 65535
}

/// Filling a zero word adds its value to the word sum.
pub proof fn lemma_fill_word(zeroed: Seq<u8>, at: int, x: u16)
    requires
        at % 2 == 0,
        0 <= at,
        at + 2 <= zeroed.len(),
        zeroed[at] == 0,
        zeroed[at + 1] == 0,
    ensures
        word_sum(written_at(zeroed, at, be16_bytes(x))) == word_sum(zeroed) + x,
{
    let filled = written_at(zeroed, at, be16_bytes(x));
    let a = zeroed.subrange(0, at);
    let b = zeroed.subrange(at + 2, zeroed.len() as int);
    let mid0 = seq![0u8, 0u8];
    let mid1 = be16_bytes(x);
    assert(zeroed =~= (a + mid0) + b);
    assert(filled =~= (a + mid1) + b);
    lemma_word_sum_concat(a, mid0);
    lemma_word_sum_concat(a + mid0, b);
    lemma_word_sum_concat(a, mid1);
    lemma_word_sum_concat(a + mid1, b);
    assert(word_sum(mid0) == 0) by {
        assert(word_sum(mid0.subrange(0, 0)) == 0);
    }
    assert(word_sum(mid1) == x) by {
        assert(word_sum(mid1.subrange(0, 0)) == 0);
        assert(be16((x / 256) as u8, (x % 256) as u8) == x);
    }
}

/// A sum and the complement of its folded value fold to 65535.
pub proof fn lemma_fold_complement(w: nat)
    ensures
        fold(w + (65535 - fold(w)) as nat) == 65535,
        0 <= fold(w) <= 65535,
{
    if w > 0 {
        let k: int = (w - 1) / 65535;
        assert(w - 1 == 65535 * k + (w - 1) % 65535);
        vstd::arithmetic::div_mod::lemma_fundamental_div_mod_converse(
            w + (65535 - fold(w)) - 1,
            65535,
            k,
            65534,
        );
    }
}

/// A header that carries, in the place of a zero word, the checksum of itself
/// with that word zero, verifies.
pub proof fn checksum_makes_header_verify(zeroed: Seq<u8>, at: int, filled: Seq<u8>)
    requires
        at % 2 == 0,
        0 <= at,
        at + 2 <= zeroed.len(),
        zeroed[at] == 0,
        zeroed[at + 1] == 0,
        filled == written_at(zeroed, at, be16_bytes(internet_checksum(zeroed))),
    ensures
        verifies(filled),
{
    lemma_fill_word(zeroed, at, internet_checksum(zeroed));
    lemma_fold_complement(word_sum(zeroed));
}

/// The Internet checksum of `data`.
///
/// The running sum is 32 bits wide, which is enough for any header and any
/// packet; longer strings are left out.
pub fn ipv4_checksum(data: &[u8]) -> (r: u16)
    requires
        data@.len() <= 131_072,
    ensures
        r == internet_checksum(data@),
{
    let mut sum: u32 = 0;
    let mut i: usize = 0;
    while i + 1 < data.len()
        invariant
            i % 2 == 0,
            i <= data@.len() <= 131_072,
            sum == word_sum(data@.subrange(0, i as int)),
            sum <= (i / 2) * 65535,
        decreases data@.len() - i,
    {
        let word: u32 = (data[i] as u32) * 256 + data[i + 1] as u32;
        let ghost s: Seq<u8> = data@.subrange(0, i + 2);
        assert(s.subrange(0, s.len() - 2) =~= data@.subrange(0, i as int));
        sum = sum + word;
        i = i + 2;
    }
    if i < data.len() {
        let ghost s: Seq<u8> = data@.subrange(0, i + 1);
        assert(s.drop_last() =~= data@.subrange(0, i as int));
        sum = sum + (data[i] as u32) * 256;
        assert(s =~= data@);
    } else {
        assert(data@.subrange(0, i as int) =~= data@);
    }
    while sum > 0xffff
        invariant
            fold(sum as nat) == fold(word_sum(data@)),
        decreases sum,
    {
        proof {
            lemma_fold_step(sum as nat);
        }
        sum = sum % 65536 + sum / 65536;
    }
    proof {
        assert(fold(sum as nat) == sum);
    }
    65535 - sum as u16
}

/// Words are summed from the front in network order; an odd byte at the end is
/// the high half of a word.
pub proof fn words_are_summed_in_turn(a: u8, b: u8, rest: Seq<u8>)
    ensures
        word_sum(Seq::empty()) == 0,
        word_sum(seq![a]) == 256 * a,
        word_sum(seq![a, b] + rest) == 256 * a + b + word_sum(rest),
{
    reveal_with_fuel(word_sum, 3);
    assert(seq![a].drop_last() =~= Seq::<u8>::empty());
    assert(seq![a, b].subrange(0, 0) =~= Seq::<u8>::empty());
    lemma_word_sum_concat(seq![a, b], rest);
}

/// A checksum brings the sum of the words to a multiple of 65535, and is 65535
/// only for zeros.
pub proof fn checksums_balance_the_sum(s: Seq<u8>)
    ensures
        (word_sum(s) + internet_checksum(s)) % 65535 == 0,
        internet_checksum(s) == 65535 <==> word_sum(s) == 0,
        verifies(s) <==> word_sum(s) > 0 && word_sum(s) % 65535 == 0,
{
    let w = word_sum(s) as int;
    if w > 0 {
        let k: int = (w - 1) / 65535;
        assert(w - 1 == 65535 * k + (w - 1) % 65535);
        assert(w + (65535 - fold(w as nat)) == 65535 * (k + 1));
        assert((65535 * (k + 1)) % 65535 == 0);
    }
}

} // verus!
