//! The Internet checksum: the one's complement of the one's-complement sum
//! of the data read as 16-bit big-endian words, an odd last byte padded
//! with a zero byte.
use vstd::prelude::*;

use vstd::arithmetic::div_mod::{lemma_fundamental_div_mod, lemma_mod_multiples_vanish};

verus! {

/// The plain sum of `bytes` read as 16-bit big-endian words; an odd last
/// byte is the high byte of a word whose low byte is zero.
pub open spec fn word_sum(bytes: Seq<u8>) -> nat
    decreases bytes.len(),
{
    if bytes.len() == 0 {
        0
    } else if bytes.len() == 1 {
        bytes[0] as nat * 256
    } else {
        bytes[0] as nat * 256 + bytes[1] as nat + word_sum(bytes.subrange(2, bytes.len() as int))
    }
}

/// A sum folded to 16 bits with end-around carry: zero stays zero, any
/// other sum becomes the value in 1..=0xffff that it equals modulo 0xffff.
pub open spec fn fold_carries(s: nat) -> nat {
    if s == 0 {
        0
    } else {
        ((s - 1) as nat % 0xffff + 1) as nat
    }
}

/// The Internet checksum of `bytes`.
pub open spec fn internet_checksum(bytes: Seq<u8>) -> u16 {
    (0xffff - fold_carries(word_sum(bytes))) as u16
}

/// Each two bytes add at most 0xffff to the sum.
pub proof fn lemma_word_sum_bound(bytes: Seq<u8>)
    ensures
        word_sum(bytes) <= 0xffff * bytes.len(),
    decreases bytes.len(),
{
    if bytes.len() >= 2 {
        lemma_word_sum_bound(bytes.subrange(2, bytes.len() as int));
    }
}

/// The sum over two pieces, the first of even length, is the sum of the
/// sums over each.
pub proof fn lemma_word_sum_concat(a: Seq<u8>, b: Seq<u8>)
    requires
        a.len() % 2 == 0,
    ensures
        word_sum(a + b) == word_sum(a) + word_sum(b),
    decreases a.len(),
{
    if a.len() == 0 {
        assert(a + b =~= b);
    } else {
        let ab = a + b;
        let a2 = a.subrange(2, a.len() as int);
        assert(ab.subrange(2, ab.len() as int) =~= a2 + b);
        lemma_word_sum_concat(a2, b);
    }
}

/// Replacing the byte at `i` by `v` changes the sum by the difference of
/// the two bytes, times 256 where `i` is even.
pub proof fn lemma_word_sum_update(bytes: Seq<u8>, i: int, v: u8)
    requires
        0 <= i < bytes.len(),
    ensures
        word_sum(bytes.update(i, v)) + bytes[i] as int * (if i % 2 == 0 { 256int } else { 1int })
            == word_sum(bytes) + v as int * (if i % 2 == 0 { 256int } else { 1int }),
    decreases bytes.len(),
{
    let u = bytes.update(i, v);
    if i >= 2 {
        let rest = bytes.subrange(2, bytes.len() as int);
        assert(u.subrange(2, u.len() as int) =~= rest.update(i - 2, v));
        lemma_word_sum_update(rest, i - 2, v);
    } else if bytes.len() >= 2 {
        assert(u.subrange(2, u.len() as int) =~= bytes.subrange(2, bytes.len() as int));
    }
}

/// A folded sum is congruent to the sum modulo 0xffff.
proof fn lemma_fold_congruent(s: nat)
    ensures
        fold_carries(s) % 0xffff == s % 0xffff,
        fold_carries(s) <= 0xffff,
        s <= 0xffff ==> fold_carries(s) == s,
{
    if s > 0 {
        let t = (s - 1) as int;
        lemma_fundamental_div_mod(t, 0xffff);
        lemma_mod_multiples_vanish(t / 0xffff, t % 0xffff + 1, 0xffff);
        assert(0xffff * (t / 0xffff) + (t % 0xffff + 1) == s);
    }
}

/// One step of end-around carry keeps the folded value and makes the sum
/// smaller.
proof fn lemma_fold_step(s: nat)
    requires
        s > 0xffff,
    ensures
        s % 0x10000 + s / 0x10000 < s,
        fold_carries((s % 0x10000 + s / 0x10000) as nat) == fold_carries(s),
{
    let a = s / 0x10000;
    let b = s % 0x10000;
    let n = a + b;
    lemma_fundamental_div_mod(s as int, 0x10000);
    assert(s == 0x10000 * a + b);
    assert(a >= 1);
    assert(n > 0);
    assert(s - 1 == 0xffff * a + (n - 1));
    lemma_mod_multiples_vanish(a as int, n - 1, 0xffff);
}

/// Two sums whose difference is not a multiple of 0xffff fold to
/// different values.
proof fn lemma_fold_distinct(x: nat, y: nat)
    requires
        x != y,
        x < y + 0xffff,
        y < x + 0xffff,
    ensures
        fold_carries(x) != fold_carries(y),
{
    lemma_fold_congruent(x);
    lemma_fold_congruent(y);
    lemma_fundamental_div_mod(x as int, 0xffff);
    lemma_fundamental_div_mod(y as int, 0xffff);
    if fold_carries(x) == fold_carries(y) {
        let qx = x as int / 0xffff;
        let qy = y as int / 0xffff;
        assert(x - y == 0xffff * (qx - qy));
        assert(qx - qy == 0) by (nonlinear_arith)
            requires
                x - y == 0xffff * (qx - qy),
                -0xffff < x - y < 0xffff,
        ;
    }
}

/// A change of any single byte changes the checksum.
pub proof fn lemma_checksum_detects_byte_change(bytes: Seq<u8>, i: int, v: u8)
    requires
        0 <= i < bytes.len(),
        bytes[i] != v,
    ensures
        internet_checksum(bytes.update(i, v)) != internet_checksum(bytes),
{
    lemma_word_sum_update(bytes, i, v);
    lemma_fold_congruent(word_sum(bytes));
    lemma_fold_congruent(word_sum(bytes.update(i, v)));
    lemma_fold_distinct(word_sum(bytes.update(i, v)), word_sum(bytes));
}

/// Adds the words of `bytes` to `sum`.
pub fn add_words(sum: u64, bytes: &[u8]) -> (r: u64)
    requires
        sum + word_sum(bytes@) <= u64::MAX,
    ensures
        r == sum + word_sum(bytes@),
{
    let len = bytes.len();
    let mut acc: u64 = sum;
    let mut i: usize = 0;
    assert(bytes@.subrange(0, len as int) =~= bytes@);
    while len - i >= 2
        invariant
            len == bytes@.len(),
            i <= len,
            acc + word_sum(bytes@.subrange(i as int, len as int)) == sum + word_sum(bytes@),
            sum + word_sum(bytes@) <= u64::MAX,
        decreases len - i,
    {
        proof {
            let rest = bytes@.subrange(i as int, len as int);
            assert(rest.subrange(2, rest.len() as int) =~= bytes@.subrange(i + 2, len as int));
        }
        acc = acc + (bytes[i] as u64) * 256 + (bytes[i + 1] as u64);
        i = i + 2;
    }
    if i < len {
        acc = acc + (bytes[i] as u64) * 256;
    } else {
        assert(bytes@.subrange(i as int, len as int).len() == 0);
    }
    acc
}

/// Folds a sum to 16 bits and returns its one's complement.
pub fn ones_complement(sum: u64) -> (r: u16)
    ensures
        r == 0xffff - fold_carries(sum as nat),
{
    let mut s: u64 = sum;
    while s > 0xffff
        invariant
            fold_carries(s as nat) == fold_carries(sum as nat),
        decreases s,
    {
        proof {
            lemma_fold_step(s as nat);
        }
        s = s % 0x10000 + s / 0x10000;
    }
    proof {
        lemma_fold_congruent(s as nat);
    }
    0xffff - (s as u16)
}

} // verus!
