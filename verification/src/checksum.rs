//! The internet checksum of RFC 1071.
//!
//! The checksum of a byte sequence is the ones' complement of the ones'
//! complement sum of its 16-bit words, each word read most significant byte
//! first; a sequence of odd length counts as if one zero byte followed it.
//! The arithmetic is done by the `internet-checksum` crate; what is proved
//! here is stated over the mathematical definition below.

use crate::byte_order::{u16_bytes, u16_from_bytes, ByteOrder};
use vstd::arithmetic::div_mod::lemma_mod_multiples_vanish;
use vstd::prelude::*;

verus! {

/// What the byte at index `i` counts for in the sum of words: it is the high
/// byte of its word at an even index, the low byte at an odd one.
pub open spec fn byte_weight(i: int) -> nat {
    if i % 2 == 0 {
        256
    } else {
        1
    }
}

/// The sum, as a natural number, of the 16-bit words of `bytes`.
pub open spec fn word_sum(bytes: Seq<u8>) -> nat
    decreases bytes.len(),
{
    if bytes.len() == 0 {
        0
    } else {
        word_sum(bytes.drop_last()) + bytes.last() as nat * byte_weight(bytes.len() - 1)
    }
}

/// Folds a sum into 16 bits: what is carried out of the low 16 bits is added
/// back in, until nothing is carried.
pub open spec fn fold16(sum: nat) -> nat
    decreases sum,
{
    if sum < 0x1_0000 {
        sum
    } else {
        fold16(sum / 0x1_0000 + sum % 0x1_0000)
    }
}

/// The internet checksum of `bytes`, as the 16-bit integer that is sent most
/// significant byte first.
pub open spec fn checksum_of(bytes: Seq<u8>) -> u16 {
    (0xFFFF - fold16(word_sum(bytes))) as u16
}

/// The most bytes that one checksum computation takes.
pub const MAX_CHECKSUM_INPUT: usize = 0xFFFF_FFFF;

/// The folded sum is zero for zero, and otherwise the one number from 1 to
/// 0xFFFF that is congruent to the sum modulo 0xFFFF.
pub proof fn lemma_fold16_closed_form(sum: nat)
    ensures
        fold16(sum) <= 0xFFFF,
        fold16(sum) == if sum == 0 {
            0
        } else {
            (sum - 1) % 0xFFFF + 1
        },
    decreases sum,
{
    if sum >= 0x1_0000 {
        let carried = sum / 0x1_0000;
        let folded = (carried + sum % 0x1_0000) as nat;
        lemma_fold16_closed_form(folded);
        assert(sum - 1 == 0xFFFF * carried + (folded - 1));
        lemma_mod_multiples_vanish(carried as int, folded - 1, 0xFFFF);
    }
}

/// Replacing the byte at index `i` by `byte` changes the sum of words by the
/// difference of the two bytes, taken with the weight of the index.
pub proof fn lemma_word_sum_update(bytes: Seq<u8>, i: int, byte: u8)
    requires
        0 <= i < bytes.len(),
    ensures
        word_sum(bytes.update(i, byte)) == word_sum(bytes) + (byte as int - bytes[i] as int)
            * byte_weight(i),
    decreases bytes.len(),
{
    let changed = bytes.update(i, byte);
    if i == bytes.len() - 1 {
        assert(changed.drop_last() =~= bytes.drop_last());
    } else {
        lemma_word_sum_update(bytes.drop_last(), i, byte);
        assert(changed.drop_last() =~= bytes.drop_last().update(i, byte));
    }
}

/// Two sums that differ by less than 0xFFFF, and differ, fold to different
/// values.
pub proof fn lemma_fold16_separates(a: nat, b: nat)
    requires
        a < b,
        b - a < 0xFFFF,
    ensures
        fold16(a) != fold16(b),
{
    lemma_fold16_closed_form(a);
    lemma_fold16_closed_form(b);
    if a > 0 {
        let qa = (a - 1) / 0xFFFF;
        let qb = (b - 1) / 0xFFFF;
        assert(a - 1 == 0xFFFF * qa + (a - 1) % 0xFFFF);
        assert(b - 1 == 0xFFFF * qb + (b - 1) % 0xFFFF);
        if (a - 1) % 0xFFFF == (b - 1) % 0xFFFF {
            assert(b - a == 0xFFFF * (qb - qa));
        }
    }
}

/// The checksum notices every change that is confined to one byte: a sequence
/// and the same sequence with one byte replaced by another value never have
/// the same checksum.
pub proof fn lemma_checksum_detects_byte_change(bytes: Seq<u8>, i: int, byte: u8)
    requires
        0 <= i < bytes.len(),
        byte != bytes[i],
    ensures
        checksum_of(bytes.update(i, byte)) != checksum_of(bytes),
{
    let changed = bytes.update(i, byte);
    let delta = (byte as int - bytes[i] as int) * byte_weight(i);
    lemma_word_sum_update(bytes, i, byte);
    assert(delta != 0 && -0xFFFF < delta < 0xFFFF) by {
        if i % 2 == 0 {
            assert(delta == (byte as int - bytes[i] as int) * 256);
        } else {
            assert(delta == byte as int - bytes[i] as int);
        }
    }
    lemma_fold16_closed_form(word_sum(bytes));
    lemma_fold16_closed_form(word_sum(changed));
    if word_sum(bytes) < word_sum(changed) {
        lemma_fold16_separates(word_sum(bytes), word_sum(changed));
    } else {
        lemma_fold16_separates(word_sum(changed), word_sum(bytes));
    }
}

#[verifier::external_type_specification]
#[verifier::external_body]
pub struct ExChecksum(internet_checksum::Checksum);

/// The bytes that have been added to a running checksum, in the order in which
/// they were added.
pub uninterp spec fn added_bytes(running: internet_checksum::Checksum) -> Seq<u8>;

/// `internet_checksum::Checksum::new`: a running checksum to which nothing has
/// been added.
#[verifier::external_body]
fn running_new() -> (running: internet_checksum::Checksum)
    ensures
        added_bytes(running) == Seq::<u8>::empty(),
{
    internet_checksum::Checksum::new()
}

/// `internet_checksum::Checksum::add_bytes`: the bytes are added behind those
/// that were added before.
///
/// The contract is taken for short inputs only. From 64 bytes on the crate
/// sums with a wide accumulator and adds each carry one step late, where the
/// carry can be lost: such inputs exist for which it gives another checksum
/// than RFC 1071 does. Below 64 bytes it adds one 16-bit word at a time to an
/// accumulator that cannot overflow within the stated total. An even number
/// of bytes must have been added before, so that no byte waits for its
/// partner: the crate's documentation and its code differ on what happens to
/// such a byte.
#[verifier::external_body]
fn running_add(running: &mut internet_checksum::Checksum, bytes: &[u8])
    requires
        bytes@.len() < 64,
        added_bytes(*old(running)).len() % 2 == 0,
        added_bytes(*old(running)).len() + bytes@.len() <= MAX_CHECKSUM_INPUT,
    ensures
        added_bytes(*final(running)) == added_bytes(*old(running)) + bytes@,
{
    running.add_bytes(bytes)
}

/// `internet_checksum::Checksum::checksum`: the internet checksum of all that
/// was added, as the two bytes that go on the wire, most significant first.
#[verifier::external_body]
fn running_checksum(running: &internet_checksum::Checksum) -> (sum: [u8; 2])
    requires
        added_bytes(*running).len() <= MAX_CHECKSUM_INPUT,
    ensures
        sum@ == u16_bytes(ByteOrder::Big, checksum_of(added_bytes(*running))),
{
    running.checksum()
}

/// The size of the pieces in which `compute` hands its input on.
const PIECE: usize = 32;

/// Computes the internet checksum of `bytes`.
pub fn compute(bytes: &[u8]) -> (sum: u16)
    requires
        bytes@.len() <= MAX_CHECKSUM_INPUT,
    ensures
        sum == checksum_of(bytes@),
{
    let mut running = running_new();
    let mut done: usize = 0;
    while bytes.len() - done > PIECE
        invariant
            done <= bytes@.len() <= MAX_CHECKSUM_INPUT,
            done % 2 == 0,
            added_bytes(running) == bytes@.take(done as int),
        decreases bytes@.len() - done,
    {
        let piece = &bytes[done..done + PIECE];
        running_add(&mut running, piece);
        assert(bytes@.take(done as int) + piece@ =~= bytes@.take(done + PIECE));
        done = done + PIECE;
    }
    let piece = &bytes[done..bytes.len()];
    running_add(&mut running, piece);
    assert(bytes@.take(done as int) + piece@ =~= bytes@);
    let wire = running_checksum(&running);
    proof {
        crate::byte_order::lemma_u16_round_trip(
            ByteOrder::Big,
            checksum_of(bytes@),
            wire@,
        );
    }
    u16_from_bytes(ByteOrder::Big, wire)
}

} // verus!
