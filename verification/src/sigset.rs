//! Signal sets as the first 64-bit word of a kernel `sigset_t`: signal `n`
//! (1..=64) is bit `n - 1`.

use vstd::prelude::*;

verus! {

/// `SIGKILL`, which cannot be blocked or caught.
pub const SIGKILL: u64 = 9;

/// `SIGSTOP`, which cannot be blocked or caught.
pub const SIGSTOP: u64 = 19;

/// The word with only the bit of signal `sig` set.
pub open spec fn bit_of(sig: u64) -> u64 {
    1u64 << ((sig - 1) as u64)
}

/// A signal number that has a bit in the first word.
pub open spec fn valid_signal(sig: u64) -> bool {
    1 <= sig <= 64
}

/// The bit of signal `sig`: `1 << (sig - 1)`.
pub fn sig_bit(sig: u64) -> (r: u64)
    requires
        valid_signal(sig),
    ensures
        r == bit_of(sig),
{
    1u64 << (sig - 1)
}

/// Signal `sig` is in `mask`.
pub fn sigset_contains(mask: u64, sig: u64) -> (r: bool)
    requires
        valid_signal(sig),
    ensures
        r == (mask & bit_of(sig) != 0),
{
    (mask & sig_bit(sig)) != 0
}

/// Every signal of `wanted` is in `mask`.
pub fn sigset_contains_all(mask: u64, wanted: u64) -> (r: bool)
    ensures
        r == (mask & wanted == wanted),
{
    (mask & wanted) == wanted
}

/// The mask of all signals of the first word except the two that cannot be
/// blocked, `SIGKILL` and `SIGSTOP`.
pub fn blockable_mask() -> (r: u64)
    ensures
        r == !(bit_of(SIGKILL) | bit_of(SIGSTOP)),
{
    !(sig_bit(SIGKILL) | sig_bit(SIGSTOP))
}

/// Law: different signals have different, non-overlapping bits, and the bit
/// of a signal is never 0.
pub proof fn lemma_bits_disjoint(a: u64, b: u64)
    requires
        valid_signal(a),
        valid_signal(b),
        a != b,
    ensures
        bit_of(a) & bit_of(b) == 0,
        bit_of(a) != 0,
{
    let x = (a - 1) as u64;
    let y = (b - 1) as u64;
    assert((1u64 << x) & (1u64 << y) == 0 && (1u64 << x) != 0) by (bit_vector)
        requires
            x < 64,
            y < 64,
            x != y,
    ;
}

/// Law: a signal added to a set is in it, and adding it keeps every signal
/// that was in the set.
pub proof fn lemma_add_signal(mask: u64, sig: u64, other: u64)
    requires
        valid_signal(sig),
        valid_signal(other),
    ensures
        (mask | bit_of(sig)) & bit_of(sig) != 0,
        mask & bit_of(other) != 0 ==> (mask | bit_of(sig)) & bit_of(other) != 0,
{
    let x = (sig - 1) as u64;
    let y = (other - 1) as u64;
    assert((mask | (1u64 << x)) & (1u64 << x) != 0) by (bit_vector)
        requires
            x < 64,
    ;
    assert(mask & (1u64 << y) != 0 ==> (mask | (1u64 << x)) & (1u64 << y) != 0) by (bit_vector)
        requires
            y < 64,
    ;
}

/// Law: removing a signal from a set leaves it out and keeps the others.
pub proof fn lemma_remove_signal(mask: u64, sig: u64, other: u64)
    requires
        valid_signal(sig),
        valid_signal(other),
        sig != other,
    ensures
        (mask & !bit_of(sig)) & bit_of(sig) == 0,
        (mask & !bit_of(sig)) & bit_of(other) == mask & bit_of(other),
{
    let x = (sig - 1) as u64;
    let y = (other - 1) as u64;
    assert((mask & !(1u64 << x)) & (1u64 << x) == 0) by (bit_vector)
        requires
            x < 64,
    ;
    assert((mask & !(1u64 << x)) & (1u64 << y) == mask & (1u64 << y)) by (bit_vector)
        requires
            x < 64,
            y < 64,
            x != y,
    ;
}

/// Law: the blockable mask holds every signal of the word except `SIGKILL`
/// and `SIGSTOP`.
pub proof fn lemma_blockable(sig: u64)
    requires
        valid_signal(sig),
    ensures
        (!(bit_of(SIGKILL) | bit_of(SIGSTOP)) & bit_of(sig) != 0) <==> (sig != SIGKILL && sig
            != SIGSTOP),
{
    let x = (sig - 1) as u64;
    assert((!((1u64 << 8u64) | (1u64 << 18u64)) & (1u64 << x) != 0) <==> (x != 8 && x != 18))
        by (bit_vector)
        requires
            x < 64,
    ;
}

/// Law: signal 1 is the lowest bit of the word, and each next signal the
/// next bit up.
pub proof fn lemma_signal_bit_order(sig: u64)
    requires
        1 <= sig < 64,
    ensures
        bit_of(1) == 1,
        bit_of((sig + 1) as u64) == 2 * bit_of(sig),
{
    let x = (sig - 1) as u64;
    assert(1u64 << 0u64 == 1) by (bit_vector);
    assert((1u64 << ((x + 1) as u64)) == 2 * (1u64 << x)) by (bit_vector)
        requires
            x < 63,
    ;
}

} // verus!
