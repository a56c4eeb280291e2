//! Descriptor sets for `select` and `pselect6`, held in one 64-bit word:
//! descriptor `fd` (below 64) is bit `fd`.

use vstd::prelude::*;

verus! {

/// The word with only the bit of descriptor `fd` set.
pub open spec fn fd_bit_of(fd: u64) -> u64 {
    1u64 << fd
}

/// The set holding only `fd`: `1 << fd`.
pub fn fd_bit(fd: u64) -> (r: u64)
    requires
        fd < 64,
    ensures
        r == fd_bit_of(fd),
{
    1u64 << fd
}

/// `FD_ISSET`: descriptor `fd` is in `set`.
pub fn fd_isset(set: u64, fd: u64) -> (r: bool)
    requires
        fd < 64,
    ensures
        r == (set & fd_bit_of(fd) != 0),
{
    (set & fd_bit(fd)) != 0
}

/// The larger of two descriptors.
pub open spec fn max_fd(a: i32, b: i32) -> i32 {
    if a > b {
        a
    } else {
        b
    }
}

/// The `nfds` argument of `select` for two descriptors: one more than the
/// larger of them.
pub fn select_nfds(a: i32, b: i32) -> (r: u64)
    requires
        (max_fd(a, b) as u64) < u64::MAX,
    ensures
        r == (max_fd(a, b) as u64) + 1,
        a >= 0 && b >= 0 ==> r > a && r > b,
{
    let m = if a > b {
        a
    } else {
        b
    };
    m as u64 + 1
}

/// Law: a descriptor is in the set made of its own bit and in no other
/// descriptor's set.
pub proof fn lemma_fd_bit_membership(fd: u64, other: u64)
    requires
        fd < 64,
        other < 64,
    ensures
        fd_bit_of(fd) & fd_bit_of(fd) != 0,
        other != fd ==> fd_bit_of(fd) & fd_bit_of(other) == 0,
{
    assert((1u64 << fd) & (1u64 << fd) != 0) by (bit_vector)
        requires
            fd < 64,
    ;
    assert(other != fd ==> (1u64 << fd) & (1u64 << other) == 0) by (bit_vector)
        requires
            fd < 64,
            other < 64,
    ;
}

/// Law: descriptor 0 is the lowest bit of the set, and each next
/// descriptor the next bit up.
pub proof fn lemma_fd_bit_order(fd: u64)
    requires
        fd < 63,
    ensures
        fd_bit_of(0) == 1,
        fd_bit_of((fd + 1) as u64) == 2 * fd_bit_of(fd),
{
    assert(1u64 << 0u64 == 1) by (bit_vector);
    assert((1u64 << ((fd + 1) as u64)) == 2 * (1u64 << fd)) by (bit_vector)
        requires
            fd < 63,
    ;
}

/// Law: `select` is given one more than the larger descriptor.
pub proof fn lemma_nfds_is_above_both(a: i32, b: i32)
    ensures
        max_fd(a, b) >= a && max_fd(a, b) >= b,
        max_fd(a, b) == a || max_fd(a, b) == b,
{
}

} // verus!
