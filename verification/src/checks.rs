//! Judgements that the tests make on what the system calls hand back.

use vstd::prelude::*;

verus! {

/// Highest user-space address on x86-64 (exclusive), as the suite bounds it.
pub const USER_ADDR_LIMIT: i64 = 0x7FFF_FFFF_FFFF;

/// Size of a memory page.
pub const PAGE_SIZE: u64 = 4096;

/// An `mmap` return value is a usable mapping address: positive and below the
/// user-space limit (error returns are negative errno values).
pub fn is_valid_addr(ret: i64) -> (r: bool)
    ensures
        r == (0 < ret < USER_ADDR_LIMIT),
{
    ret > 0 && ret < USER_ADDR_LIMIT
}

/// The address is a multiple of the page size (its low twelve bits are 0).
pub fn is_page_aligned(addr: u64) -> (r: bool)
    ensures
        r == (addr % PAGE_SIZE == 0),
{
    let low = addr & 0xFFF;
    assert(low == addr % 4096) by (bit_vector)
        requires
            low == addr & 0xFFF,
    ;
    low == 0
}

/// `got` is one of the `allowed` values (typically the return values that
/// POSIX and Linux each permit).
pub fn one_of(got: i64, allowed: &[i64]) -> (r: bool)
    ensures
        r == exists|i: int| 0 <= i < allowed@.len() && allowed@[i] == got,
{
    let mut i: usize = 0;
    while i < allowed.len()
        invariant
            i <= allowed@.len(),
            forall|j: int| 0 <= j < i ==> allowed@[j] != got,
        decreases allowed@.len() - i,
    {
        if allowed[i] == got {
            return true;
        }
        i = i + 1;
    }
    false
}

/// A read returned exactly `expected.len()` bytes and the buffer starts with
/// `expected`.
pub fn read_matches(count: i64, buf: &[u8], expected: &[u8]) -> (r: bool)
    ensures
        r == (count == expected@.len() && expected@.len() <= buf@.len() && buf@.subrange(
            0,
            expected@.len() as int,
        ) == expected@),
{
    let n = expected.len();
    if buf.len() < n || count < 0 || count as u64 != n as u64 {
        return false;
    }
    let mut i: usize = 0;
    while i < n
        invariant
            n == expected@.len(),
            n <= buf@.len(),
            i <= n,
            forall|j: int| 0 <= j < i ==> buf@[j] == expected@[j],
        decreases n - i,
    {
        if buf[i] != expected[i] {
            assert(buf@.subrange(0, n as int)[i as int] != expected@[i as int]);
            return false;
        }
        i = i + 1;
    }
    assert(buf@.subrange(0, n as int) =~= expected@);
    true
}

/// Some word of the mask is not zero (some CPU is in an affinity mask).
pub fn any_nonzero(words: &[u64]) -> (r: bool)
    ensures
        r == exists|i: int| 0 <= i < words@.len() && words@[i] != 0,
{
    let mut i: usize = 0;
    while i < words.len()
        invariant
            i <= words@.len(),
            forall|j: int| 0 <= j < i ==> words@[j] == 0,
        decreases words@.len() - i,
    {
        if words[i] != 0 {
            return true;
        }
        i = i + 1;
    }
    false
}

/// `getcwd` reported the root directory: a path of length `len` that starts
/// with `/` and ends there (`len` counts the NUL, or the second byte is NUL).
pub fn is_root_cwd(cwd: &[u8], len: i64) -> (r: bool)
    requires
        cwd@.len() >= 2,
    ensures
        r == (len > 0 && cwd@[0] == 47 && (len == 2 || cwd@[1] == 0)),
{
    len > 0 && cwd[0] == 47 && (len == 2 || cwd[1] == 0)
}

/// Bit set in a forked child's exit code when its pid differs from the parent's.
pub const PID_DIFFERS: u64 = 1;

/// Bit set in a forked child's exit code when its parent pid is the parent's pid.
pub const PPID_MATCHES: u64 = 2;

/// The exit code a forked child reports about its identity: `PID_DIFFERS`
/// when its pid is not the parent's, `PPID_MATCHES` when its parent pid is.
pub fn pid_check_code(child_pid: i64, child_ppid: i64, parent_pid: i64) -> (code: u64)
    ensures
        code == (if child_pid != parent_pid { 1u64 } else { 0u64 }) + (if child_ppid
            == parent_pid {
            2u64
        } else {
            0u64
        }),
        code < 4,
{
    let mut code: u64 = 0;
    if child_pid != parent_pid {
        code = code | PID_DIFFERS;
    }
    if child_ppid == parent_pid {
        code = code | PPID_MATCHES;
    }
    assert(0u64 | 1u64 == 1u64 && 0u64 | 2u64 == 2u64 && 1u64 | 2u64 == 3u64) by (bit_vector);
    code
}

/// Law: the parent reads both facts back from the child's exit code with
/// `code & PID_DIFFERS` and `code & PPID_MATCHES`.
pub proof fn lemma_pid_check_code_decodes(child_pid: i64, child_ppid: i64, parent_pid: i64, code: u64)
    requires
        code == (if child_pid != parent_pid { 1u64 } else { 0u64 }) + (if child_ppid
            == parent_pid {
            2u64
        } else {
            0u64
        }),
    ensures
        (code & 1 != 0) == (child_pid != parent_pid),
        (code & 2 != 0) == (child_ppid == parent_pid),
{
    assert(0u64 & 1 == 0 && 0u64 & 2 == 0 && 1u64 & 1 != 0 && 1u64 & 2 == 0 && 2u64 & 1 == 0
        && 2u64 & 2 != 0 && 3u64 & 1 != 0 && 3u64 & 2 != 0) by (bit_vector);
}

/// How a soft/hard resource limit pair looks.
#[derive(PartialEq, Eq, Structural, Clone, Copy, Debug)]
pub enum LimitVerdict {
    /// A positive soft limit not above the hard limit.
    SoftWithinHard,
    /// The hard limit is `RLIM_INFINITY`.
    Unlimited,
    /// Neither.
    Inconsistent,
}

/// Judges a limit as the suite does: a positive soft limit within the hard
/// limit is consistent, an infinite hard limit is accepted too.
pub fn limit_verdict(cur: u64, max: u64) -> (v: LimitVerdict)
    ensures
        v == (if cur > 0 && cur <= max {
            LimitVerdict::SoftWithinHard
        } else if max == u64::MAX {
            LimitVerdict::Unlimited
        } else {
            LimitVerdict::Inconsistent
        }),
{
    if cur > 0 && cur <= max {
        LimitVerdict::SoftWithinHard
    } else if max == u64::MAX {
        LimitVerdict::Unlimited
    } else {
        LimitVerdict::Inconsistent
    }
}

/// How the priority range of a real-time scheduling policy looks.
#[derive(PartialEq, Eq, Structural, Clone, Copy, Debug)]
pub enum PriorityVerdict {
    /// `max > min >= 1`, as POSIX asks of `SCHED_FIFO` and `SCHED_RR`.
    Ordered,
    /// Both bounds are valid (not errors) but not strictly ordered from 1.
    Valid,
    /// One of the calls failed.
    Invalid,
}

/// Judges the results of `sched_get_priority_max` and `sched_get_priority_min`.
pub fn priority_verdict(max: i64, min: i64) -> (v: PriorityVerdict)
    ensures
        v == (if max > min && min >= 1 {
            PriorityVerdict::Ordered
        } else if max >= 0 && min >= 0 {
            PriorityVerdict::Valid
        } else {
            PriorityVerdict::Invalid
        }),
{
    if max > min && min >= 1 {
        PriorityVerdict::Ordered
    } else if max >= 0 && min >= 0 {
        PriorityVerdict::Valid
    } else {
        PriorityVerdict::Invalid
    }
}

/// How a clock resolution looks.
#[derive(PartialEq, Eq, Structural, Clone, Copy, Debug)]
pub enum ResolutionVerdict {
    /// Below a second: zero seconds and `(0, 10^9]` nanoseconds.
    Fine,
    /// At most a second (coarse clocks).
    Coarse,
    /// Longer than that.
    TooCoarse,
}

/// Judges the value `clock_getres` returned.
pub fn resolution_verdict(tv_sec: i64, tv_nsec: i64) -> (v: ResolutionVerdict)
    ensures
        v == (if tv_sec == 0 && tv_nsec > 0 && tv_nsec <= 1_000_000_000 {
            ResolutionVerdict::Fine
        } else if tv_sec <= 1 {
            ResolutionVerdict::Coarse
        } else {
            ResolutionVerdict::TooCoarse
        }),
{
    if tv_sec == 0 && tv_nsec > 0 && tv_nsec <= 1_000_000_000 {
        ResolutionVerdict::Fine
    } else if tv_sec <= 1 {
        ResolutionVerdict::Coarse
    } else {
        ResolutionVerdict::TooCoarse
    }
}


/// Where a return value falls among the outcomes a check accepts.
#[derive(PartialEq, Eq, Structural, Clone, Copy, Debug)]
pub enum Outcome {
    /// One of the values POSIX asks for.
    Preferred,
    /// One of the other values the suite accepts (a permissive or a strict
    /// implementation, an unsupported feature).
    Tolerated,
    /// Anything else: the check fails.
    Unexpected,
}

/// Sorts `got` into the preferred values, the tolerated ones, or neither;
/// a value in both lists counts as preferred.
pub fn classify(got: i64, preferred: &[i64], tolerated: &[i64]) -> (o: Outcome)
    ensures
        o == (if exists|i: int| 0 <= i < preferred@.len() && preferred@[i] == got {
            Outcome::Preferred
        } else if exists|i: int| 0 <= i < tolerated@.len() && tolerated@[i] == got {
            Outcome::Tolerated
        } else {
            Outcome::Unexpected
        }),
{
    if one_of(got, preferred) {
        Outcome::Preferred
    } else if one_of(got, tolerated) {
        Outcome::Tolerated
    } else {
        Outcome::Unexpected
    }
}

/// Size of the stack mapped for each spawned thread.
pub const THREAD_STACK_SIZE: u64 = 64 * 1024;

/// The top of a thread stack mapped at the address `mmap` returned: `None`
/// when `mmap` failed (a negative errno).
pub fn stack_top(mmap_ret: i64) -> (r: Option<u64>)
    requires
        mmap_ret < 0 || mmap_ret + THREAD_STACK_SIZE <= u64::MAX,
    ensures
        mmap_ret < 0 ==> r == None::<u64>,
        mmap_ret >= 0 ==> r == Some((mmap_ret + THREAD_STACK_SIZE) as u64),
{
    if mmap_ret < 0 {
        None
    } else {
        Some(mmap_ret as u64 + THREAD_STACK_SIZE)
    }
}

/// The base address to unmap for a stack whose top is `top`.
pub fn stack_base(top: u64) -> (r: u64)
    requires
        top >= THREAD_STACK_SIZE,
    ensures
        r == top - THREAD_STACK_SIZE,
{
    top - THREAD_STACK_SIZE
}

/// Law: the base computed from a stack's top is the address that was mapped,
/// so the whole mapping is released.
pub proof fn lemma_stack_base_undoes_top(mmap_ret: i64)
    requires
        0 <= mmap_ret,
        mmap_ret + THREAD_STACK_SIZE <= u64::MAX,
    ensures
        (mmap_ret + THREAD_STACK_SIZE) as u64 >= THREAD_STACK_SIZE,
        ((mmap_ret + THREAD_STACK_SIZE) as u64 - THREAD_STACK_SIZE) as int == mmap_ret as int,
{
}

/// Law: the limits the checks use: user addresses lie below 2^47 - 1, pages
/// are 4096 bytes, thread stacks 64 KiB; and a stack top is its mapping's
/// address plus 64 KiB.
pub proof fn lemma_check_constants(mmap_ret: i64)
    requires
        0 <= mmap_ret,
        mmap_ret + THREAD_STACK_SIZE <= u64::MAX,
    ensures
        USER_ADDR_LIMIT == 0x7FFF_FFFF_FFFF,
        PAGE_SIZE == 4096,
        THREAD_STACK_SIZE == 65536,
        (mmap_ret + THREAD_STACK_SIZE) as u64 == mmap_ret + 65536,
{
}

} // verus!
