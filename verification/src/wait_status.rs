//! Decoding of the status word that `wait4` fills in (Linux encoding): the
//! low seven bits hold the terminating signal (0 for a normal exit, 0x7F for a
//! stopped child), bits 8..16 the exit code.

use vstd::prelude::*;

verus! {

/// The low seven bits of a wait status.
pub open spec fn status_low7(status: i32) -> int {
    (status as int) % 128
}

/// Bits 8..16 of a wait status.
pub open spec fn status_code(status: i32) -> int {
    ((status as int) / 256) % 256
}

/// The child ended through `exit`.
pub open spec fn exited(status: i32) -> bool {
    status_low7(status) == 0
}

/// The child was ended by a signal.
pub open spec fn signaled(status: i32) -> bool {
    status_low7(status) != 0 && status_low7(status) != 0x7F
}

/// `WIFEXITED`: the child ended through `exit`.
pub fn wifexited(status: i32) -> (r: bool)
    ensures
        r == exited(status),
{
    let low = status & 0x7F;
    assert(low as int == (status as int) % 128) by (bit_vector)
        requires
            low == status & 0x7F,
    ;
    low == 0
}

/// `WEXITSTATUS`: the exit code, bits 8..16.
pub fn wexitstatus(status: i32) -> (r: i32)
    ensures
        r == status_code(status),
        0 <= r < 256,
{
    let r = (status >> 8) & 0xFF;
    assert(r as int == ((status as int) / 256) % 256 && 0 <= r < 256) by (bit_vector)
        requires
            r == (status >> 8) & 0xFF,
    ;
    r
}

/// `WIFSIGNALED`: the child was ended by a signal (low bits neither 0 nor the
/// stopped marker 0x7F).
pub fn wifsignaled(status: i32) -> (r: bool)
    ensures
        r == signaled(status),
{
    let sig = status & 0x7F;
    assert(sig as int == (status as int) % 128) by (bit_vector)
        requires
            sig == status & 0x7F,
    ;
    sig != 0 && sig != 0x7F
}

/// `WTERMSIG`: the signal that ended the child, the low seven bits.
pub fn wtermsig(status: i32) -> (r: i32)
    ensures
        r == status_low7(status),
        0 <= r < 128,
{
    let r = status & 0x7F;
    assert(r as int == (status as int) % 128 && 0 <= r < 128) by (bit_vector)
        requires
            r == status & 0x7F,
    ;
    r
}

/// Law: a status never says both that the child exited and that a signal
/// ended it.
pub proof fn lemma_exit_excludes_signal(status: i32)
    ensures
        !(exited(status) && signaled(status)),
{
}

/// Law: the status of a child that called `exit(code)` reads back as an
/// exit with that code (the low eight bits of it), and not as a signal death.
pub proof fn lemma_exit_status_round_trip(code: int)
    requires
        0 <= code < 256,
    ensures
        exited((code * 256) as i32),
        !signaled((code * 256) as i32),
        status_code((code * 256) as i32) == code,
{
    let s = (code * 256) as i32;
    assert(s as int == code * 256);
    assert((code * 256) % 128 == 0 && (code * 256) / 256 == code) by (nonlinear_arith)
        requires
            0 <= code < 256,
    ;
}

/// Law: the status of a child killed by signal `sig` (with or without the
/// core-dump flag 0x80) reads back as a signal death by `sig`, not as an exit.
pub proof fn lemma_signal_status_round_trip(sig: int, core_dumped: bool)
    requires
        1 <= sig < 0x7F,
    ensures
        signaled((sig + if core_dumped { 0x80int } else { 0int }) as i32),
        !exited((sig + if core_dumped { 0x80int } else { 0int }) as i32),
        status_low7((sig + if core_dumped { 0x80int } else { 0int }) as i32) == sig,
{
}

/// Law: a stopped child's status (0x7F in the low bits, the stopping signal
/// above them) is neither an exit nor a death by signal.
pub proof fn lemma_stopped_is_neither(sig: int)
    requires
        1 <= sig < 256,
    ensures
        !exited((sig * 256 + 0x7F) as i32),
        !signaled((sig * 256 + 0x7F) as i32),
        status_low7((sig * 256 + 0x7F) as i32) == 0x7F,
{
    assert((sig * 256 + 0x7F) % 128 == 0x7F) by (nonlinear_arith)
        requires
            1 <= sig < 256,
    ;
}

/// Law: the exit code is the second byte of the status and the signal its
/// low seven bits: for any byte `code`, any low bits `low` and any flag
/// `core` (bit 7), the status `code * 256 + core * 128 + low` decodes to
/// `code` and `low`; it is an exit exactly when `low` is 0 and a death by
/// signal exactly when `low` is neither 0 nor 0x7F.
pub proof fn lemma_status_fields(code: int, core: int, low: int)
    requires
        0 <= code < 128,
        0 <= core < 2,
        0 <= low < 128,
    ensures
        status_code((code * 256 + core * 128 + low) as i32) == code,
        status_low7((code * 256 + core * 128 + low) as i32) == low,
        exited((code * 256 + core * 128 + low) as i32) <==> low == 0,
        signaled((code * 256 + core * 128 + low) as i32) <==> (low != 0 && low != 0x7F),
{
    let s = code * 256 + core * 128 + low;
    assert(0 <= s < 0x8000) by (nonlinear_arith)
        requires
            s == code * 256 + core * 128 + low,
            0 <= code < 128,
            0 <= core < 2,
            0 <= low < 128,
    ;
    assert(s / 256 == code && s % 128 == low) by (nonlinear_arith)
        requires
            s == code * 256 + core * 128 + low,
            0 <= code < 128,
            0 <= core < 2,
            0 <= low < 128,
    ;
}

} // verus!
