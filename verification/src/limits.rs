//! The decisions of the `prlimit64` test: which limit it queries next, how it
//! judges each answer, where it stops, and the `RLIMIT_CORE` values it sets
//! and then restores.

use vstd::prelude::*;
use crate::report::{Verdict, errno_verdict};
use crate::checks::{LimitVerdict, limit_verdict};

verus! {

/// `EINVAL`, as a negated return value.
pub const EINVAL: i64 = -22;

/// `ESRCH`, as a negated return value.
pub const ESRCH: i64 = -3;

/// `RLIMIT_NOFILE`.
pub const RLIMIT_NOFILE: u64 = 7;

/// `RLIMIT_STACK`.
pub const RLIMIT_STACK: u64 = 3;

/// `RLIMIT_AS`.
pub const RLIMIT_AS: u64 = 9;

/// `RLIMIT_CORE`.
pub const RLIMIT_CORE: u64 = 4;

/// How many further limits the test reads in a row.
pub const OTHER_LIMITS: u8 = 7;

/// The further limits, in the order they are read: `RLIMIT_CPU`,
/// `RLIMIT_FSIZE`, `RLIMIT_DATA`, `RLIMIT_CORE`, `RLIMIT_RSS`,
/// `RLIMIT_NPROC`, `RLIMIT_MEMLOCK`.
pub open spec fn other_limit(k: u8) -> u64 {
    if k == 0 {
        0
    } else if k == 1 {
        1
    } else if k == 2 {
        2
    } else if k == 3 {
        4
    } else if k == 4 {
        5
    } else if k == 5 {
        6
    } else {
        8
    }
}

/// The calls of the `prlimit64` test, in order.
#[derive(Clone, Copy, PartialEq, Eq, Structural, Debug)]
pub enum PrlimitCall {
    /// Read `RLIMIT_NOFILE` of the calling process.
    GetNofile,
    /// Read `RLIMIT_STACK`.
    GetStack,
    /// Read `RLIMIT_AS`.
    GetAs,
    /// Read the `k`-th further limit (`other_limit(k)`).
    GetOther(u8),
    /// Read resource 999, which does not exist.
    InvalidResource,
    /// Read `RLIMIT_NOFILE` of pid 0x7FFFFFFF, which does not exist.
    InvalidPid,
    /// Read `RLIMIT_CORE`, to be restored later.
    SaveCore,
    /// Set `RLIMIT_CORE` to soft 0 with the saved hard limit.
    SetCore,
    /// Set `RLIMIT_CORE` back to the saved value.
    RestoreCore,
    /// The test is over.
    Done,
}

/// The state of the `prlimit64` test: the next call and the `RLIMIT_CORE`
/// value saved before it is changed.
#[derive(Clone, Copy, PartialEq, Eq, Structural, Debug)]
pub struct PrlimitFlow {
    pub call: PrlimitCall,
    pub saved_cur: u64,
    pub saved_max: u64,
}

/// The state before the first call.
pub open spec fn prlimit_start() -> PrlimitFlow {
    PrlimitFlow { call: PrlimitCall::GetNofile, saved_cur: 0, saved_max: 0 }
}

/// The judgement of `RLIMIT_NOFILE` read successfully as `(cur, max)`.
pub open spec fn nofile_verdict(cur: u64, max: u64) -> Verdict {
    if cur > 0 && cur <= max {
        Verdict::Pass("prlimit64: NOFILE soft <= hard limit")
    } else if max == u64::MAX {
        Verdict::Pass("prlimit64: NOFILE unlimited")
    } else {
        Verdict::Fail("prlimit64: NOFILE soft <= hard limit")
    }
}

/// The `prlimit64` test as a table: from state `s` and what the call
/// `s.call` returned (`ret`, and the limit `(cur, max)` it read), the next
/// state and the verdicts.
pub open spec fn prlimit_next(s: PrlimitFlow, ret: i64, cur: u64, max: u64) -> (
    PrlimitFlow,
    Seq<Verdict>,
) {
    let to = |c: PrlimitCall| PrlimitFlow { call: c, ..s };
    match s.call {
        PrlimitCall::GetNofile => (
            to(PrlimitCall::GetStack),
            if ret == 0 {
                seq![Verdict::Pass("prlimit64: get RLIMIT_NOFILE"), nofile_verdict(cur, max)]
            } else {
                seq![Verdict::FailErrno("prlimit64: get RLIMIT_NOFILE", 0, ret)]
            },
        ),
        PrlimitCall::GetStack => (
            to(PrlimitCall::GetAs),
            seq![errno_verdict("prlimit64: get RLIMIT_STACK", ret, 0)],
        ),
        PrlimitCall::GetAs => (
            to(PrlimitCall::GetOther(0)),
            seq![errno_verdict("prlimit64: get RLIMIT_AS", ret, 0)],
        ),
        PrlimitCall::GetOther(k) => if ret != 0 {
            (to(PrlimitCall::Done), seq![Verdict::Fail("prlimit64: get resource limit")])
        } else if k + 1 < OTHER_LIMITS {
            (to(PrlimitCall::GetOther((k + 1) as u8)), seq![])
        } else {
            (
                to(PrlimitCall::InvalidResource),
                seq![Verdict::Pass("prlimit64: get multiple resource limits")],
            )
        },
        PrlimitCall::InvalidResource => (
            to(PrlimitCall::InvalidPid),
            seq![errno_verdict("prlimit64: invalid resource returns EINVAL", ret, EINVAL)],
        ),
        PrlimitCall::InvalidPid => (
            to(PrlimitCall::SaveCore),
            seq![errno_verdict("prlimit64: invalid PID returns ESRCH", ret, ESRCH)],
        ),
        PrlimitCall::SaveCore => (
            PrlimitFlow { call: PrlimitCall::SetCore, saved_cur: cur, saved_max: max },
            seq![],
        ),
        PrlimitCall::SetCore => if ret == 0 {
            (to(PrlimitCall::RestoreCore), seq![Verdict::Pass("prlimit64: set RLIMIT_CORE")])
        } else {
            (to(PrlimitCall::Done), seq![Verdict::FailErrno("prlimit64: set RLIMIT_CORE", 0, ret)])
        },
        PrlimitCall::RestoreCore => (to(PrlimitCall::Done), seq![]),
        PrlimitCall::Done => (s, seq![]),
    }
}

impl PrlimitFlow {
    /// The state before the first call.
    pub fn start() -> (s: Self)
        ensures
            s == prlimit_start(),
    {
        PrlimitFlow { call: PrlimitCall::GetNofile, saved_cur: 0, saved_max: 0 }
    }

    /// The resource that `GetOther(k)` reads.
    pub fn other_resource(k: u8) -> (r: u64)
        ensures
            r == other_limit(k),
    {
        if k == 0 {
            0
        } else if k == 1 {
            1
        } else if k == 2 {
            2
        } else if k == 3 {
            4
        } else if k == 4 {
            5
        } else if k == 5 {
            6
        } else {
            8
        }
    }

    /// The `RLIMIT_CORE` value that `SetCore` writes: soft 0, the saved hard
    /// limit.
    pub fn trial_core(&self) -> (r: (u64, u64))
        ensures
            r == (0u64, self.saved_max),
    {
        (0, self.saved_max)
    }

    /// The `RLIMIT_CORE` value that `RestoreCore` writes: the saved one.
    pub fn restored_core(&self) -> (r: (u64, u64))
        ensures
            r == (self.saved_cur, self.saved_max),
    {
        (self.saved_cur, self.saved_max)
    }

    /// Judges what the call `self.call` returned and moves to the next call.
    pub fn step(&mut self, ret: i64, cur: u64, max: u64) -> (v: Vec<Verdict>)
        ensures
            (*final(self), v@) == prlimit_next(*old(self), ret, cur, max),
    {
        match self.call {
            PrlimitCall::GetNofile => {
                self.call = PrlimitCall::GetStack;
                if ret == 0 {
                    let judged = match limit_verdict(cur, max) {
                        LimitVerdict::SoftWithinHard => Verdict::Pass(
                            "prlimit64: NOFILE soft <= hard limit",
                        ),
                        LimitVerdict::Unlimited => Verdict::Pass("prlimit64: NOFILE unlimited"),
                        LimitVerdict::Inconsistent => Verdict::Fail(
                            "prlimit64: NOFILE soft <= hard limit",
                        ),
                    };
                    vec![Verdict::Pass("prlimit64: get RLIMIT_NOFILE"), judged]
                } else {
                    vec![Verdict::FailErrno("prlimit64: get RLIMIT_NOFILE", 0, ret)]
                }
            },
            PrlimitCall::GetStack => {
                self.call = PrlimitCall::GetAs;
                vec![Verdict::errno("prlimit64: get RLIMIT_STACK", ret, 0)]
            },
            PrlimitCall::GetAs => {
                self.call = PrlimitCall::GetOther(0);
                vec![Verdict::errno("prlimit64: get RLIMIT_AS", ret, 0)]
            },
            PrlimitCall::GetOther(k) => {
                if ret != 0 {
                    self.call = PrlimitCall::Done;
                    vec![Verdict::Fail("prlimit64: get resource limit")]
                } else if k < OTHER_LIMITS - 1 {
                    self.call = PrlimitCall::GetOther(k + 1);
                    vec![]
                } else {
                    self.call = PrlimitCall::InvalidResource;
                    vec![Verdict::Pass("prlimit64: get multiple resource limits")]
                }
            },
            PrlimitCall::InvalidResource => {
                self.call = PrlimitCall::InvalidPid;
                vec![Verdict::errno("prlimit64: invalid resource returns EINVAL", ret, EINVAL)]
            },
            PrlimitCall::InvalidPid => {
                self.call = PrlimitCall::SaveCore;
                vec![Verdict::errno("prlimit64: invalid PID returns ESRCH", ret, ESRCH)]
            },
            PrlimitCall::SaveCore => {
                self.call = PrlimitCall::SetCore;
                self.saved_cur = cur;
                self.saved_max = max;
                vec![]
            },
            PrlimitCall::SetCore => {
                if ret == 0 {
                    self.call = PrlimitCall::RestoreCore;
                    vec![Verdict::Pass("prlimit64: set RLIMIT_CORE")]
                } else {
                    self.call = PrlimitCall::Done;
                    vec![Verdict::FailErrno("prlimit64: set RLIMIT_CORE", 0, ret)]
                }
            },
            PrlimitCall::RestoreCore => {
                self.call = PrlimitCall::Done;
                vec![]
            },
            PrlimitCall::Done => vec![],
        }
    }
}

/// Law: the first further limit that cannot be read ends the test with
/// exactly one failure.
pub proof fn lemma_prlimit_stops_at_failed_read(s: PrlimitFlow, k: u8, ret: i64, cur: u64, max: u64)
    requires
        s.call == PrlimitCall::GetOther(k),
        ret != 0,
    ensures
        prlimit_next(s, ret, cur, max).0.call == PrlimitCall::Done,
        prlimit_next(s, ret, cur, max).1 == seq![Verdict::Fail("prlimit64: get resource limit")],
{
}

/// Law: `RLIMIT_CORE` is set to soft 0 with its own hard limit, is restored
/// only when that set succeeded, and is restored to exactly the value read
/// before it was changed.
pub proof fn lemma_prlimit_restores_core(
    s: PrlimitFlow,
    cur: u64,
    max: u64,
    set_ret: i64,
    r2: i64,
    c2: u64,
    m2: u64,
)
    requires
        s.call == PrlimitCall::SaveCore,
    ensures
        ({
            let s1 = prlimit_next(s, r2, cur, max).0;
            let s2 = prlimit_next(s1, set_ret, c2, m2).0;
            &&& s1.call == PrlimitCall::SetCore
            &&& (0u64, s1.saved_max) == (0u64, max)
            &&& (s2.call == PrlimitCall::RestoreCore <==> set_ret == 0)
            &&& (s2.saved_cur, s2.saved_max) == (cur, max)
        }),
{
}

/// Law: a finished test stays finished.
pub proof fn lemma_prlimit_done_is_final(s: PrlimitFlow, ret: i64, cur: u64, max: u64)
    requires
        s.call == PrlimitCall::Done,
    ensures
        prlimit_next(s, ret, cur, max) == (s, Seq::<Verdict>::empty()),
{
}

/// Law: how the test judges `RLIMIT_NOFILE`. A failed read is one failure
/// showing 0 expected and the value returned. A successful read passes, and
/// then the limit passes as consistent exactly when `0 < cur <= max`, passes
/// as unlimited when it is not but the hard limit is infinite, and fails
/// otherwise; this agrees with `checks::limit_verdict`. Either way the test
/// goes on to `RLIMIT_STACK`.
pub proof fn lemma_prlimit_nofile(ret: i64, cur: u64, max: u64)
    ensures
        ({
            let (n, v) = prlimit_next(prlimit_start(), ret, cur, max);
            &&& n.call == PrlimitCall::GetStack
            &&& ret != 0 ==> v == seq![Verdict::FailErrno("prlimit64: get RLIMIT_NOFILE", 0, ret)]
            &&& ret == 0 ==> v.len() == 2 && v[0] == Verdict::Pass("prlimit64: get RLIMIT_NOFILE")
            &&& (ret == 0 && 0 < cur && cur <= max) ==> v[1] == Verdict::Pass(
                "prlimit64: NOFILE soft <= hard limit",
            )
            &&& (ret == 0 && !(0 < cur && cur <= max) && max == u64::MAX) ==> v[1]
                == Verdict::Pass("prlimit64: NOFILE unlimited")
            &&& (ret == 0 && !(0 < cur && cur <= max) && max != u64::MAX) ==> v[1]
                == Verdict::Fail("prlimit64: NOFILE soft <= hard limit")
            &&& ret == 0 ==> (v[1] is Pass <==> (limit_verdict_spec(cur, max)
                != LimitVerdict::Inconsistent))
        }),
{
}

/// The judgement `checks::limit_verdict` gives.
pub open spec fn limit_verdict_spec(cur: u64, max: u64) -> LimitVerdict {
    if cur > 0 && cur <= max {
        LimitVerdict::SoftWithinHard
    } else if max == u64::MAX {
        LimitVerdict::Unlimited
    } else {
        LimitVerdict::Inconsistent
    }
}

/// Law: the reads of `RLIMIT_STACK` and `RLIMIT_AS`, of the invalid resource
/// and of the invalid pid each give one verdict, a pass exactly when the call
/// returned what it should (0, 0, `EINVAL`, `ESRCH`) and otherwise a failure
/// showing that value and the one returned; the test reads them in that
/// order, the further limits coming between `RLIMIT_AS` and the invalid
/// resource, and goes on whatever they return.
pub proof fn lemma_prlimit_queries(s: PrlimitFlow, ret: i64, cur: u64, max: u64)
    ensures
        ({
            let (n, v) = prlimit_next(s, ret, cur, max);
            &&& s.call == PrlimitCall::GetStack ==> n.call == PrlimitCall::GetAs && v == seq![
                if ret == 0 {
                    Verdict::Pass("prlimit64: get RLIMIT_STACK")
                } else {
                    Verdict::FailErrno("prlimit64: get RLIMIT_STACK", 0, ret)
                },
            ]
            &&& s.call == PrlimitCall::GetAs ==> n.call == PrlimitCall::GetOther(0) && v == seq![
                if ret == 0 {
                    Verdict::Pass("prlimit64: get RLIMIT_AS")
                } else {
                    Verdict::FailErrno("prlimit64: get RLIMIT_AS", 0, ret)
                },
            ]
            &&& s.call == PrlimitCall::InvalidResource ==> n.call == PrlimitCall::InvalidPid && v
                == seq![
                if ret == -22 {
                    Verdict::Pass("prlimit64: invalid resource returns EINVAL")
                } else {
                    Verdict::FailErrno("prlimit64: invalid resource returns EINVAL", -22i64, ret)
                },
            ]
            &&& s.call == PrlimitCall::InvalidPid ==> n.call == PrlimitCall::SaveCore && v == seq![
                if ret == -3 {
                    Verdict::Pass("prlimit64: invalid PID returns ESRCH")
                } else {
                    Verdict::FailErrno("prlimit64: invalid PID returns ESRCH", -3i64, ret)
                },
            ]
            &&& n.call != PrlimitCall::SetCore ==> n.saved_cur == s.saved_cur && n.saved_max
                == s.saved_max
        }),
{
}

/// Law: the seven further limits are read one after another, each read that
/// succeeds reporting nothing, until all seven have been read, which is one
/// pass; the first that fails is one failure and ends the test. The limits
/// read are, in order, resources 0, 1, 2, 4, 5, 6 and 8.
pub proof fn lemma_prlimit_further_limits(s: PrlimitFlow, k: u8, ret: i64, cur: u64, max: u64)
    requires
        s.call == PrlimitCall::GetOther(k),
        k < 7,
    ensures
        ({
            let (n, v) = prlimit_next(s, ret, cur, max);
            &&& ret != 0 ==> n.call == PrlimitCall::Done && v == seq![
                Verdict::Fail("prlimit64: get resource limit"),
            ]
            &&& (ret == 0 && k < 6) ==> n.call == PrlimitCall::GetOther((k + 1) as u8) && v.len() == 0
            &&& (ret == 0 && k == 6) ==> n.call == PrlimitCall::InvalidResource && v == seq![
                Verdict::Pass("prlimit64: get multiple resource limits"),
            ]
        }),
        other_limit(0) == 0 && other_limit(1) == 1 && other_limit(2) == 2 && other_limit(3) == 4
            && other_limit(4) == 5 && other_limit(5) == 6 && other_limit(6) == 8,
{
}

} // verus!
