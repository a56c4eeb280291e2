//! The verdicts of the descriptor tests that run a fixed list of calls: the
//! socket-option test, the vectored I/O test and the standard-descriptor
//! test. Each takes what the calls returned and yields the checks in the
//! order the test reports them, together with what the test must close.

use vstd::prelude::*;
use vstd::string::StringSliceAdditionalSpecFns;
use crate::report::{Verdict, check_verdict, errno_verdict};
use crate::checks::read_matches;
use crate::sockets::{ENOPROTOOPT, reads_back};

verus! {

/// `EBADF`, as a negated return value.
pub const EBADF: i64 = -9;

/// `SOCK_STREAM`.
pub const SOCK_STREAM: i32 = 1;

// ── setsockopt / getsockopt ──────────────────────────────────────────────

/// What the socket-option test observed. `socket` is what `socket(AF_INET,
/// SOCK_STREAM)` returned; the rest are the option calls on it and the
/// values they read.
#[derive(Clone, Copy, PartialEq, Eq, Structural, Debug)]
pub struct SockoptObs {
    pub socket: i64,
    pub reuse_ret: i64,
    pub type_ret: i64,
    pub type_val: i32,
    pub error_ret: i64,
    pub error_val: i32,
    pub keepalive_ret: i64,
    pub sndbuf_ret: i64,
    pub sndbuf: i32,
    pub rcvbuf_ret: i64,
    pub rcvbuf: i32,
    pub reuseport_ret: i64,
}

/// A buffer-size query: positive size, or the option not supported.
pub open spec fn bufsize_verdict(
    ret: i64,
    size: i32,
    ok: &'static str,
    unsupported: &'static str,
) -> Verdict {
    if ret == 0 && size > 0 {
        Verdict::Pass(ok)
    } else if ret == ENOPROTOOPT {
        Verdict::Pass(unsupported)
    } else {
        Verdict::Fail(ok)
    }
}

/// A setter that must return 0, or report the option as not supported.
pub open spec fn setter_verdict(
    ret: i64,
    ok: &'static str,
    unsupported: &'static str,
    failed: &'static str,
) -> Verdict {
    if ret == 0 {
        Verdict::Pass(ok)
    } else if ret == ENOPROTOOPT {
        Verdict::Pass(unsupported)
    } else {
        Verdict::FailErrno(failed, 0, ret)
    }
}

/// The checks of the socket-option test: one failure when the socket could
/// not be created (the option calls are then not made), else seven checks.
pub open spec fn sockopt_spec(o: SockoptObs) -> Seq<Verdict> {
    if o.socket < 0 {
        seq![Verdict::Fail("sockopt: socket setup")]
    } else {
        seq![
            errno_verdict("setsockopt(SO_REUSEADDR) returns 0", o.reuse_ret, 0),
            check_verdict(
                "getsockopt(SO_TYPE) = SOCK_STREAM",
                o.type_ret == 0 && o.type_val == SOCK_STREAM,
            ),
            check_verdict("getsockopt(SO_ERROR) = 0", o.error_ret == 0 && o.error_val == 0),
            setter_verdict(
                o.keepalive_ret,
                "setsockopt(SO_KEEPALIVE) returns 0",
                "SO_KEEPALIVE not supported",
                "setsockopt(SO_KEEPALIVE) returns 0",
            ),
            bufsize_verdict(o.sndbuf_ret, o.sndbuf, "getsockopt(SO_SNDBUF) > 0", "SO_SNDBUF not supported"),
            bufsize_verdict(o.rcvbuf_ret, o.rcvbuf, "getsockopt(SO_RCVBUF) > 0", "SO_RCVBUF not supported"),
            setter_verdict(
                o.reuseport_ret,
                "setsockopt(SO_REUSEPORT) returns 0",
                "SO_REUSEPORT not supported",
                "setsockopt(SO_REUSEPORT)",
            ),
        ]
    }
}

fn bufsize(ret: i64, size: i32, ok: &'static str, unsupported: &'static str) -> (v: Verdict)
    ensures
        v == bufsize_verdict(ret, size, ok, unsupported),
{
    if ret == 0 && size > 0 {
        Verdict::Pass(ok)
    } else if ret == ENOPROTOOPT {
        Verdict::Pass(unsupported)
    } else {
        Verdict::Fail(ok)
    }
}

fn setter(ret: i64, ok: &'static str, unsupported: &'static str, failed: &'static str) -> (v:
    Verdict)
    ensures
        v == setter_verdict(ret, ok, unsupported, failed),
{
    if ret == 0 {
        Verdict::Pass(ok)
    } else if ret == ENOPROTOOPT {
        Verdict::Pass(unsupported)
    } else {
        Verdict::FailErrno(failed, 0, ret)
    }
}

impl SockoptObs {
    /// Whether the test goes on to the option calls: only when the socket
    /// was created.
    pub fn goes_on(socket: i64) -> (r: bool)
        ensures
            r == (socket >= 0),
    {
        socket >= 0
    }

    /// The test's checks, in order.
    pub fn verdicts(&self) -> (v: Vec<Verdict>)
        ensures
            v@ == sockopt_spec(*self),
    {
        if self.socket < 0 {
            return vec![Verdict::Fail("sockopt: socket setup")];
        }
        vec![
            Verdict::errno("setsockopt(SO_REUSEADDR) returns 0", self.reuse_ret, 0),
            Verdict::check(
                "getsockopt(SO_TYPE) = SOCK_STREAM",
                self.type_ret == 0 && self.type_val == SOCK_STREAM,
            ),
            Verdict::check("getsockopt(SO_ERROR) = 0", self.error_ret == 0 && self.error_val == 0),
            setter(
                self.keepalive_ret,
                "setsockopt(SO_KEEPALIVE) returns 0",
                "SO_KEEPALIVE not supported",
                "setsockopt(SO_KEEPALIVE) returns 0",
            ),
            bufsize(self.sndbuf_ret, self.sndbuf, "getsockopt(SO_SNDBUF) > 0", "SO_SNDBUF not supported"),
            bufsize(self.rcvbuf_ret, self.rcvbuf, "getsockopt(SO_RCVBUF) > 0", "SO_RCVBUF not supported"),
            setter(
                self.reuseport_ret,
                "setsockopt(SO_REUSEPORT) returns 0",
                "SO_REUSEPORT not supported",
                "setsockopt(SO_REUSEPORT)",
            ),
        ]
    }
}

// ── writev / readv ───────────────────────────────────────────────────────

/// What the vectored I/O test observed on a pipe. `pipe_ret` is what
/// `pipe2` returned; `readv_data` is the twelve bytes `readv` scattered into
/// its three segments, `read_data` the four bytes read after the write with
/// an empty segment.
pub struct VectoredObs {
    pub pipe_ret: i64,
    pub writev_ret: i64,
    pub readv_ret: i64,
    pub readv_data: Vec<u8>,
    pub writev_empty_ret: i64,
    pub read_data: Vec<u8>,
    pub writev_none_ret: i64,
    pub readv_none_ret: i64,
    pub writev_badfd_ret: i64,
    pub readv_badfd_ret: i64,
}

/// The checks of the vectored I/O test: one failure when the pipe could not
/// be made, else the nine checks, of which the readv data check is made only
/// when `readv` returned 12.
pub open spec fn vectored_spec(
    pipe_ret: i64,
    writev_ret: i64,
    readv_ret: i64,
    readv_data: Seq<u8>,
    writev_empty_ret: i64,
    read_data: Seq<u8>,
    writev_none_ret: i64,
    readv_none_ret: i64,
    writev_badfd_ret: i64,
    readv_badfd_ret: i64,
) -> Seq<Verdict> {
    if pipe_ret != 0 {
        seq![Verdict::Fail("vectored: pipe setup")]
    } else {
        seq![errno_verdict("writev(3 segments) returns 12", writev_ret, 12)] + (if readv_ret == 12 {
            seq![
                Verdict::Pass("readv(3 segments) returns 12"),
                check_verdict(
                    "readv data correct",
                    readv_data.len() >= 12 && readv_data.subrange(0, 12) == "AAAABBBBCCCC".spec_bytes(),
                ),
            ]
        } else {
            seq![Verdict::FailErrno("readv(3 segments) returns 12", 12, readv_ret)]
        }) + seq![
            errno_verdict("writev with empty segment", writev_empty_ret, 4),
            check_verdict("writev empty segment skipped", reads_back(4, read_data, "XXYY".spec_bytes())),
            errno_verdict("writev(iovcnt=0) returns 0", writev_none_ret, 0),
            errno_verdict("readv(iovcnt=0) returns 0", readv_none_ret, 0),
            errno_verdict("writev(bad fd) -EBADF", writev_badfd_ret, EBADF),
            errno_verdict("readv(bad fd) -EBADF", readv_badfd_ret, EBADF),
        ]
    }
}

impl VectoredObs {
    /// Whether the test goes on after `pipe2`: only when it returned 0.
    pub fn goes_on(pipe_ret: i64) -> (r: bool)
        ensures
            r == (pipe_ret == 0),
    {
        pipe_ret == 0
    }

    /// The test's checks, in order.
    pub fn verdicts(&self) -> (v: Vec<Verdict>)
        ensures
            v@ == vectored_spec(
                self.pipe_ret,
                self.writev_ret,
                self.readv_ret,
                self.readv_data@,
                self.writev_empty_ret,
                self.read_data@,
                self.writev_none_ret,
                self.readv_none_ret,
                self.writev_badfd_ret,
                self.readv_badfd_ret,
            ),
    {
        if self.pipe_ret != 0 {
            return vec![Verdict::Fail("vectored: pipe setup")];
        }
        let mut v: Vec<Verdict> = vec![Verdict::errno("writev(3 segments) returns 12", self.writev_ret, 12)];
        if self.readv_ret == 12 {
            v.push(Verdict::Pass("readv(3 segments) returns 12"));
            let ok = read_matches(12, self.readv_data.as_slice(), "AAAABBBBCCCC".as_bytes());
            v.push(Verdict::check("readv data correct", ok));
        } else {
            v.push(Verdict::FailErrno("readv(3 segments) returns 12", 12, self.readv_ret));
        }
        let skipped = read_matches(4, self.read_data.as_slice(), "XXYY".as_bytes());
        v.push(Verdict::errno("writev with empty segment", self.writev_empty_ret, 4));
        v.push(Verdict::check("writev empty segment skipped", skipped));
        v.push(Verdict::errno("writev(iovcnt=0) returns 0", self.writev_none_ret, 0));
        v.push(Verdict::errno("readv(iovcnt=0) returns 0", self.readv_none_ret, 0));
        v.push(Verdict::errno("writev(bad fd) -EBADF", self.writev_badfd_ret, EBADF));
        v.push(Verdict::errno("readv(bad fd) -EBADF", self.readv_badfd_ret, EBADF));
        proof {
            reveal_strlit("AAAABBBBCCCC");
            assert("AAAABBBBCCCC"@.len() == 12);
        }
        v
    }
}

// ── the standard descriptors 0, 1 and 2 ──────────────────────────────────

/// The read check on fd 0: a zero-length read must not fail with `EBADF`.
pub open spec fn stdin_read_verdict(rd_in: i64) -> Verdict {
    if rd_in == 0 {
        Verdict::Pass("read(stdin, 0) returns 0")
    } else if rd_in == EBADF {
        Verdict::Fail("read(stdin) returns EBADF (fd 0 not initialized)")
    } else {
        Verdict::Pass("read(stdin, 0) accepted")
    }
}

/// The eight checks of the standard-descriptor test, from what `fstat` on
/// fds 0, 1 and 2, the two 24-byte writes to fds 1 and 2, the zero-length
/// read of fd 0 and `dup` of fds 0 and 2 returned.
pub open spec fn standard_fds_spec(
    fstat_in: i64,
    fstat_out: i64,
    fstat_err: i64,
    wr_out: i64,
    wr_err: i64,
    rd_in: i64,
    dup_in: i64,
    dup_err: i64,
) -> Seq<Verdict> {
    seq![
        check_verdict("fstat(stdin) returns 0", fstat_in == 0),
        check_verdict("fstat(stdout) returns 0", fstat_out == 0),
        check_verdict("fstat(stderr) returns 0", fstat_err == 0),
        check_verdict("write(stdout) returns count", wr_out == 24),
        check_verdict("write(stderr) returns count", wr_err == 24),
        stdin_read_verdict(rd_in),
        check_verdict("dup(stdin) returns new fd", dup_in >= 3),
        check_verdict("dup(stderr) returns new fd", dup_err >= 3),
    ]
}

/// The checks of the standard-descriptor test, in order.
pub fn standard_fds_verdicts(
    fstat_in: i64,
    fstat_out: i64,
    fstat_err: i64,
    wr_out: i64,
    wr_err: i64,
    rd_in: i64,
    dup_in: i64,
    dup_err: i64,
) -> (v: Vec<Verdict>)
    ensures
        v@ == standard_fds_spec(fstat_in, fstat_out, fstat_err, wr_out, wr_err, rd_in, dup_in, dup_err),
{
    let read = if rd_in == 0 {
        Verdict::Pass("read(stdin, 0) returns 0")
    } else if rd_in == EBADF {
        Verdict::Fail("read(stdin) returns EBADF (fd 0 not initialized)")
    } else {
        Verdict::Pass("read(stdin, 0) accepted")
    };
    vec![
        Verdict::check("fstat(stdin) returns 0", fstat_in == 0),
        Verdict::check("fstat(stdout) returns 0", fstat_out == 0),
        Verdict::check("fstat(stderr) returns 0", fstat_err == 0),
        Verdict::check("write(stdout) returns count", wr_out == 24),
        Verdict::check("write(stderr) returns count", wr_err == 24),
        read,
        Verdict::check("dup(stdin) returns new fd", dup_in >= 3),
        Verdict::check("dup(stderr) returns new fd", dup_err >= 3),
    ]
}

/// The duplicates the standard-descriptor test closes: each `dup` result
/// that is a new descriptor (3 or above), in order.
pub fn standard_fds_release(dup_in: i64, dup_err: i64) -> (r: Vec<i64>)
    ensures
        r@ == (if dup_in >= 3 { seq![dup_in] } else { seq![] }) + (if dup_err >= 3 {
            seq![dup_err]
        } else {
            seq![]
        }),
{
    let mut r: Vec<i64> = Vec::new();
    if dup_in >= 3 {
        r.push(dup_in);
    }
    if dup_err >= 3 {
        r.push(dup_err);
    }
    proof {
        if dup_in < 3 && dup_err < 3 {
            assert(r@ =~= Seq::<i64>::empty() + Seq::<i64>::empty());
        } else if dup_in < 3 {
            assert(r@ =~= Seq::<i64>::empty() + seq![dup_err]);
        } else if dup_err < 3 {
            assert(r@ =~= seq![dup_in] + Seq::<i64>::empty());
        } else {
            assert(r@ =~= seq![dup_in] + seq![dup_err]);
        }
    }
    r
}

/// Law: the socket-option test makes one check when it has no socket and
/// seven otherwise.
pub proof fn lemma_sockopt_check_count(o: SockoptObs)
    ensures
        sockopt_spec(o).len() == (if o.socket < 0 { 1nat } else { 7nat }),
{
}

/// Law: the vectored I/O test makes one check when the pipe fails, nine when
/// `readv` returned 12, and eight otherwise (the data check is skipped).
pub proof fn lemma_vectored_check_count(
    pipe_ret: i64,
    writev_ret: i64,
    readv_ret: i64,
    readv_data: Seq<u8>,
    writev_empty_ret: i64,
    read_data: Seq<u8>,
    writev_none_ret: i64,
    readv_none_ret: i64,
    writev_badfd_ret: i64,
    readv_badfd_ret: i64,
)
    ensures
        vectored_spec(
            pipe_ret,
            writev_ret,
            readv_ret,
            readv_data,
            writev_empty_ret,
            read_data,
            writev_none_ret,
            readv_none_ret,
            writev_badfd_ret,
            readv_badfd_ret,
        ).len() == (if pipe_ret != 0 {
            1nat
        } else if readv_ret == 12 {
            9nat
        } else {
            8nat
        }),
{
}

/// Law: the standard-descriptor test always makes eight checks, and its read
/// check fails exactly when the zero-length read of fd 0 returned `EBADF`.
pub proof fn lemma_standard_fds_checks(
    fstat_in: i64,
    fstat_out: i64,
    fstat_err: i64,
    wr_out: i64,
    wr_err: i64,
    rd_in: i64,
    dup_in: i64,
    dup_err: i64,
)
    ensures
        standard_fds_spec(fstat_in, fstat_out, fstat_err, wr_out, wr_err, rd_in, dup_in, dup_err).len()
            == 8,
        !(standard_fds_spec(fstat_in, fstat_out, fstat_err, wr_out, wr_err, rd_in, dup_in, dup_err)[5] is Pass)
            <==> rd_in == EBADF,
{
}

/// Law: what each check of the socket-option test means, once the socket is
/// open. SO_REUSEADDR passes exactly when the set returned 0 (else it fails
/// showing 0 and the value returned); SO_TYPE passes exactly when the get
/// returned 0 and read `SOCK_STREAM`; SO_ERROR passes exactly when the get
/// returned 0 and read 0; SO_KEEPALIVE and SO_REUSEPORT pass when the set
/// returned 0 or `ENOPROTOOPT` (reported as not supported) and otherwise fail
/// showing 0 and the value returned; SO_SNDBUF and SO_RCVBUF pass when the
/// get returned 0 with a positive size or returned `ENOPROTOOPT`, and fail
/// otherwise. Without a socket the test is one failure.
pub proof fn lemma_sockopt_meaning(o: SockoptObs)
    ensures
        o.socket < 0 ==> sockopt_spec(o) == seq![Verdict::Fail("sockopt: socket setup")],
        o.socket >= 0 ==> ({
            let v = sockopt_spec(o);
            &&& v.len() == 7
            &&& v[0] == (if o.reuse_ret == 0 {
                Verdict::Pass("setsockopt(SO_REUSEADDR) returns 0")
            } else {
                Verdict::FailErrno("setsockopt(SO_REUSEADDR) returns 0", 0, o.reuse_ret)
            })
            &&& (v[1] is Pass <==> (o.type_ret == 0 && o.type_val == 1))
            &&& v[1] == (if o.type_ret == 0 && o.type_val == 1 {
                Verdict::Pass("getsockopt(SO_TYPE) = SOCK_STREAM")
            } else {
                Verdict::Fail("getsockopt(SO_TYPE) = SOCK_STREAM")
            })
            &&& (v[2] is Pass <==> (o.error_ret == 0 && o.error_val == 0))
            &&& v[2] == (if o.error_ret == 0 && o.error_val == 0 {
                Verdict::Pass("getsockopt(SO_ERROR) = 0")
            } else {
                Verdict::Fail("getsockopt(SO_ERROR) = 0")
            })
            &&& v[3] == (if o.keepalive_ret == 0 {
                Verdict::Pass("setsockopt(SO_KEEPALIVE) returns 0")
            } else if o.keepalive_ret == -92 {
                Verdict::Pass("SO_KEEPALIVE not supported")
            } else {
                Verdict::FailErrno("setsockopt(SO_KEEPALIVE) returns 0", 0, o.keepalive_ret)
            })
            &&& v[4] == (if o.sndbuf_ret == 0 && o.sndbuf > 0 {
                Verdict::Pass("getsockopt(SO_SNDBUF) > 0")
            } else if o.sndbuf_ret == -92 {
                Verdict::Pass("SO_SNDBUF not supported")
            } else {
                Verdict::Fail("getsockopt(SO_SNDBUF) > 0")
            })
            &&& v[5] == (if o.rcvbuf_ret == 0 && o.rcvbuf > 0 {
                Verdict::Pass("getsockopt(SO_RCVBUF) > 0")
            } else if o.rcvbuf_ret == -92 {
                Verdict::Pass("SO_RCVBUF not supported")
            } else {
                Verdict::Fail("getsockopt(SO_RCVBUF) > 0")
            })
            &&& v[6] == (if o.reuseport_ret == 0 {
                Verdict::Pass("setsockopt(SO_REUSEPORT) returns 0")
            } else if o.reuseport_ret == -92 {
                Verdict::Pass("SO_REUSEPORT not supported")
            } else {
                Verdict::FailErrno("setsockopt(SO_REUSEPORT)", 0, o.reuseport_ret)
            })
        }),
{
}

/// Law: what each check of the vectored I/O test means, once the pipe is
/// made. The 3-segment writev passes exactly when it wrote 12 bytes; the
/// readv passes exactly when it read 12 bytes, and only then is its data
/// judged, passing exactly when the segments hold `AAAA`, `BBBB`, `CCCC`;
/// the writev with an empty segment passes exactly when it wrote 4 bytes,
/// and the bytes read back pass exactly when they are `XXYY`; the calls with
/// no segments pass exactly when they return 0, and those on fd 999 exactly
/// when they return `EBADF`. Each count failure shows the expected and
/// returned values. Without the pipe the test is one failure.
pub proof fn lemma_vectored_meaning(
    pipe_ret: i64,
    writev_ret: i64,
    readv_ret: i64,
    readv_data: Seq<u8>,
    writev_empty_ret: i64,
    read_data: Seq<u8>,
    writev_none_ret: i64,
    readv_none_ret: i64,
    writev_badfd_ret: i64,
    readv_badfd_ret: i64,
)
    ensures
        ({
            let v = vectored_spec(
                pipe_ret,
                writev_ret,
                readv_ret,
                readv_data,
                writev_empty_ret,
                read_data,
                writev_none_ret,
                readv_none_ret,
                writev_badfd_ret,
                readv_badfd_ret,
            );
            let k: int = if readv_ret == 12 { 3 } else { 2 };
            &&& pipe_ret != 0 ==> v == seq![Verdict::Fail("vectored: pipe setup")]
            &&& pipe_ret == 0 ==> {
                &&& v.len() == k + 6
                &&& v[0] == (if writev_ret == 12 {
                    Verdict::Pass("writev(3 segments) returns 12")
                } else {
                    Verdict::FailErrno("writev(3 segments) returns 12", 12, writev_ret)
                })
                &&& readv_ret == 12 ==> v[1] == Verdict::Pass("readv(3 segments) returns 12") && v[2]
                    == (if readv_data.len() >= 12 && readv_data.subrange(0, 4) == "AAAA".spec_bytes()
                    && readv_data.subrange(4, 8) == "BBBB".spec_bytes() && readv_data.subrange(8, 12)
                    == "CCCC".spec_bytes() {
                    Verdict::Pass("readv data correct")
                } else {
                    Verdict::Fail("readv data correct")
                })
                &&& readv_ret != 12 ==> v[1] == Verdict::FailErrno(
                    "readv(3 segments) returns 12",
                    12,
                    readv_ret,
                )
                &&& v[k] == (if writev_empty_ret == 4 {
                    Verdict::Pass("writev with empty segment")
                } else {
                    Verdict::FailErrno("writev with empty segment", 4, writev_empty_ret)
                })
                &&& v[k + 1] == (if read_data.len() >= 4 && read_data.subrange(0, 4)
                    == "XXYY".spec_bytes() {
                    Verdict::Pass("writev empty segment skipped")
                } else {
                    Verdict::Fail("writev empty segment skipped")
                })
                &&& v[k + 2] == (if writev_none_ret == 0 {
                    Verdict::Pass("writev(iovcnt=0) returns 0")
                } else {
                    Verdict::FailErrno("writev(iovcnt=0) returns 0", 0, writev_none_ret)
                })
                &&& v[k + 3] == (if readv_none_ret == 0 {
                    Verdict::Pass("readv(iovcnt=0) returns 0")
                } else {
                    Verdict::FailErrno("readv(iovcnt=0) returns 0", 0, readv_none_ret)
                })
                &&& v[k + 4] == (if writev_badfd_ret == -9 {
                    Verdict::Pass("writev(bad fd) -EBADF")
                } else {
                    Verdict::FailErrno("writev(bad fd) -EBADF", -9i64, writev_badfd_ret)
                })
                &&& v[k + 5] == (if readv_badfd_ret == -9 {
                    Verdict::Pass("readv(bad fd) -EBADF")
                } else {
                    Verdict::FailErrno("readv(bad fd) -EBADF", -9i64, readv_badfd_ret)
                })
            }
        }),
{
    broadcast use vstd::string::is_ascii_spec_bytes;
    reveal_strlit("AAAABBBBCCCC");
    reveal_strlit("AAAA");
    reveal_strlit("BBBB");
    reveal_strlit("CCCC");
    reveal_strlit("XXYY");
    assert(vstd::string::is_ascii("AAAABBBBCCCC"));
    assert(vstd::string::is_ascii("AAAA"));
    assert(vstd::string::is_ascii("BBBB"));
    assert(vstd::string::is_ascii("CCCC"));
    assert(vstd::string::is_ascii("XXYY"));
    let whole = "AAAABBBBCCCC".spec_bytes();
    assert(whole.len() == 12);
    assert(whole.subrange(0, 4) =~= "AAAA".spec_bytes());
    assert(whole.subrange(4, 8) =~= "BBBB".spec_bytes());
    assert(whole.subrange(8, 12) =~= "CCCC".spec_bytes());
    if readv_data.len() >= 12 {
        let d = readv_data.subrange(0, 12);
        if d.subrange(0, 4) == "AAAA".spec_bytes() && d.subrange(4, 8) == "BBBB".spec_bytes()
            && d.subrange(8, 12) == "CCCC".spec_bytes() {
            assert forall|i: int| 0 <= i < 12 implies d[i] == whole[i] by {
                if i < 4 {
                    assert(d.subrange(0, 4)[i] == whole.subrange(0, 4)[i]);
                } else if i < 8 {
                    assert(d.subrange(4, 8)[i - 4] == whole.subrange(4, 8)[i - 4]);
                } else {
                    assert(d.subrange(8, 12)[i - 8] == whole.subrange(8, 12)[i - 8]);
                }
            }
            assert(d =~= whole);
        }
        assert(readv_data.subrange(0, 4) =~= d.subrange(0, 4));
        assert(readv_data.subrange(4, 8) =~= d.subrange(4, 8));
        assert(readv_data.subrange(8, 12) =~= d.subrange(8, 12));
    }
    assert("XXYY".spec_bytes().len() == 4);
}

/// Law: what each check of the standard-descriptor test means: each fstat
/// passes exactly when it returned 0; each write passes exactly when it
/// wrote its 24 bytes; the zero-length read of fd 0 fails exactly when it
/// returned `EBADF`; each dup passes exactly when it gave a descriptor of 3
/// or above.
pub proof fn lemma_standard_fds_meaning(
    fstat_in: i64,
    fstat_out: i64,
    fstat_err: i64,
    wr_out: i64,
    wr_err: i64,
    rd_in: i64,
    dup_in: i64,
    dup_err: i64,
)
    ensures
        ({
            let v = standard_fds_spec(
                fstat_in,
                fstat_out,
                fstat_err,
                wr_out,
                wr_err,
                rd_in,
                dup_in,
                dup_err,
            );
            &&& v.len() == 8
            &&& (v[0] is Pass <==> fstat_in == 0) && (v[1] is Pass <==> fstat_out == 0) && (
            v[2] is Pass <==> fstat_err == 0)
            &&& (v[3] is Pass <==> wr_out == 24) && (v[4] is Pass <==> wr_err == 24)
            &&& (v[5] is Pass <==> rd_in != -9)
            &&& (v[6] is Pass <==> dup_in >= 3) && (v[7] is Pass <==> dup_err >= 3)
            &&& v[0] == (if fstat_in == 0 {
                Verdict::Pass("fstat(stdin) returns 0")
            } else {
                Verdict::Fail("fstat(stdin) returns 0")
            })
            &&& v[1] == (if fstat_out == 0 {
                Verdict::Pass("fstat(stdout) returns 0")
            } else {
                Verdict::Fail("fstat(stdout) returns 0")
            })
            &&& v[2] == (if fstat_err == 0 {
                Verdict::Pass("fstat(stderr) returns 0")
            } else {
                Verdict::Fail("fstat(stderr) returns 0")
            })
            &&& v[3] == (if wr_out == 24 {
                Verdict::Pass("write(stdout) returns count")
            } else {
                Verdict::Fail("write(stdout) returns count")
            })
            &&& v[4] == (if wr_err == 24 {
                Verdict::Pass("write(stderr) returns count")
            } else {
                Verdict::Fail("write(stderr) returns count")
            })
            &&& v[5] == (if rd_in == 0 {
                Verdict::Pass("read(stdin, 0) returns 0")
            } else if rd_in == -9 {
                Verdict::Fail("read(stdin) returns EBADF (fd 0 not initialized)")
            } else {
                Verdict::Pass("read(stdin, 0) accepted")
            })
            &&& v[6] == (if dup_in >= 3 {
                Verdict::Pass("dup(stdin) returns new fd")
            } else {
                Verdict::Fail("dup(stdin) returns new fd")
            })
            &&& v[7] == (if dup_err >= 3 {
                Verdict::Pass("dup(stderr) returns new fd")
            } else {
                Verdict::Fail("dup(stderr) returns new fd")
            })
        }),
{
}

} // verus!
