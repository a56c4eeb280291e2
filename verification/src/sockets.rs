//! The decisions of the socket data-flow tests. Each test is a fixed
//! sequence of calls; a flow value records which call comes next and which
//! descriptors the test holds, and its `step` judges what a call returned:
//! the verdicts it yields, whether the test goes on, and so which descriptors
//! are released at the end.

use vstd::prelude::*;
use vstd::string::StringSliceAdditionalSpecFns;
use crate::report::{Verdict, check_verdict, errno_verdict};
use crate::checks::read_matches;

verus! {

/// `INADDR_LOOPBACK` (127.0.0.1) in host byte order.
pub const LOOPBACK: u64 = 0x7F00_0001;

/// `AF_INET`.
pub const AF_INET: u64 = 2;

/// `EAFNOSUPPORT`, as a negated return value.
pub const EAFNOSUPPORT: i64 = -97;

/// `ENOPROTOOPT`, as a negated return value.
pub const ENOPROTOOPT: i64 = -92;

/// A read returned exactly `expected.len()` bytes and the buffer starts with
/// `expected` (what `checks::read_matches` decides).
pub open spec fn reads_back(count: i64, buf: Seq<u8>, expected: Seq<u8>) -> bool {
    count == expected.len() && expected.len() <= buf.len() && buf.subrange(
        0,
        expected.len() as int,
    ) == expected
}

/// The descriptors among `fds` that are held (not negative), in order.
pub open spec fn held(fds: Seq<i64>) -> Seq<i64>
    decreases fds.len(),
{
    if fds.len() == 0 {
        seq![]
    } else if fds.last() >= 0 {
        held(fds.drop_last()).push(fds.last())
    } else {
        held(fds.drop_last())
    }
}

/// The held descriptors of `fds`, in order: the ones to close.
fn held_of(fds: &[i64]) -> (r: Vec<i64>)
    ensures
        r@ == held(fds@),
{
    let mut r: Vec<i64> = Vec::new();
    let mut i: usize = 0;
    while i < fds.len()
        invariant
            i <= fds@.len(),
            r@ == held(fds@.subrange(0, i as int)),
        decreases fds@.len() - i,
    {
        proof {
            assert(fds@.subrange(0, i + 1).drop_last() == fds@.subrange(0, i as int));
        }
        if fds[i] >= 0 {
            r.push(fds[i]);
        }
        i = i + 1;
    }
    assert(fds@.subrange(0, fds@.len() as int) == fds@);
    r
}

// ── TCP: connect, accept, send, receive ──────────────────────────────────

/// The calls of the TCP data-flow test, in order.
#[derive(Clone, Copy, PartialEq, Eq, Structural, Debug)]
pub enum TcpCall {
    /// `socket(AF_INET, SOCK_STREAM)` for the listener.
    ListenerSocket,
    /// `setsockopt(listener, SO_REUSEADDR, 1)`; its result is not judged.
    ReuseAddr,
    /// `bind(listener, 127.0.0.1:0)`.
    Bind,
    /// `listen(listener, 1)`.
    Listen,
    /// `getsockname(listener)`; the event's word is the bound port.
    LocalName,
    /// `socket(AF_INET, SOCK_STREAM)` for the client.
    ClientSocket,
    /// `connect(client, 127.0.0.1:port)`.
    Connect,
    /// `accept(listener)`; the event's word is the peer address, host order.
    Accept,
    /// `write(client, payload)`.
    ClientWrite,
    /// `read(accepted, 64 bytes)`; the event's data is the buffer.
    ServerRead,
    /// `write(accepted, "ACK")`.
    ServerReply,
    /// `read(client, 8 bytes)`; the event's data is the buffer.
    ClientRead,
    /// `getpeername(accepted)`; the event's word is the address family.
    PeerName,
    /// `shutdown(client, SHUT_WR)`; its result is not judged.
    ShutdownWrite,
    /// `read(accepted, 64 bytes)` after the shutdown.
    ServerReadEof,
    /// The test is over; release the held descriptors.
    Done,
}

/// The state of the TCP data-flow test: the next call, the descriptors
/// obtained so far (-1 while not obtained) and the listener's port.
#[derive(Clone, Copy, PartialEq, Eq, Structural, Debug)]
pub struct TcpFlow {
    pub call: TcpCall,
    pub listener: i64,
    pub client: i64,
    pub accepted: i64,
    pub port: u16,
}

/// The bytes the client sends.
pub open spec fn tcp_payload() -> Seq<u8> {
    "POSIX conformance TCP payload!".spec_bytes()
}

/// The bytes the server replies with.
pub open spec fn tcp_reply() -> Seq<u8> {
    "ACK".spec_bytes()
}

/// The TCP test as a table: from state `s` and what the call `s.call`
/// returned (`ret`, plus the word or buffer it filled in), the next state and
/// the verdicts.
pub open spec fn tcp_next(s: TcpFlow, ret: i64, word: u64, data: Seq<u8>) -> (TcpFlow, Seq<Verdict>) {
    let done = TcpFlow { call: TcpCall::Done, ..s };
    match s.call {
        TcpCall::ListenerSocket => if ret < 0 {
            (done, seq![Verdict::FailErrno("TCP data flow: listener socket", 0, ret)])
        } else {
            (TcpFlow { call: TcpCall::ReuseAddr, listener: ret, ..s }, seq![])
        },
        TcpCall::ReuseAddr => (TcpFlow { call: TcpCall::Bind, ..s }, seq![]),
        TcpCall::Bind => if ret != 0 {
            (done, seq![Verdict::FailErrno("TCP data flow: bind", 0, ret)])
        } else {
            (TcpFlow { call: TcpCall::Listen, ..s }, seq![])
        },
        TcpCall::Listen => if ret != 0 {
            (done, seq![Verdict::FailErrno("TCP data flow: listen", 0, ret)])
        } else {
            (TcpFlow { call: TcpCall::LocalName, ..s }, seq![])
        },
        TcpCall::LocalName => (
            TcpFlow { call: TcpCall::ClientSocket, port: word as u16, ..s },
            seq![],
        ),
        TcpCall::ClientSocket => if ret < 0 {
            (done, seq![Verdict::FailErrno("TCP data flow: client socket", 0, ret)])
        } else {
            (TcpFlow { call: TcpCall::Connect, client: ret, ..s }, seq![])
        },
        TcpCall::Connect => if ret != 0 {
            (done, seq![Verdict::FailErrno("TCP connect to listener", 0, ret)])
        } else {
            (TcpFlow { call: TcpCall::Accept, ..s }, seq![Verdict::Pass("TCP connect succeeds")])
        },
        TcpCall::Accept => if ret < 0 {
            (done, seq![Verdict::FailErrno("TCP accept", 0, ret)])
        } else {
            (
                TcpFlow { call: TcpCall::ClientWrite, accepted: ret, ..s },
                seq![
                    Verdict::Pass("TCP accept returns connected fd"),
                    check_verdict("accepted peer is 127.0.0.1", word == LOOPBACK),
                ],
            )
        },
        TcpCall::ClientWrite => (
            TcpFlow { call: TcpCall::ServerRead, ..s },
            seq![errno_verdict("client write returns exact count", ret, 30)],
        ),
        TcpCall::ServerRead => (
            TcpFlow { call: TcpCall::ServerReply, ..s },
            seq![
                errno_verdict("server read returns exact count", ret, 30),
                check_verdict("received data matches sent data", reads_back(ret, data, tcp_payload())),
            ],
        ),
        TcpCall::ServerReply => (
            TcpFlow { call: TcpCall::ClientRead, ..s },
            if ret != 3 {
                seq![Verdict::FailErrno("server reply write", 3, ret)]
            } else {
                seq![]
            },
        ),
        TcpCall::ClientRead => (
            TcpFlow { call: TcpCall::PeerName, ..s },
            seq![check_verdict("bidirectional data flow works", reads_back(ret, data, tcp_reply()))],
        ),
        TcpCall::PeerName => (
            TcpFlow { call: TcpCall::ShutdownWrite, ..s },
            seq![
                if ret == 0 && word == AF_INET {
                    Verdict::Pass("getpeername on accepted socket")
                } else {
                    Verdict::FailErrno("getpeername on accepted socket", 0, ret)
                },
            ],
        ),
        TcpCall::ShutdownWrite => (TcpFlow { call: TcpCall::ServerReadEof, ..s }, seq![]),
        TcpCall::ServerReadEof => (
            done,
            seq![check_verdict("shutdown(SHUT_WR) → server reads EOF", ret == 0)],
        ),
        TcpCall::Done => (s, seq![]),
    }
}

/// The descriptors the TCP test closes when it is done, in the order it
/// closes them.
pub open spec fn tcp_release(s: TcpFlow) -> Seq<i64> {
    held(seq![s.accepted, s.client, s.listener])
}

impl TcpFlow {
    /// The state before the first call.
    pub fn start() -> (s: Self)
        ensures
            s == tcp_start(),
    {
        TcpFlow { call: TcpCall::ListenerSocket, listener: -1, client: -1, accepted: -1, port: 0 }
    }

    /// The client's payload.
    pub fn payload() -> (r: &'static str)
        ensures
            r.spec_bytes() == tcp_payload(),
    {
        "POSIX conformance TCP payload!"
    }

    /// The server's reply.
    pub fn reply() -> (r: &'static str)
        ensures
            r.spec_bytes() == tcp_reply(),
    {
        "ACK"
    }

    /// Judges what the call `self.call` returned and moves to the next call.
    pub fn step(&mut self, ret: i64, word: u64, data: &[u8]) -> (v: Vec<Verdict>)
        ensures
            (*final(self), v@) == tcp_next(*old(self), ret, word, data@),
    {
        let s = *self;
        match s.call {
            TcpCall::ListenerSocket => {
                if ret < 0 {
                    self.call = TcpCall::Done;
                    vec![Verdict::FailErrno("TCP data flow: listener socket", 0, ret)]
                } else {
                    self.call = TcpCall::ReuseAddr;
                    self.listener = ret;
                    vec![]
                }
            },
            TcpCall::ReuseAddr => {
                self.call = TcpCall::Bind;
                vec![]
            },
            TcpCall::Bind => {
                if ret != 0 {
                    self.call = TcpCall::Done;
                    vec![Verdict::FailErrno("TCP data flow: bind", 0, ret)]
                } else {
                    self.call = TcpCall::Listen;
                    vec![]
                }
            },
            TcpCall::Listen => {
                if ret != 0 {
                    self.call = TcpCall::Done;
                    vec![Verdict::FailErrno("TCP data flow: listen", 0, ret)]
                } else {
                    self.call = TcpCall::LocalName;
                    vec![]
                }
            },
            TcpCall::LocalName => {
                self.call = TcpCall::ClientSocket;
                self.port = word as u16;
                vec![]
            },
            TcpCall::ClientSocket => {
                if ret < 0 {
                    self.call = TcpCall::Done;
                    vec![Verdict::FailErrno("TCP data flow: client socket", 0, ret)]
                } else {
                    self.call = TcpCall::Connect;
                    self.client = ret;
                    vec![]
                }
            },
            TcpCall::Connect => {
                if ret != 0 {
                    self.call = TcpCall::Done;
                    vec![Verdict::FailErrno("TCP connect to listener", 0, ret)]
                } else {
                    self.call = TcpCall::Accept;
                    vec![Verdict::Pass("TCP connect succeeds")]
                }
            },
            TcpCall::Accept => {
                if ret < 0 {
                    self.call = TcpCall::Done;
                    vec![Verdict::FailErrno("TCP accept", 0, ret)]
                } else {
                    self.call = TcpCall::ClientWrite;
                    self.accepted = ret;
                    vec![
                        Verdict::Pass("TCP accept returns connected fd"),
                        Verdict::check("accepted peer is 127.0.0.1", word == LOOPBACK),
                    ]
                }
            },
            TcpCall::ClientWrite => {
                self.call = TcpCall::ServerRead;
                vec![Verdict::errno("client write returns exact count", ret, 30)]
            },
            TcpCall::ServerRead => {
                self.call = TcpCall::ServerReply;
                let ok = read_matches(ret, data, Self::payload().as_bytes());
                vec![
                    Verdict::errno("server read returns exact count", ret, 30),
                    Verdict::check("received data matches sent data", ok),
                ]
            },
            TcpCall::ServerReply => {
                self.call = TcpCall::ClientRead;
                if ret != 3 {
                    vec![Verdict::FailErrno("server reply write", 3, ret)]
                } else {
                    vec![]
                }
            },
            TcpCall::ClientRead => {
                self.call = TcpCall::PeerName;
                let ok = read_matches(ret, data, Self::reply().as_bytes());
                vec![Verdict::check("bidirectional data flow works", ok)]
            },
            TcpCall::PeerName => {
                self.call = TcpCall::ShutdownWrite;
                if ret == 0 && word == AF_INET {
                    vec![Verdict::Pass("getpeername on accepted socket")]
                } else {
                    vec![Verdict::FailErrno("getpeername on accepted socket", 0, ret)]
                }
            },
            TcpCall::ShutdownWrite => {
                self.call = TcpCall::ServerReadEof;
                vec![]
            },
            TcpCall::ServerReadEof => {
                self.call = TcpCall::Done;
                vec![Verdict::check("shutdown(SHUT_WR) → server reads EOF", ret == 0)]
            },
            TcpCall::Done => vec![],
        }
    }

    /// The descriptors to close once the test is done.
    pub fn release(&self) -> (r: Vec<i64>)
        ensures
            r@ == tcp_release(*self),
    {
        let fds = [self.accepted, self.client, self.listener];
        proof {
            assert(fds@ == seq![self.accepted, self.client, self.listener]);
        }
        held_of(&fds)
    }
}

/// The state before the TCP test's first call.
pub open spec fn tcp_start() -> TcpFlow {
    TcpFlow { call: TcpCall::ListenerSocket, listener: -1i64, client: -1i64, accepted: -1i64, port: 0u16 }
}

/// Law: when the listener socket cannot be created, the TCP test reports
/// exactly one failure, stops, and has nothing to close.
pub proof fn lemma_tcp_listener_failure(ret: i64, word: u64, data: Seq<u8>)
    requires
        ret < 0,
    ensures
        tcp_next(tcp_start(), ret, word, data).0.call == TcpCall::Done,
        tcp_next(tcp_start(), ret, word, data).1 == seq![
            Verdict::FailErrno("TCP data flow: listener socket", 0, ret),
        ],
        tcp_release(tcp_next(tcp_start(), ret, word, data).0) == Seq::<i64>::empty(),
{
    let s = tcp_next(tcp_start(), ret, word, data).0;
    lemma_held_three(s.accepted, s.client, s.listener);
    assert(Seq::<i64>::empty() + Seq::<i64>::empty() + Seq::<i64>::empty() =~= Seq::<i64>::empty());
}

/// Law: a finished TCP test stays finished: a further step changes nothing
/// and reports nothing.
pub proof fn lemma_tcp_done_is_final(s: TcpFlow, ret: i64, word: u64, data: Seq<u8>)
    requires
        s.call == TcpCall::Done,
    ensures
        tcp_next(s, ret, word, data) == (s, Seq::<Verdict>::empty()),
{
}

/// Law: a step never lets go of a descriptor the test holds; a descriptor
/// field changes only on the call that obtains it, and then to the
/// descriptor that call returned.
pub proof fn lemma_tcp_keeps_descriptors(s: TcpFlow, ret: i64, word: u64, data: Seq<u8>)
    ensures
        ({
            let n = tcp_next(s, ret, word, data).0;
            &&& n.listener != s.listener ==> s.call == TcpCall::ListenerSocket && n.listener == ret
                && ret >= 0
            &&& n.client != s.client ==> s.call == TcpCall::ClientSocket && n.client == ret && ret
                >= 0
            &&& n.accepted != s.accepted ==> s.call == TcpCall::Accept && n.accepted == ret && ret
                >= 0
        }),
{
}

/// Law: what the TCP test closes at the end is exactly the descriptors it
/// holds, each once: the accepted one, the client and the listener, each
/// when obtained.
pub proof fn lemma_tcp_release_exact(s: TcpFlow)
    ensures
        tcp_release(s) == (if s.accepted >= 0 { seq![s.accepted] } else { seq![] }) + (
        if s.client >= 0 {
            seq![s.client]
        } else {
            seq![]
        }) + (if s.listener >= 0 {
            seq![s.listener]
        } else {
            seq![]
        }),
{
    lemma_held_three(s.accepted, s.client, s.listener);
}

/// Law: each setup call of the TCP test that fails (a socket call returning a
/// negative value, bind, listen or connect returning anything but 0, accept
/// returning a negative value) ends the test with exactly one failure that
/// names the step and shows 0 expected and the value returned; the
/// descriptors held so far stay held, to be closed.
pub proof fn lemma_tcp_failed_setup_step(s: TcpFlow, ret: i64, word: u64, data: Seq<u8>)
    requires
        (s.call == TcpCall::ListenerSocket && ret < 0) || (s.call == TcpCall::Bind && ret != 0) || (
        s.call == TcpCall::Listen && ret != 0) || (s.call == TcpCall::ClientSocket && ret < 0) || (
        s.call == TcpCall::Connect && ret != 0) || (s.call == TcpCall::Accept && ret < 0),
    ensures
        ({
            let (n, v) = tcp_next(s, ret, word, data);
            &&& n.call == TcpCall::Done
            &&& n.listener == s.listener && n.client == s.client && n.accepted == s.accepted
            &&& v.len() == 1
            &&& !(v[0] is Pass)
            &&& s.call == TcpCall::ListenerSocket ==> v[0] == Verdict::FailErrno(
                "TCP data flow: listener socket",
                0,
                ret,
            )
            &&& s.call == TcpCall::Bind ==> v[0] == Verdict::FailErrno("TCP data flow: bind", 0, ret)
            &&& s.call == TcpCall::Listen ==> v[0] == Verdict::FailErrno(
                "TCP data flow: listen",
                0,
                ret,
            )
            &&& s.call == TcpCall::ClientSocket ==> v[0] == Verdict::FailErrno(
                "TCP data flow: client socket",
                0,
                ret,
            )
            &&& s.call == TcpCall::Connect ==> v[0] == Verdict::FailErrno(
                "TCP connect to listener",
                0,
                ret,
            )
            &&& s.call == TcpCall::Accept ==> v[0] == Verdict::FailErrno("TCP accept", 0, ret)
        }),
{
}

/// Law: the TCP test issues its calls in a fixed order: a setup call that
/// succeeds, and every other call whatever it returns, leads to the next
/// call of the sequence listener socket, SO_REUSEADDR, bind, listen,
/// getsockname, client socket, connect, accept, client write, server read,
/// server reply, client read, getpeername, shutdown, EOF read; the last one
/// ends the test. A successful setup call reports no failure.
pub proof fn lemma_tcp_call_order(s: TcpFlow, ret: i64, word: u64, data: Seq<u8>)
    ensures
        ({
            let (n, v) = tcp_next(s, ret, word, data);
            &&& (s.call == TcpCall::ListenerSocket && ret >= 0) ==> n.call == TcpCall::ReuseAddr
                && n.listener == ret && v.len() == 0
            &&& s.call == TcpCall::ReuseAddr ==> n.call == TcpCall::Bind && v.len() == 0
            &&& (s.call == TcpCall::Bind && ret == 0) ==> n.call == TcpCall::Listen && v.len() == 0
            &&& (s.call == TcpCall::Listen && ret == 0) ==> n.call == TcpCall::LocalName && v.len()
                == 0
            &&& s.call == TcpCall::LocalName ==> n.call == TcpCall::ClientSocket && n.port == word
                as u16 && v.len() == 0
            &&& (s.call == TcpCall::ClientSocket && ret >= 0) ==> n.call == TcpCall::Connect
                && n.client == ret && v.len() == 0
            &&& (s.call == TcpCall::Connect && ret == 0) ==> n.call == TcpCall::Accept && v
                == seq![Verdict::Pass("TCP connect succeeds")]
            &&& (s.call == TcpCall::Accept && ret >= 0) ==> n.call == TcpCall::ClientWrite
                && n.accepted == ret
            &&& s.call == TcpCall::ClientWrite ==> n.call == TcpCall::ServerRead
            &&& s.call == TcpCall::ServerRead ==> n.call == TcpCall::ServerReply
            &&& s.call == TcpCall::ServerReply ==> n.call == TcpCall::ClientRead
            &&& s.call == TcpCall::ClientRead ==> n.call == TcpCall::PeerName
            &&& s.call == TcpCall::PeerName ==> n.call == TcpCall::ShutdownWrite
            &&& s.call == TcpCall::ShutdownWrite ==> n.call == TcpCall::ServerReadEof && v.len()
                == 0
            &&& s.call == TcpCall::ServerReadEof ==> n.call == TcpCall::Done
        }),
{
}

/// Law: how the TCP test judges the data exchange. The accepted peer passes
/// exactly when it is 127.0.0.1; each write or read passes exactly when it
/// moved the whole message (30 bytes of payload, 3 of reply), and fails
/// showing the expected and returned counts otherwise; the received data
/// passes exactly when the read returned the payload's length and the buffer
/// starts with the payload; a short server reply is reported, a full one
/// is not; getpeername passes exactly when it returned 0 with family
/// `AF_INET`; the read after shutdown passes exactly when it returned 0.
pub proof fn lemma_tcp_judgements(s: TcpFlow, ret: i64, word: u64, data: Seq<u8>)
    ensures
        ({
            let (n, v) = tcp_next(s, ret, word, data);
            &&& (s.call == TcpCall::Accept && ret >= 0) ==> v.len() == 2 && v[0] == Verdict::Pass(
                "TCP accept returns connected fd",
            ) && (v[1] is Pass <==> word == 0x7F00_0001) && (v[1] is Pass ==> v[1] == Verdict::Pass(
                "accepted peer is 127.0.0.1",
            )) && (!(v[1] is Pass) ==> v[1] == Verdict::Fail("accepted peer is 127.0.0.1"))
            &&& s.call == TcpCall::ClientWrite ==> v == seq![
                if ret == 30 {
                    Verdict::Pass("client write returns exact count")
                } else {
                    Verdict::FailErrno("client write returns exact count", 30, ret)
                },
            ]
            &&& s.call == TcpCall::ServerRead ==> v.len() == 2 && v[0] == (if ret == 30 {
                Verdict::Pass("server read returns exact count")
            } else {
                Verdict::FailErrno("server read returns exact count", 30, ret)
            }) && v[1] == (if ret == 30 && data.len() >= 30 && data.subrange(0, 30)
                == tcp_payload() {
                Verdict::Pass("received data matches sent data")
            } else {
                Verdict::Fail("received data matches sent data")
            })
            &&& s.call == TcpCall::ServerReply ==> (v.len() == 0 <==> ret == 3) && (ret != 3 ==> v
                == seq![Verdict::FailErrno("server reply write", 3, ret)])
            &&& s.call == TcpCall::ClientRead ==> v == seq![
                if ret == 3 && data.len() >= 3 && data.subrange(0, 3) == tcp_reply() {
                    Verdict::Pass("bidirectional data flow works")
                } else {
                    Verdict::Fail("bidirectional data flow works")
                },
            ]
            &&& s.call == TcpCall::PeerName ==> v == seq![
                if ret == 0 && word == 2 {
                    Verdict::Pass("getpeername on accepted socket")
                } else {
                    Verdict::FailErrno("getpeername on accepted socket", 0, ret)
                },
            ]
            &&& s.call == TcpCall::ServerReadEof ==> v == seq![
                if ret == 0 {
                    Verdict::Pass("shutdown(SHUT_WR) → server reads EOF")
                } else {
                    Verdict::Fail("shutdown(SHUT_WR) → server reads EOF")
                },
            ]
        }),
{
    lemma_payload_lengths();
}

/// Law: the TCP payload is 30 bytes long and the reply is the three bytes
/// `ACK`; the UDP datagram is 14 bytes and the Unix-domain payload 19.
pub proof fn lemma_payload_lengths()
    ensures
        tcp_payload().len() == 30,
        tcp_reply() == seq![65u8, 67u8, 75u8],
        udp_payload().len() == 14,
        unix_payload().len() == 19,
{
    broadcast use vstd::string::is_ascii_spec_bytes;
    reveal_strlit("POSIX conformance TCP payload!");
    reveal_strlit("ACK");
    reveal_strlit("UDP POSIX test");
    reveal_strlit("unix domain payload");
    assert(vstd::string::is_ascii("POSIX conformance TCP payload!"));
    assert(vstd::string::is_ascii("ACK"));
    assert(vstd::string::is_ascii("UDP POSIX test"));
    assert(vstd::string::is_ascii("unix domain payload"));
    assert("ACK".spec_bytes() =~= seq![65u8, 67u8, 75u8]);
}

/// Law: `reads_back` holds exactly when the read returned the expected
/// length and every expected byte is in the buffer at its place.
pub proof fn lemma_reads_back_bytewise(count: i64, buf: Seq<u8>, expected: Seq<u8>)
    ensures
        reads_back(count, buf, expected) <==> (count == expected.len() && expected.len() <= buf.len()
            && forall|i: int| 0 <= i < expected.len() ==> buf[i] == expected[i]),
{
    if count == expected.len() && expected.len() <= buf.len() && (forall|i: int|
        0 <= i < expected.len() ==> buf[i] == expected[i]) {
        assert(buf.subrange(0, expected.len() as int) =~= expected);
    }
    if reads_back(count, buf, expected) {
        assert forall|i: int| 0 <= i < expected.len() implies buf[i] == expected[i] by {
            assert(buf.subrange(0, expected.len() as int)[i] == expected[i]);
        }
    }
}

/// `held` of three descriptors, spelled out.
proof fn lemma_held_three(a: i64, b: i64, c: i64)
    ensures
        held(seq![a, b, c]) == (if a >= 0 { seq![a] } else { seq![] }) + (if b >= 0 {
            seq![b]
        } else {
            seq![]
        }) + (if c >= 0 {
            seq![c]
        } else {
            seq![]
        }),
{
    assert(seq![a, b, c].drop_last() == seq![a, b]);
    assert(seq![a, b].drop_last() == seq![a]);
    assert(seq![a].drop_last() == Seq::<i64>::empty());
    assert(held(Seq::<i64>::empty()) == Seq::<i64>::empty());
    assert(Seq::<i64>::empty().push(a) =~= seq![a]);
    assert(held(seq![a]) == (if a >= 0 { seq![a] } else { Seq::<i64>::empty() }));
    assert(held(seq![a, b]) == (if a >= 0 { seq![a] } else { Seq::<i64>::empty() }) + (if b >= 0 {
        seq![b]
    } else {
        Seq::<i64>::empty()
    }));
}

/// `held` of two descriptors, spelled out.
proof fn lemma_held_two(a: i64, b: i64)
    ensures
        held(seq![a, b]) == (if a >= 0 { seq![a] } else { seq![] }) + (if b >= 0 {
            seq![b]
        } else {
            seq![]
        }),
{
    assert(seq![a, b].drop_last() == seq![a]);
    assert(seq![a].drop_last() == Seq::<i64>::empty());
    assert(held(Seq::<i64>::empty()) == Seq::<i64>::empty());
    assert(Seq::<i64>::empty().push(a) =~= seq![a]);
    assert(held(seq![a]) == (if a >= 0 { seq![a] } else { Seq::<i64>::empty() }));
}

// ── UDP: sendto, recvfrom ────────────────────────────────────────────────

/// The calls of the UDP data-flow test, in order.
#[derive(Clone, Copy, PartialEq, Eq, Structural, Debug)]
pub enum UdpCall {
    /// `socket(AF_INET, SOCK_DGRAM)` for the server.
    ServerSocket,
    /// `socket(AF_INET, SOCK_DGRAM)` for the client.
    ClientSocket,
    /// `bind(server, 127.0.0.1:0)`.
    Bind,
    /// `getsockname(server)`; the event's address word is the bound port.
    LocalName,
    /// `sendto(client, payload, 127.0.0.1:port)`.
    SendTo,
    /// `recvfrom(server, 64 bytes)`; the event carries the buffer and the
    /// sender's address (host order) and family.
    RecvFrom,
    /// The test is over; release the held descriptors.
    Done,
}

/// The state of the UDP data-flow test.
#[derive(Clone, Copy, PartialEq, Eq, Structural, Debug)]
pub struct UdpFlow {
    pub call: UdpCall,
    pub server: i64,
    pub client: i64,
    pub port: u16,
}

/// The datagram the client sends.
pub open spec fn udp_payload() -> Seq<u8> {
    "UDP POSIX test".spec_bytes()
}

/// The state before the UDP test's first call.
pub open spec fn udp_start() -> UdpFlow {
    UdpFlow { call: UdpCall::ServerSocket, server: -1i64, client: -1i64, port: 0u16 }
}

/// The UDP test as a table: from state `s` and what the call `s.call`
/// returned, the next state and the verdicts.
pub open spec fn udp_next(s: UdpFlow, ret: i64, addr: u64, family: u64, data: Seq<u8>) -> (
    UdpFlow,
    Seq<Verdict>,
) {
    let done = UdpFlow { call: UdpCall::Done, ..s };
    match s.call {
        UdpCall::ServerSocket => (UdpFlow { call: UdpCall::ClientSocket, server: ret, ..s }, seq![]),
        UdpCall::ClientSocket => if s.server < 0 || ret < 0 {
            (
                UdpFlow { call: UdpCall::Done, client: ret, ..s },
                seq![Verdict::Fail("UDP data flow: socket setup")],
            )
        } else {
            (UdpFlow { call: UdpCall::Bind, client: ret, ..s }, seq![])
        },
        UdpCall::Bind => if ret != 0 {
            (done, seq![Verdict::FailErrno("UDP server bind", 0, ret)])
        } else {
            (UdpFlow { call: UdpCall::LocalName, ..s }, seq![])
        },
        UdpCall::LocalName => (UdpFlow { call: UdpCall::SendTo, port: addr as u16, ..s }, seq![]),
        UdpCall::SendTo => (
            UdpFlow { call: UdpCall::RecvFrom, ..s },
            seq![errno_verdict("UDP sendto returns exact count", ret, 14)],
        ),
        UdpCall::RecvFrom => (
            done,
            seq![
                errno_verdict("UDP recvfrom returns exact count", ret, 14),
                check_verdict("UDP received data matches sent data", reads_back(ret, data, udp_payload())),
                check_verdict("recvfrom: sender is 127.0.0.1", addr == LOOPBACK && family == AF_INET),
            ],
        ),
        UdpCall::Done => (s, seq![]),
    }
}

/// The descriptors the UDP test closes when it is done, in order.
pub open spec fn udp_release(s: UdpFlow) -> Seq<i64> {
    held(seq![s.server, s.client])
}

impl UdpFlow {
    /// The state before the first call.
    pub fn start() -> (s: Self)
        ensures
            s == udp_start(),
    {
        UdpFlow { call: UdpCall::ServerSocket, server: -1, client: -1, port: 0 }
    }

    /// The client's datagram.
    pub fn payload() -> (r: &'static str)
        ensures
            r.spec_bytes() == udp_payload(),
    {
        "UDP POSIX test"
    }

    /// Judges what the call `self.call` returned and moves to the next call.
    pub fn step(&mut self, ret: i64, addr: u64, family: u64, data: &[u8]) -> (v: Vec<Verdict>)
        ensures
            (*final(self), v@) == udp_next(*old(self), ret, addr, family, data@),
    {
        match self.call {
            UdpCall::ServerSocket => {
                self.call = UdpCall::ClientSocket;
                self.server = ret;
                vec![]
            },
            UdpCall::ClientSocket => {
                self.client = ret;
                if self.server < 0 || ret < 0 {
                    self.call = UdpCall::Done;
                    vec![Verdict::Fail("UDP data flow: socket setup")]
                } else {
                    self.call = UdpCall::Bind;
                    vec![]
                }
            },
            UdpCall::Bind => {
                if ret != 0 {
                    self.call = UdpCall::Done;
                    vec![Verdict::FailErrno("UDP server bind", 0, ret)]
                } else {
                    self.call = UdpCall::LocalName;
                    vec![]
                }
            },
            UdpCall::LocalName => {
                self.call = UdpCall::SendTo;
                self.port = addr as u16;
                vec![]
            },
            UdpCall::SendTo => {
                self.call = UdpCall::RecvFrom;
                vec![Verdict::errno("UDP sendto returns exact count", ret, 14)]
            },
            UdpCall::RecvFrom => {
                self.call = UdpCall::Done;
                let ok = read_matches(ret, data, Self::payload().as_bytes());
                vec![
                    Verdict::errno("UDP recvfrom returns exact count", ret, 14),
                    Verdict::check("UDP received data matches sent data", ok),
                    Verdict::check(
                        "recvfrom: sender is 127.0.0.1",
                        addr == LOOPBACK && family == AF_INET,
                    ),
                ]
            },
            UdpCall::Done => vec![],
        }
    }

    /// The descriptors to close once the test is done.
    pub fn release(&self) -> (r: Vec<i64>)
        ensures
            r@ == udp_release(*self),
    {
        let fds = [self.server, self.client];
        proof {
            assert(fds@ == seq![self.server, self.client]);
        }
        held_of(&fds)
    }
}

/// Law: when either UDP socket cannot be created, the test reports exactly
/// one failure, stops, and closes exactly the socket that was created.
pub proof fn lemma_udp_setup_failure(server: i64, client: i64, addr: u64, family: u64, data: Seq<u8>)
    requires
        server < 0 || client < 0,
    ensures
        ({
            let s1 = udp_next(udp_start(), server, addr, family, data).0;
            let (s2, v) = udp_next(s1, client, addr, family, data);
            &&& s2.call == UdpCall::Done
            &&& v == seq![Verdict::Fail("UDP data flow: socket setup")]
            &&& udp_release(s2) == (if server >= 0 { seq![server] } else { seq![] }) + (if client
                >= 0 {
                seq![client]
            } else {
                seq![]
            })
        }),
{
    lemma_held_two(server, client);
}

/// Law: a finished UDP test stays finished.
pub proof fn lemma_udp_done_is_final(s: UdpFlow, ret: i64, addr: u64, family: u64, data: Seq<u8>)
    requires
        s.call == UdpCall::Done,
    ensures
        udp_next(s, ret, addr, family, data) == (s, Seq::<Verdict>::empty()),
{
}

// ── Unix domain: bind, connect, send, receive ────────────────────────────

/// The calls of the Unix-domain data-flow test, in order.
#[derive(Clone, Copy, PartialEq, Eq, Structural, Debug)]
pub enum UnixCall {
    /// `socket(AF_UNIX, SOCK_STREAM)` for the listener.
    ListenerSocket,
    /// `bind(listener, abstract address)`.
    Bind,
    /// `listen(listener, 1)`; its result is not judged.
    Listen,
    /// `socket(AF_UNIX, SOCK_STREAM)` for the client.
    ClientSocket,
    /// `connect(client, abstract address)`.
    Connect,
    /// `accept(listener)`.
    Accept,
    /// `write(client, payload)`.
    Send,
    /// `read(accepted, 32 bytes)`; the event's data is the buffer.
    Receive,
    /// The test is over; release the held descriptors.
    Done,
}

/// The state of the Unix-domain data-flow test; `sent` is what the write
/// returned.
#[derive(Clone, Copy, PartialEq, Eq, Structural, Debug)]
pub struct UnixFlow {
    pub call: UnixCall,
    pub listener: i64,
    pub client: i64,
    pub accepted: i64,
    pub sent: i64,
}

/// The bytes the client sends.
pub open spec fn unix_payload() -> Seq<u8> {
    "unix domain payload".spec_bytes()
}

/// The state before the Unix-domain test's first call.
pub open spec fn unix_start() -> UnixFlow {
    UnixFlow { call: UnixCall::ListenerSocket, listener: -1i64, client: -1i64, accepted: -1i64, sent: 0i64 }
}

/// The Unix-domain test as a table.
pub open spec fn unix_next(s: UnixFlow, ret: i64, data: Seq<u8>) -> (UnixFlow, Seq<Verdict>) {
    let done = UnixFlow { call: UnixCall::Done, ..s };
    match s.call {
        UnixCall::ListenerSocket => if ret < 0 {
            if ret == EAFNOSUPPORT {
                (done, seq![Verdict::Pass("AF_UNIX not supported (skipping)")])
            } else {
                (done, seq![Verdict::FailErrno("unix socket create", 0, ret)])
            }
        } else {
            (UnixFlow { call: UnixCall::Bind, listener: ret, ..s }, seq![])
        },
        UnixCall::Bind => if ret != 0 {
            (done, seq![Verdict::FailErrno("unix bind (abstract)", 0, ret)])
        } else {
            (UnixFlow { call: UnixCall::Listen, ..s }, seq![])
        },
        UnixCall::Listen => (UnixFlow { call: UnixCall::ClientSocket, ..s }, seq![]),
        UnixCall::ClientSocket => if ret < 0 {
            (done, seq![Verdict::FailErrno("unix client socket", 0, ret)])
        } else {
            (UnixFlow { call: UnixCall::Connect, client: ret, ..s }, seq![])
        },
        UnixCall::Connect => if ret != 0 {
            (done, seq![Verdict::FailErrno("unix connect", 0, ret)])
        } else {
            (UnixFlow { call: UnixCall::Accept, ..s }, seq![Verdict::Pass("unix domain connect")])
        },
        UnixCall::Accept => if ret < 0 {
            (done, seq![Verdict::FailErrno("unix accept", 0, ret)])
        } else {
            (
                UnixFlow { call: UnixCall::Send, accepted: ret, ..s },
                seq![Verdict::Pass("unix domain accept")],
            )
        },
        UnixCall::Send => (UnixFlow { call: UnixCall::Receive, sent: ret, ..s }, seq![]),
        UnixCall::Receive => (
            done,
            if s.sent == 19 && ret == 19 {
                seq![
                    check_verdict(
                        "unix domain: data round-trip matches",
                        reads_back(ret, data, unix_payload()),
                    ),
                ]
            } else {
                seq![Verdict::Fail("unix domain: send/recv counts")]
            },
        ),
        UnixCall::Done => (s, seq![]),
    }
}

/// The descriptors the Unix-domain test closes when it is done, in order.
pub open spec fn unix_release(s: UnixFlow) -> Seq<i64> {
    held(seq![s.accepted, s.client, s.listener])
}

impl UnixFlow {
    /// The state before the first call.
    pub fn start() -> (s: Self)
        ensures
            s == unix_start(),
    {
        UnixFlow { call: UnixCall::ListenerSocket, listener: -1, client: -1, accepted: -1, sent: 0 }
    }

    /// The client's payload.
    pub fn payload() -> (r: &'static str)
        ensures
            r.spec_bytes() == unix_payload(),
    {
        "unix domain payload"
    }

    /// Judges what the call `self.call` returned and moves to the next call.
    pub fn step(&mut self, ret: i64, data: &[u8]) -> (v: Vec<Verdict>)
        ensures
            (*final(self), v@) == unix_next(*old(self), ret, data@),
    {
        match self.call {
            UnixCall::ListenerSocket => {
                if ret < 0 {
                    self.call = UnixCall::Done;
                    if ret == EAFNOSUPPORT {
                        vec![Verdict::Pass("AF_UNIX not supported (skipping)")]
                    } else {
                        vec![Verdict::FailErrno("unix socket create", 0, ret)]
                    }
                } else {
                    self.call = UnixCall::Bind;
                    self.listener = ret;
                    vec![]
                }
            },
            UnixCall::Bind => {
                if ret != 0 {
                    self.call = UnixCall::Done;
                    vec![Verdict::FailErrno("unix bind (abstract)", 0, ret)]
                } else {
                    self.call = UnixCall::Listen;
                    vec![]
                }
            },
            UnixCall::Listen => {
                self.call = UnixCall::ClientSocket;
                vec![]
            },
            UnixCall::ClientSocket => {
                if ret < 0 {
                    self.call = UnixCall::Done;
                    vec![Verdict::FailErrno("unix client socket", 0, ret)]
                } else {
                    self.call = UnixCall::Connect;
                    self.client = ret;
                    vec![]
                }
            },
            UnixCall::Connect => {
                if ret != 0 {
                    self.call = UnixCall::Done;
                    vec![Verdict::FailErrno("unix connect", 0, ret)]
                } else {
                    self.call = UnixCall::Accept;
                    vec![Verdict::Pass("unix domain connect")]
                }
            },
            UnixCall::Accept => {
                if ret < 0 {
                    self.call = UnixCall::Done;
                    vec![Verdict::FailErrno("unix accept", 0, ret)]
                } else {
                    self.call = UnixCall::Send;
                    self.accepted = ret;
                    vec![Verdict::Pass("unix domain accept")]
                }
            },
            UnixCall::Send => {
                self.call = UnixCall::Receive;
                self.sent = ret;
                vec![]
            },
            UnixCall::Receive => {
                self.call = UnixCall::Done;
                if self.sent == 19 && ret == 19 {
                    let ok = read_matches(ret, data, Self::payload().as_bytes());
                    vec![Verdict::check("unix domain: data round-trip matches", ok)]
                } else {
                    vec![Verdict::Fail("unix domain: send/recv counts")]
                }
            },
            UnixCall::Done => vec![],
        }
    }

    /// The descriptors to close once the test is done.
    pub fn release(&self) -> (r: Vec<i64>)
        ensures
            r@ == unix_release(*self),
    {
        let fds = [self.accepted, self.client, self.listener];
        proof {
            assert(fds@ == seq![self.accepted, self.client, self.listener]);
        }
        held_of(&fds)
    }
}

/// Law: where `AF_UNIX` is not supported, the Unix-domain test reports
/// exactly one pass ("skipping"), stops, and has nothing to close.
pub proof fn lemma_unix_unsupported_skips(data: Seq<u8>)
    ensures
        unix_next(unix_start(), EAFNOSUPPORT, data).0.call == UnixCall::Done,
        unix_next(unix_start(), EAFNOSUPPORT, data).1 == seq![
            Verdict::Pass("AF_UNIX not supported (skipping)"),
        ],
        unix_release(unix_next(unix_start(), EAFNOSUPPORT, data).0) == Seq::<i64>::empty(),
{
    let s = unix_next(unix_start(), EAFNOSUPPORT, data).0;
    lemma_held_three(s.accepted, s.client, s.listener);
    assert(Seq::<i64>::empty() + Seq::<i64>::empty() + Seq::<i64>::empty() =~= Seq::<i64>::empty());
}

/// Law: the Unix-domain test closes exactly the descriptors it holds, each
/// once, and a step never lets go of one.
pub proof fn lemma_unix_keeps_descriptors(s: UnixFlow, ret: i64, data: Seq<u8>)
    ensures
        ({
            let n = unix_next(s, ret, data).0;
            &&& n.listener != s.listener ==> s.call == UnixCall::ListenerSocket && n.listener
                == ret && ret >= 0
            &&& n.client != s.client ==> s.call == UnixCall::ClientSocket && n.client == ret && ret
                >= 0
            &&& n.accepted != s.accepted ==> s.call == UnixCall::Accept && n.accepted == ret && ret
                >= 0
        }),
        unix_release(s) == (if s.accepted >= 0 { seq![s.accepted] } else { seq![] }) + (
        if s.client >= 0 {
            seq![s.client]
        } else {
            seq![]
        }) + (if s.listener >= 0 {
            seq![s.listener]
        } else {
            seq![]
        }),
{
    lemma_held_three(s.accepted, s.client, s.listener);
}

/// Law: the UDP test creates both sockets before judging either; when one of
/// them failed it reports exactly one failure and stops, and a failed bind
/// stops it with exactly one failure showing 0 expected and the value
/// returned. Otherwise it goes on: bind, getsockname (whose port is kept),
/// sendto, recvfrom, in that order, and the bind reports nothing.
pub proof fn lemma_udp_steps(s: UdpFlow, ret: i64, addr: u64, family: u64, data: Seq<u8>)
    ensures
        ({
            let (n, v) = udp_next(s, ret, addr, family, data);
            &&& s.call == UdpCall::ServerSocket ==> n.call == UdpCall::ClientSocket && n.server
                == ret && v.len() == 0
            &&& (s.call == UdpCall::ClientSocket && (s.server < 0 || ret < 0)) ==> n.call
                == UdpCall::Done && n.client == ret && v == seq![
                Verdict::Fail("UDP data flow: socket setup"),
            ]
            &&& (s.call == UdpCall::ClientSocket && s.server >= 0 && ret >= 0) ==> n.call
                == UdpCall::Bind && n.client == ret && v.len() == 0
            &&& (s.call == UdpCall::Bind && ret != 0) ==> n.call == UdpCall::Done && v == seq![
                Verdict::FailErrno("UDP server bind", 0, ret),
            ]
            &&& (s.call == UdpCall::Bind && ret == 0) ==> n.call == UdpCall::LocalName && v.len()
                == 0
            &&& s.call == UdpCall::LocalName ==> n.call == UdpCall::SendTo && n.port == addr as u16
                && v.len() == 0
            &&& s.call != UdpCall::ServerSocket && s.call != UdpCall::ClientSocket ==> n.server
                == s.server && n.client == s.client
        }),
{
}

/// Law: how the UDP test judges the datagram. sendto passes exactly when it
/// sent all 14 bytes and otherwise fails showing 14 and the value returned;
/// recvfrom likewise; the data passes exactly when recvfrom returned 14 and
/// the buffer starts with the datagram; the sender passes exactly when it is
/// 127.0.0.1 with family `AF_INET`. After recvfrom the test is over.
pub proof fn lemma_udp_judgements(s: UdpFlow, ret: i64, addr: u64, family: u64, data: Seq<u8>)
    ensures
        ({
            let (n, v) = udp_next(s, ret, addr, family, data);
            &&& s.call == UdpCall::SendTo ==> n.call == UdpCall::RecvFrom && v == seq![
                if ret == 14 {
                    Verdict::Pass("UDP sendto returns exact count")
                } else {
                    Verdict::FailErrno("UDP sendto returns exact count", 14, ret)
                },
            ]
            &&& s.call == UdpCall::RecvFrom ==> n.call == UdpCall::Done && v == seq![
                if ret == 14 {
                    Verdict::Pass("UDP recvfrom returns exact count")
                } else {
                    Verdict::FailErrno("UDP recvfrom returns exact count", 14, ret)
                },
                if ret == 14 && data.len() >= 14 && data.subrange(0, 14) == udp_payload() {
                    Verdict::Pass("UDP received data matches sent data")
                } else {
                    Verdict::Fail("UDP received data matches sent data")
                },
                if addr == 0x7F00_0001 && family == 2 {
                    Verdict::Pass("recvfrom: sender is 127.0.0.1")
                } else {
                    Verdict::Fail("recvfrom: sender is 127.0.0.1")
                },
            ]
        }),
{
    lemma_payload_lengths();
}

/// Law: the UDP test closes exactly the sockets it created, server first,
/// each once.
pub proof fn lemma_udp_release_exact(s: UdpFlow)
    ensures
        udp_release(s) == (if s.server >= 0 { seq![s.server] } else { seq![] }) + (if s.client
            >= 0 {
            seq![s.client]
        } else {
            seq![]
        }),
{
    lemma_held_two(s.server, s.client);
}

/// Law: each setup call of the Unix-domain test that fails ends it with
/// exactly one verdict naming the step: a failure showing 0 expected and the
/// value returned, except that a listener socket refused with
/// `EAFNOSUPPORT` is a pass ("skipping"). Descriptors held so far stay held.
pub proof fn lemma_unix_failed_setup_step(s: UnixFlow, ret: i64, data: Seq<u8>)
    requires
        (s.call == UnixCall::ListenerSocket && ret < 0) || (s.call == UnixCall::Bind && ret != 0)
            || (s.call == UnixCall::ClientSocket && ret < 0) || (s.call == UnixCall::Connect && ret
            != 0) || (s.call == UnixCall::Accept && ret < 0),
    ensures
        ({
            let (n, v) = unix_next(s, ret, data);
            &&& n.call == UnixCall::Done
            &&& n.listener == s.listener && n.client == s.client && n.accepted == s.accepted
            &&& v.len() == 1
            &&& (v[0] is Pass <==> (s.call == UnixCall::ListenerSocket && ret == -97))
            &&& (s.call == UnixCall::ListenerSocket && ret == -97) ==> v[0] == Verdict::Pass(
                "AF_UNIX not supported (skipping)",
            )
            &&& (s.call == UnixCall::ListenerSocket && ret != -97) ==> v[0] == Verdict::FailErrno(
                "unix socket create",
                0,
                ret,
            )
            &&& s.call == UnixCall::Bind ==> v[0] == Verdict::FailErrno("unix bind (abstract)", 0, ret)
            &&& s.call == UnixCall::ClientSocket ==> v[0] == Verdict::FailErrno(
                "unix client socket",
                0,
                ret,
            )
            &&& s.call == UnixCall::Connect ==> v[0] == Verdict::FailErrno("unix connect", 0, ret)
            &&& s.call == UnixCall::Accept ==> v[0] == Verdict::FailErrno("unix accept", 0, ret)
        }),
{
}

/// Law: the Unix-domain test's calls come in the order listener socket,
/// bind, listen, client socket, connect, accept, send, receive; connect and
/// accept that succeed each pass; the exchange passes exactly when both the
/// send and the receive moved all 19 bytes and the buffer starts with the
/// payload; when either count is short it fails as a count failure. After
/// the receive the test is over.
pub proof fn lemma_unix_steps(s: UnixFlow, ret: i64, data: Seq<u8>)
    ensures
        ({
            let (n, v) = unix_next(s, ret, data);
            &&& (s.call == UnixCall::ListenerSocket && ret >= 0) ==> n.call == UnixCall::Bind
                && n.listener == ret && v.len() == 0
            &&& (s.call == UnixCall::Bind && ret == 0) ==> n.call == UnixCall::Listen && v.len() == 0
            &&& s.call == UnixCall::Listen ==> n.call == UnixCall::ClientSocket && v.len() == 0
            &&& (s.call == UnixCall::ClientSocket && ret >= 0) ==> n.call == UnixCall::Connect
                && n.client == ret && v.len() == 0
            &&& (s.call == UnixCall::Connect && ret == 0) ==> n.call == UnixCall::Accept && v
                == seq![Verdict::Pass("unix domain connect")]
            &&& (s.call == UnixCall::Accept && ret >= 0) ==> n.call == UnixCall::Send && n.accepted
                == ret && v == seq![Verdict::Pass("unix domain accept")]
            &&& s.call == UnixCall::Send ==> n.call == UnixCall::Receive && n.sent == ret && v.len()
                == 0
            &&& s.call == UnixCall::Receive ==> n.call == UnixCall::Done && v == seq![
                if s.sent == 19 && ret == 19 {
                    if data.len() >= 19 && data.subrange(0, 19) == unix_payload() {
                        Verdict::Pass("unix domain: data round-trip matches")
                    } else {
                        Verdict::Fail("unix domain: data round-trip matches")
                    }
                } else {
                    Verdict::Fail("unix domain: send/recv counts")
                },
            ]
        }),
{
    lemma_payload_lengths();
}

/// Law: a finished Unix-domain test stays finished.
pub proof fn lemma_unix_done_is_final(s: UnixFlow, ret: i64, data: Seq<u8>)
    requires
        s.call == UnixCall::Done,
    ensures
        unix_next(s, ret, data) == (s, Seq::<Verdict>::empty()),
{
}

/// Law: each of the three socket flows starts at its first call with no
/// descriptor held.
pub proof fn lemma_flows_start_empty()
    ensures
        tcp_release(tcp_start()) == Seq::<i64>::empty(),
        udp_release(udp_start()) == Seq::<i64>::empty(),
        unix_release(unix_start()) == Seq::<i64>::empty(),
        tcp_start().call == TcpCall::ListenerSocket,
        udp_start().call == UdpCall::ServerSocket,
        unix_start().call == UnixCall::ListenerSocket,
{
    lemma_held_three(-1i64, -1i64, -1i64);
    lemma_held_two(-1i64, -1i64);
    assert(Seq::<i64>::empty() + Seq::<i64>::empty() + Seq::<i64>::empty() =~= Seq::<i64>::empty());
    assert(Seq::<i64>::empty() + Seq::<i64>::empty() =~= Seq::<i64>::empty());
}

} // verus!
