use posix_conformance::limits::{PrlimitCall, PrlimitFlow};
use posix_conformance::report::Verdict;
use posix_conformance::sockets::{TcpCall, TcpFlow, UdpCall, UdpFlow, UnixCall, UnixFlow};

fn buffer(prefix: &[u8], len: usize) -> Vec<u8> {
    let mut b = prefix.to_vec();
    b.resize(len, 0);
    b
}

#[test]
fn tcp_listener_failure_stops_at_once() {
    let mut f = TcpFlow::start();
    let v = f.step(-97, 0, &[]);
    assert_eq!(v, vec![Verdict::FailErrno("TCP data flow: listener socket", 0, -97)]);
    assert_eq!(f.call, TcpCall::Done);
    assert!(f.release().is_empty());
    assert!(f.step(3, 0, &[]).is_empty());
    assert_eq!(f.call, TcpCall::Done);
}

#[test]
fn tcp_connect_failure_closes_client_then_listener() {
    let mut f = TcpFlow::start();
    for (ret, word) in [(3, 0), (0, 0), (0, 0), (0, 0), (0, 4242), (4, 0)] {
        assert!(f.step(ret, word, &[]).is_empty());
    }
    assert_eq!(f.port, 4242);
    assert_eq!(f.call, TcpCall::Connect);
    let v = f.step(-111, 0, &[]);
    assert_eq!(v, vec![Verdict::FailErrno("TCP connect to listener", 0, -111)]);
    assert_eq!(f.call, TcpCall::Done);
    assert_eq!(f.release(), vec![4, 3]);
}

#[test]
fn tcp_full_run() {
    let payload = TcpFlow::payload().as_bytes();
    let mut f = TcpFlow::start();
    let mut all = Vec::new();
    let script: Vec<(i64, u64, Vec<u8>)> = vec![
        (3, 0, vec![]),
        (0, 0, vec![]),
        (0, 0, vec![]),
        (0, 0, vec![]),
        (0, 5555, vec![]),
        (4, 0, vec![]),
        (0, 0, vec![]),
        (5, 0x7F00_0001, vec![]),
        (30, 0, vec![]),
        (30, 0, buffer(payload, 64)),
        (3, 0, vec![]),
        (3, 0, buffer(b"ACK", 8)),
        (0, 2, vec![]),
        (0, 0, vec![]),
        (0, 0, buffer(b"", 64)),
    ];
    for (ret, word, data) in script {
        all.extend(f.step(ret, word, &data));
    }
    assert_eq!(f.call, TcpCall::Done);
    assert_eq!(all.len(), 9);
    assert!(all.iter().all(|x| matches!(x, Verdict::Pass(_))));
    assert_eq!(f.release(), vec![5, 4, 3]);
}

#[test]
fn tcp_short_read_and_wrong_peer() {
    let mut f = TcpFlow {
        call: TcpCall::ServerRead,
        listener: 3,
        client: 4,
        accepted: 5,
        port: 1,
    };
    let v = f.step(10, 0, &buffer(b"POSIX conf", 64));
    assert_eq!(
        v,
        vec![
            Verdict::FailErrno("server read returns exact count", 30, 10),
            Verdict::Fail("received data matches sent data"),
        ]
    );
    let mut g = TcpFlow { call: TcpCall::Accept, ..f };
    let v = g.step(6, 0x0A00_0001, &[]);
    assert_eq!(v[1], Verdict::Fail("accepted peer is 127.0.0.1"));
    assert_eq!(g.accepted, 6);
    let mut h = TcpFlow { call: TcpCall::ServerReply, ..f };
    assert_eq!(h.step(1, 0, &[]), vec![Verdict::FailErrno("server reply write", 3, 1)]);
}

#[test]
fn udp_setup_failure_closes_the_created_socket() {
    let mut f = UdpFlow::start();
    assert!(f.step(3, 0, 0, &[]).is_empty());
    let v = f.step(-24, 0, 0, &[]);
    assert_eq!(v, vec![Verdict::Fail("UDP data flow: socket setup")]);
    assert_eq!(f.call, UdpCall::Done);
    assert_eq!(f.release(), vec![3]);
}

#[test]
fn udp_full_run() {
    let msg = UdpFlow::payload().as_bytes();
    let mut f = UdpFlow::start();
    let mut all = Vec::new();
    all.extend(f.step(3, 0, 0, &[]));
    all.extend(f.step(4, 0, 0, &[]));
    all.extend(f.step(0, 0, 0, &[]));
    all.extend(f.step(0, 777, 0, &[]));
    assert_eq!(f.port, 777);
    all.extend(f.step(14, 0, 0, &[]));
    all.extend(f.step(14, 0x7F00_0001, 2, &buffer(msg, 64)));
    assert_eq!(f.call, UdpCall::Done);
    assert_eq!(all.len(), 4);
    assert!(all.iter().all(|x| matches!(x, Verdict::Pass(_))));
    assert_eq!(f.release(), vec![3, 4]);
}

#[test]
fn unix_unsupported_is_skipped() {
    let mut f = UnixFlow::start();
    let v = f.step(-97, &[]);
    assert_eq!(v, vec![Verdict::Pass("AF_UNIX not supported (skipping)")]);
    assert_eq!(f.call, UnixCall::Done);
    assert!(f.release().is_empty());
    let mut g = UnixFlow::start();
    assert_eq!(g.step(-24, &[]), vec![Verdict::FailErrno("unix socket create", 0, -24)]);
}

#[test]
fn unix_full_run_and_short_send() {
    let msg = UnixFlow::payload().as_bytes();
    let mut f = UnixFlow::start();
    let mut all = Vec::new();
    for ret in [3, 0, 0, 4, 0, 5, 19] {
        all.extend(f.step(ret, &[]));
    }
    all.extend(f.step(19, &buffer(msg, 32)));
    assert_eq!(
        all,
        vec![
            Verdict::Pass("unix domain connect"),
            Verdict::Pass("unix domain accept"),
            Verdict::Pass("unix domain: data round-trip matches"),
        ]
    );
    assert_eq!(f.release(), vec![5, 4, 3]);
    let mut g = UnixFlow { call: UnixCall::Send, ..f };
    g.step(7, &[]);
    assert_eq!(g.step(19, &buffer(msg, 32)), vec![Verdict::Fail("unix domain: send/recv counts")]);
}

#[test]
fn prlimit_stops_at_first_unreadable_limit() {
    let mut f = PrlimitFlow::start();
    let mut all = Vec::new();
    all.extend(f.step(0, 1024, 4096));
    all.extend(f.step(0, 0, 0));
    all.extend(f.step(0, 0, 0));
    assert_eq!(f.call, PrlimitCall::GetOther(0));
    all.extend(f.step(0, 0, 0));
    all.extend(f.step(-22, 0, 0));
    assert_eq!(f.call, PrlimitCall::Done);
    assert_eq!(
        all,
        vec![
            Verdict::Pass("prlimit64: get RLIMIT_NOFILE"),
            Verdict::Pass("prlimit64: NOFILE soft <= hard limit"),
            Verdict::Pass("prlimit64: get RLIMIT_STACK"),
            Verdict::Pass("prlimit64: get RLIMIT_AS"),
            Verdict::Fail("prlimit64: get resource limit"),
        ]
    );
}

#[test]
fn prlimit_reads_the_seven_limits_in_order() {
    let expected = [0u64, 1, 2, 4, 5, 6, 8];
    for (k, r) in expected.iter().enumerate() {
        assert_eq!(PrlimitFlow::other_resource(k as u8), *r);
    }
}

#[test]
fn prlimit_restores_the_saved_core_limit() {
    let mut f = PrlimitFlow::start();
    for _ in 0..3 {
        f.step(0, 1, 1);
    }
    for _ in 0..6 {
        assert!(f.step(0, 0, 0).is_empty());
    }
    assert_eq!(f.step(0, 0, 0), vec![Verdict::Pass("prlimit64: get multiple resource limits")]);
    assert_eq!(
        f.step(-22, 0, 0),
        vec![Verdict::Pass("prlimit64: invalid resource returns EINVAL")]
    );
    assert_eq!(
        f.step(0, 0, 0),
        vec![Verdict::FailErrno("prlimit64: invalid PID returns ESRCH", -3, 0)]
    );
    assert!(f.step(0, 123, u64::MAX).is_empty());
    assert_eq!(f.trial_core(), (0, u64::MAX));
    assert_eq!(f.step(0, 0, 0), vec![Verdict::Pass("prlimit64: set RLIMIT_CORE")]);
    assert_eq!(f.call, PrlimitCall::RestoreCore);
    assert_eq!(f.restored_core(), (123, u64::MAX));
    f.step(0, 0, 0);
    assert_eq!(f.call, PrlimitCall::Done);
}

#[test]
fn prlimit_failed_set_is_not_restored() {
    let mut f = PrlimitFlow { call: PrlimitCall::SetCore, saved_cur: 5, saved_max: 9 };
    assert_eq!(f.step(-1, 0, 0), vec![Verdict::FailErrno("prlimit64: set RLIMIT_CORE", 0, -1)]);
    assert_eq!(f.call, PrlimitCall::Done);
}

#[test]
fn prlimit_nofile_judgements() {
    let mut f = PrlimitFlow::start();
    assert_eq!(f.step(0, 0, u64::MAX)[1], Verdict::Pass("prlimit64: NOFILE unlimited"));
    let mut g = PrlimitFlow::start();
    assert_eq!(g.step(0, 10, 5)[1], Verdict::Fail("prlimit64: NOFILE soft <= hard limit"));
    let mut h = PrlimitFlow::start();
    assert_eq!(h.step(-1, 0, 0), vec![Verdict::FailErrno("prlimit64: get RLIMIT_NOFILE", 0, -1)]);
}
