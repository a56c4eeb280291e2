use posix_conformance::io_verdicts::{
    standard_fds_release, standard_fds_verdicts, SockoptObs, VectoredObs,
};
use posix_conformance::report::{PseLevel, TestCategory, Verdict};

fn good_sockopt() -> SockoptObs {
    SockoptObs {
        socket: 3,
        reuse_ret: 0,
        type_ret: 0,
        type_val: 1,
        error_ret: 0,
        error_val: 0,
        keepalive_ret: 0,
        sndbuf_ret: 0,
        sndbuf: 16384,
        rcvbuf_ret: 0,
        rcvbuf: 131072,
        reuseport_ret: 0,
    }
}

#[test]
fn sockopt_seven_checks_when_open() {
    let v = good_sockopt().verdicts();
    assert_eq!(v.len(), 7);
    assert!(v.iter().all(|x| matches!(x, Verdict::Pass(_))));
    assert_eq!(v[1], Verdict::Pass("getsockopt(SO_TYPE) = SOCK_STREAM"));
}

#[test]
fn sockopt_one_failure_without_socket() {
    let mut o = good_sockopt();
    o.socket = -24;
    assert!(!SockoptObs::goes_on(o.socket));
    assert_eq!(o.verdicts(), vec![Verdict::Fail("sockopt: socket setup")]);
}

#[test]
fn sockopt_unsupported_and_failing_options() {
    let mut o = good_sockopt();
    o.keepalive_ret = -92;
    o.sndbuf_ret = -92;
    o.rcvbuf = 0;
    o.reuseport_ret = -22;
    o.type_val = 2;
    let v = o.verdicts();
    assert_eq!(v[1], Verdict::Fail("getsockopt(SO_TYPE) = SOCK_STREAM"));
    assert_eq!(v[3], Verdict::Pass("SO_KEEPALIVE not supported"));
    assert_eq!(v[4], Verdict::Pass("SO_SNDBUF not supported"));
    assert_eq!(v[5], Verdict::Fail("getsockopt(SO_RCVBUF) > 0"));
    assert_eq!(v[6], Verdict::FailErrno("setsockopt(SO_REUSEPORT)", 0, -22));
}

fn good_vectored() -> VectoredObs {
    VectoredObs {
        pipe_ret: 0,
        writev_ret: 12,
        readv_ret: 12,
        readv_data: b"AAAABBBBCCCC".to_vec(),
        writev_empty_ret: 4,
        read_data: b"XXYY".to_vec(),
        writev_none_ret: 0,
        readv_none_ret: 0,
        writev_badfd_ret: -9,
        readv_badfd_ret: -9,
    }
}

#[test]
fn vectored_nine_checks() {
    let v = good_vectored().verdicts();
    assert_eq!(v.len(), 9);
    assert!(v.iter().all(|x| matches!(x, Verdict::Pass(_))));
    assert_eq!(v[2], Verdict::Pass("readv data correct"));
}

#[test]
fn vectored_short_readv_skips_data_check() {
    let mut o = good_vectored();
    o.readv_ret = 8;
    o.read_data = b"XYXY".to_vec();
    let v = o.verdicts();
    assert_eq!(v.len(), 8);
    assert_eq!(v[1], Verdict::FailErrno("readv(3 segments) returns 12", 12, 8));
    assert_eq!(v[3], Verdict::Fail("writev empty segment skipped"));
}

#[test]
fn vectored_pipe_failure() {
    let mut o = good_vectored();
    o.pipe_ret = -24;
    assert!(!VectoredObs::goes_on(o.pipe_ret));
    assert_eq!(o.verdicts(), vec![Verdict::Fail("vectored: pipe setup")]);
}

#[test]
fn standard_fds_eight_checks() {
    let v = standard_fds_verdicts(0, 0, 0, 24, 24, 0, 3, 4);
    assert_eq!(v.len(), 8);
    assert!(v.iter().all(|x| matches!(x, Verdict::Pass(_))));
    assert_eq!(standard_fds_release(3, 4), vec![3, 4]);
}

#[test]
fn standard_fds_ebadf_read_and_failed_dup() {
    let v = standard_fds_verdicts(-9, 0, 0, 24, 10, -9, -24, 3);
    assert_eq!(v[0], Verdict::Fail("fstat(stdin) returns 0"));
    assert_eq!(v[4], Verdict::Fail("write(stderr) returns count"));
    assert_eq!(v[5], Verdict::Fail("read(stdin) returns EBADF (fd 0 not initialized)"));
    assert_eq!(v[6], Verdict::Fail("dup(stdin) returns new fd"));
    assert_eq!(standard_fds_release(-24, 3), vec![3]);
    let v = standard_fds_verdicts(0, 0, 0, 24, 24, -11, 3, 4);
    assert_eq!(v[5], Verdict::Pass("read(stdin, 0) accepted"));
}

#[test]
fn record_counts_and_renders_each_verdict() {
    let mut c = TestCategory::new(PseLevel::PSE51, "c");
    assert_eq!(c.record(&Verdict::Pass("a")), b"  [PASS] a\n".to_vec());
    assert_eq!(
        c.record(&Verdict::FailErrno("b", 0, -9)),
        b"  [FAIL] b (expected 0, got -9)\n".to_vec()
    );
    assert_eq!(
        c.record(&Verdict::FailExpected("e", 16, 255)),
        b"  [FAIL] e (expected 0x0000000000000010, got 0x00000000000000ff)\n".to_vec()
    );
    assert_eq!(c.record(&Verdict::Fail("d")), b"  [FAIL] d\n".to_vec());
    assert_eq!((c.passed, c.failed), (1, 3));
}
