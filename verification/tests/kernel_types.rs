use posix_conformance::kernel_types::{elapsed_nanos, Pollfd, Timespec};
use posix_conformance::sockaddr::abstract_unix_address;

#[test]
fn timespec_nanos() {
    let t = Timespec { tv_sec: 3, tv_nsec: 250 };
    assert_eq!(t.nanos(), 3_000_000_250);
    assert!(t.nsec_in_range());
    assert!(!Timespec { tv_sec: 0, tv_nsec: 1_000_000_000 }.nsec_in_range());
    assert!(!Timespec { tv_sec: 0, tv_nsec: -1 }.nsec_in_range());
}

#[test]
fn elapsed_is_saturating() {
    let a = Timespec { tv_sec: 10, tv_nsec: 900_000_000 };
    let b = Timespec { tv_sec: 11, tv_nsec: 100_000_000 };
    assert_eq!(elapsed_nanos(&a, &b), 200_000_000);
    assert_eq!(elapsed_nanos(&b, &a), 0);
    assert_eq!(elapsed_nanos(&a, &a), 0);
}

#[test]
fn poll_events() {
    let p = Pollfd { fd: 3, events: 0x0001, revents: 0x0001 | 0x0010 };
    assert!(p.has_events(0x0001));
    assert!(!p.has_events(0x0004));
    assert!(p.has_events(0x0010 | 0x0004));
    let q = Pollfd { fd: 999, events: 0x0001, revents: 0x0020 };
    assert!(q.has_events(0x0020));
}

#[test]
fn abstract_socket_address() {
    let (path, len) = abstract_unix_address(b"_posix_conf_test");
    assert_eq!(path.len(), 108);
    assert_eq!(path[0], 0);
    assert_eq!(&path[1..17], b"_posix_conf_test");
    assert!(path[17..].iter().all(|&b| b == 0));
    assert_eq!(len, 19);
}
