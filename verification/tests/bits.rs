use posix_conformance::fdset::{fd_bit, fd_isset, select_nfds};
use posix_conformance::sigset::{blockable_mask, sig_bit, sigset_contains, sigset_contains_all, SIGKILL, SIGSTOP};

#[test]
fn signal_bits() {
    assert_eq!(sig_bit(1), 1);
    assert_eq!(sig_bit(10), 1 << 9);
    assert_eq!(sig_bit(64), 1 << 63);
}

#[test]
fn signal_membership() {
    let usr1 = sig_bit(10);
    let set = usr1 | sig_bit(12) | sig_bit(14);
    assert!(sigset_contains(set, 10));
    assert!(sigset_contains(set, 14));
    assert!(!sigset_contains(set, 9));
    assert!(sigset_contains_all(set | sig_bit(1), set));
    assert!(!sigset_contains_all(usr1, set));
    assert!(!sigset_contains(set & !usr1, 10));
}

#[test]
fn blockable_excludes_kill_and_stop() {
    let m = blockable_mask();
    assert!(!sigset_contains(m, SIGKILL));
    assert!(!sigset_contains(m, SIGSTOP));
    for sig in 1..=64u64 {
        if sig != SIGKILL && sig != SIGSTOP {
            assert!(sigset_contains(m, sig));
        }
    }
    assert_eq!(m, !((1u64 << 8) | (1u64 << 18)));
}

#[test]
fn fd_sets() {
    assert_eq!(fd_bit(0), 1);
    assert_eq!(fd_bit(5), 32);
    let set = fd_bit(3) | fd_bit(4);
    assert!(fd_isset(set, 3));
    assert!(fd_isset(set, 4));
    assert!(!fd_isset(set, 5));
}

#[test]
fn nfds_is_one_past_highest() {
    assert_eq!(select_nfds(3, 4), 5);
    assert_eq!(select_nfds(9, 4), 10);
    assert_eq!(select_nfds(0, 0), 1);
}
