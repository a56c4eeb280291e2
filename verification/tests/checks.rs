use posix_conformance::checks::{classify, Outcome};
use posix_conformance::checks::{stack_base, stack_top, THREAD_STACK_SIZE};
use posix_conformance::checks::{
    any_nonzero, is_page_aligned, is_root_cwd, is_valid_addr, limit_verdict, one_of,
    pid_check_code, priority_verdict, read_matches, resolution_verdict, LimitVerdict,
    PriorityVerdict, ResolutionVerdict, PID_DIFFERS, PPID_MATCHES,
};

#[test]
fn mmap_addresses() {
    assert!(is_valid_addr(0x7f00_0000_1000));
    assert!(!is_valid_addr(0));
    assert!(!is_valid_addr(-22));
    assert!(!is_valid_addr(-12));
    assert!(!is_valid_addr(0x7FFF_FFFF_FFFF));
    assert!(is_valid_addr(0x7FFF_FFFF_FFFE));
}

#[test]
fn page_alignment() {
    assert!(is_page_aligned(0));
    assert!(is_page_aligned(0x7f12_3456_7000));
    assert!(!is_page_aligned(0x7f12_3456_7008));
    assert!(!is_page_aligned(4095));
}

#[test]
fn one_of_errnos() {
    assert!(one_of(-22, &[-22, -12]));
    assert!(one_of(-12, &[-22, -12]));
    assert!(!one_of(0, &[-22, -12]));
    assert!(!one_of(0, &[]));
}

#[test]
fn read_matches_counts_and_bytes() {
    let mut buf = [0u8; 16];
    buf[..8].copy_from_slice(b"AAAABBBB");
    assert!(read_matches(8, &buf, b"AAAABBBB"));
    assert!(!read_matches(7, &buf, b"AAAABBBB"));
    assert!(!read_matches(8, &buf, b"AAAABBBC"));
    assert!(!read_matches(-9, &buf, b""));
    assert!(read_matches(0, &buf, b""));
    assert!(!read_matches(3, b"YY", b"YYY"));
}

#[test]
fn affinity_masks() {
    assert!(!any_nonzero(&[0u64; 16]));
    let mut mask = [0u64; 16];
    mask[3] = 0x10;
    assert!(any_nonzero(&mask));
}

#[test]
fn root_cwd() {
    assert!(is_root_cwd(b"/\0xx", 2));
    assert!(is_root_cwd(b"/\0", 7));
    assert!(!is_root_cwd(b"/tmp\0", 5));
    assert!(!is_root_cwd(b"/\0", -34));
}

#[test]
fn pid_code_bits() {
    assert_eq!(pid_check_code(101, 100, 100), PID_DIFFERS | PPID_MATCHES);
    assert_eq!(pid_check_code(100, 100, 100), PPID_MATCHES);
    assert_eq!(pid_check_code(101, 1, 100), PID_DIFFERS);
    assert_eq!(pid_check_code(100, 1, 100), 0);
    let code = pid_check_code(101, 100, 100);
    assert!(code & PID_DIFFERS != 0 && code & PPID_MATCHES != 0);
}

#[test]
fn limits() {
    assert_eq!(limit_verdict(1024, 4096), LimitVerdict::SoftWithinHard);
    assert_eq!(limit_verdict(0, u64::MAX), LimitVerdict::Unlimited);
    assert_eq!(limit_verdict(u64::MAX, u64::MAX), LimitVerdict::SoftWithinHard);
    assert_eq!(limit_verdict(8192, 4096), LimitVerdict::Inconsistent);
    assert_eq!(limit_verdict(0, 4096), LimitVerdict::Inconsistent);
}

#[test]
fn priorities() {
    assert_eq!(priority_verdict(99, 1), PriorityVerdict::Ordered);
    assert_eq!(priority_verdict(0, 0), PriorityVerdict::Valid);
    assert_eq!(priority_verdict(-22, 0), PriorityVerdict::Invalid);
    assert_eq!(priority_verdict(5, 5), PriorityVerdict::Valid);
}

#[test]
fn resolutions() {
    assert_eq!(resolution_verdict(0, 1), ResolutionVerdict::Fine);
    assert_eq!(resolution_verdict(0, 1_000_000_000), ResolutionVerdict::Fine);
    assert_eq!(resolution_verdict(1, 0), ResolutionVerdict::Coarse);
    assert_eq!(resolution_verdict(0, 0), ResolutionVerdict::Coarse);
    assert_eq!(resolution_verdict(2, 0), ResolutionVerdict::TooCoarse);
}

#[test]
fn classify_outcomes() {
    assert_eq!(classify(0, &[0], &[-22, -12]), Outcome::Preferred);
    assert_eq!(classify(-12, &[0], &[-22, -12]), Outcome::Tolerated);
    assert_eq!(classify(-1, &[0], &[-22, -12]), Outcome::Unexpected);
    assert_eq!(classify(-22, &[-22], &[-22]), Outcome::Preferred);
    assert_eq!(classify(5, &[], &[]), Outcome::Unexpected);
}

#[test]
fn thread_stack_bounds() {
    assert_eq!(stack_top(-12), None);
    assert_eq!(stack_top(0x7f00_0000_0000), Some(0x7f00_0001_0000));
    let top = stack_top(0x7f12_3450_0000).unwrap();
    assert_eq!(stack_base(top), 0x7f12_3450_0000);
    assert_eq!(THREAD_STACK_SIZE, 65536);
}
