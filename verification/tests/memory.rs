use posix_conformance::memory::{
    page_pattern_holds, pattern_word, MmapPositiveObs, MprotectObs,
};
use posix_conformance::report::Verdict;

fn full_mmap_obs() -> MmapPositiveObs {
    MmapPositiveObs {
        rw: 0x7000_0000_0000,
        ro: 0x7000_0000_1000,
        ro_word: 0,
        big: 0x7000_0001_0000,
        big_first: 0xAAAA_BBBB,
        big_last: 0xCCCC_DDDD,
        aligned: 0x7000_0002_0000,
        full: 0x7000_0003_0000,
        full_ok: true,
        a1: 0x7000_0004_0000,
        a2: 0x7000_0005_0000,
        v1: 0x1111,
        v2: 0x2222,
    }
}

#[test]
fn pattern_word_xors_index() {
    assert_eq!(pattern_word(0), 0xDEAD_BEEF);
    assert_eq!(pattern_word(1), 0xDEAD_BEEE);
    assert_eq!(pattern_word(511), 511 ^ 0xDEAD_BEEF);
}

#[test]
fn page_pattern_detects_a_bad_word() {
    let mut words: Vec<u64> = (0..512u64).map(pattern_word).collect();
    assert!(page_pattern_holds(&words));
    words[300] ^= 1;
    assert!(!page_pattern_holds(&words));
    assert!(page_pattern_holds(&[]));
}

#[test]
fn mmap_positive_nine_passes() {
    let v = full_mmap_obs().verdicts();
    assert_eq!(v.len(), 9);
    assert!(v.iter().all(|x| matches!(x, Verdict::Pass(_))));
    assert_eq!(v[8], Verdict::Pass("consecutive mappings independent"));
}

#[test]
fn mmap_positive_failed_mappings() {
    let mut o = full_mmap_obs();
    o.rw = -12;
    o.ro = -12;
    o.aligned = -12;
    o.a2 = -12;
    o.full_ok = false;
    let v = o.verdicts();
    assert_eq!(
        v,
        vec![
            Verdict::Fail("mmap(ANON, RW, 4K) valid address"),
            Verdict::Fail("mmap(ANON, RO, 4K) valid address"),
            Verdict::Pass("mmap(ANON, RW, 64K) valid address"),
            Verdict::Pass("mmap 64K first/last page access"),
            Verdict::Fail("mmap full page write/verify"),
        ]
    );
}

#[test]
fn mmap_positive_misaligned_and_shared() {
    let mut o = full_mmap_obs();
    o.aligned = 0x7000_0002_0008;
    o.a2 = o.a1;
    let v = o.verdicts();
    assert_eq!(v[5], Verdict::Fail("mmap returns page-aligned"));
    assert_eq!(v[7], Verdict::Fail("consecutive mmap different addrs"));
}

fn good_mprotect() -> MprotectObs {
    MprotectObs {
        setup: 0x7000_0000_0000,
        to_ro_ret: 0,
        ro_read: 0xABCD_EF01,
        to_rw_ret: 0,
        rw_read: 0x1234_5678,
        none_map: 0x7000_0000_1000,
        none_ret: 0,
        zero_map: 0x7000_0000_2000,
        zero_ret: 0,
        unmapped_ret: -12,
        part_map: 0x7000_0001_0000,
        part_ret: 0,
        part_first: 0xAAAA,
        part_last: 0xBBBB,
        bad_map: 0x7000_0002_0000,
        bad_ret: -22,
    }
}

#[test]
fn mprotect_setup_failure_is_one_failure() {
    let mut o = good_mprotect();
    o.setup = -12;
    assert!(!MprotectObs::goes_on(o.setup));
    assert_eq!(o.verdicts(), vec![Verdict::Fail("mprotect test setup")]);
}

#[test]
fn mprotect_all_pass() {
    let v = good_mprotect().verdicts();
    assert_eq!(v.len(), 10);
    assert!(v.iter().all(|x| matches!(x, Verdict::Pass(_))));
    assert_eq!(v[5], Verdict::Pass("mprotect(len=0) accepted (no-op)"));
    assert_eq!(v[9], Verdict::Pass("mprotect(prot=0xFF) -EINVAL"));
}

#[test]
fn mprotect_tolerated_and_unexpected_answers() {
    let mut o = good_mprotect();
    o.zero_ret = -22;
    o.bad_ret = 0;
    o.to_ro_ret = -1;
    o.unmapped_ret = 0;
    let v = o.verdicts();
    assert_eq!(v[0], Verdict::FailErrno("mprotect RW→RO returns 0", 0, -1));
    assert_eq!(v[5], Verdict::Pass("mprotect(len=0) rejected -EINVAL (strict)"));
    assert_eq!(v[6], Verdict::FailErrno("mprotect unmapped -ENOMEM", -12, 0));
    assert_eq!(v[9], Verdict::Pass("mprotect(prot=0xFF) accepted (Linux-permissive)"));
    o.zero_ret = -5;
    o.bad_ret = -5;
    let v = o.verdicts();
    assert_eq!(v[5], Verdict::FailErrno("mprotect(len=0) unexpected error", -22, -5));
    assert_eq!(v[9], Verdict::FailErrno("mprotect(prot=0xFF) unexpected error", -22, -5));
}
