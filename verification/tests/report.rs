use posix_conformance::report::{PseLevel, Results, TestCategory, MAX_CATEGORIES};

fn rule() -> String {
    "═".repeat(60)
}

#[test]
fn new_category_is_empty() {
    let cat = TestCategory::new(PseLevel::PSE52, "dup: positive tests");
    assert_eq!(cat.level, PseLevel::PSE52);
    assert_eq!(cat.name, "dup: positive tests");
    assert_eq!(cat.passed, 0);
    assert_eq!(cat.failed, 0);
}

#[test]
fn header_frames_name() {
    let cat = TestCategory::new(PseLevel::PSE51, "Futex");
    assert_eq!(cat.header(), b"\n=== Futex ===\n".to_vec());
}

#[test]
fn pass_and_fail_lines_and_counts() {
    let mut cat = TestCategory::new(PseLevel::PSE51, "Futex");
    assert_eq!(cat.pass("a"), b"  [PASS] a\n".to_vec());
    assert_eq!(cat.fail("b"), b"  [FAIL] b\n".to_vec());
    assert_eq!(cat.pass("c"), b"  [PASS] c\n".to_vec());
    assert_eq!(cat.passed, 2);
    assert_eq!(cat.failed, 1);
}

#[test]
fn fail_expected_shows_hex() {
    let mut cat = TestCategory::new(PseLevel::PSE51, "TLS");
    let line = cat.fail_expected("fs:[0] reads correct value", 0xAAAA_BBBB_CCCC_DDDD, 0);
    assert_eq!(
        String::from_utf8(line).unwrap(),
        "  [FAIL] fs:[0] reads correct value (expected 0xaaaabbbbccccdddd, got 0x0000000000000000)\n"
    );
    assert_eq!(cat.failed, 1);
    assert_eq!(cat.passed, 0);
}

#[test]
fn fail_errno_shows_decimal() {
    let mut cat = TestCategory::new(PseLevel::PSE51, "Futex");
    let line = cat.fail_errno("futex(WAIT) wrong value returns -EAGAIN", -11, 0);
    assert_eq!(
        String::from_utf8(line).unwrap(),
        "  [FAIL] futex(WAIT) wrong value returns -EAGAIN (expected -11, got 0)\n"
    );
}

#[test]
fn check_follows_condition() {
    let mut cat = TestCategory::new(PseLevel::PSE51, "x");
    assert_eq!(cat.check("ok", true), b"  [PASS] ok\n".to_vec());
    assert_eq!(cat.check("bad", false), b"  [FAIL] bad\n".to_vec());
    assert_eq!((cat.passed, cat.failed), (1, 1));
}

#[test]
fn check_errno_compares_values() {
    let mut cat = TestCategory::new(PseLevel::PSE51, "x");
    assert_eq!(cat.check_errno("eq", -9, -9), b"  [PASS] eq\n".to_vec());
    assert_eq!(
        String::from_utf8(cat.check_errno("ne", -22, -9)).unwrap(),
        "  [FAIL] ne (expected -9, got -22)\n"
    );
    assert_eq!((cat.passed, cat.failed), (1, 1));
}

fn category(level: PseLevel, name: &'static str, passed: u32, failed: u32) -> TestCategory {
    let mut c = TestCategory::new(level, name);
    c.passed = passed;
    c.failed = failed;
    c
}

#[test]
fn level_totals_sum_by_level() {
    let mut r = Results::new();
    r.add(category(PseLevel::PSE51, "a", 3, 1));
    r.add(category(PseLevel::PSE52, "b", 5, 0));
    r.add(category(PseLevel::PSE51, "c", 2, 2));
    assert_eq!(r.level_totals(PseLevel::PSE51), (5, 3));
    assert_eq!(r.level_totals(PseLevel::PSE52), (5, 0));
    assert_eq!(r.level_totals(PseLevel::PSE53), (0, 0));
    assert_eq!(r.count(), 3);
}

#[test]
fn summary_with_failures() {
    let mut r = Results::new();
    r.add(category(PseLevel::PSE51, "a", 3, 1));
    r.add(category(PseLevel::PSE53, "b", 2, 0));
    let expected = format!(
        "\n{rule}\nPSE51: 3/4 (75%)\nPSE53: 2/2 (100%)\nTOTAL: 5/6 (83%)\n{rule}\n\nSOME TESTS FAILED\nSUMMARY: 5 passed, 1 failed\n",
        rule = rule()
    );
    assert_eq!(String::from_utf8(r.summary()).unwrap(), expected);
    assert_eq!(r.exit_code(), 1);
}

#[test]
fn summary_all_passed() {
    let mut r = Results::new();
    r.add(category(PseLevel::PSE52, "a", 7, 0));
    let expected = format!(
        "\n{rule}\nPSE52: 7/7 (100%)\nTOTAL: 7/7 (100%)\n{rule}\n\nALL TESTS PASSED\nSUMMARY: 7 passed, 0 failed\n",
        rule = rule()
    );
    assert_eq!(String::from_utf8(r.summary()).unwrap(), expected);
    assert_eq!(r.exit_code(), 0);
}

#[test]
fn summary_of_empty_run() {
    let r = Results::new();
    let expected = format!("\n{rule}\nTOTAL: 0/0\n{rule}\n\nALL TESTS PASSED\nSUMMARY: 0 passed, 0 failed\n", rule = rule());
    assert_eq!(String::from_utf8(r.summary()).unwrap(), expected);
    assert_eq!(r.exit_code(), 0);
}

#[test]
fn percentage_rounds_down() {
    let mut r = Results::new();
    r.add(category(PseLevel::PSE51, "a", 2, 1));
    let text = String::from_utf8(r.summary()).unwrap();
    assert!(text.contains("PSE51: 2/3 (66%)\n"));
}

#[test]
fn categories_beyond_capacity_are_dropped() {
    let mut r = Results::new();
    for _ in 0..MAX_CATEGORIES {
        r.add(category(PseLevel::PSE51, "ok", 1, 0));
    }
    r.add(category(PseLevel::PSE51, "late failure", 0, 1));
    assert_eq!(r.count(), 64);
    assert_eq!(r.level_totals(PseLevel::PSE51), (64, 0));
    assert_eq!(r.exit_code(), 0);
}

#[test]
fn exit_code_one_when_any_category_failed() {
    let mut r = Results::new();
    r.add(category(PseLevel::PSE51, "a", 10, 0));
    r.add(category(PseLevel::PSE53, "b", 0, 1));
    assert_eq!(r.exit_code(), 1);
}

#[test]
fn totals_fit_detects_overflow() {
    let mut r = Results::new();
    r.add(category(PseLevel::PSE51, "a", u32::MAX - 1, 1));
    assert!(r.totals_fit());
    r.add(category(PseLevel::PSE52, "b", 0, 1));
    assert!(!r.totals_fit());
}

#[test]
fn summary_ends_with_documented_totals_line() {
    let mut r = Results::new();
    r.add(category(PseLevel::PSE51, "a", 560, 0));
    r.add(category(PseLevel::PSE52, "b", 6, 0));
    let text = String::from_utf8(r.summary()).unwrap();
    assert!(text.ends_with("\nALL TESTS PASSED\nSUMMARY: 566 passed, 0 failed\n"));
    assert!(!text.contains("SOME TESTS FAILED"));
}

#[test]
fn verdict_follows_exit_code() {
    let mut r = Results::new();
    r.add(category(PseLevel::PSE53, "a", 2, 1));
    let text = String::from_utf8(r.summary()).unwrap();
    assert_eq!(r.exit_code(), 1);
    assert!(text.contains("\nSOME TESTS FAILED\n"));
    assert!(!text.contains("ALL TESTS PASSED"));
    assert!(text.ends_with("SUMMARY: 2 passed, 1 failed\n"));
}
