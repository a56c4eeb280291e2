//! Bookkeeping of test results: categories that count passes and failures, the
//! collection of finished categories, and the text that the suite prints for
//! each check, each category and the final summary.
//!
//! Every function here computes the bytes that are to be written to standard
//! output and hands them back; writing them is left to the caller.

use vstd::prelude::*;
use vstd::string::StringSliceAdditionalSpecFns;
use crate::text::{push_bytes, hex_bytes, dec_bytes, hex_text, dec_text, dec_digits, magnitude};

verus! {

/// The POSIX realtime profile (IEEE 1003.13-2003) that a category belongs to.
#[derive(Clone, Copy, PartialEq, Eq, Structural, Debug)]
pub enum PseLevel {
    PSE51,
    PSE52,
    PSE53,
}

/// A group of related checks, counting how many passed and how many failed.
pub struct TestCategory {
    pub level: PseLevel,
    pub name: &'static str,
    pub passed: u32,
    pub failed: u32,
}

/// The outcome of one check, as a test decides it from what the system
/// returned: a pass, a plain failure, or a failure that shows the expected and
/// the observed value (in hexadecimal, or in decimal for return values).
#[derive(Clone, Copy, PartialEq, Eq, Debug)]
pub enum Verdict {
    Pass(&'static str),
    Fail(&'static str),
    FailExpected(&'static str, u64, u64),
    FailErrno(&'static str, i64, i64),
}

/// A check that passes when `condition` holds and fails plainly otherwise.
pub open spec fn check_verdict(name: &'static str, condition: bool) -> Verdict {
    if condition {
        Verdict::Pass(name)
    } else {
        Verdict::Fail(name)
    }
}

/// A check that passes when the return value `got` equals `expected` and
/// otherwise fails showing both.
pub open spec fn errno_verdict(name: &'static str, got: i64, expected: i64) -> Verdict {
    if got == expected {
        Verdict::Pass(name)
    } else {
        Verdict::FailErrno(name, expected, got)
    }
}

impl Verdict {
    /// `check_verdict` as an executable constructor.
    pub fn check(name: &'static str, condition: bool) -> (v: Verdict)
        ensures
            v == check_verdict(name, condition),
    {
        if condition {
            Verdict::Pass(name)
        } else {
            Verdict::Fail(name)
        }
    }

    /// `errno_verdict` as an executable constructor.
    pub fn errno(name: &'static str, got: i64, expected: i64) -> (v: Verdict)
        ensures
            v == errno_verdict(name, got, expected),
    {
        if got == expected {
            Verdict::Pass(name)
        } else {
            Verdict::FailErrno(name, expected, got)
        }
    }

    /// The report line of this verdict.
    pub open spec fn line(self) -> Seq<u8> {
        match self {
            Verdict::Pass(n) => pass_text(n.spec_bytes()),
            Verdict::Fail(n) => fail_text(n.spec_bytes()),
            Verdict::FailExpected(n, e, g) => fail_expected_text(n.spec_bytes(), e, g),
            Verdict::FailErrno(n, e, g) => fail_errno_text(n.spec_bytes(), e, g),
        }
    }
}

/// `\n=== name ===\n`
pub open spec fn header_text(name: Seq<u8>) -> Seq<u8> {
    "\n=== ".spec_bytes() + name + " ===\n".spec_bytes()
}

/// `  [PASS] name\n`
pub open spec fn pass_text(name: Seq<u8>) -> Seq<u8> {
    "  [PASS] ".spec_bytes() + name + "\n".spec_bytes()
}

/// `  [FAIL] name\n`
pub open spec fn fail_text(name: Seq<u8>) -> Seq<u8> {
    "  [FAIL] ".spec_bytes() + name + "\n".spec_bytes()
}

/// `  [FAIL] name (expected 0x..., got 0x...)\n`
pub open spec fn fail_expected_text(name: Seq<u8>, expected: u64, got: u64) -> Seq<u8> {
    "  [FAIL] ".spec_bytes() + name + " (expected ".spec_bytes() + hex_text(expected)
        + ", got ".spec_bytes() + hex_text(got) + ")\n".spec_bytes()
}

/// `  [FAIL] name (expected -9, got -22)\n`
pub open spec fn fail_errno_text(name: Seq<u8>, expected: i64, got: i64) -> Seq<u8> {
    "  [FAIL] ".spec_bytes() + name + " (expected ".spec_bytes() + dec_text(expected)
        + ", got ".spec_bytes() + dec_text(got) + ")\n".spec_bytes()
}

impl TestCategory {
    /// A category with no checks run yet.
    pub fn new(level: PseLevel, name: &'static str) -> (r: Self)
        ensures
            r.level == level,
            r.name == name,
            r.passed == 0,
            r.failed == 0,
    {
        Self { level, name, passed: 0, failed: 0 }
    }

    /// The heading printed before the category's checks.
    pub fn header(&self) -> (out: Vec<u8>)
        ensures
            out@ == header_text(self.name.spec_bytes()),
    {
        let mut out: Vec<u8> = Vec::new();
        push_bytes(&mut out, "\n=== ".as_bytes());
        push_bytes(&mut out, self.name.as_bytes());
        push_bytes(&mut out, " ===\n".as_bytes());
        out
    }

    /// Records a passed check; returns its report line.
    pub fn pass(&mut self, name: &str) -> (out: Vec<u8>)
        requires
            old(self).passed < u32::MAX,
        ensures
            final(self).passed == old(self).passed + 1,
            final(self).failed == old(self).failed,
            final(self).level == old(self).level,
            final(self).name == old(self).name,
            out@ == pass_text(name.spec_bytes()),
    {
        let mut out: Vec<u8> = Vec::new();
        push_bytes(&mut out, "  [PASS] ".as_bytes());
        push_bytes(&mut out, name.as_bytes());
        push_bytes(&mut out, "\n".as_bytes());
        self.passed = self.passed + 1;
        out
    }

    /// Records a failed check; returns its report line.
    pub fn fail(&mut self, name: &str) -> (out: Vec<u8>)
        requires
            old(self).failed < u32::MAX,
        ensures
            final(self).failed == old(self).failed + 1,
            final(self).passed == old(self).passed,
            final(self).level == old(self).level,
            final(self).name == old(self).name,
            out@ == fail_text(name.spec_bytes()),
    {
        let mut out: Vec<u8> = Vec::new();
        push_bytes(&mut out, "  [FAIL] ".as_bytes());
        push_bytes(&mut out, name.as_bytes());
        push_bytes(&mut out, "\n".as_bytes());
        self.failed = self.failed + 1;
        out
    }

    /// Records a failed check whose observed value differs from the expected
    /// one; the line shows both in hexadecimal.
    pub fn fail_expected(&mut self, name: &str, expected: u64, got: u64) -> (out: Vec<u8>)
        requires
            old(self).failed < u32::MAX,
        ensures
            final(self).failed == old(self).failed + 1,
            final(self).passed == old(self).passed,
            final(self).level == old(self).level,
            final(self).name == old(self).name,
            out@ == fail_expected_text(name.spec_bytes(), expected, got),
    {
        let mut out: Vec<u8> = Vec::new();
        push_bytes(&mut out, "  [FAIL] ".as_bytes());
        push_bytes(&mut out, name.as_bytes());
        push_bytes(&mut out, " (expected ".as_bytes());
        let e = hex_bytes(expected);
        push_bytes(&mut out, e.as_slice());
        push_bytes(&mut out, ", got ".as_bytes());
        let g = hex_bytes(got);
        push_bytes(&mut out, g.as_slice());
        push_bytes(&mut out, ")\n".as_bytes());
        self.failed = self.failed + 1;
        out
    }

    /// Records a failed check whose return value differs from the expected
    /// one; the line shows both in decimal (errno values are negative).
    pub fn fail_errno(&mut self, name: &str, expected: i64, got: i64) -> (out: Vec<u8>)
        requires
            old(self).failed < u32::MAX,
        ensures
            final(self).failed == old(self).failed + 1,
            final(self).passed == old(self).passed,
            final(self).level == old(self).level,
            final(self).name == old(self).name,
            out@ == fail_errno_text(name.spec_bytes(), expected, got),
    {
        let mut out: Vec<u8> = Vec::new();
        push_bytes(&mut out, "  [FAIL] ".as_bytes());
        push_bytes(&mut out, name.as_bytes());
        push_bytes(&mut out, " (expected ".as_bytes());
        let e = dec_bytes(expected);
        push_bytes(&mut out, e.as_slice());
        push_bytes(&mut out, ", got ".as_bytes());
        let g = dec_bytes(got);
        push_bytes(&mut out, g.as_slice());
        push_bytes(&mut out, ")\n".as_bytes());
        self.failed = self.failed + 1;
        out
    }

    /// Records a verdict reached elsewhere; returns its report line.
    pub fn record(&mut self, v: &Verdict) -> (out: Vec<u8>)
        requires
            *v is Pass ==> old(self).passed < u32::MAX,
            !(*v is Pass) ==> old(self).failed < u32::MAX,
        ensures
            final(self).passed == old(self).passed + (if *v is Pass { 1int } else { 0int }),
            final(self).failed == old(self).failed + (if *v is Pass { 0int } else { 1int }),
            final(self).level == old(self).level,
            final(self).name == old(self).name,
            out@ == v.line(),
    {
        match *v {
            Verdict::Pass(n) => self.pass(n),
            Verdict::Fail(n) => self.fail(n),
            Verdict::FailExpected(n, e, g) => self.fail_expected(n, e, g),
            Verdict::FailErrno(n, e, g) => self.fail_errno(n, e, g),
        }
    }

    /// Passes the check when `condition` holds, fails it otherwise.
    pub fn check(&mut self, name: &str, condition: bool) -> (out: Vec<u8>)
        requires
            condition ==> old(self).passed < u32::MAX,
            !condition ==> old(self).failed < u32::MAX,
        ensures
            final(self).passed == old(self).passed + (if condition { 1int } else { 0int }),
            final(self).failed == old(self).failed + (if condition { 0int } else { 1int }),
            final(self).level == old(self).level,
            final(self).name == old(self).name,
            out@ == (if condition {
                pass_text(name.spec_bytes())
            } else {
                fail_text(name.spec_bytes())
            }),
    {
        if condition {
            self.pass(name)
        } else {
            self.fail(name)
        }
    }

    /// Passes the check when the return value `got` equals `expected`; fails
    /// it otherwise, showing both values.
    pub fn check_errno(&mut self, name: &str, got: i64, expected: i64) -> (out: Vec<u8>)
        requires
            got == expected ==> old(self).passed < u32::MAX,
            got != expected ==> old(self).failed < u32::MAX,
        ensures
            final(self).passed == old(self).passed + (if got == expected { 1int } else { 0int }),
            final(self).failed == old(self).failed + (if got == expected { 0int } else { 1int }),
            final(self).level == old(self).level,
            final(self).name == old(self).name,
            out@ == (if got == expected {
                pass_text(name.spec_bytes())
            } else {
                fail_errno_text(name.spec_bytes(), expected, got)
            }),
    {
        if got == expected {
            self.pass(name)
        } else {
            self.fail_errno(name, expected, got)
        }
    }
}


/// How many finished categories a `Results` keeps; later ones are dropped.
pub const MAX_CATEGORIES: usize = 64;

/// What `Results` keeps of a finished category: its level, its name, and its
/// pass and fail counts.
pub type CategoryRecord = (PseLevel, &'static str, u32, u32);

/// Sum of the pass counts of the records at `level`.
pub open spec fn passed_at(recs: Seq<CategoryRecord>, level: PseLevel) -> nat
    decreases recs.len(),
{
    if recs.len() == 0 {
        0
    } else {
        passed_at(recs.drop_last(), level) + if recs.last().0 == level {
            recs.last().2 as nat
        } else {
            0nat
        }
    }
}

/// Sum of the fail counts of the records at `level`.
pub open spec fn failed_at(recs: Seq<CategoryRecord>, level: PseLevel) -> nat
    decreases recs.len(),
{
    if recs.len() == 0 {
        0
    } else {
        failed_at(recs.drop_last(), level) + if recs.last().0 == level {
            recs.last().3 as nat
        } else {
            0nat
        }
    }
}

/// Passes over all three levels.
pub open spec fn total_passed(recs: Seq<CategoryRecord>) -> nat {
    passed_at(recs, PseLevel::PSE51) + passed_at(recs, PseLevel::PSE52) + passed_at(
        recs,
        PseLevel::PSE53,
    )
}

/// Failures over all three levels.
pub open spec fn total_failed(recs: Seq<CategoryRecord>) -> nat {
    failed_at(recs, PseLevel::PSE51) + failed_at(recs, PseLevel::PSE52) + failed_at(
        recs,
        PseLevel::PSE53,
    )
}

/// Every per-level sum fits in a `u32`.
pub open spec fn level_sums_fit(recs: Seq<CategoryRecord>) -> bool {
    &&& passed_at(recs, PseLevel::PSE51) <= u32::MAX
    &&& passed_at(recs, PseLevel::PSE52) <= u32::MAX
    &&& passed_at(recs, PseLevel::PSE53) <= u32::MAX
    &&& failed_at(recs, PseLevel::PSE51) <= u32::MAX
    &&& failed_at(recs, PseLevel::PSE52) <= u32::MAX
    &&& failed_at(recs, PseLevel::PSE53) <= u32::MAX
}

/// `label: p/total (pct%)\n`, the percentage left out when `total` is 0.
pub open spec fn ratio_text(label: Seq<u8>, p: nat, total: nat) -> Seq<u8> {
    label + ": ".spec_bytes() + dec_text(p as i64) + "/".spec_bytes() + dec_text(total as i64) + (
    if total > 0 {
        " (".spec_bytes() + dec_text((p * 100 / total) as i64) + "%)".spec_bytes()
    } else {
        Seq::empty()
    }) + "\n".spec_bytes()
}

/// The summary line of one level; nothing for a level without checks.
pub open spec fn level_text(recs: Seq<CategoryRecord>, level: PseLevel, label: Seq<u8>) -> Seq<
    u8,
> {
    let p = passed_at(recs, level);
    let f = failed_at(recs, level);
    if p + f == 0 {
        Seq::empty()
    } else {
        ratio_text(label, p, p + f)
    }
}

/// The horizontal rule that frames the summary.
pub open spec fn rule_text() -> Seq<u8> {
    "════════════════════════════════════════════════════════════\n".spec_bytes()
}

/// The verdict line: "ALL TESTS PASSED" when nothing failed, "SOME TESTS
/// FAILED" otherwise, each after a blank line.
pub open spec fn verdict_text(total_failed: nat) -> Seq<u8> {
    if total_failed == 0 {
        "\nALL TESTS PASSED\n".spec_bytes()
    } else {
        "\nSOME TESTS FAILED\n".spec_bytes()
    }
}

/// The closing line `SUMMARY: P passed, F failed\n`.
pub open spec fn totals_line_text(passed: nat, failed: nat) -> Seq<u8> {
    "SUMMARY: ".spec_bytes() + dec_text(passed as i64) + " passed, ".spec_bytes() + dec_text(
        failed as i64,
    ) + " failed\n".spec_bytes()
}

/// The head of the summary: the per-level and total ratios, framed by two
/// rules.
pub open spec fn ratios_text(recs: Seq<CategoryRecord>) -> Seq<u8> {
    let tp = total_passed(recs);
    let tf = total_failed(recs);
    "\n".spec_bytes() + rule_text() + level_text(recs, PseLevel::PSE51, "PSE51".spec_bytes())
        + level_text(recs, PseLevel::PSE52, "PSE52".spec_bytes()) + level_text(
        recs,
        PseLevel::PSE53,
        "PSE53".spec_bytes(),
    ) + ratio_text("TOTAL".spec_bytes(), tp, tp + tf) + rule_text()
}

/// The final report: per-level and total ratios between two rules, the
/// verdict, and the closing `SUMMARY:` line with the pass and fail totals.
pub open spec fn summary_text(recs: Seq<CategoryRecord>) -> Seq<u8> {
    ratios_text(recs) + verdict_text(total_failed(recs)) + totals_line_text(
        total_passed(recs),
        total_failed(recs),
    )
}

/// Appends `label: p/total (pct%)\n`.
fn push_ratio(out: &mut Vec<u8>, label: &str, p: u32, total: u32)
    requires
        p <= total,
    ensures
        final(out)@ == old(out)@ + ratio_text(label.spec_bytes(), p as nat, total as nat),
{
    push_bytes(out, label.as_bytes());
    push_bytes(out, ": ".as_bytes());
    let a = dec_bytes(p as i64);
    push_bytes(out, a.as_slice());
    push_bytes(out, "/".as_bytes());
    let b = dec_bytes(total as i64);
    push_bytes(out, b.as_slice());
    if total > 0 {
        push_bytes(out, " (".as_bytes());
        assert(p as i64 * 100 <= total as i64 * 100) by (nonlinear_arith)
            requires
                p <= total,
        ;
        let pct = (p as i64 * 100) / total as i64;
        let c = dec_bytes(pct);
        push_bytes(out, c.as_slice());
        push_bytes(out, "%)".as_bytes());
    }
    push_bytes(out, "\n".as_bytes());
}

/// The finished categories of a run, in the order they were added.
pub struct Results {
    categories: Vec<CategoryRecord>,
}

impl View for Results {
    type V = Seq<CategoryRecord>;

    closed spec fn view(&self) -> Seq<CategoryRecord> {
        self.categories@
    }
}

impl Results {
    /// The kept records never exceed `MAX_CATEGORIES`.
    #[verifier::type_invariant]
    closed spec fn within_capacity(self) -> bool {
        self.categories@.len() <= MAX_CATEGORIES
    }

    /// An empty collection.
    pub fn new() -> (r: Self)
        ensures
            r@ == Seq::<CategoryRecord>::empty(),
    {
        Self { categories: Vec::new() }
    }

    /// The number of categories kept.
    pub fn count(&self) -> (n: usize)
        ensures
            n == self@.len(),
            n <= MAX_CATEGORIES,
    {
        proof {
            use_type_invariant(self);
        }
        self.categories.len()
    }

    /// Keeps the category's level, name and counts, unless `MAX_CATEGORIES`
    /// are kept already, in which case the category is dropped.
    pub fn add(&mut self, cat: TestCategory)
        ensures
            old(self)@.len() < MAX_CATEGORIES ==> final(self)@ == old(self)@.push(
                (cat.level, cat.name, cat.passed, cat.failed),
            ),
            old(self)@.len() >= MAX_CATEGORIES ==> final(self)@ == old(self)@,
            final(self)@.len() <= MAX_CATEGORIES,
    {
        proof {
            use_type_invariant(&*self);
        }
        if self.categories.len() < MAX_CATEGORIES {
            let mut kept: Vec<CategoryRecord> = Vec::new();
            std::mem::swap(&mut kept, &mut self.categories);
            kept.push((cat.level, cat.name, cat.passed, cat.failed));
            self.categories = kept;
        }
    }

    /// The pass and fail sums of the categories at `level`.
    pub fn level_totals(&self, level: PseLevel) -> (r: (u32, u32))
        requires
            passed_at(self@, level) <= u32::MAX,
            failed_at(self@, level) <= u32::MAX,
        ensures
            r.0 == passed_at(self@, level),
            r.1 == failed_at(self@, level),
    {
        let ghost recs = self@;
        let mut p: u32 = 0;
        let mut f: u32 = 0;
        let mut i: usize = 0;
        assert(recs.subrange(0, recs.len() as int) == recs);
        while i < self.categories.len()
            invariant
                recs == self@,
                self.categories@ == recs,
                i <= recs.len(),
                p == passed_at(recs.subrange(0, i as int), level),
                f == failed_at(recs.subrange(0, i as int), level),
                passed_at(recs, level) <= u32::MAX,
                recs.subrange(0, recs.len() as int) == recs,
                failed_at(recs, level) <= u32::MAX,
            decreases recs.len() - i,
        {
            let (l, _, passed, failed) = self.categories[i];
            proof {
                let pre = recs.subrange(0, i + 1);
                assert(pre.drop_last() == recs.subrange(0, i as int));
                lemma_sums_grow(recs, level, (i + 1) as int, recs.len() as int);
            }
            if l == level {
                p = p + passed;
                f = f + failed;
            }
            i = i + 1;
        }
        (p, f)
    }

    /// Appends the summary line of `level` (nothing when it has no checks)
    /// and returns its pass and fail sums.
    fn push_level(&self, out: &mut Vec<u8>, level: PseLevel, label: &str) -> (r: (u32, u32))
        requires
            passed_at(self@, level) + failed_at(self@, level) <= u32::MAX,
        ensures
            r.0 == passed_at(self@, level),
            r.1 == failed_at(self@, level),
            final(out)@ == old(out)@ + level_text(self@, level, label.spec_bytes()),
    {
        let (p, f) = self.level_totals(level);
        if p + f != 0 {
            push_ratio(out, label, p, p + f);
        }
        (p, f)
    }

    /// The final report text.
    pub fn summary(&self) -> (out: Vec<u8>)
        requires
            total_passed(self@) + total_failed(self@) <= u32::MAX,
        ensures
            out@ == summary_text(self@),
    {
        let mut out: Vec<u8> = Vec::new();
        push_bytes(&mut out, "\n".as_bytes());
        push_bytes(&mut out, "════════════════════════════════════════════════════════════\n".as_bytes());
        let ghost a = out@;
        let (p1, f1) = self.push_level(&mut out, PseLevel::PSE51, "PSE51");
        let (p2, f2) = self.push_level(&mut out, PseLevel::PSE52, "PSE52");
        let (p3, f3) = self.push_level(&mut out, PseLevel::PSE53, "PSE53");
        let ghost b = out@;
        let total_p = p1 + p2 + p3;
        let total_f = f1 + f2 + f3;
        push_ratio(&mut out, "TOTAL", total_p, total_p + total_f);
        push_bytes(&mut out, "════════════════════════════════════════════════════════════\n".as_bytes());
        let ghost c = out@;
        if total_f == 0 {
            push_bytes(&mut out, "\nALL TESTS PASSED\n".as_bytes());
        } else {
            push_bytes(&mut out, "\nSOME TESTS FAILED\n".as_bytes());
        }
        let ghost d = out@;
        push_bytes(&mut out, "SUMMARY: ".as_bytes());
        let pb = dec_bytes(total_p as i64);
        push_bytes(&mut out, pb.as_slice());
        push_bytes(&mut out, " passed, ".as_bytes());
        let fb = dec_bytes(total_f as i64);
        push_bytes(&mut out, fb.as_slice());
        push_bytes(&mut out, " failed\n".as_bytes());
        proof {
            let recs = self@;
            let l1 = level_text(recs, PseLevel::PSE51, "PSE51".spec_bytes());
            let l2 = level_text(recs, PseLevel::PSE52, "PSE52".spec_bytes());
            let l3 = level_text(recs, PseLevel::PSE53, "PSE53".spec_bytes());
            assert(a == "\n".spec_bytes() + rule_text());
            assert(b == a + l1 + l2 + l3);
            let tp = total_passed(recs);
            let tf = total_failed(recs);
            assert(c == b + ratio_text("TOTAL".spec_bytes(), tp, tp + tf) + rule_text());
            assert(c == ratios_text(recs));
            assert(d == c + verdict_text(tf));
            assert(out@ == d + totals_line_text(tp, tf));
        }
        out
    }

    /// The pass and fail counts of all kept categories add up to at most
    /// `u32::MAX`, so that `summary` and `exit_code` can total them.
    pub fn totals_fit(&self) -> (r: bool)
        ensures
            r == (total_passed(self@) + total_failed(self@) <= u32::MAX),
            r ==> level_sums_fit(self@) && total_failed(self@) <= u32::MAX,
    {
        proof {
            use_type_invariant(self);
        }
        let ghost recs = self@;
        let mut sum: u64 = 0;
        let mut i: usize = 0;
        while i < self.categories.len()
            invariant
                recs == self@,
                self.categories@ == recs,
                recs.len() <= MAX_CATEGORIES,
                i <= recs.len(),
                sum == total_passed(recs.subrange(0, i as int)) + total_failed(
                    recs.subrange(0, i as int),
                ),
                sum <= i * 0x1_FFFF_FFFE,
            decreases recs.len() - i,
        {
            let (_, _, passed, failed) = self.categories[i];
            proof {
                let pre = recs.subrange(0, i + 1);
                assert(pre.drop_last() == recs.subrange(0, i as int));
            }
            sum = sum + passed as u64 + failed as u64;
            i = i + 1;
        }
        assert(recs.subrange(0, recs.len() as int) == recs);
        sum <= u32::MAX as u64
    }

    /// 0 when no kept category recorded a failure, 1 otherwise.
    pub fn exit_code(&self) -> (code: u64)
        requires
            level_sums_fit(self@),
            total_failed(self@) <= u32::MAX,
        ensures
            code == (if total_failed(self@) == 0 { 0u64 } else { 1u64 }),
    {
        let (_, f1) = self.level_totals(PseLevel::PSE51);
        let (_, f2) = self.level_totals(PseLevel::PSE52);
        let (_, f3) = self.level_totals(PseLevel::PSE53);
        let total_f = f1 + f2 + f3;
        if total_f == 0 {
            0
        } else {
            1
        }
    }
}

/// The sums over a prefix never exceed the sums over a longer prefix.
proof fn lemma_sums_grow(recs: Seq<CategoryRecord>, level: PseLevel, i: int, j: int)
    requires
        0 <= i <= j <= recs.len(),
    ensures
        passed_at(recs.subrange(0, i), level) <= passed_at(recs.subrange(0, j), level),
        failed_at(recs.subrange(0, i), level) <= failed_at(recs.subrange(0, j), level),
    decreases j - i,
{
    if i < j {
        lemma_sums_grow(recs, level, i, j - 1);
        assert(recs.subrange(0, j).drop_last() == recs.subrange(0, j - 1));
    }
}


/// Law: the run reports no failure (exit code 0, "ALL TESTS PASSED") exactly
/// when every kept category has a fail count of zero.
pub proof fn lemma_no_failure_iff_all_categories_clean(recs: Seq<CategoryRecord>)
    ensures
        total_failed(recs) == 0 <==> forall|i: int| 0 <= i < recs.len() ==> #[trigger] recs[i].3 == 0,
    decreases recs.len(),
{
    if recs.len() > 0 {
        let init = recs.drop_last();
        lemma_no_failure_iff_all_categories_clean(init);
        assert forall|i: int| 0 <= i < init.len() implies #[trigger] init[i] == recs[i] by {}
        if total_failed(recs) == 0 {
            assert forall|i: int| 0 <= i < recs.len() implies #[trigger] recs[i].3 == 0 by {
                if i < init.len() {
                    assert(init[i] == recs[i]);
                }
            }
        }
        if forall|i: int| 0 <= i < recs.len() ==> #[trigger] recs[i].3 == 0 {
            assert(recs[recs.len() - 1].3 == 0);
            assert forall|i: int| 0 <= i < init.len() implies #[trigger] init[i].3 == 0 by {
                assert(recs[i].3 == 0);
            }
        }
    }
}

/// Law: the summary ends with its verdict line and then the `SUMMARY:` line;
/// the verdict reads "ALL TESTS PASSED" exactly when no kept category failed
/// (the case in which `exit_code` is 0) and "SOME TESTS FAILED" exactly when
/// one did (exit code 1), so the two phrases never trade places.
pub proof fn lemma_summary_verdict(recs: Seq<CategoryRecord>)
    ensures
        summary_text(recs) == ratios_text(recs) + verdict_text(total_failed(recs))
            + totals_line_text(total_passed(recs), total_failed(recs)),
        verdict_text(total_failed(recs)) == "\nALL TESTS PASSED\n".spec_bytes() <==> total_failed(
            recs,
        ) == 0,
        verdict_text(total_failed(recs)) == "\nSOME TESTS FAILED\n".spec_bytes() <==> total_failed(
            recs,
        ) != 0,
{
    reveal_strlit("\nALL TESTS PASSED\n");
    reveal_strlit("\nSOME TESTS FAILED\n");
    broadcast use vstd::string::is_ascii_spec_bytes;
    assert(vstd::string::is_ascii("\nALL TESTS PASSED\n"));
    assert(vstd::string::is_ascii("\nSOME TESTS FAILED\n"));
    assert("\nALL TESTS PASSED\n".spec_bytes().len() == 18);
    assert("\nSOME TESTS FAILED\n".spec_bytes().len() == 19);
}

/// Law: keeping a category adds its counts to the sums of its own level and
/// leaves the other levels' sums unchanged.
pub proof fn lemma_add_counts(recs: Seq<CategoryRecord>, r: CategoryRecord, level: PseLevel)
    ensures
        passed_at(recs.push(r), level) == passed_at(recs, level) + (if r.0 == level {
            r.2 as nat
        } else {
            0nat
        }),
        failed_at(recs.push(r), level) == failed_at(recs, level) + (if r.0 == level {
            r.3 as nat
        } else {
            0nat
        }),
{
    assert(recs.push(r).drop_last() == recs);
}

/// Law: a reported percentage never exceeds 100.
pub proof fn lemma_percentage_at_most_100(p: nat, total: nat)
    requires
        p <= total,
        total > 0,
    ensures
        p * 100 / total <= 100,
{
    assert(p * 100 <= total * 100) by (nonlinear_arith)
        requires
            p <= total,
    ;
    assert(p * 100 / total <= (total * 100) / total) by (nonlinear_arith)
        requires
            p * 100 <= total * 100,
            total > 0,
    ;
    assert((total * 100) / total == 100) by (nonlinear_arith)
        requires
            total > 0,
    ;
}


/// Law: a level has a line in the summary exactly when it has checks, and
/// that line is `label: p/t (q%)` with `p` its passes, `t` its passes plus
/// failures and `q` the rounded-down percentage of passes.
pub proof fn lemma_level_line(recs: Seq<CategoryRecord>, level: PseLevel, label: Seq<u8>)
    ensures
        ({
            let p = passed_at(recs, level);
            let t = passed_at(recs, level) + failed_at(recs, level);
            &&& (level_text(recs, level, label).len() > 0 <==> t > 0)
            &&& t == 0 ==> level_text(recs, level, label) == Seq::<u8>::empty()
            &&& t > 0 ==> level_text(recs, level, label) == label + ": ".spec_bytes() + dec_text(
                p as i64,
            ) + "/".spec_bytes() + dec_text(t as i64) + " (".spec_bytes() + dec_text(
                (p * 100 / t) as i64,
            ) + "%)".spec_bytes() + "\n".spec_bytes()
        }),
{
    let p = passed_at(recs, level);
    let t = passed_at(recs, level) + failed_at(recs, level);
    if t > 0 {
        let x = label + ": ".spec_bytes() + dec_text(p as i64) + "/".spec_bytes() + dec_text(
            t as i64,
        );
        let y = " (".spec_bytes() + dec_text((p * 100 / t) as i64) + "%)".spec_bytes();
        assert(x + y + "\n".spec_bytes() == label + ": ".spec_bytes() + dec_text(p as i64)
            + "/".spec_bytes() + dec_text(t as i64) + " (".spec_bytes() + dec_text(
            (p * 100 / t) as i64,
        ) + "%)".spec_bytes() + "\n".spec_bytes());
        assert(level_text(recs, level, label).len() >= label.len() + ": ".spec_bytes().len()
            + dec_text(p as i64).len());
        lemma_dec_text_nonempty(p as i64);
    }
}

/// A decimal rendering has at least one byte.
proof fn lemma_dec_text_nonempty(n: i64)
    ensures
        dec_text(n).len() > 0,
{
    if n >= 0 {
        assert(dec_digits(n as nat).len() > 0);
    } else {
        assert(dec_digits(magnitude(n)).len() > 0);
    }
}

/// Law: the summary is, in order: a blank line, the rule, the lines of
/// PSE51, PSE52 and PSE53 (each only when that level has checks), the TOTAL
/// line with all passes over all checks (its percentage left out when there
/// are none), the rule, the verdict line and the `SUMMARY: P passed, F
/// failed` line with all passes and all failures.
pub proof fn lemma_summary_layout(recs: Seq<CategoryRecord>)
    ensures
        ({
            let tp = total_passed(recs);
            let tf = total_failed(recs);
            summary_text(recs) == ("\n".spec_bytes() + rule_text() + level_text(
                recs,
                PseLevel::PSE51,
                "PSE51".spec_bytes(),
            ) + level_text(recs, PseLevel::PSE52, "PSE52".spec_bytes()) + level_text(
                recs,
                PseLevel::PSE53,
                "PSE53".spec_bytes(),
            ) + ("TOTAL".spec_bytes() + ": ".spec_bytes() + dec_text(tp as i64) + "/".spec_bytes()
                + dec_text((tp + tf) as i64) + (if tp + tf > 0 {
                " (".spec_bytes() + dec_text((tp * 100 / (tp + tf)) as i64) + "%)".spec_bytes()
            } else {
                Seq::empty()
            }) + "\n".spec_bytes()) + rule_text()) + (if tf == 0 {
                "\nALL TESTS PASSED\n".spec_bytes()
            } else {
                "\nSOME TESTS FAILED\n".spec_bytes()
            }) + ("SUMMARY: ".spec_bytes() + dec_text(tp as i64) + " passed, ".spec_bytes()
                + dec_text(tf as i64) + " failed\n".spec_bytes())
        }),
        total_passed(recs) == passed_at(recs, PseLevel::PSE51) + passed_at(recs, PseLevel::PSE52)
            + passed_at(recs, PseLevel::PSE53),
        total_failed(recs) == failed_at(recs, PseLevel::PSE51) + failed_at(recs, PseLevel::PSE52)
            + failed_at(recs, PseLevel::PSE53),
{
}

/// Law: no categories sum to nothing at every level; this with
/// `lemma_add_counts` fixes the per-level sums.
pub proof fn lemma_no_records_no_counts(level: PseLevel)
    ensures
        passed_at(Seq::<CategoryRecord>::empty(), level) == 0,
        failed_at(Seq::<CategoryRecord>::empty(), level) == 0,
{
}

/// Law: the lines of a category: the header `\n=== name ===\n`, a pass
/// `  [PASS] name\n`, a failure `  [FAIL] name\n`, and failures that add
/// ` (expected E, got G)` with both values in hexadecimal or in decimal. A
/// pass line and a failure line differ at their fourth byte, `P` against `F`.
pub proof fn lemma_line_texts(name: Seq<u8>, e: u64, g: u64, ei: i64, gi: i64)
    ensures
        header_text(name) == "\n=== ".spec_bytes() + name + " ===\n".spec_bytes(),
        pass_text(name) == "  [PASS] ".spec_bytes() + name + "\n".spec_bytes(),
        fail_text(name) == "  [FAIL] ".spec_bytes() + name + "\n".spec_bytes(),
        fail_expected_text(name, e, g) == "  [FAIL] ".spec_bytes() + name + " (expected ".spec_bytes()
            + hex_text(e) + ", got ".spec_bytes() + hex_text(g) + ")\n".spec_bytes(),
        fail_errno_text(name, ei, gi) == "  [FAIL] ".spec_bytes() + name + " (expected ".spec_bytes()
            + dec_text(ei) + ", got ".spec_bytes() + dec_text(gi) + ")\n".spec_bytes(),
        pass_text(name)[3] == 80u8,
        fail_text(name)[3] == 70u8,
        fail_expected_text(name, e, g)[3] == 70u8,
        fail_errno_text(name, ei, gi)[3] == 70u8,
{
    broadcast use vstd::string::is_ascii_spec_bytes;
    reveal_strlit("  [PASS] ");
    reveal_strlit("  [FAIL] ");
    assert(vstd::string::is_ascii("  [PASS] "));
    assert(vstd::string::is_ascii("  [FAIL] "));
    assert("  [PASS] ".spec_bytes()[3] == 80u8);
    assert("  [FAIL] ".spec_bytes()[3] == 70u8);
}

/// Law: the verdict helpers. A plain check passes exactly when its condition
/// holds and otherwise fails plainly; a return-value check passes exactly
/// when the value is the expected one and otherwise fails showing the
/// expected and the returned value; each verdict's line is the pass or
/// failure line of its kind, and a verdict counts as a pass exactly when it
/// is `Pass`.
pub proof fn lemma_verdict_helpers(name: &'static str, c: bool, got: i64, expected: i64, v: Verdict)
    ensures
        check_verdict(name, c) == (if c {
            Verdict::Pass(name)
        } else {
            Verdict::Fail(name)
        }),
        errno_verdict(name, got, expected) == (if got == expected {
            Verdict::Pass(name)
        } else {
            Verdict::FailErrno(name, expected, got)
        }),
        (check_verdict(name, c) is Pass) == c,
        (errno_verdict(name, got, expected) is Pass) == (got == expected),
        v.line() == match v {
            Verdict::Pass(n) => "  [PASS] ".spec_bytes() + n.spec_bytes() + "\n".spec_bytes(),
            Verdict::Fail(n) => "  [FAIL] ".spec_bytes() + n.spec_bytes() + "\n".spec_bytes(),
            Verdict::FailExpected(n, e, g) => "  [FAIL] ".spec_bytes() + n.spec_bytes()
                + " (expected ".spec_bytes() + hex_text(e) + ", got ".spec_bytes() + hex_text(g)
                + ")\n".spec_bytes(),
            Verdict::FailErrno(n, e, g) => "  [FAIL] ".spec_bytes() + n.spec_bytes()
                + " (expected ".spec_bytes() + dec_text(e) + ", got ".spec_bytes() + dec_text(g)
                + ")\n".spec_bytes(),
        },
{
}

/// Law: the number of categories a run keeps (the bound `Results::add`
/// enforces) is 64.
pub proof fn lemma_category_capacity()
    ensures
        MAX_CATEGORIES == 64,
{
}

} // verus!
