//! The memory checks: the word pattern that is written across a page and
//! read back, and the verdicts of the mmap and mprotect tests from what the
//! mappings returned and what was read through them.

use vstd::prelude::*;
use crate::checks::{USER_ADDR_LIMIT, PAGE_SIZE};
use crate::report::{Verdict, check_verdict, errno_verdict};

verus! {

/// The value that the full-page check stores in word `i` of the page.
pub open spec fn pattern_at(i: u64) -> u64 {
    i ^ 0xDEAD_BEEFu64
}

/// The word written at index `i` of the page.
pub fn pattern_word(i: u64) -> (w: u64)
    ensures
        w == i ^ 0xDEAD_BEEF,
        w == pattern_at(i),
{
    i ^ 0xDEAD_BEEF
}

/// True when every word read back from the page holds the pattern value of
/// its index.
pub fn page_pattern_holds(words: &[u64]) -> (r: bool)
    ensures
        r == forall|i: int| 0 <= i < words@.len() ==> words@[i] == (i as u64) ^ 0xDEAD_BEEF,
{
    let mut i: usize = 0;
    while i < words.len()
        invariant
            i <= words@.len(),
            forall|j: int| 0 <= j < i ==> words@[j] == (j as u64) ^ 0xDEAD_BEEF,
        decreases words@.len() - i,
    {
        if words[i] != pattern_word(i as u64) {
            return false;
        }
        i = i + 1;
    }
    true
}

/// `EINVAL`, as a negated return value.
pub const EINVAL: i64 = -22;

/// `ENOMEM`, as a negated return value.
pub const ENOMEM: i64 = -12;

/// An `mmap` result that is a usable user-space address.
pub open spec fn mapped(ret: i64) -> bool {
    0 < ret < USER_ADDR_LIMIT
}

/// What the positive mmap test observed: the result of each mapping and the
/// words read through the ones that succeeded (fields of a failed mapping
/// are not looked at).
#[derive(Clone, Copy, PartialEq, Eq, Structural, Debug)]
pub struct MmapPositiveObs {
    /// 4 KiB read-write mapping.
    pub rw: i64,
    /// 4 KiB read-only mapping and its first word.
    pub ro: i64,
    pub ro_word: u64,
    /// 64 KiB mapping and its first and last words after writing them.
    pub big: i64,
    pub big_first: u64,
    pub big_last: u64,
    /// Mapping whose alignment is checked.
    pub aligned: i64,
    /// Mapping filled with the pattern, and whether it read back.
    pub full: i64,
    pub full_ok: bool,
    /// Two consecutive mappings and the words read back from each.
    pub a1: i64,
    pub a2: i64,
    pub v1: u64,
    pub v2: u64,
}

/// A mapping that must succeed: its validity check, then the checks made
/// through it.
pub open spec fn required_part(ret: i64, name: &'static str, then: Seq<Verdict>) -> Seq<Verdict> {
    if mapped(ret) {
        seq![Verdict::Pass(name)] + then
    } else {
        seq![Verdict::Fail(name)]
    }
}

/// A mapping made only for the checks made through it, which are skipped
/// when it fails.
pub open spec fn optional_part(ok: bool, then: Seq<Verdict>) -> Seq<Verdict> {
    if ok {
        then
    } else {
        seq![]
    }
}

/// The 4 KiB read-write mapping's check.
pub open spec fn rw_part(o: MmapPositiveObs) -> Seq<Verdict> {
    required_part(o.rw, "mmap(ANON, RW, 4K) valid address", seq![])
}

/// The read-only mapping's checks.
pub open spec fn ro_part(o: MmapPositiveObs) -> Seq<Verdict> {
    required_part(
        o.ro,
        "mmap(ANON, RO, 4K) valid address",
        seq![check_verdict("mmap(ANON) zero-filled", o.ro_word == 0)],
    )
}

/// The 64 KiB mapping's checks.
pub open spec fn big_part(o: MmapPositiveObs) -> Seq<Verdict> {
    required_part(
        o.big,
        "mmap(ANON, RW, 64K) valid address",
        seq![
            check_verdict(
                "mmap 64K first/last page access",
                o.big_first == 0xAAAA_BBBB && o.big_last == 0xCCCC_DDDD,
            ),
        ],
    )
}

/// The alignment, full-page and consecutive-mapping checks.
pub open spec fn rest_part(o: MmapPositiveObs) -> Seq<Verdict> {
    optional_part(
        mapped(o.aligned),
        seq![check_verdict("mmap returns page-aligned", (o.aligned as u64) % PAGE_SIZE == 0)],
    ) + optional_part(mapped(o.full), seq![check_verdict("mmap full page write/verify", o.full_ok)])
        + optional_part(
        mapped(o.a1) && mapped(o.a2),
        seq![
            check_verdict("consecutive mmap different addrs", o.a1 != o.a2),
            check_verdict("consecutive mappings independent", o.v1 == 0x1111 && o.v2 == 0x2222),
        ],
    )
}

/// The checks of the positive mmap test, in order (nine when every mapping
/// succeeds).
pub open spec fn mmap_positive_spec(o: MmapPositiveObs) -> Seq<Verdict> {
    rw_part(o) + ro_part(o) + big_part(o) + rest_part(o)
}

/// A one-verdict list.
fn one(v: Verdict) -> (r: Vec<Verdict>)
    ensures
        r@ == seq![v],
{
    let mut r: Vec<Verdict> = Vec::new();
    r.push(v);
    proof {
        assert(r@ =~= seq![v]);
    }
    r
}

/// A two-verdict list.
fn two(a: Verdict, b: Verdict) -> (r: Vec<Verdict>)
    ensures
        r@ == seq![a, b],
{
    let mut r: Vec<Verdict> = Vec::new();
    r.push(a);
    r.push(b);
    proof {
        assert(r@ =~= seq![a, b]);
    }
    r
}

/// `required_part` as an executable function.
fn required(ret: i64, name: &'static str, then: Vec<Verdict>) -> (r: Vec<Verdict>)
    ensures
        r@ == required_part(ret, name, then@),
{
    if crate::checks::is_valid_addr(ret) {
        joined(one(Verdict::Pass(name)), then)
    } else {
        one(Verdict::Fail(name))
    }
}

/// `optional_part` as an executable function.
fn optional(ok: bool, then: Vec<Verdict>) -> (r: Vec<Verdict>)
    ensures
        r@ == optional_part(ok, then@),
{
    if ok {
        then
    } else {
        Vec::new()
    }
}

/// The concatenation of two verdict lists.
fn joined(a: Vec<Verdict>, b: Vec<Verdict>) -> (r: Vec<Verdict>)
    ensures
        r@ == a@ + b@,
{
    let mut r = a;
    let mut b = b;
    r.append(&mut b);
    r
}

impl MmapPositiveObs {
    fn rw_verdicts(&self) -> (r: Vec<Verdict>)
        ensures
            r@ == rw_part(*self),
    {
        let e: Vec<Verdict> = Vec::new();
        required(self.rw, "mmap(ANON, RW, 4K) valid address", e)
    }

    fn ro_verdicts(&self) -> (r: Vec<Verdict>)
        ensures
            r@ == ro_part(*self),
    {
        let t = one(Verdict::check("mmap(ANON) zero-filled", self.ro_word == 0));
        required(self.ro, "mmap(ANON, RO, 4K) valid address", t)
    }

    fn big_verdicts(&self) -> (r: Vec<Verdict>)
        ensures
            r@ == big_part(*self),
    {
        let t = one(
            Verdict::check(
                "mmap 64K first/last page access",
                self.big_first == 0xAAAA_BBBB && self.big_last == 0xCCCC_DDDD,
            ),
        );
        required(self.big, "mmap(ANON, RW, 64K) valid address", t)
    }

    fn rest_verdicts(&self) -> (r: Vec<Verdict>)
        ensures
            r@ == rest_part(*self),
    {
        let aligned = crate::checks::is_page_aligned(self.aligned as u64);
        let p4 = optional(
            crate::checks::is_valid_addr(self.aligned),
            one(Verdict::check("mmap returns page-aligned", aligned)),
        );
        let p5 = optional(
            crate::checks::is_valid_addr(self.full),
            one(Verdict::check("mmap full page write/verify", self.full_ok)),
        );
        let both = crate::checks::is_valid_addr(self.a1) && crate::checks::is_valid_addr(self.a2);
        let p6 = optional(
            both,
            two(
                Verdict::check("consecutive mmap different addrs", self.a1 != self.a2),
                Verdict::check(
                    "consecutive mappings independent",
                    self.v1 == 0x1111 && self.v2 == 0x2222,
                ),
            ),
        );
        joined(joined(p4, p5), p6)
    }

    /// The test's checks, in order.
    pub fn verdicts(&self) -> (v: Vec<Verdict>)
        ensures
            v@ == mmap_positive_spec(*self),
    {
        let a = self.rw_verdicts();
        let b = self.ro_verdicts();
        let c = self.big_verdicts();
        let d = self.rest_verdicts();
        joined(joined(joined(a, b), c), d)
    }
}

/// What the mprotect test observed. `setup` is the first mapping; when it
/// failed nothing else was done. The other mappings are each made for one
/// check, which is skipped when that mapping fails.
#[derive(Clone, Copy, PartialEq, Eq, Structural, Debug)]
pub struct MprotectObs {
    pub setup: i64,
    pub to_ro_ret: i64,
    pub ro_read: u64,
    pub to_rw_ret: i64,
    pub rw_read: u64,
    pub none_map: i64,
    pub none_ret: i64,
    pub zero_map: i64,
    pub zero_ret: i64,
    pub unmapped_ret: i64,
    pub part_map: i64,
    pub part_ret: i64,
    pub part_first: u64,
    pub part_last: u64,
    pub bad_map: i64,
    pub bad_ret: i64,
}

/// The zero-length `mprotect` check: 0 (Linux) and `EINVAL` (strict POSIX)
/// both pass.
pub open spec fn zero_len_verdict(ret: i64) -> Verdict {
    if ret == 0 {
        Verdict::Pass("mprotect(len=0) accepted (no-op)")
    } else if ret == EINVAL {
        Verdict::Pass("mprotect(len=0) rejected -EINVAL (strict)")
    } else {
        Verdict::FailErrno("mprotect(len=0) unexpected error", EINVAL, ret)
    }
}

/// The unknown-protection-bits check: `EINVAL` (POSIX) and 0 (Linux) both
/// pass.
pub open spec fn bad_prot_verdict(ret: i64) -> Verdict {
    if ret == EINVAL {
        Verdict::Pass("mprotect(prot=0xFF) -EINVAL")
    } else if ret == 0 {
        Verdict::Pass("mprotect(prot=0xFF) accepted (Linux-permissive)")
    } else {
        Verdict::FailErrno("mprotect(prot=0xFF) unexpected error", EINVAL, ret)
    }
}

/// The RW → RO → RW cycle on the first mapping.
pub open spec fn cycle_part(o: MprotectObs) -> Seq<Verdict> {
    seq![
        errno_verdict("mprotect RW→RO returns 0", o.to_ro_ret, 0),
        check_verdict("read after mprotect(RO)", o.ro_read == 0xABCD_EF01),
        check_verdict("mprotect RO→RW returns 0", o.to_rw_ret == 0),
        check_verdict("write after mprotect(RW)", o.rw_read == 0x1234_5678),
    ]
}

/// The `PROT_NONE`, zero-length and unmapped-region checks.
pub open spec fn edge_part(o: MprotectObs) -> Seq<Verdict> {
    optional_part(
        mapped(o.none_map),
        seq![check_verdict("mprotect(PROT_NONE) returns 0", o.none_ret == 0)],
    ) + optional_part(mapped(o.zero_map), seq![zero_len_verdict(o.zero_ret)]) + seq![
        errno_verdict("mprotect unmapped -ENOMEM", o.unmapped_ret, ENOMEM),
    ]
}

/// The partial-region and unknown-bits checks.
pub open spec fn range_part(o: MprotectObs) -> Seq<Verdict> {
    optional_part(
        mapped(o.part_map),
        seq![
            check_verdict("mprotect partial returns 0", o.part_ret == 0),
            check_verdict(
                "mprotect partial edges writable",
                o.part_first == 0xAAAA && o.part_last == 0xBBBB,
            ),
        ],
    ) + optional_part(mapped(o.bad_map), seq![bad_prot_verdict(o.bad_ret)])
}

/// The checks of the mprotect test, in order.
pub open spec fn mprotect_spec(o: MprotectObs) -> Seq<Verdict> {
    if !mapped(o.setup) {
        seq![Verdict::Fail("mprotect test setup")]
    } else {
        cycle_part(o) + edge_part(o) + range_part(o)
    }
}

fn zero_len(ret: i64) -> (v: Verdict)
    ensures
        v == zero_len_verdict(ret),
{
    if ret == 0 {
        Verdict::Pass("mprotect(len=0) accepted (no-op)")
    } else if ret == EINVAL {
        Verdict::Pass("mprotect(len=0) rejected -EINVAL (strict)")
    } else {
        Verdict::FailErrno("mprotect(len=0) unexpected error", EINVAL, ret)
    }
}

fn bad_prot(ret: i64) -> (v: Verdict)
    ensures
        v == bad_prot_verdict(ret),
{
    if ret == EINVAL {
        Verdict::Pass("mprotect(prot=0xFF) -EINVAL")
    } else if ret == 0 {
        Verdict::Pass("mprotect(prot=0xFF) accepted (Linux-permissive)")
    } else {
        Verdict::FailErrno("mprotect(prot=0xFF) unexpected error", EINVAL, ret)
    }
}

impl MprotectObs {
    /// Whether the test goes on after its first mapping: only when that
    /// mapping is usable.
    pub fn goes_on(setup: i64) -> (r: bool)
        ensures
            r == mapped(setup),
    {
        crate::checks::is_valid_addr(setup)
    }

    fn cycle_verdicts(&self) -> (r: Vec<Verdict>)
        ensures
            r@ == cycle_part(*self),
    {
        joined(
            two(
                Verdict::errno("mprotect RW→RO returns 0", self.to_ro_ret, 0),
                Verdict::check("read after mprotect(RO)", self.ro_read == 0xABCD_EF01),
            ),
            two(
                Verdict::check("mprotect RO→RW returns 0", self.to_rw_ret == 0),
                Verdict::check("write after mprotect(RW)", self.rw_read == 0x1234_5678),
            ),
        )
    }

    fn edge_verdicts(&self) -> (r: Vec<Verdict>)
        ensures
            r@ == edge_part(*self),
    {
        let none = optional(
            crate::checks::is_valid_addr(self.none_map),
            one(Verdict::check("mprotect(PROT_NONE) returns 0", self.none_ret == 0)),
        );
        let zero = optional(crate::checks::is_valid_addr(self.zero_map), one(zero_len(self.zero_ret)));
        let unmapped = one(Verdict::errno("mprotect unmapped -ENOMEM", self.unmapped_ret, ENOMEM));
        joined(joined(none, zero), unmapped)
    }

    fn range_verdicts(&self) -> (r: Vec<Verdict>)
        ensures
            r@ == range_part(*self),
    {
        let part = optional(
            crate::checks::is_valid_addr(self.part_map),
            two(
                Verdict::check("mprotect partial returns 0", self.part_ret == 0),
                Verdict::check(
                    "mprotect partial edges writable",
                    self.part_first == 0xAAAA && self.part_last == 0xBBBB,
                ),
            ),
        );
        let bad = optional(crate::checks::is_valid_addr(self.bad_map), one(bad_prot(self.bad_ret)));
        joined(part, bad)
    }

    /// The test's checks, in order.
    pub fn verdicts(&self) -> (v: Vec<Verdict>)
        ensures
            v@ == mprotect_spec(*self),
    {
        if !crate::checks::is_valid_addr(self.setup) {
            return one(Verdict::Fail("mprotect test setup"));
        }
        let a = self.cycle_verdicts();
        let b = self.edge_verdicts();
        let c = self.range_verdicts();
        joined(joined(a, b), c)
    }
}

/// Law: when every mapping succeeds, the positive mmap test makes exactly
/// nine checks.
pub proof fn lemma_mmap_positive_nine_checks(o: MmapPositiveObs)
    requires
        mapped(o.rw),
        mapped(o.ro),
        mapped(o.big),
        mapped(o.aligned),
        mapped(o.full),
        mapped(o.a1),
        mapped(o.a2),
    ensures
        mmap_positive_spec(o).len() == 9,
{
}

/// Law: the mprotect test makes exactly one check, a failure, when its first
/// mapping fails, and ten checks when every mapping succeeds.
pub proof fn lemma_mprotect_check_count(o: MprotectObs)
    ensures
        !mapped(o.setup) ==> mprotect_spec(o) == seq![Verdict::Fail("mprotect test setup")],
        mapped(o.setup) && mapped(o.none_map) && mapped(o.zero_map) && mapped(o.part_map) && mapped(
            o.bad_map,
        ) ==> mprotect_spec(o).len() == 10,
{
}

/// Law: a mapping counts as made exactly when `mmap` returned an address
/// strictly between 0 and `0x7FFF_FFFF_FFFF`.
pub proof fn lemma_mapped_range(ret: i64)
    ensures
        mapped(ret) <==> (0 < ret && ret < 0x7FFF_FFFF_FFFF),
{
}

/// Law: what each check of the positive mmap test means. The three mappings
/// that must succeed each give a pass when made and a failure when not; the
/// read-only one then passes its zero-fill check exactly when its first word
/// is 0, and the 64 KiB one its access check exactly when its first and last
/// words read back as written. The remaining checks are made only for
/// mappings that were made: alignment passes exactly when the address is a
/// multiple of 4096, the full page exactly when the pattern read back, and
/// the two consecutive mappings exactly when their addresses differ and
/// their words read back as written.
pub proof fn lemma_mmap_positive_meaning(o: MmapPositiveObs)
    ensures
        ({
            let v = mmap_positive_spec(o);
            let ok = |r: i64| 0 < r && r < 0x7FFF_FFFF_FFFF;
            let i1: int = if ok(o.ro) { 3 } else { 2 };
            let i2: int = if ok(o.big) { i1 + 2 } else { i1 + 1 };
            let i3: int = if ok(o.aligned) { i2 + 1 } else { i2 };
            let i4: int = if ok(o.full) { i3 + 1 } else { i3 };
            &&& v.len() == i4 + (if ok(o.a1) && ok(o.a2) { 2int } else { 0int })
            &&& v[0] == (if ok(o.rw) {
                Verdict::Pass("mmap(ANON, RW, 4K) valid address")
            } else {
                Verdict::Fail("mmap(ANON, RW, 4K) valid address")
            })
            &&& v[1] == (if ok(o.ro) {
                Verdict::Pass("mmap(ANON, RO, 4K) valid address")
            } else {
                Verdict::Fail("mmap(ANON, RO, 4K) valid address")
            })
            &&& ok(o.ro) ==> v[2] == (if o.ro_word == 0 {
                Verdict::Pass("mmap(ANON) zero-filled")
            } else {
                Verdict::Fail("mmap(ANON) zero-filled")
            })
            &&& v[i1] == (if ok(o.big) {
                Verdict::Pass("mmap(ANON, RW, 64K) valid address")
            } else {
                Verdict::Fail("mmap(ANON, RW, 64K) valid address")
            })
            &&& ok(o.big) ==> v[i1 + 1] == (if o.big_first == 0xAAAA_BBBB && o.big_last
                == 0xCCCC_DDDD {
                Verdict::Pass("mmap 64K first/last page access")
            } else {
                Verdict::Fail("mmap 64K first/last page access")
            })
            &&& ok(o.aligned) ==> v[i2] == (if (o.aligned as u64) % 4096 == 0 {
                Verdict::Pass("mmap returns page-aligned")
            } else {
                Verdict::Fail("mmap returns page-aligned")
            })
            &&& ok(o.full) ==> v[i3] == (if o.full_ok {
                Verdict::Pass("mmap full page write/verify")
            } else {
                Verdict::Fail("mmap full page write/verify")
            })
            &&& (ok(o.a1) && ok(o.a2)) ==> v[i4] == (if o.a1 != o.a2 {
                Verdict::Pass("consecutive mmap different addrs")
            } else {
                Verdict::Fail("consecutive mmap different addrs")
            }) && v[i4 + 1] == (if o.v1 == 0x1111 && o.v2 == 0x2222 {
                Verdict::Pass("consecutive mappings independent")
            } else {
                Verdict::Fail("consecutive mappings independent")
            })
        }),
{
}

/// Law: what each check of the mprotect test means, once its first mapping
/// is made. RW→RO passes exactly when that mprotect returned 0 (else it
/// fails showing 0 and the value returned); the read under RO passes exactly
/// when it saw the word written before; RO→RW passes exactly when the second
/// mprotect returned 0, whatever the first returned; the write under RW
/// exactly when it reads back. The remaining checks are made only for
/// mappings that were made: `PROT_NONE` passes exactly when it returned 0;
/// the zero-length change passes for 0 and for `EINVAL` and otherwise fails
/// showing `EINVAL` and the value returned; the unmapped region passes
/// exactly for `ENOMEM`; the partial change exactly when it returned 0, its
/// edges exactly when both stayed writable; unknown bits pass for `EINVAL`
/// and for 0. Without the first mapping the test is one failure.
pub proof fn lemma_mprotect_meaning(o: MprotectObs)
    ensures
        !(0 < o.setup && o.setup < 0x7FFF_FFFF_FFFF) ==> mprotect_spec(o) == seq![
            Verdict::Fail("mprotect test setup"),
        ],
        (0 < o.setup && o.setup < 0x7FFF_FFFF_FFFF) ==> ({
            let v = mprotect_spec(o);
            let ok = |r: i64| 0 < r && r < 0x7FFF_FFFF_FFFF;
            let j0: int = if ok(o.none_map) { 5 } else { 4 };
            let j1: int = if ok(o.zero_map) { j0 + 1 } else { j0 };
            let j2: int = if ok(o.part_map) { j1 + 3 } else { j1 + 1 };
            &&& v.len() == j2 + (if ok(o.bad_map) { 1int } else { 0int })
            &&& v[0] == (if o.to_ro_ret == 0 {
                Verdict::Pass("mprotect RW→RO returns 0")
            } else {
                Verdict::FailErrno("mprotect RW→RO returns 0", 0, o.to_ro_ret)
            })
            &&& v[1] == (if o.ro_read == 0xABCD_EF01 {
                Verdict::Pass("read after mprotect(RO)")
            } else {
                Verdict::Fail("read after mprotect(RO)")
            })
            &&& (v[2] is Pass <==> o.to_rw_ret == 0)
            &&& v[2] == (if o.to_rw_ret == 0 {
                Verdict::Pass("mprotect RO→RW returns 0")
            } else {
                Verdict::Fail("mprotect RO→RW returns 0")
            })
            &&& v[3] == (if o.rw_read == 0x1234_5678 {
                Verdict::Pass("write after mprotect(RW)")
            } else {
                Verdict::Fail("write after mprotect(RW)")
            })
            &&& ok(o.none_map) ==> v[4] == (if o.none_ret == 0 {
                Verdict::Pass("mprotect(PROT_NONE) returns 0")
            } else {
                Verdict::Fail("mprotect(PROT_NONE) returns 0")
            })
            &&& ok(o.zero_map) ==> v[j0] == (if o.zero_ret == 0 {
                Verdict::Pass("mprotect(len=0) accepted (no-op)")
            } else if o.zero_ret == -22 {
                Verdict::Pass("mprotect(len=0) rejected -EINVAL (strict)")
            } else {
                Verdict::FailErrno("mprotect(len=0) unexpected error", -22i64, o.zero_ret)
            })
            &&& v[j1] == (if o.unmapped_ret == -12 {
                Verdict::Pass("mprotect unmapped -ENOMEM")
            } else {
                Verdict::FailErrno("mprotect unmapped -ENOMEM", -12i64, o.unmapped_ret)
            })
            &&& ok(o.part_map) ==> v[j1 + 1] == (if o.part_ret == 0 {
                Verdict::Pass("mprotect partial returns 0")
            } else {
                Verdict::Fail("mprotect partial returns 0")
            }) && v[j1 + 2] == (if o.part_first == 0xAAAA && o.part_last == 0xBBBB {
                Verdict::Pass("mprotect partial edges writable")
            } else {
                Verdict::Fail("mprotect partial edges writable")
            })
            &&& ok(o.bad_map) ==> v[j2] == (if o.bad_ret == -22 {
                Verdict::Pass("mprotect(prot=0xFF) -EINVAL")
            } else if o.bad_ret == 0 {
                Verdict::Pass("mprotect(prot=0xFF) accepted (Linux-permissive)")
            } else {
                Verdict::FailErrno("mprotect(prot=0xFF) unexpected error", -22i64, o.bad_ret)
            })
        }),
{
}

} // verus!
