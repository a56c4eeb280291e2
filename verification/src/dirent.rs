//! Reading the records that `getdents64` writes: each `linux_dirent64` is an
//! 8-byte inode number, an 8-byte offset, a 2-byte little-endian record
//! length, a 1-byte type, then the NUL-terminated name, padded to the record
//! length.

use vstd::prelude::*;
use crate::text::push_bytes;

verus! {

/// Where the name starts inside a record.
pub const NAME_OFFSET: usize = 19;

/// The record length stored at `off + 16` (little-endian).
pub open spec fn reclen_at(buf: Seq<u8>, off: int) -> int {
    buf[off + 16] as int + 256 * (buf[off + 17] as int)
}

/// Index of the first NUL in `s` at or after `k`, or `s.len()` when there is
/// none.
pub open spec fn nul_index(s: Seq<u8>, k: int) -> int
    decreases s.len() - k,
{
    if k >= s.len() {
        s.len() as int
    } else if s[k] == 0 {
        k
    } else {
        nul_index(s, k + 1)
    }
}

/// The name of the record at `off`: its bytes up to the first NUL, within the
/// record.
pub open spec fn name_at(buf: Seq<u8>, off: int) -> Seq<u8> {
    let field = buf.subrange(off + NAME_OFFSET as int, off + reclen_at(buf, off));
    field.subrange(0, nul_index(field, 0))
}

/// Every record reached from `off` before `end` lies within the buffer, and
/// its length is 0 (which ends the listing) or covers at least the fixed
/// fields.
pub open spec fn records_fit(buf: Seq<u8>, off: int, end: int) -> bool
    decreases buf.len() - off,
{
    if off >= end {
        true
    } else if off < 0 || off + 18 > buf.len() {
        false
    } else if reclen_at(buf, off) == 0 {
        true
    } else if reclen_at(buf, off) < NAME_OFFSET || off + reclen_at(buf, off) > buf.len() {
        false
    } else {
        records_fit(buf, off + reclen_at(buf, off), end)
    }
}

/// The names of the records from `off` up to `end`, in buffer order; a
/// record length of 0 ends the listing.
pub open spec fn names_from(buf: Seq<u8>, off: int, end: int) -> Seq<Seq<u8>>
    decreases buf.len() - off,
{
    if off >= end || off < 0 || off + 18 > buf.len() {
        Seq::empty()
    } else if reclen_at(buf, off) < NAME_OFFSET as int || off + reclen_at(buf, off) > buf.len() {
        Seq::empty()
    } else {
        seq![name_at(buf, off)] + names_from(buf, off + reclen_at(buf, off), end)
    }
}

/// The byte strings held by a vector of buffers.
pub open spec fn contents(v: Seq<Vec<u8>>) -> Seq<Seq<u8>> {
    v.map_values(|x: Vec<u8>| x@)
}

/// The names of the directory entries in the first `nread` bytes that
/// `getdents64` returned in `buf`.
pub fn parse_dirents(buf: &[u8], nread: usize) -> (names: Vec<Vec<u8>>)
    requires
        nread <= buf@.len(),
        records_fit(buf@, 0, nread as int),
    ensures
        contents(names@) == names_from(buf@, 0, nread as int),
{
    let buf_len = buf.len();
    let mut names: Vec<Vec<u8>> = Vec::new();
    let mut offset: usize = 0;
    let mut done = false;
    while offset < nread && !done
        invariant
            nread <= buf@.len(),
            buf_len == buf@.len(),
            offset <= buf@.len(),
            records_fit(buf@, offset as int, nread as int),
            !done ==> names_from(buf@, 0, nread as int) == contents(names@) + names_from(
                buf@,
                offset as int,
                nread as int,
            ),
            done ==> names_from(buf@, 0, nread as int) == contents(names@),
        decreases buf@.len() - offset, if done { 0int } else { 1int },
    {
        assert(offset + 18 <= buf@.len());
        let lo: u8 = buf[offset + 16];
        let hi: u8 = buf[offset + 17];
        let reclen: usize = lo as usize + 256 * (hi as usize);
        if reclen == 0 {
            done = true;
        } else {
            let start = offset + NAME_OFFSET;
            let limit = offset + reclen;
            let ghost field = buf@.subrange(start as int, limit as int);
            let mut len: usize = 0;
            let mut at_nul = false;
            while start + len < limit && !at_nul
                invariant
                    start <= limit <= buf@.len(),
                    field == buf@.subrange(start as int, limit as int),
                    start + len <= limit,
                    !at_nul ==> nul_index(field, 0) == nul_index(field, len as int),
                    at_nul ==> nul_index(field, 0) == len,
                decreases limit - start - len, if at_nul { 0int } else { 1int },
            {
                if buf[start + len] == 0 {
                    at_nul = true;
                } else {
                    len = len + 1;
                }
            }
            let mut name: Vec<u8> = Vec::new();
            push_bytes(&mut name, &buf[start..start + len]);
            let ghost before = names@;
            names.push(name);
            proof {
                assert(name@ == name_at(buf@, offset as int));
                assert(contents(names@) == contents(before) + seq![name@]);
            }
            offset = limit;
        }
    }
    names
}

/// Checks the condition `parse_dirents` needs: every record reached before
/// `nread` lies within the buffer and is long enough for its fixed fields.
pub fn records_fit_checked(buf: &[u8], nread: usize) -> (r: bool)
    requires
        nread <= buf@.len(),
    ensures
        r == records_fit(buf@, 0, nread as int),
{
    let buf_len = buf.len();
    let mut off: usize = 0;
    loop
        invariant
            buf_len == buf@.len(),
            nread <= buf_len,
            off <= buf_len,
            records_fit(buf@, 0, nread as int) == records_fit(buf@, off as int, nread as int),
        decreases buf_len - off,
    {
        if off >= nread {
            return true;
        }
        if buf_len - off < 18 {
            return false;
        }
        let lo: u8 = buf[off + 16];
        let hi: u8 = buf[off + 17];
        let reclen: usize = lo as usize + 256 * (hi as usize);
        if reclen == 0 {
            return true;
        }
        if reclen < NAME_OFFSET || buf_len - off < reclen {
            return false;
        }
        off = off + reclen;
    }
}

/// Some entry of `names` is exactly `target`.
pub fn contains_name(names: &Vec<Vec<u8>>, target: &[u8]) -> (r: bool)
    ensures
        r == exists|i: int| 0 <= i < names@.len() && #[trigger] names@[i]@ == target@,
{
    let mut i: usize = 0;
    while i < names.len()
        invariant
            i <= names@.len(),
            forall|j: int| 0 <= j < i ==> #[trigger] names@[j]@ != target@,
        decreases names@.len() - i,
    {
        if bytes_equal(names[i].as_slice(), target) {
            return true;
        }
        i = i + 1;
    }
    false
}

/// The two byte strings are equal.
pub fn bytes_equal(a: &[u8], b: &[u8]) -> (r: bool)
    ensures
        r == (a@ == b@),
{
    if a.len() != b.len() {
        return false;
    }
    let mut i: usize = 0;
    while i < a.len()
        invariant
            a@.len() == b@.len(),
            i <= a@.len(),
            forall|j: int| 0 <= j < i ==> a@[j] == b@[j],
        decreases a@.len() - i,
    {
        if a[i] != b[i] {
            return false;
        }
        i = i + 1;
    }
    assert(a@ =~= b@);
    true
}

/// `nul_index` finds the first NUL at or after `k`.
proof fn lemma_nul_index(s: Seq<u8>, k: int)
    requires
        0 <= k <= s.len(),
    ensures
        k <= nul_index(s, k) <= s.len(),
        forall|i: int| k <= i < nul_index(s, k) ==> s[i] != 0,
        nul_index(s, k) < s.len() ==> s[nul_index(s, k)] == 0,
    decreases s.len() - k,
{
    if k < s.len() && s[k] != 0 {
        lemma_nul_index(s, k + 1);
    }
}

/// Law: the record length is the little-endian 16-bit value at bytes 16 and
/// 17 of the record, and a record's name is its bytes from offset 19 up to
/// the first NUL, or to the end of the record when there is none: it holds
/// no NUL and is followed by one or by the record's end.
pub proof fn lemma_name_at_meaning(buf: Seq<u8>, off: int)
    requires
        0 <= off,
        off + 18 <= buf.len(),
        reclen_at(buf, off) >= 19,
        off + reclen_at(buf, off) <= buf.len(),
    ensures
        reclen_at(buf, off) == buf[off + 16] + 256 * buf[off + 17],
        ({
            let name = name_at(buf, off);
            let end = off + reclen_at(buf, off);
            &&& off + 19 + name.len() <= end
            &&& forall|i: int| 0 <= i < name.len() ==> name[i] == buf[off + 19 + i] && name[i] != 0
            &&& (off + 19 + name.len() == end || buf[off + 19 + name.len()] == 0)
        }),
{
    let field = buf.subrange(off + 19, off + reclen_at(buf, off));
    lemma_nul_index(field, 0);
    let n = nul_index(field, 0);
    assert forall|i: int| 0 <= i < n implies name_at(buf, off)[i] == buf[off + 19 + i]
        && name_at(buf, off)[i] != 0 by {
        assert(name_at(buf, off)[i] == field[i]);
    }
    if n < field.len() {
        assert(field[n] == buf[off + 19 + n]);
    }
}

/// Law: how a listing is walked. Nothing is read at or past `end`; a record
/// whose length is below the fixed 19 bytes (0 among them) or that would run
/// past the buffer ends the listing; any other record gives its name, and
/// the walk goes on at the record that follows it.
pub proof fn lemma_names_walk(buf: Seq<u8>, off: int, end: int)
    requires
        0 <= off,
        off + 18 <= buf.len(),
    ensures
        off >= end ==> names_from(buf, off, end) == Seq::<Seq<u8>>::empty(),
        (off < end && (reclen_at(buf, off) < 19 || off + reclen_at(buf, off) > buf.len()))
            ==> names_from(buf, off, end) == Seq::<Seq<u8>>::empty(),
        (off < end && reclen_at(buf, off) >= 19 && off + reclen_at(buf, off) <= buf.len())
            ==> names_from(buf, off, end) == seq![name_at(buf, off)] + names_from(
            buf,
            off + reclen_at(buf, off),
            end,
        ),
{
}

/// Law: the records fit exactly when, walking from `off` until `end`, each
/// record's header lies in the buffer and each record is either the
/// terminating one of length 0 or at least 19 bytes long and within the
/// buffer.
pub proof fn lemma_records_fit_walk(buf: Seq<u8>, off: int, end: int)
    ensures
        off >= end ==> records_fit(buf, off, end),
        (off < end && (off < 0 || off + 18 > buf.len())) ==> !records_fit(buf, off, end),
        (off < end && 0 <= off && off + 18 <= buf.len() && reclen_at(buf, off) == 0) ==> records_fit(
            buf,
            off,
            end,
        ),
        (off < end && 0 <= off && off + 18 <= buf.len() && reclen_at(buf, off) != 0 && (
        reclen_at(buf, off) < 19 || off + reclen_at(buf, off) > buf.len())) ==> !records_fit(
            buf,
            off,
            end,
        ),
        (off < end && 0 <= off && off + 18 <= buf.len() && reclen_at(buf, off) >= 19 && off
            + reclen_at(buf, off) <= buf.len()) ==> (records_fit(buf, off, end) == records_fit(
            buf,
            off + reclen_at(buf, off),
            end,
        )),
{
}

/// Law: the byte strings of a vector of buffers are the buffers' contents,
/// one for one and in order.
pub proof fn lemma_contents_one_for_one(v: Seq<Vec<u8>>)
    ensures
        contents(v).len() == v.len(),
        forall|i: int| 0 <= i < v.len() ==> #[trigger] contents(v)[i] == v[i]@,
{
}

/// Law: a record's name starts 19 bytes into it, after the 8-byte inode,
/// the 8-byte offset, the 2-byte length and the 1-byte type.
pub proof fn lemma_name_offset()
    ensures
        NAME_OFFSET == 8 + 8 + 2 + 1,
{
}

} // verus!
