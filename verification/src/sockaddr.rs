//! Socket addresses built by the socket tests.

use vstd::prelude::*;

verus! {

/// Size of `sun_path` in `struct sockaddr_un`.
pub const SUN_PATH_LEN: usize = 108;

/// Size of `sun_family` in `struct sockaddr_un`.
pub const SUN_FAMILY_LEN: u32 = 2;

/// The `sun_path` of a Linux abstract socket address named `name`: a NUL,
/// then the name, then zeros up to the full field.
pub open spec fn abstract_path(name: Seq<u8>) -> Seq<u8> {
    Seq::new(
        SUN_PATH_LEN as nat,
        |i: int|
            if 1 <= i <= name.len() {
                name[i - 1]
            } else {
                0u8
            },
    )
}

/// The `sun_path` field of an abstract socket address for `name` and the
/// address length to pass to `bind` and `connect`: the family field, the
/// leading NUL, and the name.
pub fn abstract_unix_address(name: &[u8]) -> (r: (Vec<u8>, u32))
    requires
        name@.len() < SUN_PATH_LEN,
    ensures
        r.0@ == abstract_path(name@),
        r.1 == SUN_FAMILY_LEN + 1 + name@.len(),
{
    let mut path: Vec<u8> = Vec::new();
    let mut i: usize = 0;
    while i < SUN_PATH_LEN
        invariant
            name@.len() < SUN_PATH_LEN,
            i <= SUN_PATH_LEN,
            path@.len() == i,
            forall|j: int| 0 <= j < i ==> path@[j] == abstract_path(name@)[j],
        decreases SUN_PATH_LEN - i,
    {
        let byte: u8 = if 1 <= i && i <= name.len() {
            name[i - 1]
        } else {
            0
        };
        path.push(byte);
        i = i + 1;
    }
    assert(path@ =~= abstract_path(name@));
    (path, SUN_FAMILY_LEN + 1 + name.len() as u32)
}

/// Law: an abstract socket path fills the whole 108-byte field: a NUL first,
/// then the name byte for byte, then NULs to the end.
pub proof fn lemma_abstract_path_layout(name: Seq<u8>)
    requires
        name.len() < 108,
    ensures
        abstract_path(name).len() == 108,
        abstract_path(name)[0] == 0,
        abstract_path(name).subrange(1, 1 + name.len() as int) == name,
        forall|i: int| 1 + name.len() <= i < 108 ==> abstract_path(name)[i] == 0,
{
    assert(abstract_path(name).subrange(1, 1 + name.len() as int) =~= name);
}

/// Law: the address length passed with an abstract name is three bytes (the
/// 2-byte family and the leading NUL) more than the name, and the path field
/// is 108 bytes.
pub proof fn lemma_abstract_address_length(name_len: nat)
    ensures
        SUN_FAMILY_LEN + 1 + name_len == 3 + name_len,
        SUN_PATH_LEN == 108,
{
}

} // verus!
