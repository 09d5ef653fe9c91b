//! Resource names and symbols.
//!
//! Names are compared byte for byte in their UTF-8 encoding: a symbol
//! occurs in a name where its bytes are a contiguous part of the name's
//! bytes, and path components are divided by the byte `/`.

use vstd::prelude::*;
use vstd::slice::*;
use vstd::utf8::encode_utf8;

verus! {

/// The byte that divides the components of a path.
pub const SEPARATOR: u8 = 0x2F;

/// The bytes of a name.
pub open spec fn name_bytes(name: Seq<char>) -> Seq<u8> {
    encode_utf8(name)
}

/// Whether `needle` stands in `hay` at position `at`.
pub open spec fn occurs_at(hay: Seq<u8>, needle: Seq<u8>, at: int) -> bool {
    &&& 0 <= at
    &&& at + needle.len() <= hay.len()
    &&& hay.subrange(at, at + needle.len()) == needle
}

/// Whether `needle` is a contiguous part of `hay`.
pub open spec fn contains_bytes(hay: Seq<u8>, needle: Seq<u8>) -> bool {
    exists|at: int| occurs_at(hay, needle, at)
}

/// Where the last component of a path starts: behind its last separator,
/// at 0 where it has none.
pub open spec fn base_start(path: Seq<u8>) -> int
    decreases path.len(),
{
    if path.len() == 0 {
        0
    } else if path.last() == SEPARATOR {
        path.len() as int
    } else {
        base_start(path.drop_last())
    }
}

/// The last component of a path.
pub open spec fn base_name(path: Seq<u8>) -> Seq<u8> {
    path.subrange(base_start(path), path.len() as int)
}

/// The last component starts within the path, directly behind a separator
/// or at the front, and holds no separator itself.
pub proof fn base_start_bounds(path: Seq<u8>)
    ensures
        0 <= base_start(path) <= path.len(),
        base_start(path) > 0 ==> path[base_start(path) - 1] == SEPARATOR,
        forall|i: int| base_start(path) <= i < path.len() ==> path[i] != SEPARATOR,
    decreases path.len(),
{
    if path.len() > 0 && path.last() != SEPARATOR {
        let front = path.drop_last();
        base_start_bounds(front);
        assert forall|i: int| base_start(path) <= i < path.len() implies path[i] != SEPARATOR by {
            if i < front.len() {
                assert(front[i] == path[i]);
            }
        }
    }
}

/// A position that is directly behind a separator, or at the front, and
/// has no separator behind it is where the last component starts.
pub proof fn base_start_unique(path: Seq<u8>, start: int)
    requires
        0 <= start <= path.len(),
        start > 0 ==> path[start - 1] == SEPARATOR,
        forall|i: int| start <= i < path.len() ==> path[i] != SEPARATOR,
    ensures
        base_start(path) == start,
    decreases path.len(),
{
    if path.len() > 0 && path.last() != SEPARATOR {
        base_start_unique(path.drop_last(), start);
    }
}

/// Whether two byte strings are equal.
pub fn bytes_equal(left: &[u8], right: &[u8]) -> (r: bool)
    ensures
        r == (left@ == right@),
{
    if left.len() != right.len() {
        return false;
    }
    let mut i: usize = 0;
    while i < left.len()
        invariant
            i <= left.len(),
            left.len() == right.len(),
            forall|k: int| 0 <= k < i ==> left@[k] == right@[k],
        decreases left.len() - i,
    {
        if left[i] != right[i] {
            return false;
        }
        i += 1;
    }
    assert(left@ =~= right@);
    true
}

/// Whether `needle` stands in `hay` at position `at`.
fn matches_at(hay: &[u8], needle: &[u8], at: usize) -> (r: bool)
    requires
        at + needle@.len() <= hay@.len(),
    ensures
        r == occurs_at(hay@, needle@, at as int),
{
    assert(hay@.len() == hay.len());
    let mut i: usize = 0;
    while i < needle.len()
        invariant
            i <= needle.len(),
            at + needle@.len() <= hay@.len(),
            hay@.len() <= usize::MAX,
            forall|k: int| 0 <= k < i ==> hay@[at + k] == needle@[k],
        decreases needle.len() - i,
    {
        if hay[at + i] != needle[i] {
            return false;
        }
        i += 1;
    }
    assert(hay@.subrange(at as int, at + needle@.len()) =~= needle@);
    true
}

/// Whether `needle` is a contiguous part of `hay`.  The empty string is
/// part of every string.
pub fn bytes_contain(hay: &[u8], needle: &[u8]) -> (r: bool)
    ensures
        r == contains_bytes(hay@, needle@),
{
    if needle.len() > hay.len() {
        return false;
    }
    let last: usize = hay.len() - needle.len();
    let mut at: usize = 0;
    loop
        invariant
            at <= last,
            last == hay@.len() - needle@.len(),
            forall|k: int| 0 <= k < at ==> !occurs_at(hay@, needle@, k),
        decreases last - at,
    {
        if matches_at(hay, needle, at) {
            return true;
        }
        if at == last {
            return false;
        }
        at += 1;
    }
}

/// Whether the symbol occurs in the name.
pub fn name_contains(name: &str, symbol: &str) -> (r: bool)
    ensures
        r == contains_bytes(name_bytes(name@), name_bytes(symbol@)),
{
    bytes_contain(name.as_bytes(), symbol.as_bytes())
}

/// Whether two names are the same.
pub fn names_equal(left: &str, right: &str) -> (r: bool)
    ensures
        r == (name_bytes(left@) == name_bytes(right@)),
{
    bytes_equal(left.as_bytes(), right.as_bytes())
}

/// The last component of a path: what stands behind its last `/`, the
/// whole path where it holds none.
pub fn base_name_of(path: &[u8]) -> (base: &[u8])
    ensures
        base@ == base_name(path@),
{
    let mut start: usize = path.len();
    while start > 0 && path[start - 1] != SEPARATOR
        invariant
            start <= path.len(),
            forall|i: int| start <= i < path@.len() ==> path@[i] != SEPARATOR,
        decreases start,
    {
        start -= 1;
    }
    proof {
        base_start_unique(path@, start as int);
    }
    slice_subrange(path, start, path.len())
}

} // verus!
