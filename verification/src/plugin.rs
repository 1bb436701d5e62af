//! The two entry points a loadable plugin exports: an addition and a
//! line search.  Verified here; a shared library built from the same
//! logic is what `ExternalLibCall` loads at run time.

use vstd::prelude::*;

verus! {

/// Whether `needle` occurs in `hay` starting at position `i`.
pub open spec fn contains_at(hay: Seq<char>, needle: Seq<char>, i: int) -> bool {
    0 <= i && i + needle.len() <= hay.len() && hay.subrange(i, i + needle.len()) == needle
}

/// Whether `needle` occurs anywhere in `hay`.
pub open spec fn contains_sub(hay: Seq<char>, needle: Seq<char>) -> bool {
    exists|i: int| contains_at(hay, needle, i)
}

/// The sum of the two arguments.
pub fn sum(a: u64, b: u64) -> (r: u64)
    requires
        a + b <= u64::MAX,
    ensures
        r == a + b,
{
    a + b
}

/// Whether `needle` occurs in `hay` starting at position `i`.
fn match_at(hay: &str, needle: &str, i: usize) -> (r: bool)
    requires
        i + needle@.len() <= hay@.len() <= usize::MAX,
    ensures
        r == contains_at(hay@, needle@, i as int),
{
    let n = needle.unicode_len();
    let mut j: usize = 0;
    while j < n
        invariant
            0 <= j <= n == needle@.len(),
            i + n <= hay@.len() <= usize::MAX,
            forall|k: int| 0 <= k < j ==> hay@[i + k] == needle@[k],
        decreases n - j,
    {
        if hay.get_char(i + j) != needle.get_char(j) {
            proof {
                assert(hay@.subrange(i as int, i + needle@.len())[j as int] != needle@[j as int]);
            }
            return false;
        }
        j = j + 1;
    }
    proof {
        assert(hay@.subrange(i as int, i + needle@.len()) =~= needle@);
    }
    true
}

/// Whether `needle` occurs anywhere in `hay`.
pub fn str_contains(hay: &str, needle: &str) -> (r: bool)
    ensures
        r == contains_sub(hay@, needle@),
{
    let hn = hay.unicode_len();
    let nn = needle.unicode_len();
    if nn > hn {
        proof {
            assert(forall|i: int| !contains_at(hay@, needle@, i));
        }
        return false;
    }
    let limit = hn - nn;
    let mut i: usize = 0;
    while i < limit
        invariant
            nn <= hn == hay@.len() <= usize::MAX,
            nn == needle@.len(),
            limit == hn - nn,
            0 <= i <= limit,
            forall|k: int| 0 <= k < i ==> !contains_at(hay@, needle@, k),
        decreases limit - i,
    {
        if match_at(hay, needle, i) {
            return true;
        }
        i = i + 1;
    }
    if match_at(hay, needle, limit) {
        return true;
    }
    proof {
        assert forall|k: int| !contains_at(hay@, needle@, k) by {
            if 0 <= k < limit {
            } else {
            }
        }
    }
    false
}

/// The first line that contains the target, if any.
pub fn find(lines: &Vec<String>, target: &str) -> (r: Option<String>)
    ensures
        r is None ==> forall|i: int|
            0 <= i < lines@.len() ==> !contains_sub(#[trigger] lines@[i]@, target@),
        r matches Some(s) ==> exists|i: int|
            0 <= i < lines@.len() && s@ == #[trigger] lines@[i]@ && contains_sub(
                lines@[i]@,
                target@,
            ) && (forall|j: int| 0 <= j < i ==> !contains_sub(#[trigger] lines@[j]@, target@)),
{
    let n = lines.len();
    let mut i: usize = 0;
    while i < n
        invariant
            0 <= i <= n == lines@.len(),
            forall|k: int| 0 <= k < i ==> !contains_sub(#[trigger] lines@[k]@, target@),
        decreases n - i,
    {
        if str_contains(lines[i].as_str(), target) {
            let found = lines[i].clone();
            return Some(found);
        }
        i = i + 1;
    }
    None
}

} // verus!
