//! The decision step of the permission check.
//!
//! The member lookup returns, when present, a permission string; a user is
//! taken to hold a permission exactly when that string contains the asked-for
//! permission as a contiguous substring, and never when the lookup returned
//! no permission string at all.

use vstd::prelude::*;

verus! {

/// Whether `needle` occurs contiguously inside `hay`.
pub open spec fn contains_seq(hay: Seq<char>, needle: Seq<char>) -> bool {
    exists|i: int|
        0 <= i <= hay.len() - needle.len() && #[trigger] hay.subrange(i, i + needle.len())
            == needle
}

/// Whether `needle` occurs contiguously inside `hay`.
pub fn str_contains(hay: &str, needle: &str) -> (r: bool)
    ensures
        r == contains_seq(hay@, needle@),
{
    let n = hay.unicode_len();
    let m = needle.unicode_len();
    if m > n {
        proof {
            assert(!contains_seq(hay@, needle@));
        }
        return false;
    }
    let mut i: usize = 0;
    while i <= n - m
        invariant
            n == hay@.len(),
            m == needle@.len(),
            m <= n,
            0 <= i <= n - m + 1,
            forall|k: int|
                0 <= k < i ==> #[trigger] hay@.subrange(k, k + needle@.len()) != needle@,
        decreases n - i,
    {
        let mut j: usize = 0;
        while j < m && hay.get_char(i + j) == needle.get_char(j)
            invariant
                n == hay@.len(),
                m == needle@.len(),
                m <= n,
                0 <= i <= n - m,
                0 <= j <= m,
                forall|k: int| 0 <= k < j ==> hay@[i + k] == needle@[k],
            decreases m - j,
        {
            j = j + 1;
        }
        if j == m {
            proof {
                assert(hay@.subrange(i as int, i + needle@.len()) =~= needle@);
            }
            return true;
        }
        proof {
            assert(hay@.subrange(i as int, i + needle@.len())[j as int] == hay@[i + j]);
            assert(hay@.subrange(i as int, i + needle@.len()) != needle@);
        }
        i = i + 1;
    }
    proof {
        assert(!contains_seq(hay@, needle@));
    }
    false
}

/// Whether a member lookup's outcome grants a permission: the lookup must
/// have yielded a permission string, and that string must contain the
/// asked-for permission. A lookup without a permission string grants
/// nothing.
pub fn permission_granted(permissions: Option<&str>, permission: &str) -> (r: bool)
    ensures
        r == match permissions {
            Option::Some(p) => contains_seq(p@, permission@),
            Option::None => false,
        },
{
    match permissions {
        Option::Some(p) => str_contains(p, permission),
        Option::None => false,
    }
}

} // verus!
