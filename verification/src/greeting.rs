//! The request and reply payloads of the basic connectivity check, and what
//! counts as a successful greeting.

use vstd::prelude::*;
use vstd::string::StrSliceExecFns;

verus! {

/// Payload of the connectivity check: whom to greet.
pub struct Request {
    pub name: String,
}

/// Reply of the connectivity check.
pub struct Response {
    pub greeting: String,
}

/// The phrase a greeting must carry to prove the service reached its
/// database.
pub open spec fn success_marker() -> Seq<char> {
    "connected to DSQL successfully"@
}

/// The needle stands in the haystack at position `i`, character by
/// character.
pub open spec fn spec_match_at(hay: Seq<char>, needle: Seq<char>, i: int) -> bool {
    &&& 0 <= i
    &&& i + needle.len() <= hay.len()
    &&& forall|t: int| 0 <= t < needle.len() ==> hay[i + t] == needle[t]
}

/// The needle stands somewhere in the haystack.
pub open spec fn spec_contains(hay: Seq<char>, needle: Seq<char>) -> bool {
    exists|i: int| spec_match_at(hay, needle, i)
}

/// Whether the needle occurs in the haystack, by characters.
pub fn contains_chars(hay: &str, needle: &str) -> (r: bool)
    ensures
        r == spec_contains(hay@, needle@),
{
    let n = hay.unicode_len();
    let m = needle.unicode_len();
    if m > n {
        return false;
    }
    let mut i: usize = 0;
    while i <= n - m
        invariant
            m <= n,
            n == hay@.len(),
            m == needle@.len(),
            i <= n - m + 1,
            forall|k: int| 0 <= k < i ==> !spec_match_at(hay@, needle@, k),
        decreases n - m - i + 1,
    {
        let mut j: usize = 0;
        let mut mismatch = false;
        while j < m
            invariant
                m <= n,
                n == hay@.len(),
                m == needle@.len(),
                i + m <= n,
                j <= m,
                !mismatch ==> forall|t: int| 0 <= t < j ==> hay@[i + t] == needle@[t],
                mismatch ==> !spec_match_at(hay@, needle@, i as int),
            decreases m - j,
        {
            if hay.get_char(i + j) != needle.get_char(j) {
                mismatch = true;
                proof {
                    assert(hay@[i + j] != needle@[j as int]);
                }
                j = m;
            } else {
                j = j + 1;
            }
        }
        if !mismatch {
            proof {
                assert(spec_match_at(hay@, needle@, i as int));
            }
            return true;
        }
        i = i + 1;
    }
    proof {
        assert forall|k: int| !spec_match_at(hay@, needle@, k) by {
            if 0 <= k <= n - m {
                assert(!spec_match_at(hay@, needle@, k));
            }
        }
    }
    false
}

impl Response {
    /// Whether the service reported a working database connection: the
    /// greeting carries the success phrase.
    pub fn indicates_success(&self) -> (r: bool)
        ensures
            r == spec_contains(self.greeting@, success_marker()),
    {
        contains_chars(self.greeting.as_str(), "connected to DSQL successfully")
    }
}

} // verus!
