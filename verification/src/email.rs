//! The identity filter's email-shape check.
//!
//! A resolved identity is kept only if some part of it looks like an email
//! address: at least one local-part character, an `@`, then at least two
//! dot-separated groups of label characters. This is a deliberately
//! permissive, syntactic shape check (it accepts some invalid addresses and
//! is not unicode-aware), not full address validation: the upstream data
//! source mixes internal non-email identifiers with real user email
//! identities, and only the latter are in scope downstream.

use vstd::prelude::*;
use vstd::string::StrSliceExecFns;

verus! {

/// A character the local part (before the `@`) may contain.
pub open spec fn is_local_char(c: char) -> bool {
    ||| 'A' as u32 <= c as u32 && c as u32 <= 'Z' as u32
    ||| 'a' as u32 <= c as u32 && c as u32 <= 'z' as u32
    ||| '0' as u32 <= c as u32 && c as u32 <= '9' as u32
    ||| c == '.'
    ||| c == '_'
    ||| c == '-'
}

/// A character a domain label may contain.
pub open spec fn is_label_char(c: char) -> bool {
    ||| 'A' as u32 <= c as u32 && c as u32 <= 'Z' as u32
    ||| 'a' as u32 <= c as u32 && c as u32 <= 'z' as u32
    ||| '0' as u32 <= c as u32 && c as u32 <= '9' as u32
    ||| c == '-'
}

/// An email-shaped part of `s` around the `@` at position `a`, with the
/// first dot of the domain at position `d`: one local-part character before
/// the `@`, a nonempty run of label characters, a dot, and at least one
/// more label character. A longer surrounding match always contains such a
/// minimal one, so the shape check is the existence of these two positions.
pub open spec fn email_match_at(s: Seq<char>, a: int, d: int) -> bool {
    &&& 1 <= a
    &&& a + 2 <= d
    &&& d + 2 <= s.len()
    &&& s[a] == '@'
    &&& is_local_char(s[a - 1])
    &&& forall|j: int| a < j < d ==> is_label_char(s[j])
    &&& s[d] == '.'
    &&& is_label_char(s[d + 1])
}

/// Whether some part of `s` is shaped like an email address.
pub open spec fn is_email_shaped(s: Seq<char>) -> bool {
    exists|a: int, d: int| email_match_at(s, a, d)
}

fn local_char(c: char) -> (r: bool)
    ensures
        r == is_local_char(c),
{
    ('A' as u32 <= c as u32 && c as u32 <= 'Z' as u32)
        || ('a' as u32 <= c as u32 && c as u32 <= 'z' as u32)
        || ('0' as u32 <= c as u32 && c as u32 <= '9' as u32) || c == '.' || c == '_' || c == '-'
}

fn label_char(c: char) -> (r: bool)
    ensures
        r == is_label_char(c),
{
    ('A' as u32 <= c as u32 && c as u32 <= 'Z' as u32)
        || ('a' as u32 <= c as u32 && c as u32 <= 'z' as u32)
        || ('0' as u32 <= c as u32 && c as u32 <= '9' as u32) || c == '-'
}

/// If the maximal label run after the `@` at `a` ends at `m` and no minimal
/// match sits there, then no dot position at all completes a match at `a`.
proof fn lemma_no_match_at(s: Seq<char>, a: int, m: int)
    requires
        1 <= a < s.len(),
        a + 1 <= m <= s.len(),
        forall|j: int| a < j < m ==> is_label_char(s[j]),
        m < s.len() ==> !is_label_char(s[m]),
        !(a + 2 <= m && m + 2 <= s.len() && s[m] == '.' && is_label_char(s[m + 1])),
    ensures
        forall|d: int| !email_match_at(s, a, d),
{
    assert forall|d: int| !email_match_at(s, a, d) by {
        if email_match_at(s, a, d) {
            assert(!is_label_char('.'));
            if d < m {
                assert(is_label_char(s[d]));
            } else if d > m {
                assert(is_label_char(s[m]));
            }
            assert(false);
        }
    };
}

/// Decides whether some part of `s` is shaped like an email address.
pub fn email_shaped(s: &str) -> (r: bool)
    ensures
        r == is_email_shaped(s@),
{
    let n = s.unicode_len();
    let mut a: usize = 1;
    while a < n
        invariant
            1 <= a,
            n == s@.len(),
            forall|x: int, d: int| x < a ==> !email_match_at(s@, x, d),
        decreases n - a,
    {
        if s.get_char(a) == '@' && local_char(s.get_char(a - 1)) {
            let mut m: usize = a + 1;
            while m < n && label_char(s.get_char(m))
                invariant
                    a + 1 <= m <= n,
                    a < n,
                    n == s@.len(),
                    forall|j: int| a < j < m ==> is_label_char(s@[j]),
                decreases n - m,
            {
                m = m + 1;
            }
            if m - a >= 2 && n - m >= 2 && s.get_char(m) == '.' && label_char(s.get_char(m + 1)) {
                proof {
                    assert(email_match_at(s@, a as int, m as int));
                }
                return true;
            }
            proof {
                lemma_no_match_at(s@, a as int, m as int);
            }
        }
        a = a + 1;
    }
    proof {
        assert forall|x: int, d: int| !email_match_at(s@, x, d) by {
            if email_match_at(s@, x, d) {
                assert(x < a);
                assert(false);
            }
        };
    }
    false
}

} // verus!
