//! Deriving the ship's identity from the session credential.
//!
//! The login response's `set-cookie` value has the shape
//! `urbauth-~name=TOKEN; ...`: the identity is the text between a
//! fixed-length prefix and the first `=` character. Derivation succeeds
//! exactly when the value's first `=` sits at or after the prefix's end.

use vstd::prelude::*;
use vstd::string::StrSliceExecFns;
use vstd::string::StringExecFns;

verus! {

/// Length of the fixed prefix that precedes the identity in the credential
/// text: `urbauth-~` is 9 characters, so the derived identity carries no
/// leading `~`.
pub const IDENTITY_OFFSET: usize = 9;

/// Index of the first `=` in `s` at or after position `i`; `s.len()` when
/// there is none.
pub open spec fn first_eq_from(s: Seq<char>, i: int) -> int
    decreases s.len() - i,
{
    if i < 0 || i >= s.len() {
        s.len() as int
    } else if s[i] == '=' {
        i
    } else {
        first_eq_from(s, i + 1)
    }
}

/// An identity can be derived from credential text `s` exactly when its
/// first `=` sits at or after the fixed prefix's end.
pub open spec fn derivable(s: Seq<char>) -> bool {
    IDENTITY_OFFSET <= first_eq_from(s, 0) < s.len()
}

/// The identity carried by credential text `s`: the characters between the
/// fixed prefix and the first `=`.
pub open spec fn identity_of(s: Seq<char>) -> Seq<char> {
    s.subrange(IDENTITY_OFFSET as int, first_eq_from(s, 0))
}

/// `first_eq_from(s, i)` stays within `[i, s.len()]`, lands on an `=` when
/// it is below `s.len()`, and skips no earlier `=`.
pub proof fn lemma_first_eq_from(s: Seq<char>, i: int)
    requires
        0 <= i <= s.len(),
    ensures
        i <= first_eq_from(s, i) <= s.len(),
        first_eq_from(s, i) < s.len() ==> s[first_eq_from(s, i)] == '=',
        forall|j: int| i <= j < first_eq_from(s, i) ==> s[j] != '=',
    decreases s.len() - i,
{
    if i < s.len() && s[i] != '=' {
        lemma_first_eq_from(s, i + 1);
    }
}

/// Position of the first `=` character in `auth`, if any.
pub fn find_first_eq(auth: &str) -> (r: Option<usize>)
    ensures
        match r {
            Some(i) => i == first_eq_from(auth@, 0) && i < auth@.len(),
            None => first_eq_from(auth@, 0) == auth@.len(),
        },
{
    let len = auth.unicode_len();
    let mut i: usize = 0;
    while i < len
        invariant
            0 <= i <= len,
            len == auth@.len(),
            first_eq_from(auth@, 0) == first_eq_from(auth@, i as int),
        decreases len - i,
    {
        let c = auth.get_char(i);
        if c == '=' {
            return Some(i);
        }
        i = i + 1;
    }
    None
}

/// Derives the identity from credential text: the characters between the
/// fixed prefix and the first `=`. Returns `None` exactly when no `=` is
/// present, or the first `=` falls inside the prefix.
pub fn derive_identity(auth: &str) -> (r: Option<String>)
    ensures
        match r {
            Some(id) => derivable(auth@) && id@ == identity_of(auth@),
            None => !derivable(auth@),
        },
{
    match find_first_eq(auth) {
        None => None,
        Some(i) => {
            if i < IDENTITY_OFFSET {
                None
            } else {
                let id = auth.substring_char(IDENTITY_OFFSET, i);
                Some(String::from_str(id))
            }
        },
    }
}

/// A derived identity never contains an `=` character: it ends where the
/// credential's first `=` begins.
pub proof fn lemma_identity_has_no_eq(s: Seq<char>)
    requires
        derivable(s),
    ensures
        forall|k: int| 0 <= k < identity_of(s).len() ==> identity_of(s)[k] != '=',
{
    lemma_first_eq_from(s, 0);
}

/// A derived identity is non-empty whenever the credential's first `=` sits
/// strictly after the fixed prefix (as it does in every credential whose
/// identity part is non-empty).
pub proof fn lemma_identity_nonempty(s: Seq<char>)
    requires
        derivable(s),
        first_eq_from(s, 0) > IDENTITY_OFFSET,
    ensures
        identity_of(s).len() > 0,
{
}

} // verus!
