//! Validation of user-supplied filename suffixes.

use vstd::prelude::*;
use crate::chars::{all_ws, contains_seq, has_char, str_all_whitespace, str_contains, str_has_char};

verus! {

/// The Debug rendering of a string (`format!("{:?}", s)`): quoted, with escapes.
pub uninterp spec fn str_debug(s: Seq<char>) -> Seq<char>;

/// Renders `s` the way `{:?}` does, for error messages.
#[verifier::external_body]
fn debug_str(s: &str) -> (r: String)
    ensures
        r@ == str_debug(s@),
{
    format!("{:?}", s)
}

/// What `validate` returns for a suffix `s`.
pub open spec fn spec_validate_suffix(s: Seq<char>) -> Result<Seq<char>, Seq<char>> {
    if s.len() == 0 {
        Ok(Seq::empty())
    } else if all_ws(s) {
        Err("suffix must not be whitespace-only: "@ + str_debug(s))
    } else if has_char(s, '/') || has_char(s, '\\') {
        Err("suffix must not contain path separators: "@ + str_debug(s))
    } else if contains_seq(s, ".."@) {
        Err("suffix must not contain '..': "@ + str_debug(s))
    } else {
        Ok(s)
    }
}

/// The view of a `Result` of strings.
pub open spec fn result_view(r: Result<String, String>) -> Result<Seq<char>, Seq<char>> {
    match r {
        Ok(s) => Ok(s@),
        Err(e) => Err(e@),
    }
}

/// Validates a suffix from the command line or the config file. The empty suffix is
/// accepted (it selects the built-in default downstream); a whitespace-only suffix, one
/// holding a path separator, and one holding `..` are rejected. An accepted suffix is
/// returned unchanged.
pub fn validate(s: &str) -> (r: Result<String, String>)
    ensures
        result_view(r) == spec_validate_suffix(s@),
{
    if s.unicode_len() == 0 {
        let e = String::new();
        assert(e@ =~= Seq::<char>::empty());
        return Ok(e);
    }
    if str_all_whitespace(s) {
        let mut m = String::from_str("suffix must not be whitespace-only: ");
        m.append(debug_str(s).as_str());
        return Err(m);
    }
    if str_has_char(s, '/') || str_has_char(s, '\\') {
        let mut m = String::from_str("suffix must not contain path separators: ");
        m.append(debug_str(s).as_str());
        return Err(m);
    }
    if str_contains(s, "..") {
        let mut m = String::from_str("suffix must not contain '..': ");
        m.append(debug_str(s).as_str());
        return Err(m);
    }
    Ok(String::from_str(s))
}

/// An accepted suffix never holds a path separator or `..`, so it cannot lead an output
/// file out of its directory.
pub proof fn lemma_accepted_suffix_stays_in_place(s: Seq<char>)
    requires
        spec_validate_suffix(s) is Ok,
    ensures
        !has_char(spec_validate_suffix(s)->Ok_0, '/'),
        !has_char(spec_validate_suffix(s)->Ok_0, '\\'),
        !contains_seq(spec_validate_suffix(s)->Ok_0, ".."@),
        spec_validate_suffix(s)->Ok_0 == s,
{
    if s.len() == 0 {
        assert(s =~= Seq::<char>::empty());
        assert(!contains_seq(s, ".."@)) by {
            reveal_strlit("..");
            assert forall|i: int| !#[trigger] crate::chars::occurs_at(s, ".."@, i) by {}
        }
    }
}

} // verus!
