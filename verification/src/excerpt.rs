//! Bounded excerpt derivation: a heuristic slice of a document's extracted
//! text, taken after the first occurrence of the word "introduction"
//! (matched case-insensitively), or from the start of the text when that
//! word does not occur.

use vstd::prelude::*;
use vstd::string::StrSliceExecFns;
use crate::scan::{chars_of, find_ci, first_ci, match_ci_at};

verus! {

/// The marker word that an excerpt starts after.
pub open spec fn intro_marker() -> Seq<char> {
    seq!['i', 'n', 't', 'r', 'o', 'd', 'u', 'c', 't', 'i', 'o', 'n']
}

/// Upper bound on the number of characters in an excerpt.
pub open spec fn excerpt_cap() -> int {
    2000
}

/// The excerpt of `t`: up to 2000 characters immediately after the first
/// case-insensitive occurrence of the marker word, truncated at text end;
/// or the first up-to-2000 characters when the marker does not occur.
pub open spec fn spec_excerpt(t: Seq<char>) -> Seq<char> {
    match first_ci(t, intro_marker()) {
        Some(i) => {
            let start = i + intro_marker().len();
            let end = if start + excerpt_cap() <= t.len() {
                start + excerpt_cap()
            } else {
                t.len() as int
            };
            t.subrange(start, end)
        },
        None => {
            let end = if excerpt_cap() <= t.len() {
                excerpt_cap()
            } else {
                t.len() as int
            };
            t.subrange(0, end)
        },
    }
}

/// Derive the bounded excerpt of extracted text.
pub fn derive_excerpt(text: &str) -> (r: String)
    ensures
        r@ == spec_excerpt(text@),
{
    let v = chars_of(text);
    let pat: Vec<char> = vec!['i', 'n', 't', 'r', 'o', 'd', 'u', 'c', 't', 'i', 'o', 'n'];
    proof {
        assert(pat@ =~= intro_marker());
    }
    let n = text.unicode_len();
    match find_ci(&v, &pat) {
        Some(i) => {
            proof {
                crate::scan::lemma_first_ci_is_match(text@, intro_marker(), 0, i as int);
            }
            let start = i + 12;
            let end = if n - start >= 2000 {
                start + 2000
            } else {
                n
            };
            text.substring_char(start, end).to_owned()
        },
        None => {
            let end = if n >= 2000 {
                2000
            } else {
                n
            };
            text.substring_char(0, end).to_owned()
        },
    }
}

/// A text shorter than the cap and without the marker word is its own
/// excerpt, whole.
pub proof fn lemma_short_text_full_excerpt(t: Seq<char>)
    requires
        first_ci(t, intro_marker()) is None,
        t.len() <= excerpt_cap(),
    ensures
        spec_excerpt(t) == t,
{
    assert(spec_excerpt(t) =~= t);
}

} // verus!
