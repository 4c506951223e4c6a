//! Structural DOI extraction: locate the first substring of a text shaped
//! like a DOI — the fixed `10.` marker, a registrant prefix of 4 to 9
//! digits, a slash, and a non-empty suffix of allowed characters. No
//! registry validation is performed here.

use vstd::prelude::*;
use vstd::string::StrSliceExecFns;
use crate::scan::chars_of;

verus! {

/// `c` is a decimal digit.
pub open spec fn is_digit(c: char) -> bool {
    48 <= c as u32 && c as u32 <= 57
}

/// `c` may appear in a DOI suffix: letters, digits, and `-._;()/:`.
pub open spec fn doi_suffix_char(c: char) -> bool {
    ||| is_digit(c)
    ||| 97 <= c as u32 && c as u32 <= 122
    ||| 65 <= c as u32 && c as u32 <= 90
    ||| c == '-' || c == '.' || c == '_' || c == ';' || c == '(' || c == ')' || c == '/'
        || c == ':'
}

/// First position at or after `i` where the run of digits ends.
pub open spec fn digit_run_end(s: Seq<char>, i: int) -> int
    decreases s.len() - i when 0 <= i <= s.len()
{
    if i == s.len() {
        i
    } else if !is_digit(s[i]) {
        i
    } else {
        digit_run_end(s, i + 1)
    }
}

/// First position at or after `i` where the run of DOI suffix characters ends.
pub open spec fn suffix_run_end(s: Seq<char>, i: int) -> int
    decreases s.len() - i when 0 <= i <= s.len()
{
    if i == s.len() {
        i
    } else if !doi_suffix_char(s[i]) {
        i
    } else {
        suffix_run_end(s, i + 1)
    }
}

/// A DOI-shaped substring begins at position `i` of `s`: the `10.` marker,
/// then 4 to 9 digits, then `/`, then at least one suffix character.
pub open spec fn doi_match_at(s: Seq<char>, i: int) -> bool {
    &&& 0 <= i
    &&& i + 3 <= s.len()
    &&& s[i] == '1'
    &&& s[i + 1] == '0'
    &&& s[i + 2] == '.'
    &&& ({
        let j = digit_run_end(s, i + 3);
        &&& 4 <= j - (i + 3)
        &&& j - (i + 3) <= 9
        &&& j < s.len()
        &&& s[j] == '/'
        &&& j + 1 < s.len()
        &&& doi_suffix_char(s[j + 1])
    })
}

/// End of the DOI-shaped substring that begins at `i`: the suffix run is
/// taken as long as possible.
pub open spec fn doi_end(s: Seq<char>, i: int) -> int {
    suffix_run_end(s, digit_run_end(s, i + 3) + 1)
}

/// Position of the first DOI-shaped substring at or after `i`.
pub open spec fn first_doi_from(s: Seq<char>, i: int) -> Option<int>
    decreases s.len() - i + 1 when 0 <= i
{
    if i >= s.len() {
        None
    } else if doi_match_at(s, i) {
        Some(i)
    } else {
        first_doi_from(s, i + 1)
    }
}

/// The first DOI-shaped substring of `s`, if any.
pub open spec fn spec_extract_doi(s: Seq<char>) -> Option<Seq<char>> {
    match first_doi_from(s, 0) {
        Some(i) => Some(s.subrange(i, doi_end(s, i))),
        None => None,
    }
}

/// `c` is a decimal digit.
fn is_digit_exec(c: char) -> (r: bool)
    ensures
        r == is_digit(c),
{
    let u = c as u32;
    48 <= u && u <= 57
}

/// `c` may appear in a DOI suffix.
fn doi_suffix_char_exec(c: char) -> (r: bool)
    ensures
        r == doi_suffix_char(c),
{
    let u = c as u32;
    (48 <= u && u <= 57) || (97 <= u && u <= 122) || (65 <= u && u <= 90) || c == '-' || c == '.'
        || c == '_' || c == ';' || c == '(' || c == ')' || c == '/' || c == ':'
}

/// End of the digit run starting at `i`.
fn digit_run_end_exec(v: &Vec<char>, i: usize) -> (r: usize)
    requires
        i <= v@.len(),
    ensures
        r == digit_run_end(v@, i as int),
        i <= r <= v@.len(),
{
    let mut j = i;
    while j < v.len() && is_digit_exec(v[j])
        invariant
            i <= j <= v@.len(),
            digit_run_end(v@, i as int) == digit_run_end(v@, j as int),
        decreases v@.len() - j,
    {
        j = j + 1;
    }
    j
}

/// End of the DOI suffix run starting at `i`.
fn suffix_run_end_exec(v: &Vec<char>, i: usize) -> (r: usize)
    requires
        i <= v@.len(),
    ensures
        r == suffix_run_end(v@, i as int),
        i <= r <= v@.len(),
{
    let mut j = i;
    while j < v.len() && doi_suffix_char_exec(v[j])
        invariant
            i <= j <= v@.len(),
            suffix_run_end(v@, i as int) == suffix_run_end(v@, j as int),
        decreases v@.len() - j,
    {
        j = j + 1;
    }
    j
}

/// A DOI-shaped substring begins at position `i`.
fn doi_match_at_exec(v: &Vec<char>, i: usize) -> (r: bool)
    requires
        i < v@.len(),
    ensures
        r == doi_match_at(v@, i as int),
{
    if v.len() - i < 3 {
        return false;
    }
    if !(v[i] == '1' && v[i + 1] == '0' && v[i + 2] == '.') {
        return false;
    }
    let j = digit_run_end_exec(v, i + 3);
    let n = j - (i + 3);
    if n < 4 || n > 9 {
        return false;
    }
    if j == v.len() || v[j] != '/' {
        return false;
    }
    if j + 1 == v.len() || !doi_suffix_char_exec(v[j + 1]) {
        return false;
    }
    true
}

/// Search extracted text for the first substring shaped like a DOI.
/// Returns the full match (marker, registrant prefix, slash, and the
/// longest run of suffix characters), or nothing when no such substring
/// occurs.
pub fn extract_doi(text: &str) -> (r: Option<String>)
    ensures
        match r {
            Some(d) => spec_extract_doi(text@) == Some(d@),
            None => spec_extract_doi(text@) is None,
        },
{
    let v = chars_of(text);
    let n = v.len();
    let mut i: usize = 0;
    while i < n
        invariant
            i <= n,
            n == v@.len(),
            v@ == text@,
            first_doi_from(v@, 0) == first_doi_from(v@, i as int),
        decreases n - i,
    {
        if doi_match_at_exec(&v, i) {
            let j = digit_run_end_exec(&v, i + 3);
            let end = suffix_run_end_exec(&v, j + 1);
            let d = text.substring_char(i, end);
            return Some(d.to_owned());
        }
        proof {
            assert(first_doi_from(v@, i as int) == first_doi_from(v@, i + 1 as int));
        }
        i = i + 1;
    }
    None
}

} // verus!
