//! Character-level scanning primitives shared by the pattern matchers:
//! case-insensitive comparison, substring search, and decimal rendering.

use vstd::prelude::*;
use vstd::string::StrSliceExecFns;

verus! {

/// Code point of `c` with an ASCII upper-case letter folded to lower case.
pub open spec fn lower_code(c: char) -> int {
    if 65 <= c as u32 && c as u32 <= 90 {
        c as u32 + 32
    } else {
        c as u32 as int
    }
}

/// ASCII-case-insensitive character equality.
pub open spec fn eq_ci(a: char, b: char) -> bool {
    lower_code(a) == lower_code(b)
}

/// `pat` occurs in `t` at position `i`, compared case-insensitively.
pub open spec fn match_ci_at(t: Seq<char>, pat: Seq<char>, i: int) -> bool {
    &&& 0 <= i
    &&& i + pat.len() <= t.len()
    &&& forall|j: int| 0 <= j < pat.len() ==> eq_ci(t[i + j], pat[j])
}

/// Position of the first case-insensitive occurrence of `pat` in `t`
/// at or after `i`.
pub open spec fn first_ci_from(t: Seq<char>, pat: Seq<char>, i: int) -> Option<int>
    decreases t.len() - i + 1 when 0 <= i
{
    if i + pat.len() > t.len() {
        None
    } else if match_ci_at(t, pat, i) {
        Some(i)
    } else {
        first_ci_from(t, pat, i + 1)
    }
}

/// Position of the first case-insensitive occurrence of `pat` in `t`.
pub open spec fn first_ci(t: Seq<char>, pat: Seq<char>) -> Option<int> {
    first_ci_from(t, pat, 0)
}

/// Case-insensitive equality of two characters.
pub fn eq_ci_char(a: char, b: char) -> (r: bool)
    ensures
        r == eq_ci(a, b),
{
    let ac = a as u32;
    let bc = b as u32;
    let al = if 65 <= ac && ac <= 90 { ac + 32 } else { ac };
    let bl = if 65 <= bc && bc <= 90 { bc + 32 } else { bc };
    al == bl
}

/// The characters of `s`, in order.
pub fn chars_of(s: &str) -> (v: Vec<char>)
    ensures
        v@ == s@,
{
    let n = s.unicode_len();
    let mut v: Vec<char> = Vec::new();
    let mut i: usize = 0;
    while i < n
        invariant
            i <= n,
            n == s@.len(),
            v@ == s@.take(i as int),
        decreases n - i,
    {
        v.push(s.get_char(i));
        proof {
            assert(s@.take(i + 1 as int) =~= s@.take(i as int).push(s@[i as int]));
        }
        i = i + 1;
    }
    proof {
        assert(s@.take(n as int) =~= s@);
    }
    v
}

/// Relies on `String`'s `FromIterator` impl over `char`: collecting an
/// iterator of characters yields the string holding exactly those
/// characters in order.
#[verifier::external_body]
pub fn string_from_chars(v: &Vec<char>) -> (r: String)
    ensures
        r@ == v@,
{
    v.iter().collect()
}

/// Structural equality of two string slices.
pub fn str_eq(a: &str, b: &str) -> (r: bool)
    ensures
        r == (a@ == b@),
{
    let na = a.unicode_len();
    let nb = b.unicode_len();
    if na != nb {
        return false;
    }
    let mut i: usize = 0;
    while i < na
        invariant
            i <= na,
            na == a@.len(),
            na == b@.len(),
            forall|k: int| 0 <= k < i ==> a@[k] == b@[k],
        decreases na - i,
    {
        if a.get_char(i) != b.get_char(i) {
            return false;
        }
        i = i + 1;
    }
    proof {
        assert(a@ =~= b@);
    }
    true
}

/// `pat` occurs at position `i` of `t`, case-insensitively.
pub fn match_ci_at_vec(t: &Vec<char>, pat: &Vec<char>, i: usize) -> (r: bool)
    requires
        i + pat@.len() <= t@.len(),
    ensures
        r == match_ci_at(t@, pat@, i as int),
{
    let tn = t.len();
    let mut j: usize = 0;
    while j < pat.len()
        invariant
            j <= pat@.len(),
            i + pat@.len() <= t@.len(),
            tn == t@.len(),
            forall|k: int| 0 <= k < j ==> eq_ci(t@[i + k], pat@[k]),
        decreases pat@.len() - j,
    {
        proof {
            assert(i + j < t@.len());
        }
        if !eq_ci_char(t[i + j], pat[j]) {
            return false;
        }
        j = j + 1;
    }
    true
}

/// First case-insensitive occurrence of `pat` in `t`.
pub fn find_ci(t: &Vec<char>, pat: &Vec<char>) -> (r: Option<usize>)
    ensures
        match r {
            Some(i) => first_ci(t@, pat@) == Some(i as int),
            None => first_ci(t@, pat@) is None,
        },
{
    if pat.len() > t.len() {
        return None;
    }
    let mut i: usize = 0;
    while i <= t.len() - pat.len()
        invariant
            pat@.len() <= t@.len(),
            i <= t@.len() - pat@.len() + 1,
            first_ci(t@, pat@) == first_ci_from(t@, pat@, i as int),
        decreases t@.len() - i,
    {
        if match_ci_at_vec(t, pat, i) {
            return Some(i);
        }
        proof {
            assert(first_ci_from(t@, pat@, i as int) == first_ci_from(t@, pat@, i + 1 as int));
        }
        i = i + 1;
    }
    None
}

/// A found first occurrence is a match, at or after the search start.
pub proof fn lemma_first_ci_is_match(t: Seq<char>, pat: Seq<char>, j: int, i: int)
    requires
        0 <= j,
        first_ci_from(t, pat, j) == Some(i),
    ensures
        match_ci_at(t, pat, i),
        j <= i,
    decreases t.len() - j + 1,
{
    if j + pat.len() > t.len() {
    } else if match_ci_at(t, pat, j) {
    } else {
        lemma_first_ci_is_match(t, pat, j + 1, i);
    }
}

/// The character for decimal digit `d`.
pub open spec fn digit_char(d: int) -> char {
    if d == 0 { '0' }
    else if d == 1 { '1' }
    else if d == 2 { '2' }
    else if d == 3 { '3' }
    else if d == 4 { '4' }
    else if d == 5 { '5' }
    else if d == 6 { '6' }
    else if d == 7 { '7' }
    else if d == 8 { '8' }
    else { '9' }
}

/// The decimal rendering of `n`, most significant digit first,
/// without leading zeros (a single `'0'` for zero).
pub open spec fn dec_digits(n: nat) -> Seq<char>
    decreases n
{
    if n < 10 {
        seq![digit_char(n as int)]
    } else {
        dec_digits(n / 10).push(digit_char((n % 10) as int))
    }
}

/// One decimal digit as a character.
fn dec_digit_char(d: u64) -> (c: char)
    requires
        d < 10,
    ensures
        c == digit_char(d as int),
{
    match d {
        0 => '0',
        1 => '1',
        2 => '2',
        3 => '3',
        4 => '4',
        5 => '5',
        6 => '6',
        7 => '7',
        8 => '8',
        _ => '9',
    }
}

/// The decimal digits of `n` as characters.
pub fn dec_chars_of(n: u64) -> (v: Vec<char>)
    ensures
        v@ == dec_digits(n as nat),
    decreases n,
{
    if n < 10 {
        let mut v: Vec<char> = Vec::new();
        v.push(dec_digit_char(n));
        v
    } else {
        let mut v = dec_chars_of(n / 10);
        v.push(dec_digit_char(n % 10));
        v
    }
}

/// The decimal rendering of `n` as a string.
pub fn u64_to_dec(n: u64) -> (r: String)
    ensures
        r@ == dec_digits(n as nat),
{
    let v = dec_chars_of(n);
    string_from_chars(&v)
}

} // verus!
