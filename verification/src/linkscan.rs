//! Viewer-link extraction from markup text. The scanner looks for an
//! element tag — first a viewer (`iframe`), then an `embed` — that carries,
//! before the tag closes, an `id` attribute whose value starts with `pdf`
//! and a `src` attribute with a quoted value, matched case-insensitively
//! and tolerating attribute order. It is positional matching over raw
//! text, not a markup parse. A protocol-relative extracted link is
//! rewritten to an explicit secure scheme.

use vstd::prelude::*;
use vstd::string::StrSliceExecFns;
use vstd::string::StringExecFns;
use crate::scan::{chars_of, eq_ci, match_ci_at, match_ci_at_vec};

verus! {

/// A quote character that may delimit an attribute value.
pub open spec fn is_quote(c: char) -> bool {
    c == '"' || c == '\''
}

/// The tag word of the viewer element.
pub open spec fn viewer_word() -> Seq<char> {
    seq!['i', 'f', 'r', 'a', 'm', 'e']
}

/// The tag word of the embed element.
pub open spec fn embed_word() -> Seq<char> {
    seq!['e', 'm', 'b', 'e', 'd']
}

/// `<` followed by the tag word occurs at `i`, case-insensitively.
pub open spec fn tag_open_at(s: Seq<char>, w: Seq<char>, i: int) -> bool {
    &&& 0 <= i
    &&& i + 1 + w.len() <= s.len()
    &&& s[i] == '<'
    &&& match_ci_at(s, w, i + 1)
}

/// An `id` attribute whose value starts with `pdf` occurs at `j`.
pub open spec fn id_marker_at(s: Seq<char>, j: int) -> bool {
    &&& 0 <= j
    &&& j + 7 <= s.len()
    &&& eq_ci(s[j], 'i')
    &&& eq_ci(s[j + 1], 'd')
    &&& s[j + 2] == '='
    &&& is_quote(s[j + 3])
    &&& eq_ci(s[j + 4], 'p')
    &&& eq_ci(s[j + 5], 'd')
    &&& eq_ci(s[j + 6], 'f')
}

/// A `src` attribute with an opening quote occurs at `j`.
pub open spec fn src_marker_at(s: Seq<char>, j: int) -> bool {
    &&& 0 <= j
    &&& j + 5 <= s.len()
    &&& eq_ci(s[j], 's')
    &&& eq_ci(s[j + 1], 'r')
    &&& eq_ci(s[j + 2], 'c')
    &&& s[j + 3] == '='
    &&& is_quote(s[j + 4])
}

/// First position at or after `v` holding a quote character (or the text
/// end).
pub open spec fn quote_run_end(s: Seq<char>, v: int) -> int
    decreases s.len() - v when 0 <= v <= s.len()
{
    if v == s.len() {
        v
    } else if is_quote(s[v]) {
        v
    } else {
        quote_run_end(s, v + 1)
    }
}

/// The `src` marker at `j` is followed by a non-empty quoted value.
pub open spec fn src_value_ok(s: Seq<char>, j: int) -> bool {
    let k = quote_run_end(s, j + 5);
    k > j + 5 && k < s.len()
}

/// The value of the `src` attribute at `j`: the characters between the
/// opening quote and the next quote.
pub open spec fn src_value(s: Seq<char>, j: int) -> Seq<char> {
    s.subrange(j + 5, quote_run_end(s, j + 5))
}

/// First `id` marker at or after `j`, before the tag closes.
pub open spec fn find_id(s: Seq<char>, j: int) -> Option<int>
    decreases s.len() - j when 0 <= j <= s.len()
{
    if j >= s.len() {
        None
    } else if s[j] == '>' {
        None
    } else if id_marker_at(s, j) {
        Some(j)
    } else {
        find_id(s, j + 1)
    }
}

/// First `src` marker with a valid value at or after `j`, before the tag
/// closes.
pub open spec fn find_src(s: Seq<char>, j: int) -> Option<int>
    decreases s.len() - j when 0 <= j <= s.len()
{
    if j >= s.len() {
        None
    } else if s[j] == '>' {
        None
    } else if src_marker_at(s, j) && src_value_ok(s, j) {
        Some(j)
    } else {
        find_src(s, j + 1)
    }
}

/// An element with tag word `w` matches at `i`: the tag opens there, at
/// least one character follows the tag word inside the tag, and both the
/// `id=["']pdf` marker and a `src` attribute with a non-empty quoted value
/// occur before the tag closes.
pub open spec fn elem_match_at(s: Seq<char>, w: Seq<char>, i: int) -> bool {
    &&& tag_open_at(s, w, i)
    &&& i + 1 + w.len() < s.len()
    &&& s[i + 1 + w.len()] != '>'
    &&& find_id(s, i + w.len() + 2) is Some
    &&& find_src(s, i + w.len() + 2) is Some
}

/// The link carried by the element matching at `i`.
pub open spec fn elem_link_at(s: Seq<char>, w: Seq<char>, i: int) -> Seq<char> {
    match find_src(s, i + w.len() + 2) {
        Some(j) => src_value(s, j),
        None => Seq::empty(),
    }
}

/// Position of the first element match with tag word `w` at or after `i`.
pub open spec fn first_elem_from(s: Seq<char>, w: Seq<char>, i: int) -> Option<int>
    decreases s.len() - i + 1 when 0 <= i
{
    if i >= s.len() {
        None
    } else if elem_match_at(s, w, i) {
        Some(i)
    } else {
        first_elem_from(s, w, i + 1)
    }
}

/// The link of the first element match with tag word `w`, if any.
pub open spec fn spec_tag_link(s: Seq<char>, w: Seq<char>) -> Option<Seq<char>> {
    match first_elem_from(s, w, 0) {
        Some(i) => Some(elem_link_at(s, w, i)),
        None => None,
    }
}

/// The extracted viewer link of a markup text: the viewer element is
/// searched first, the embed element only when no viewer element matches.
pub open spec fn spec_extract_link(s: Seq<char>) -> Option<Seq<char>> {
    if spec_tag_link(s, viewer_word()) is Some {
        spec_tag_link(s, viewer_word())
    } else {
        spec_tag_link(s, embed_word())
    }
}

/// When markup holds both a matching viewer element and a matching embed
/// element, the viewer match wins.
pub proof fn lemma_viewer_wins(s: Seq<char>)
    requires
        spec_tag_link(s, viewer_word()) is Some,
    ensures
        spec_extract_link(s) == spec_tag_link(s, viewer_word()),
{
}

/// `c` delimits an attribute value.
fn is_quote_exec(c: char) -> (r: bool)
    ensures
        r == is_quote(c),
{
    c == '"' || c == '\''
}

/// End of the run of non-quote characters starting at `v0`.
fn quote_run_end_exec(t: &Vec<char>, v0: usize) -> (r: usize)
    requires
        v0 <= t@.len(),
    ensures
        r == quote_run_end(t@, v0 as int),
        v0 <= r <= t@.len(),
{
    let mut j = v0;
    while j < t.len() && !is_quote_exec(t[j])
        invariant
            v0 <= j <= t@.len(),
            quote_run_end(t@, v0 as int) == quote_run_end(t@, j as int),
        decreases t@.len() - j,
    {
        j = j + 1;
    }
    j
}

/// The `id=["']pdf` marker occurs at `j`.
fn id_marker_exec(t: &Vec<char>, j: usize) -> (r: bool)
    requires
        j < t@.len(),
    ensures
        r == id_marker_at(t@, j as int),
{
    if t.len() - j < 7 {
        return false;
    }
    crate::scan::eq_ci_char(t[j], 'i') && crate::scan::eq_ci_char(t[j + 1], 'd') && t[j + 2] == '='
        && is_quote_exec(t[j + 3]) && crate::scan::eq_ci_char(t[j + 4], 'p')
        && crate::scan::eq_ci_char(t[j + 5], 'd') && crate::scan::eq_ci_char(t[j + 6], 'f')
}

/// A `src` marker with its opening quote occurs at `j`.
fn src_marker_exec(t: &Vec<char>, j: usize) -> (r: bool)
    requires
        j < t@.len(),
    ensures
        r == src_marker_at(t@, j as int),
{
    if t.len() - j < 5 {
        return false;
    }
    crate::scan::eq_ci_char(t[j], 's') && crate::scan::eq_ci_char(t[j + 1], 'r')
        && crate::scan::eq_ci_char(t[j + 2], 'c') && t[j + 3] == '=' && is_quote_exec(t[j + 4])
}

/// First `id` marker at or after `start`, before the tag closes.
fn find_id_exec(t: &Vec<char>, start: usize) -> (r: Option<usize>)
    requires
        start <= t@.len(),
    ensures
        match r {
            Some(j) => find_id(t@, start as int) == Some(j as int),
            None => find_id(t@, start as int) is None,
        },
{
    let mut j = start;
    while j < t.len()
        invariant
            start <= j <= t@.len(),
            find_id(t@, start as int) == find_id(t@, j as int),
        decreases t@.len() - j,
    {
        if t[j] == '>' {
            return None;
        }
        if id_marker_exec(t, j) {
            return Some(j);
        }
        proof {
            assert(find_id(t@, j as int) == find_id(t@, j + 1 as int));
        }
        j = j + 1;
    }
    None
}

/// First `src` marker with a valid value at or after `start`, before the
/// tag closes.
fn find_src_exec(t: &Vec<char>, start: usize) -> (r: Option<usize>)
    requires
        start <= t@.len(),
    ensures
        match r {
            Some(j) => {
                &&& find_src(t@, start as int) == Some(j as int)
                &&& src_marker_at(t@, j as int)
                &&& src_value_ok(t@, j as int)
            },
            None => find_src(t@, start as int) is None,
        },
{
    let mut j = start;
    while j < t.len()
        invariant
            start <= j <= t@.len(),
            find_src(t@, start as int) == find_src(t@, j as int),
        decreases t@.len() - j,
    {
        if t[j] == '>' {
            return None;
        }
        if src_marker_exec(t, j) {
            let k = quote_run_end_exec(t, j + 5);
            if k > j + 5 && k < t.len() {
                return Some(j);
            }
        }
        proof {
            assert(find_src(t@, j as int) == find_src(t@, j + 1 as int));
        }
        j = j + 1;
    }
    None
}

/// Probe for an element match at `i`; on a match, return the character
/// range of the carried link value.
fn elem_probe(t: &Vec<char>, w: &Vec<char>, i: usize) -> (r: Option<(usize, usize)>)
    requires
        i < t@.len(),
    ensures
        match r {
            Some(range) => {
                &&& elem_match_at(t@, w@, i as int)
                &&& range.0 <= range.1 <= t@.len()
                &&& t@.subrange(range.0 as int, range.1 as int) == elem_link_at(t@, w@, i as int)
            },
            None => !elem_match_at(t@, w@, i as int),
        },
{
    if t[i] != '<' {
        return None;
    }
    if t.len() - i - 1 < w.len() {
        return None;
    }
    if !match_ci_at_vec(t, w, i + 1) {
        return None;
    }
    let b = i + 1 + w.len();
    if b >= t.len() {
        return None;
    }
    if t[b] == '>' {
        return None;
    }
    let a = b + 1;
    if find_id_exec(t, a).is_none() {
        return None;
    }
    match find_src_exec(t, a) {
        None => None,
        Some(j) => {
            let vs = j + 5;
            let ve = quote_run_end_exec(t, vs);
            Some((vs, ve))
        },
    }
}

/// Scan for the first element match with tag word `w` and return its link.
fn scan_tag(text: &str, t: &Vec<char>, w: &Vec<char>) -> (r: Option<String>)
    requires
        t@ == text@,
    ensures
        match r {
            Some(l) => spec_tag_link(t@, w@) == Some(l@),
            None => spec_tag_link(t@, w@) is None,
        },
{
    let n = t.len();
    let mut i: usize = 0;
    while i < n
        invariant
            i <= n,
            n == t@.len(),
            t@ == text@,
            first_elem_from(t@, w@, 0) == first_elem_from(t@, w@, i as int),
        decreases n - i,
    {
        match elem_probe(t, w, i) {
            Some((vs, ve)) => {
                let l = text.substring_char(vs, ve);
                return Some(l.to_owned());
            },
            None => {
                proof {
                    assert(first_elem_from(t@, w@, i as int) == first_elem_from(
                        t@,
                        w@,
                        i + 1 as int,
                    ));
                }
                i = i + 1;
            },
        }
    }
    None
}

/// Search markup for a viewer link: a matching viewer element first, then
/// a matching embed element; the first match's source value is returned.
pub fn extract_pdf_link(html: &str) -> (r: Option<String>)
    ensures
        match r {
            Some(l) => spec_extract_link(html@) == Some(l@),
            None => spec_extract_link(html@) is None,
        },
{
    let t = chars_of(html);
    let viewer: Vec<char> = vec!['i', 'f', 'r', 'a', 'm', 'e'];
    let embed: Vec<char> = vec!['e', 'm', 'b', 'e', 'd'];
    proof {
        assert(viewer@ =~= viewer_word());
        assert(embed@ =~= embed_word());
    }
    match scan_tag(html, &t, &viewer) {
        Some(l) => Some(l),
        None => scan_tag(html, &t, &embed),
    }
}

/// A protocol-relative link is rewritten to the explicit secure scheme;
/// every other link is kept unchanged.
pub open spec fn spec_normalize_link(l: Seq<char>) -> Seq<char> {
    if l.len() >= 2 && l[0] == '/' && l[1] == '/' {
        seq!['h', 't', 't', 'p', 's', ':'] + l
    } else {
        l
    }
}

/// Normalize an extracted link before it is fetched.
pub fn normalize_link(link: String) -> (r: String)
    ensures
        r@ == spec_normalize_link(link@),
{
    let n = link.as_str().unicode_len();
    if n >= 2 && link.as_str().get_char(0) == '/' && link.as_str().get_char(1) == '/' {
        let prefix = String::from_str("https:");
        proof {
            reveal_strlit("https:");
            assert(prefix@ =~= seq!['h', 't', 't', 'p', 's', ':']);
        }
        prefix.concat(link.as_str())
    } else {
        link
    }
}

/// The follow-up request a markup body asks for: the first extracted
/// viewer link, normalized.
pub open spec fn spec_link_request(s: Seq<char>) -> Option<Seq<char>> {
    match spec_extract_link(s) {
        Some(l) => Some(spec_normalize_link(l)),
        None => None,
    }
}

/// Extract and normalize the viewer link of a markup body, if one occurs.
pub fn link_request(html: &str) -> (r: Option<String>)
    ensures
        match r {
            Some(u) => spec_link_request(html@) == Some(u@),
            None => spec_link_request(html@) is None,
        },
{
    match extract_pdf_link(html) {
        Some(l) => Some(normalize_link(l)),
        None => None,
    }
}

} // verus!
