//! Claim-verification and keyword-generation support: the prompts sent to
//! the language-model collaborator, the parsing of its replies, and the
//! canned offline fallback. The requests themselves are issued by the
//! transport layer.

use vstd::prelude::*;
use vstd::string::StringExecFns;
use crate::pubmed::spec_trim;
use crate::scan::{chars_of, find_ci, first_ci, string_from_chars};

verus! {

/// First comma at or after `i`.
pub open spec fn comma_run_end(s: Seq<char>, i: int) -> int
    decreases s.len() - i when 0 <= i <= s.len()
{
    if i == s.len() {
        i
    } else if s[i] == ',' {
        i
    } else {
        comma_run_end(s, i + 1)
    }
}

/// The first comma at or after `i` lies between `i` and the text end.
pub proof fn lemma_comma_run_end_bounds(s: Seq<char>, i: int)
    requires
        0 <= i <= s.len(),
    ensures
        i <= comma_run_end(s, i) <= s.len(),
    decreases s.len() - i,
{
    if i < s.len() && s[i] != ',' {
        lemma_comma_run_end_bounds(s, i + 1);
    }
}

/// The comma-separated segments of `s` from position `i` on.
pub open spec fn split_from(s: Seq<char>, i: int) -> Seq<Seq<char>>
    decreases s.len() - i when 0 <= i <= s.len() via split_from_decreases
{
    let e = comma_run_end(s, i);
    if e >= s.len() {
        seq![s.subrange(i, s.len() as int)]
    } else {
        seq![s.subrange(i, e)] + split_from(s, e + 1)
    }
}

#[via_fn]
proof fn split_from_decreases(s: Seq<char>, i: int) {
    lemma_comma_run_end_bounds(s, i);
}

/// The keywords read out of a reply: its comma-separated segments, each
/// trimmed, the empty ones dropped.
pub open spec fn spec_keyword_list(s: Seq<char>) -> Seq<Seq<char>> {
    split_from(s, 0).map_values(|t: Seq<char>| spec_trim(t)).filter(
        |t: Seq<char>| t.len() > 0,
    )
}

/// First comma at or after `i`.
fn comma_run_end_exec(v: &Vec<char>, i: usize) -> (r: usize)
    requires
        i <= v@.len(),
    ensures
        r == comma_run_end(v@, i as int),
        i <= r <= v@.len(),
{
    let mut j = i;
    while j < v.len() && v[j] != ','
        invariant
            i <= j <= v@.len(),
            comma_run_end(v@, i as int) == comma_run_end(v@, j as int),
        decreases v@.len() - j,
    {
        j = j + 1;
    }
    j
}

/// The characters of `v` between `a` and `b`.
fn copy_range(v: &Vec<char>, a: usize, b: usize) -> (out: Vec<char>)
    requires
        a <= b <= v@.len(),
    ensures
        out@ == v@.subrange(a as int, b as int),
{
    let mut out: Vec<char> = Vec::new();
    let mut i = a;
    while i < b
        invariant
            a <= i <= b <= v@.len(),
            out@ == v@.subrange(a as int, i as int),
        decreases b - i,
    {
        out.push(v[i]);
        proof {
            assert(v@.subrange(a as int, i + 1 as int) =~= v@.subrange(a as int, i as int).push(
                v@[i as int],
            ));
        }
        i = i + 1;
    }
    out
}

/// Parse a comma-separated keyword reply: each segment is trimmed of ASCII
/// whitespace and empty segments are dropped.
pub fn parse_keyword_list(content: &str) -> (r: Vec<String>)
    ensures
        r@.map_values(|s: String| s@) == spec_keyword_list(content@),
{
    let v = chars_of(content);
    let n = v.len();
    let mut out: Vec<String> = Vec::new();
    let mut i: usize = 0;
    proof {
        reveal(Seq::filter);
        assert(out@.map_values(|s: String| s@) =~= Seq::<Seq<char>>::empty());
    }
    loop
        invariant_except_break
            i <= n,
            n == v@.len(),
            v@ == content@,
            spec_keyword_list(content@) == out@.map_values(|s: String| s@) + split_from(
                v@,
                i as int,
            ).map_values(|t: Seq<char>| spec_trim(t)).filter(|t: Seq<char>| t.len() > 0),
        ensures
            out@.map_values(|s: String| s@) == spec_keyword_list(content@),
        decreases n - i,
    {
        broadcast use vstd::prelude::Seq::filter_distributes_over_add;

        let e = comma_run_end_exec(&v, i);
        let seg = copy_range(&v, i, e);
        let t = trim_exec(&seg);
        let ghost outpre = out@.map_values(|s: String| s@);
        if t.len() > 0 {
            out.push(string_from_chars(&t));
            proof {
                assert(out@.map_values(|s: String| s@) =~= outpre.push(t@));
            }
        }
        proof {
            reveal(Seq::filter);
            let cl = |t: Seq<char>| spec_trim(t);
            let p = |t: Seq<char>| t.len() > 0;
            let segs = seq![v@.subrange(i as int, e as int)];
            assert(segs.map_values(cl) =~= seq![spec_trim(v@.subrange(i as int, e as int))]);
            assert(seq![t@].drop_last() =~= Seq::<Seq<char>>::empty());
            assert(Seq::<Seq<char>>::empty().filter(p) =~= Seq::<Seq<char>>::empty());
            if t@.len() > 0 {
                assert(segs.map_values(cl).filter(p) =~= seq![t@]);
                assert(out@.map_values(|s: String| s@) =~= outpre + segs.map_values(cl).filter(p));
            } else {
                assert(segs.map_values(cl).filter(p) =~= Seq::<Seq<char>>::empty());
                assert(out@.map_values(|s: String| s@) =~= outpre + segs.map_values(cl).filter(p));
            }
            if e < n {
                assert(split_from(v@, i as int) == segs + split_from(v@, e + 1 as int));
                assert((segs + split_from(v@, e + 1 as int)).map_values(cl) =~= segs.map_values(cl)
                    + split_from(v@, e + 1 as int).map_values(cl));
                assert(spec_keyword_list(content@) == outpre + (segs.map_values(cl).filter(p)
                    + split_from(v@, e + 1 as int).map_values(cl).filter(p)));
                assert(spec_keyword_list(content@) =~= out@.map_values(|s: String| s@)
                    + split_from(v@, e + 1 as int).map_values(cl).filter(p));
            } else {
                assert(split_from(v@, i as int) == segs);
                assert(spec_keyword_list(content@) =~= out@.map_values(|s: String| s@));
            }
        }
        if e == n {
            break;
        }
        i = e + 1;
    }
    out
}

/// `v` trimmed of leading and trailing ASCII whitespace.
fn trim_exec(v: &Vec<char>) -> (out: Vec<char>)
    ensures
        out@ == spec_trim(v@),
{
    crate::pubmed::trim_chars(v)
}

/// The marker word an affirmative reply carries.
pub open spec fn affirm_marker() -> Seq<char> {
    seq!['y', 'e', 's']
}

/// A reply affirms the claim when it holds the word "yes" in any ASCII
/// case.
pub open spec fn spec_affirms(s: Seq<char>) -> bool {
    first_ci(s, affirm_marker()) is Some
}

/// Whether a verification reply affirms the claim.
pub fn answer_affirms(content: &str) -> (r: bool)
    ensures
        r == spec_affirms(content@),
{
    let v = chars_of(content);
    let pat: Vec<char> = vec!['y', 'e', 's'];
    proof {
        assert(pat@ =~= affirm_marker());
    }
    find_ci(&v, &pat).is_some()
}

/// The prompt asking the collaborator whether a text supports a claim.
pub fn verification_prompt(claim: &str, context: &str) -> (r: String)
    ensures
        r@ == "Does the following text support the claim: '"@ + claim@ + "'?\nText: "@ + context@
            + "\n\nAnswer ONLY with 'YES' or 'NO'."@,
{
    let p = String::from_str("Does the following text support the claim: '");
    let p = p.concat(claim);
    let p = p.concat("'?\nText: ");
    let p = p.concat(context);
    p.concat("\n\nAnswer ONLY with 'YES' or 'NO'.")
}

/// The prompt asking the collaborator for search keywords on a topic.
pub fn keyword_prompt(topic: &str) -> (r: String)
    ensures
        r@ == "Generate a list of 3-5 precise, highly relevant single keywords or short phrases to search PubMed for the following topic: '"@
            + topic@
            + "'.\nReturn ONLY a comma-separated list of keywords. Do not include any other text or explanations."@,
{
    let p = String::from_str(
        "Generate a list of 3-5 precise, highly relevant single keywords or short phrases to search PubMed for the following topic: '",
    );
    let p = p.concat(topic);
    p.concat(
        "'.\nReturn ONLY a comma-separated list of keywords. Do not include any other text or explanations.",
    )
}

/// The canned keyword list used when no service credential is configured.
pub fn fallback_keywords() -> (r: Vec<String>)
    ensures
        r@.len() == 3,
        r@[0]@ == "CRISPR"@,
        r@[1]@ == "Gene Editing"@,
        r@[2]@ == "Off-target"@,
{
    let mut v: Vec<String> = Vec::new();
    v.push(String::from_str("CRISPR"));
    v.push(String::from_str("Gene Editing"));
    v.push(String::from_str("Off-target"));
    v
}

} // verus!
