//! Deterministic on-disk names: the pre-rename storage name derived from an
//! identifier, file-name sanitization, and the canonical post-rename name
//! derived from resolved metadata.

use vstd::prelude::*;
use crate::models::CrossRefMetadata;
use crate::scan::{chars_of, string_from_chars};

verus! {

/// Characters that may not appear in a file name.
pub open spec fn illegal_in_filename(c: char) -> bool {
    c == '<' || c == '>' || c == ':' || c == '"' || c == '/' || c == '\\' || c == '|'
        || c == '?' || c == '*'
}

/// `s` with every character illegal in a file name removed.
pub open spec fn spec_sanitize(s: Seq<char>) -> Seq<char> {
    s.filter(|c: char| !illegal_in_filename(c))
}

/// A path-unsafe identifier character (`/` or `.`) replaced by `_`.
pub open spec fn underscore_safe(c: char) -> char {
    if c == '/' || c == '.' { '_' } else { c }
}

/// The fixed prefix of a stored binary's name.
pub open spec fn storage_prefix() -> Seq<char> {
    seq!['p', 'a', 'p', 'e', 'r', '_']
}

/// The document suffix of every produced file name.
pub open spec fn pdf_suffix() -> Seq<char> {
    seq!['.', 'p', 'd', 'f']
}

/// The deterministic storage name for an identifier: the fixed prefix,
/// the identifier with `/` and `.` replaced by `_`, and the suffix.
pub open spec fn spec_pdf_file_name(doi: Seq<char>) -> Seq<char> {
    storage_prefix() + doi.map_values(|c: char| underscore_safe(c)) + pdf_suffix()
}

/// The canonical post-rename name: year, author surname with `/` stripped,
/// and journal with spaces stripped, joined by `_`, with the document
/// suffix, then sanitized.
pub open spec fn spec_new_file_name(year: Seq<char>, author: Seq<char>, journal: Seq<char>) -> Seq<
    char,
> {
    spec_sanitize(
        year + seq!['_'] + author.filter(|c: char| c != '/') + seq!['_'] + journal.filter(
            |c: char| c != ' ',
        ) + pdf_suffix(),
    )
}

/// `c` is legal in a file name.
fn is_legal_char(c: char) -> (r: bool)
    ensures
        r == !illegal_in_filename(c),
{
    !(c == '<' || c == '>' || c == ':' || c == '"' || c == '/' || c == '\\' || c == '|'
        || c == '?' || c == '*')
}

/// The characters of `v` that are legal in a file name, in order.
fn keep_legal(v: &Vec<char>) -> (out: Vec<char>)
    ensures
        out@ == v@.filter(|c: char| !illegal_in_filename(c)),
{
    let mut out: Vec<char> = Vec::new();
    proof {
        reveal(Seq::filter);
        assert(v@.take(0).filter(|c: char| !illegal_in_filename(c)) =~= Seq::<char>::empty());
    }
    let mut i: usize = 0;
    while i < v.len()
        invariant
            i <= v@.len(),
            out@ == v@.take(i as int).filter(|c: char| !illegal_in_filename(c)),
        decreases v@.len() - i,
    {
        let c = v[i];
        if is_legal_char(c) {
            out.push(c);
        }
        proof {
            v@.take(i as int).lemma_filter_push(v@[i as int], |c: char| !illegal_in_filename(c));
            assert(v@.take(i + 1 as int) =~= v@.take(i as int).push(v@[i as int]));
        }
        i = i + 1;
    }
    proof {
        assert(v@.take(v@.len() as int) =~= v@);
    }
    out
}

/// Remove every character illegal in a file name.
pub fn sanitize_filename(name: &str) -> (r: String)
    ensures
        r@ == spec_sanitize(name@),
{
    let v = chars_of(name);
    let out = keep_legal(&v);
    string_from_chars(&out)
}

/// The deterministic storage name for an identifier.
pub fn pdf_file_name(doi: &str) -> (r: String)
    ensures
        r@ == spec_pdf_file_name(doi@),
{
    let v = chars_of(doi);
    let mut out: Vec<char> = Vec::new();
    out.push('p');
    out.push('a');
    out.push('p');
    out.push('e');
    out.push('r');
    out.push('_');
    proof {
        assert(out@ =~= storage_prefix());
    }
    let mut i: usize = 0;
    while i < v.len()
        invariant
            i <= v@.len(),
            v@ == doi@,
            out@ == storage_prefix() + v@.take(i as int).map_values(
                |c: char| underscore_safe(c),
            ),
        decreases v@.len() - i,
    {
        let c = v[i];
        if c == '/' || c == '.' {
            out.push('_');
        } else {
            out.push(c);
        }
        proof {
            assert(v@.take(i + 1 as int) =~= v@.take(i as int).push(v@[i as int]));
            assert(v@.take(i + 1 as int).map_values(|c: char| underscore_safe(c)) =~= v@.take(
                i as int,
            ).map_values(|c: char| underscore_safe(c)).push(underscore_safe(v@[i as int])));
        }
        i = i + 1;
    }
    proof {
        assert(v@.take(v@.len() as int) =~= v@);
    }
    out.push('.');
    out.push('p');
    out.push('d');
    out.push('f');
    proof {
        assert(out@ =~= spec_pdf_file_name(doi@));
    }
    string_from_chars(&out)
}

/// A storage name holds no `/`, and no `.` outside the final document
/// suffix, whatever the identifier.
pub proof fn lemma_pdf_file_name_safe(doi: Seq<char>)
    ensures
        ({
            let n = spec_pdf_file_name(doi);
            &&& n.len() == doi.len() + 10
            &&& forall|i: int| 0 <= i < n.len() ==> n[i] != '/'
            &&& forall|i: int| 0 <= i < n.len() - 4 ==> n[i] != '.'
            &&& n.subrange(n.len() - 4, n.len() as int) == pdf_suffix()
        }),
{
    let n = spec_pdf_file_name(doi);
    let mapped = doi.map_values(|c: char| underscore_safe(c));
    assert(forall|i: int| 0 <= i < mapped.len() ==> mapped[i] == underscore_safe(doi[i]));
    assert(n.subrange(n.len() - 4, n.len() as int) =~= pdf_suffix());
}

/// The characters of `v` other than `bad`, in order.
fn strip_char(v: &Vec<char>, bad: char) -> (out: Vec<char>)
    ensures
        out@ == v@.filter(|c: char| c != bad),
{
    let mut out: Vec<char> = Vec::new();
    proof {
        reveal(Seq::filter);
        assert(v@.take(0).filter(|c: char| c != bad) =~= Seq::<char>::empty());
    }
    let mut i: usize = 0;
    while i < v.len()
        invariant
            i <= v@.len(),
            out@ == v@.take(i as int).filter(|c: char| c != bad),
        decreases v@.len() - i,
    {
        let c = v[i];
        if c != bad {
            out.push(c);
        }
        proof {
            v@.take(i as int).lemma_filter_push(v@[i as int], |c: char| c != bad);
            assert(v@.take(i + 1 as int) =~= v@.take(i as int).push(v@[i as int]));
        }
        i = i + 1;
    }
    proof {
        assert(v@.take(v@.len() as int) =~= v@);
    }
    out
}

/// Append the characters of `src` to `dst`.
pub(crate) fn push_all(dst: &mut Vec<char>, src: &Vec<char>)
    ensures
        final(dst)@ == old(dst)@ + src@,
{
    let mut i: usize = 0;
    while i < src.len()
        invariant
            i <= src@.len(),
            dst@ == old(dst)@ + src@.take(i as int),
        decreases src@.len() - i,
    {
        dst.push(src[i]);
        proof {
            assert(old(dst)@ + src@.take(i + 1 as int) =~= (old(dst)@ + src@.take(i as int)).push(
                src@[i as int],
            ));
        }
        i = i + 1;
    }
    proof {
        assert(old(dst)@ + src@.take(src@.len() as int) =~= old(dst)@ + src@);
    }
}

/// The canonical file name derived from resolved metadata.
pub fn build_new_file_name(m: &CrossRefMetadata) -> (r: String)
    ensures
        r@ == spec_new_file_name(m.year@, m.author@, m.journal@),
{
    let year = chars_of(m.year.as_str());
    let author_chars = chars_of(m.author.as_str());
    let journal_chars = chars_of(m.journal.as_str());
    let author = strip_char(&author_chars, '/');
    let journal = strip_char(&journal_chars, ' ');
    let mut raw: Vec<char> = Vec::new();
    push_all(&mut raw, &year);
    raw.push('_');
    push_all(&mut raw, &author);
    raw.push('_');
    push_all(&mut raw, &journal);
    raw.push('.');
    raw.push('p');
    raw.push('d');
    raw.push('f');
    proof {
        assert(raw@ =~= m.year@ + seq!['_'] + m.author@.filter(|c: char| c != '/') + seq!['_']
            + m.journal@.filter(|c: char| c != ' ') + pdf_suffix());
    }
    let out = keep_legal(&raw);
    string_from_chars(&out)
}

} // verus!
