//! Search-query construction and search-response parsing. The query is
//! built from keywords, a combinator, and a field scope; the response
//! parsing selects, per requested identifier, the entries that carry a
//! DOI. The search requests themselves are issued by the transport layer.

use vstd::prelude::*;

use vstd::string::StrSliceExecFns;
use vstd::string::StringExecFns;
use vstd::string::StringSliceAdditionalSpecFns;
use crate::json::{spec_member, JsonValue};
use crate::models::{KeywordLogic, Paper, PaperStatus, SearchField};
use crate::scan::{chars_of, dec_digits, digit_char, string_from_chars, u64_to_dec};

verus! {

pub const BASE_URL: &'static str = "https://eutils.ncbi.nlm.nih.gov/entrez/eutils/";

/// A byte the URL encoding keeps as it is: ASCII alphanumerics and
/// `-`, `.`, `_`, `~`.
pub open spec fn unreserved_byte(b: u8) -> bool {
    ||| 48 <= b && b <= 57
    ||| 65 <= b && b <= 90
    ||| 97 <= b && b <= 122
    ||| b == 45 || b == 46 || b == 95 || b == 126
}

/// The upper-case hex digit for `d`.
pub open spec fn hex_upper(d: u8) -> char {
    if d < 10 {
        digit_char(d as int)
    } else if d == 10 {
        'A'
    } else if d == 11 {
        'B'
    } else if d == 12 {
        'C'
    } else if d == 13 {
        'D'
    } else if d == 14 {
        'E'
    } else {
        'F'
    }
}

/// The URL encoding of one byte: kept as it is when unreserved, else a
/// percent escape with two upper-case hex digits.
pub open spec fn encoded_byte(b: u8) -> Seq<char> {
    if unreserved_byte(b) {
        seq![b as char]
    } else {
        seq!['%', hex_upper(b / 16), hex_upper(b % 16)]
    }
}

/// The URL encoding of a byte sequence.
pub open spec fn url_encoded(bs: Seq<u8>) -> Seq<char>
    decreases bs.len(),
{
    if bs.len() == 0 {
        Seq::empty()
    } else {
        encoded_byte(bs[0]) + url_encoded(bs.drop_first())
    }
}

/// Relies on `urlencoding::encode`: every byte of the UTF-8 input except
/// ASCII alphanumerics and `-`, `.`, `_`, `~` is percent-encoded with
/// upper-case hex digits; unreserved bytes are kept as they are.
#[verifier::external_body]
fn url_encode(s: &str) -> (r: String)
    ensures
        r@ == url_encoded(s.spec_bytes()),
{
    urlencoding::encode(s).into_owned()
}

/// Relies on `uuid::Uuid::new_v4`: a randomly generated identifier.
/// Nothing is promised of the value.
#[verifier::external_body]
pub fn fresh_id() -> u128 {
    uuid::Uuid::new_v4().as_u128()
}

/// `c` is ASCII whitespace.
pub open spec fn is_space(c: char) -> bool {
    c == ' ' || c == '\t' || c == '\n' || c == '\r'
}

/// First position at or after `i` holding a non-space character.
pub open spec fn trim_start_idx(s: Seq<char>, i: int) -> int
    decreases s.len() - i when 0 <= i <= s.len()
{
    if i == s.len() {
        i
    } else if is_space(s[i]) {
        trim_start_idx(s, i + 1)
    } else {
        i
    }
}

/// Position just past the last non-space character before `j`.
pub open spec fn trim_end_idx(s: Seq<char>, j: int) -> int
    decreases j when 0 <= j <= s.len()
{
    if j == 0 {
        j
    } else if is_space(s[j - 1]) {
        trim_end_idx(s, j - 1)
    } else {
        j
    }
}

/// `s` with leading and trailing ASCII whitespace removed.
pub open spec fn spec_trim(s: Seq<char>) -> Seq<char> {
    let a = trim_start_idx(s, 0);
    let b = trim_end_idx(s, s.len() as int);
    if a <= b {
        s.subrange(a, b)
    } else {
        Seq::empty()
    }
}

/// `s` holds a space character.
pub open spec fn contains_space(s: Seq<char>) -> bool {
    exists|i: int| 0 <= i < s.len() && s[i] == ' '
}

/// One formatted query keyword: the trimmed keyword, quoted when it holds
/// a space, with the field tag appended.
pub open spec fn spec_formatted_keyword(k: Seq<char>, tag: Seq<char>) -> Seq<char> {
    let t = spec_trim(k);
    if contains_space(t) {
        seq!['"'] + t + seq!['"'] + tag
    } else {
        t + tag
    }
}

/// The separator a combinator joins keywords with.
pub open spec fn spec_separator(logic: KeywordLogic) -> Seq<char> {
    match logic {
        KeywordLogic::AND => seq![' ', 'A', 'N', 'D', ' '],
        KeywordLogic::OR => seq![' ', 'O', 'R', ' '],
    }
}

/// The parts joined by `sep`.
pub open spec fn join_sep(parts: Seq<Seq<char>>, sep: Seq<char>) -> Seq<char>
    decreases parts.len(),
{
    if parts.len() == 0 {
        Seq::empty()
    } else if parts.len() == 1 {
        parts[0]
    } else {
        join_sep(parts.drop_last(), sep) + sep + parts.last()
    }
}

/// The field tag of a search field.
pub open spec fn spec_tag(field: SearchField) -> Seq<char> {
    match field {
        SearchField::TitleAndAbstract => "[Title/Abstract]"@,
        SearchField::Title => "[Title]"@,
        SearchField::Abstract => "[Abstract]"@,
    }
}

/// The full query text for keywords, combinator, and field scope.
pub open spec fn spec_query(keywords: Seq<Seq<char>>, logic: KeywordLogic, field: SearchField) -> Seq<
    char,
> {
    join_sep(
        keywords.map_values(|k: Seq<char>| spec_formatted_keyword(k, spec_tag(field))),
        spec_separator(logic),
    )
}

/// The full search request URL.
pub open spec fn spec_search_url(
    keywords: Seq<Seq<char>>,
    logic: KeywordLogic,
    field: SearchField,
    max_results: nat,
) -> Seq<char> {
    "https://eutils.ncbi.nlm.nih.gov/entrez/eutils/esearch.fcgi?db=pubmed&term="@ + url_encoded(
        vstd::utf8::encode_utf8(spec_query(keywords, logic, field)),
    ) + "&retmax="@ + dec_digits(max_results) + "&retmode=json"@
}

/// `c` is ASCII whitespace.
fn is_space_exec(c: char) -> (r: bool)
    ensures
        r == is_space(c),
{
    c == ' ' || c == '\t' || c == '\n' || c == '\r'
}

/// The characters of `v` with leading and trailing ASCII whitespace
/// removed.
pub(crate) fn trim_chars(v: &Vec<char>) -> (out: Vec<char>)
    ensures
        out@ == spec_trim(v@),
{
    let n = v.len();
    let mut a: usize = 0;
    while a < n && is_space_exec(v[a])
        invariant
            0 <= a <= n,
            n == v@.len(),
            trim_start_idx(v@, 0) == trim_start_idx(v@, a as int),
        decreases n - a,
    {
        a = a + 1;
    }
    let mut b: usize = n;
    while b > 0 && is_space_exec(v[b - 1])
        invariant
            0 <= b <= n,
            n == v@.len(),
            trim_end_idx(v@, n as int) == trim_end_idx(v@, b as int),
        decreases b,
    {
        b = b - 1;
    }
    let mut out: Vec<char> = Vec::new();
    if a >= b {
        proof {
            assert(out@ =~= spec_trim(v@));
        }
        return out;
    }
    let mut i = a;
    while i < b
        invariant
            a <= i <= b <= v@.len(),
            out@ == v@.subrange(a as int, i as int),
        decreases b - i,
    {
        out.push(v[i]);
        proof {
            assert(v@.subrange(a as int, i + 1 as int) =~= v@.subrange(a as int, i as int).push(
                v@[i as int],
            ));
        }
        i = i + 1;
    }
    out
}

/// One formatted query keyword.
fn formatted_keyword(k: &String, tag: &Vec<char>, out: &mut Vec<char>)
    ensures
        final(out)@ == old(out)@ + spec_formatted_keyword(k@, tag@),
{
    let kc = chars_of(k.as_str());
    let t = trim_chars(&kc);
    let mut has_space = false;
    let mut i: usize = 0;
    while i < t.len()
        invariant
            i <= t@.len(),
            has_space == exists|j: int| 0 <= j < i && t@[j] == ' ',
        decreases t@.len() - i,
    {
        if t[i] == ' ' {
            has_space = true;
        }
        i = i + 1;
    }
    if has_space {
        out.push('"');
        crate::naming::push_all(out, &t);
        out.push('"');
        crate::naming::push_all(out, tag);
        proof {
            assert(final(out)@ =~= old(out)@ + (seq!['"'] + t@ + seq!['"'] + tag@));
        }
    } else {
        crate::naming::push_all(out, &t);
        crate::naming::push_all(out, tag);
        proof {
            assert(final(out)@ =~= old(out)@ + (t@ + tag@));
        }
    }
}

/// Build the full search request URL, or nothing when the keyword list is
/// empty: no request is to be issued then.
pub fn search_url(
    keywords: &Vec<String>,
    logic: &KeywordLogic,
    field: &SearchField,
    max_results: u64,
) -> (r: Option<String>)
    ensures
        keywords@.len() == 0 ==> r is None,
        keywords@.len() > 0 ==> (r matches Some(u) && u@ == spec_search_url(
            keywords@.map_values(|k: String| k@),
            *logic,
            *field,
            max_results as nat,
        )),
{
    if keywords.len() == 0 {
        return None;
    }
    let tag_str = match field {
        SearchField::TitleAndAbstract => "[Title/Abstract]",
        SearchField::Title => "[Title]",
        SearchField::Abstract => "[Abstract]",
    };
    let tag = chars_of(tag_str);
    let sep: Vec<char> = match logic {
        KeywordLogic::AND => vec![' ', 'A', 'N', 'D', ' '],
        KeywordLogic::OR => vec![' ', 'O', 'R', ' '],
    };
    proof {
        assert(tag@ == spec_tag(*field));
        assert(sep@ =~= spec_separator(*logic));
    }
    let ghost parts = keywords@.map_values(|k: String| k@).map_values(
        |k: Seq<char>| spec_formatted_keyword(k, spec_tag(*field)),
    );
    let mut q: Vec<char> = Vec::new();
    let mut i: usize = 0;
    while i < keywords.len()
        invariant
            i <= keywords@.len(),
            parts.len() == keywords@.len(),
            forall|j: int|
                0 <= j < keywords@.len() ==> parts[j] == spec_formatted_keyword(
                    keywords@[j]@,
                    spec_tag(*field),
                ),
            tag@ == spec_tag(*field),
            sep@ == spec_separator(*logic),
            q@ == join_sep(parts.take(i as int), sep@),
        decreases keywords@.len() - i,
    {
        if i > 0 {
            crate::naming::push_all(&mut q, &sep);
        }
        formatted_keyword(&keywords[i], &tag, &mut q);
        proof {
            assert(parts.take(i + 1 as int).drop_last() =~= parts.take(i as int));
            assert(parts.take(i + 1 as int).last() == parts[i as int]);
            if i == 0 {
                assert(join_sep(parts.take(1), sep@) == parts[0]);
                assert(q@ =~= parts[0]);
            } else {
                assert(q@ =~= join_sep(parts.take(i as int), sep@) + sep@ + parts[i as int]);
            }
        }
        i = i + 1;
    }
    proof {
        assert(parts.take(keywords@.len() as int) =~= parts);
    }
    let query = string_from_chars(&q);
    let encoded = url_encode(query.as_str());
    let url = String::from_str(
        "https://eutils.ncbi.nlm.nih.gov/entrez/eutils/esearch.fcgi?db=pubmed&term=",
    );
    let url = url.concat(encoded.as_str());
    let url = url.concat("&retmax=");
    let n_str = u64_to_dec(max_results);
    let url = url.concat(n_str.as_str());
    let url = url.concat("&retmode=json");
    Some(url)
}

/// The string entries of an array of values, in order.
pub open spec fn string_items(items: Seq<JsonValue>) -> Seq<Seq<char>>
    decreases items.len(),
{
    if items.len() == 0 {
        Seq::empty()
    } else {
        string_items(items.drop_last()) + (match items.last() {
            JsonValue::Str(s) => seq![s@],
            _ => Seq::empty(),
        })
    }
}

/// The identifier list of a search response: the string entries of the
/// `idlist` array under `esearchresult`; nothing when that shape is absent.
pub open spec fn spec_id_list(root: JsonValue) -> Option<Seq<Seq<char>>> {
    match spec_member(root, "esearchresult"@) {
        Some(sr) => match spec_member(sr, "idlist"@) {
            Some(JsonValue::Arr(items)) => Some(string_items(items@)),
            _ => None,
        },
        None => None,
    }
}

/// Parse the identifier list out of a search response body. A missing or
/// ill-shaped list is a hard failure: the response succeeded at the
/// transport level but cannot be read.
pub fn parse_id_list(root: &JsonValue) -> (r: Result<Vec<String>, String>)
    ensures
        match r {
            Ok(ids) => spec_id_list(*root) == Some(ids@.map_values(|s: String| s@)),
            Err(m) => spec_id_list(*root) is None && m@ == "Failed to parse idlist"@,
        },
{
    let list = match root.member("esearchresult") {
        Some(sr) => match sr.member("idlist") {
            Some(JsonValue::Arr(items)) => items,
            _ => {
                return Err(String::from_str("Failed to parse idlist"));
            },
        },
        None => {
            return Err(String::from_str("Failed to parse idlist"));
        },
    };
    let mut ids: Vec<String> = Vec::new();
    proof {
        assert(ids@.map_values(|s: String| s@) =~= string_items(list@.take(0)));
    }
    let mut i: usize = 0;
    while i < list.len()
        invariant
            i <= list@.len(),
            ids@.map_values(|s: String| s@) == string_items(list@.take(i as int)),
        decreases list@.len() - i,
    {
        let ghost prev = ids@.map_values(|s: String| s@);
        match &list[i] {
            JsonValue::Str(s) => {
                ids.push(s.clone());
                proof {
                    assert(ids@.map_values(|s: String| s@) =~= prev.push(list@[i as int]->Str_0@));
                }
            },
            _ => {},
        }
        proof {
            assert(list@.take(i + 1 as int).drop_last() =~= list@.take(i as int));
            assert(list@.take(i + 1 as int).last() == list@[i as int]);
            assert(ids@.map_values(|s: String| s@) =~= string_items(list@.take(i + 1 as int)));
        }
        i = i + 1;
    }
    proof {
        assert(list@.take(list@.len() as int) =~= list@);
    }
    Ok(ids)
}

/// The title field of one summary entry, else its sentinel.
pub open spec fn spec_entry_title(p: JsonValue) -> Seq<char> {
    match spec_member(p, "title"@) {
        Some(JsonValue::Str(s)) => s@,
        _ => "Unknown Title"@,
    }
}

/// The entry of an identifier list that carries a DOI.
pub open spec fn is_doi_entry(v: JsonValue) -> bool {
    match spec_member(v, "idtype"@) {
        Some(JsonValue::Str(s)) => s@ == "doi"@,
        _ => false,
    }
}

/// The first identifier entry that carries a DOI.
pub open spec fn first_doi_entry(items: Seq<JsonValue>) -> Option<JsonValue>
    decreases items.len(),
{
    if items.len() == 0 {
        None
    } else if is_doi_entry(items[0]) {
        Some(items[0])
    } else {
        first_doi_entry(items.drop_first())
    }
}

/// The DOI of one summary entry: the value of its first DOI-typed article
/// identifier, else empty.
pub open spec fn spec_entry_doi(p: JsonValue) -> Seq<char> {
    match spec_member(p, "articleids"@) {
        Some(JsonValue::Arr(items)) => match first_doi_entry(items@) {
            Some(e) => match spec_member(e, "value"@) {
                Some(JsonValue::Str(s)) => s@,
                _ => Seq::empty(),
            },
            None => Seq::empty(),
        },
        _ => Seq::empty(),
    }
}

/// The `result` member of a summary response, when it is an object.
pub open spec fn spec_result_obj(root: JsonValue) -> Option<JsonValue> {
    match spec_member(root, "result"@) {
        Some(m) => if m is Obj {
            Some(m)
        } else {
            None
        },
        None => None,
    }
}

/// The records selected from a summary: per requested identifier, in
/// order, the (identifier, title, DOI) of its entry — kept only when the
/// entry exists and carries a non-empty DOI.
pub open spec fn spec_selected(result: JsonValue, pmids: Seq<Seq<char>>) -> Seq<
    (Seq<char>, Seq<char>, Seq<char>),
>
    decreases pmids.len(),
{
    if pmids.len() == 0 {
        Seq::empty()
    } else {
        let rest = spec_selected(result, pmids.drop_last());
        match spec_member(result, pmids.last()) {
            Some(p) => if spec_entry_doi(p).len() > 0 {
                rest.push((pmids.last(), spec_entry_title(p), spec_entry_doi(p)))
            } else {
                rest
            },
            None => rest,
        }
    }
}

/// The identifying fields of one record.
pub open spec fn paper_key(p: Paper) -> (Seq<char>, Seq<char>, Seq<char>) {
    (
        match p.pmid {
            Some(s) => s@,
            None => Seq::empty(),
        },
        p.title@,
        p.doi@,
    )
}

/// A freshly created record: pending, with no derived state yet.
pub open spec fn fresh_paper_fields(p: Paper) -> bool {
    &&& p.pmid is Some
    &&& p.status is Pending
    &&& p.local_path is None
    &&& p.abstract_text is None
    &&& p.introduction is None
    &&& p.metadata is None
}

/// The title of one summary entry.
fn entry_title(p: &JsonValue) -> (r: String)
    ensures
        r@ == spec_entry_title(*p),
{
    match p.member("title") {
        Some(JsonValue::Str(s)) => s.clone(),
        _ => String::from_str("Unknown Title"),
    }
}

/// The DOI of one summary entry.
fn entry_doi(p: &JsonValue) -> (r: String)
    ensures
        r@ == spec_entry_doi(*p),
{
    let items = match p.member("articleids") {
        Some(JsonValue::Arr(items)) => items,
        _ => {
            return String::new();
        },
    };
    proof {
        assert(items@.skip(0) =~= items@);
    }
    let mut j: usize = 0;
    while j < items.len()
        invariant
            j <= items@.len(),
            spec_entry_doi(*p) == (match first_doi_entry(items@) {
                Some(e) => match spec_member(e, "value"@) {
                    Some(JsonValue::Str(s)) => s@,
                    _ => Seq::<char>::empty(),
                },
                None => Seq::<char>::empty(),
            }),
            first_doi_entry(items@) == first_doi_entry(items@.skip(j as int)),
        decreases items@.len() - j,
    {
        let entry = &items[j];
        proof {
            assert(items@.skip(j as int)[0] == items@[j as int]);
            assert(items@.skip(j as int).drop_first() =~= items@.skip(j + 1 as int));
        }
        let is_doi = match entry.member("idtype") {
            Some(JsonValue::Str(s)) => crate::scan::str_eq(s.as_str(), "doi"),
            _ => false,
        };
        if is_doi {
            return match entry.member("value") {
                Some(JsonValue::Str(s)) => s.clone(),
                _ => String::new(),
            };
        }
        j = j + 1;
    }
    String::new()
}

/// Build the records a summary response yields for the requested
/// identifiers: entries without a DOI are skipped; each kept record is
/// pending, carries its identifier, and is assigned a fresh id.
pub fn papers_from_summary(root: &JsonValue, pmids: &Vec<String>) -> (r: Result<Vec<Paper>, String>)
    ensures
        match r {
            Ok(papers) => ({
                &&& spec_result_obj(*root) is Some
                &&& papers@.map_values(|p: Paper| paper_key(p)) == spec_selected(
                    spec_result_obj(*root)->Some_0,
                    pmids@.map_values(|s: String| s@),
                )
                &&& forall|j: int| 0 <= j < papers@.len() ==> fresh_paper_fields(#[trigger] papers@[j])
            }),
            Err(m) => spec_result_obj(*root) is None && m@ == "Failed to parse result"@,
        },
{
    let res = match root.member("result") {
        Some(m) => match m {
            JsonValue::Obj(_) => m,
            _ => {
                return Err(String::from_str("Failed to parse result"));
            },
        },
        None => {
            return Err(String::from_str("Failed to parse result"));
        },
    };
    let ghost pv = pmids@.map_values(|s: String| s@);
    let mut papers: Vec<Paper> = Vec::new();
    proof {
        assert(papers@.map_values(|p: Paper| paper_key(p)) =~= spec_selected(*res, pv.take(0)));
    }
    let mut i: usize = 0;
    while i < pmids.len()
        invariant
            i <= pmids@.len(),
            pv == pmids@.map_values(|s: String| s@),
            pv.len() == pmids@.len(),
            spec_result_obj(*root) == Some(*res),
            papers@.map_values(|p: Paper| paper_key(p)) == spec_selected(*res, pv.take(i as int)),
            forall|j: int| 0 <= j < papers@.len() ==> fresh_paper_fields(#[trigger] papers@[j]),
        decreases pmids@.len() - i,
    {
        let ghost prev = papers@.map_values(|p: Paper| paper_key(p));
        let pmid = &pmids[i];
        match res.member(pmid.as_str()) {
            Some(p) => {
                let doi = entry_doi(p);
                if !doi.as_str().is_empty() {
                    let title = entry_title(p);
                    papers.push(
                        Paper {
                            id: fresh_id(),
                            title,
                            doi,
                            pmid: Some(pmid.clone()),
                            status: PaperStatus::Pending,
                            local_path: None,
                            abstract_text: None,
                            introduction: None,
                            metadata: None,
                        },
                    );
                    proof {
                        assert(papers@.map_values(|p: Paper| paper_key(p)) =~= prev.push(
                            (pv[i as int], spec_entry_title(*p), spec_entry_doi(*p)),
                        ));
                    }
                }
            },
            None => {},
        }
        proof {
            assert(pv.take(i + 1 as int).drop_last() =~= pv.take(i as int));
            assert(pv.take(i + 1 as int).last() == pv[i as int]);
            assert(pv[i as int] == pmids@[i as int]@);
            assert(papers@.map_values(|p: Paper| paper_key(p)) =~= spec_selected(
                *res,
                pv.take(i + 1 as int),
            ));
        }
        i = i + 1;
    }
    proof {
        assert(pv.take(pmids@.len() as int) =~= pv);
    }
    Ok(papers)
}

} // verus!
