use laira::ai::{answer_affirms, fallback_keywords, keyword_prompt, parse_keyword_list,
    verification_prompt};
use laira::json::JsonValue;
use laira::metadata::{metadata_from_envelope, registry_url};
use laira::models::{KeywordLogic, SearchField};
use laira::naming::build_new_file_name;
use laira::pubmed::{papers_from_summary, parse_id_list, search_url};

fn s(v: &str) -> JsonValue {
    JsonValue::Str(v.to_string())
}

fn obj(pairs: Vec<(&str, JsonValue)>) -> JsonValue {
    JsonValue::Obj(pairs.into_iter().map(|(k, v)| (k.to_string(), v)).collect())
}

/// The registry message of the renaming scenario.
fn smith_message() -> JsonValue {
    obj(vec![(
        "message",
        obj(vec![
            ("title", JsonValue::Arr(vec![s("T")])),
            ("author", JsonValue::Arr(vec![obj(vec![("family", s("Smith"))])])),
            ("created", obj(vec![("date-parts", JsonValue::Arr(vec![JsonValue::Arr(vec![
                JsonValue::UInt(2021),
            ])]))])),
            ("short-container-title", JsonValue::Arr(vec![s("J Sci")])),
        ]),
    )])
}

#[test]
fn registry_url_is_built_from_the_identifier() {
    assert_eq!(registry_url("10.1234/x"), "https://api.crossref.org/works/10.1234/x");
}

#[test]
fn metadata_resolves_all_fields() {
    let m = metadata_from_envelope(&smith_message()).unwrap();
    assert_eq!(m.title, "T");
    assert_eq!(m.author, "Smith");
    assert_eq!(m.year, "2021");
    assert_eq!(m.journal, "J Sci");
}

#[test]
fn renaming_scenario_yields_the_canonical_name() {
    let m = metadata_from_envelope(&smith_message()).unwrap();
    assert_eq!(build_new_file_name(&m), "2021_Smith_JSci.pdf");
}

#[test]
fn missing_author_yields_the_sentinel_and_leaves_other_fields_alone() {
    let root = obj(vec![(
        "message",
        obj(vec![
            ("title", JsonValue::Arr(vec![s("T")])),
            ("created", obj(vec![("date-parts", JsonValue::Arr(vec![JsonValue::Arr(vec![
                JsonValue::UInt(2021),
            ])]))])),
            ("short-container-title", JsonValue::Arr(vec![s("J Sci")])),
        ]),
    )]);
    let m = metadata_from_envelope(&root).unwrap();
    assert_eq!(m.author, "Unknown");
    assert_eq!(m.title, "T");
    assert_eq!(m.year, "2021");
    assert_eq!(m.journal, "J Sci");
}

#[test]
fn every_field_missing_yields_all_sentinels() {
    let root = obj(vec![("message", obj(vec![]))]);
    let m = metadata_from_envelope(&root).unwrap();
    assert_eq!(m.title, "Unknown Title");
    assert_eq!(m.author, "Unknown");
    assert_eq!(m.year, "0000");
    assert_eq!(m.journal, "UnknownJournal");
}

#[test]
fn journal_falls_back_to_the_full_container_title() {
    let root = obj(vec![(
        "message",
        obj(vec![("container-title", JsonValue::Arr(vec![s("Journal of Science")]))]),
    )]);
    let m = metadata_from_envelope(&root).unwrap();
    assert_eq!(m.journal, "Journal of Science");
}

#[test]
fn an_envelope_without_a_message_object_yields_no_metadata() {
    assert!(metadata_from_envelope(&obj(vec![])).is_none());
    assert!(metadata_from_envelope(&obj(vec![("message", s("oops"))])).is_none());
    assert!(metadata_from_envelope(&JsonValue::Null).is_none());
}

#[test]
fn search_url_encodes_the_query() {
    let keywords = vec!["CRISPR".to_string(), " gene editing ".to_string()];
    let url = search_url(&keywords, &KeywordLogic::AND, &SearchField::Title, 5).unwrap();
    assert_eq!(
        url,
        "https://eutils.ncbi.nlm.nih.gov/entrez/eutils/esearch.fcgi?db=pubmed\
         &term=CRISPR%5BTitle%5D%20AND%20%22gene%20editing%22%5BTitle%5D&retmax=5&retmode=json"
    );
}

#[test]
fn empty_keywords_issue_no_request() {
    assert!(search_url(&vec![], &KeywordLogic::OR, &SearchField::Abstract, 10).is_none());
}

#[test]
fn id_list_is_read_from_the_search_response() {
    let root = obj(vec![(
        "esearchresult",
        obj(vec![("idlist", JsonValue::Arr(vec![s("111"), JsonValue::UInt(7), s("222")]))]),
    )]);
    assert_eq!(parse_id_list(&root).unwrap(), vec!["111".to_string(), "222".to_string()]);
    let bad = obj(vec![("esearchresult", obj(vec![]))]);
    assert_eq!(parse_id_list(&bad).unwrap_err(), "Failed to parse idlist");
}

#[test]
fn summary_entries_without_a_doi_are_skipped() {
    let root = obj(vec![(
        "result",
        obj(vec![
            (
                "111",
                obj(vec![
                    ("title", s("First paper")),
                    ("articleids", JsonValue::Arr(vec![
                        obj(vec![("idtype", s("pubmed")), ("value", s("111"))]),
                        obj(vec![("idtype", s("doi")), ("value", s("10.1/abc"))]),
                    ])),
                ]),
            ),
            ("222", obj(vec![("title", s("No doi here"))])),
        ]),
    )]);
    let pmids = vec!["111".to_string(), "222".to_string(), "333".to_string()];
    let papers = papers_from_summary(&root, &pmids).unwrap();
    assert_eq!(papers.len(), 1);
    assert_eq!(papers[0].title, "First paper");
    assert_eq!(papers[0].doi, "10.1/abc");
    assert_eq!(papers[0].pmid.as_deref(), Some("111"));
    assert!(papers[0].local_path.is_none());
    assert!(papers[0].metadata.is_none());
    let bad = obj(vec![("result", s("oops"))]);
    assert_eq!(papers_from_summary(&bad, &pmids).unwrap_err(), "Failed to parse result");
}

#[test]
fn pubmed_tags_match_the_field_scope() {
    assert_eq!(SearchField::TitleAndAbstract.pubmed_tag(), "[Title/Abstract]");
    assert_eq!(SearchField::Title.pubmed_tag(), "[Title]");
    assert_eq!(SearchField::Abstract.pubmed_tag(), "[Abstract]");
}

#[test]
fn keyword_replies_are_split_and_trimmed() {
    let r = parse_keyword_list("CRISPR,  gene editing ,, off-target");
    assert_eq!(r, vec!["CRISPR".to_string(), "gene editing".to_string(), "off-target".to_string()]);
    assert_eq!(parse_keyword_list(""), Vec::<String>::new());
    assert_eq!(parse_keyword_list(" , ,"), Vec::<String>::new());
}

#[test]
fn affirmative_replies_are_recognized() {
    assert!(answer_affirms("YES"));
    assert!(answer_affirms("Well, yes indeed."));
    assert!(!answer_affirms("NO"));
    assert!(!answer_affirms(""));
}

#[test]
fn prompts_carry_their_arguments() {
    let p = verification_prompt("claim A", "context B");
    assert_eq!(
        p,
        "Does the following text support the claim: 'claim A'?\nText: context B\n\nAnswer ONLY with 'YES' or 'NO'."
    );
    let k = keyword_prompt("topic C");
    assert!(k.starts_with("Generate a list of 3-5"));
    assert!(k.contains("'topic C'."));
}

#[test]
fn the_offline_fallback_keywords_are_fixed() {
    assert_eq!(
        fallback_keywords(),
        vec!["CRISPR".to_string(), "Gene Editing".to_string(), "Off-target".to_string()]
    );
}
