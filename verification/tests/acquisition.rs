use laira::classify::{classify_content_type, Classification};
use laira::doi::extract_doi;
use laira::excerpt::derive_excerpt;
use laira::linkscan::{extract_pdf_link, link_request, normalize_link};
use laira::mirror::{FetchAction, FetchEvent, FetchPhase, FetchSession};
use laira::naming::{build_new_file_name, pdf_file_name, sanitize_filename};
use laira::models::CrossRefMetadata;

fn failed_response() -> FetchEvent {
    FetchEvent::ResponseStatus { ok: false, content_type: String::new() }
}

#[test]
fn classify_recognizes_exactly_the_two_binary_types() {
    assert!(matches!(classify_content_type("application/pdf"), Classification::ReadyBinary));
    assert!(matches!(
        classify_content_type("application/octet-stream"),
        Classification::ReadyBinary
    ));
    assert!(matches!(classify_content_type("text/html"), Classification::Markup));
    assert!(matches!(classify_content_type(""), Classification::Markup));
    // The allowlist is case-sensitive.
    assert!(matches!(classify_content_type("Application/PDF"), Classification::Markup));
    assert!(matches!(classify_content_type("application/pdf "), Classification::Markup));
}

#[test]
fn viewer_element_wins_over_embed() {
    // The embed element comes first in the text; the viewer match still wins.
    let html = r#"<embed type="x" id="pdf" src="http://embed.example/e.pdf">
                  <iframe id="pdf-viewer" src="http://viewer.example/v.pdf"></iframe>"#;
    assert_eq!(extract_pdf_link(html).as_deref(), Some("http://viewer.example/v.pdf"));
}

#[test]
fn embed_element_matches_when_no_viewer_does() {
    let html = r#"<p>nothing</p><embed id="pdf" src="//cdn.example/x.pdf">"#;
    assert_eq!(extract_pdf_link(html).as_deref(), Some("//cdn.example/x.pdf"));
}

#[test]
fn link_extraction_is_case_insensitive_and_tolerates_attribute_order() {
    let html = r#"<IFRAME SRC='//host/a.pdf' ID='PDFVIEW'>"#;
    assert_eq!(extract_pdf_link(html).as_deref(), Some("//host/a.pdf"));
    assert_eq!(extract_pdf_link("<iframe src='x.pdf'>"), None);
    assert_eq!(extract_pdf_link("<div id=\"pdf\" src=\"x.pdf\">"), None);
}

#[test]
fn protocol_relative_links_get_the_secure_scheme() {
    assert_eq!(normalize_link("//host/a.pdf".to_string()), "https://host/a.pdf");
    assert_eq!(normalize_link("http://host/a.pdf".to_string()), "http://host/a.pdf");
    assert_eq!(normalize_link("/relative".to_string()), "/relative");
    let html = r#"<iframe id="pdf" src="//sci.example/d.pdf">"#;
    assert_eq!(link_request(html).as_deref(), Some("https://sci.example/d.pdf"));
}

#[test]
fn storage_name_is_deterministic_and_path_safe() {
    let a = pdf_file_name("10.1234/abc.def");
    let b = pdf_file_name("10.1234/abc.def");
    assert_eq!(a, b);
    assert_eq!(a, "paper_10_1234_abc_def.pdf");
    assert!(!a.contains('/'));
    assert_eq!(a.matches('.').count(), 1);
    assert!(a.ends_with(".pdf"));
}

#[test]
fn sanitize_removes_illegal_filename_characters() {
    assert_eq!(sanitize_filename(r#"a<b>c:d"e/f\g|h?i*j"#), "abcdefghij");
    assert_eq!(sanitize_filename("2021_Smith_JSci.pdf"), "2021_Smith_JSci.pdf");
}

#[test]
fn canonical_name_from_metadata() {
    let m = CrossRefMetadata {
        title: "T".to_string(),
        author: "Smith".to_string(),
        year: "2021".to_string(),
        journal: "J Sci".to_string(),
    };
    assert_eq!(build_new_file_name(&m), "2021_Smith_JSci.pdf");
    let odd = CrossRefMetadata {
        title: "T".to_string(),
        author: "Sm/ith?".to_string(),
        year: "1999".to_string(),
        journal: "J: Sci".to_string(),
    };
    assert_eq!(build_new_file_name(&odd), "1999_Smith_JSci.pdf");
}

#[test]
fn excerpt_follows_the_introduction_marker() {
    let text = "Title page. INTRODUCTION This paper studies things.";
    let p = text.to_lowercase().find("introduction").unwrap();
    let expected = &text[p + "introduction".len()..];
    assert_eq!(derive_excerpt(text), expected);
}

#[test]
fn excerpt_without_marker_is_the_text_head() {
    let text = "short text with no marker";
    assert_eq!(derive_excerpt(text), text);
    let long: String = "x".repeat(2500);
    assert_eq!(derive_excerpt(&long), "x".repeat(2000));
    let tail: String = format!("{}Introduction{}", "a".repeat(10), "b".repeat(2500));
    assert_eq!(derive_excerpt(&tail), "b".repeat(2000));
}

#[test]
fn doi_extraction_finds_the_first_structural_match() {
    assert_eq!(extract_doi("foo 10.1234/abc.DEF-1 bar").as_deref(), Some("10.1234/abc.DEF-1"));
    assert_eq!(extract_doi("no identifier here"), None);
    // Registrant prefix must be 4 to 9 digits.
    assert_eq!(extract_doi("10.123/abc"), None);
    // The comma is outside the suffix alphabet, so the first match ends there.
    assert_eq!(extract_doi("see 10.99999/x, then 10.1111/y").as_deref(), Some("10.99999/x"));
    // The registrant prefix takes at most nine digits.
    assert_eq!(extract_doi("10.123456789/ok").as_deref(), Some("10.123456789/ok"));
    assert_eq!(extract_doi("10.1234567890/no"), None);
    // The suffix run is maximal over its allowed characters.
    assert_eq!(extract_doi("10.5555/a.b;c(d)/e:f end").as_deref(), Some("10.5555/a.b;c(d)/e:f"));
}

#[test]
fn mirrors_are_tried_in_order_and_binary_success_stops_the_walk() {
    let (mut s, action) = FetchSession::begin("10.1/x");
    match action {
        FetchAction::RequestMirror(u) => assert_eq!(u, "https://sci-hub.se/10.1/x"),
        _ => panic!("expected a mirror request"),
    }
    // First mirror fails: the second is requested, in order.
    match s.step(failed_response()) {
        FetchAction::RequestMirror(u) => assert_eq!(u, "https://sci-hub.st/10.1/x"),
        _ => panic!("expected the next mirror"),
    }
    // The second answers with a ready binary: its body is read, then delivered.
    let ev = FetchEvent::ResponseStatus {
        ok: true,
        content_type: "application/pdf".to_string(),
    };
    assert!(matches!(s.step(ev), FetchAction::ReadBinary));
    match s.step(FetchEvent::BinaryBody(Some(vec![1u8, 2, 3]))) {
        FetchAction::Deliver(Some(bytes)) => assert_eq!(bytes, vec![1u8, 2, 3]),
        _ => panic!("expected the payload"),
    }
    assert!(matches!(s.phase, FetchPhase::Done));
}

#[test]
fn markup_response_leads_to_the_extracted_link() {
    let (mut s, _) = FetchSession::begin("10.1/x");
    let ev = FetchEvent::ResponseStatus { ok: true, content_type: "text/html".to_string() };
    assert!(matches!(s.step(ev), FetchAction::ReadMarkup));
    let html = r#"<iframe id="pdf" src="//mirror.example/p.pdf">"#.to_string();
    match s.step(FetchEvent::MarkupBody(Some(html))) {
        FetchAction::RequestLink(u) => assert_eq!(u, "https://mirror.example/p.pdf"),
        _ => panic!("expected a link request"),
    }
    match s.step(FetchEvent::LinkBody(Some(vec![9u8]))) {
        FetchAction::Deliver(Some(bytes)) => assert_eq!(bytes, vec![9u8]),
        _ => panic!("expected the payload"),
    }
}

#[test]
fn markup_without_a_link_advances_to_the_next_mirror() {
    let (mut s, _) = FetchSession::begin("10.1/x");
    let ev = FetchEvent::ResponseStatus { ok: true, content_type: "text/html".to_string() };
    s.step(ev);
    match s.step(FetchEvent::MarkupBody(Some("<p>no viewer</p>".to_string()))) {
        FetchAction::RequestMirror(u) => assert_eq!(u, "https://sci-hub.st/10.1/x"),
        _ => panic!("expected the next mirror"),
    }
}

#[test]
fn exhausting_all_mirrors_with_failures_delivers_the_empty_result() {
    let (mut s, first) = FetchSession::begin("10.1/x");
    assert!(matches!(first, FetchAction::RequestMirror(_)));
    let expected = [
        "https://sci-hub.st/10.1/x",
        "https://sci-hub.ru/10.1/x",
        "http://sci-hub.wf/10.1/x",
        "https://sci-hub.cat/10.1/x",
    ];
    for url in expected {
        match s.step(failed_response()) {
            FetchAction::RequestMirror(u) => assert_eq!(u, url),
            _ => panic!("expected the next mirror in order"),
        }
    }
    // The last mirror fails too: the session delivers nothing, not an error.
    match s.step(failed_response()) {
        FetchAction::Deliver(None) => {}
        _ => panic!("expected the empty delivery"),
    }
    assert!(matches!(s.phase, FetchPhase::Done));
}
