use webtext::{
    article_candidate, readability_base, text_to_use, ChosenSource, ExtractionFailure,
    ExtractionRequest, PipelineError,
};

fn words(n: usize, w: &str) -> String {
    vec![w; n].join(" ")
}

#[test]
fn malformed_url_is_invalid() {
    assert!(matches!(ExtractionRequest::new("not a url"), Err(PipelineError::InvalidUrl)));
    assert!(matches!(ExtractionRequest::new(""), Err(PipelineError::InvalidUrl)));
}

#[test]
fn url_without_host_is_invalid() {
    assert!(matches!(ExtractionRequest::new("mailto:someone"), Err(PipelineError::InvalidUrl)));
}

#[test]
fn absolute_url_is_accepted() {
    let req = ExtractionRequest::new("https://example.com/article").ok().unwrap();
    assert_eq!(req.url(), "https://example.com/article");
}

#[test]
fn base_keeps_scheme_and_host_only() {
    let base = readability_base("https://example.com/a/b?q=1#frag", "<p>x</p>");
    assert_eq!(base, Ok("https://example.com".to_string()));
    let base = readability_base("http://sub.example.org:8080/x", "<p>x</p>");
    assert_eq!(base, Ok("http://sub.example.org".to_string()));
}

#[test]
fn empty_markup_fails_readability() {
    assert_eq!(
        readability_base("https://example.com/article", ""),
        Err(ExtractionFailure::ParseFailure)
    );
}

#[test]
fn malformed_url_fails_readability() {
    assert_eq!(readability_base("not a url", "<p>x</p>"), Err(ExtractionFailure::ParseFailure));
}

#[test]
fn article_html_becomes_plain_text() {
    let c = article_candidate(Some("<p>hello <b>big</b> world</p>".to_string())).ok().unwrap();
    assert!(!c.text.contains('<'));
    assert!(c.text.contains("hello"));
    assert_eq!(c.word_count, 3);
}

#[test]
fn no_article_fails_readability() {
    assert!(matches!(article_candidate(None), Err(ExtractionFailure::ParseFailure)));
}

#[test]
fn rich_page_returns_readability_text() {
    let req = ExtractionRequest::new("https://example.com/article").ok().unwrap();
    let markup = "<html><body><p>content</p></body></html>";
    assert!(readability_base(req.url(), markup).is_ok());
    let pages = vec![words(700, "page"), words(800, "page")];
    let article = format!("<p>{}</p>", words(600, "word"));
    let out = text_to_use(Ok(pages), Some(article));
    assert_eq!(out.chosen, ChosenSource::Readability);
    assert_eq!(out.text.split_whitespace().count(), 600);
    assert!(out.text.split_whitespace().all(|w| w == "word"));
}

#[test]
fn sparse_page_returns_paginated_text() {
    let pages = vec![words(20, "page")];
    let out = text_to_use(Ok(pages), Some(format!("<p>{}</p>", words(600, "word"))));
    assert_eq!(out.chosen, ChosenSource::Paginated);
    assert_eq!(out.text, words(20, "page"));
}

#[test]
fn decode_failure_still_uses_readability() {
    let out = text_to_use(Err(ExtractionFailure::DecodeFailure), Some("<p>a b c</p>".to_string()));
    assert_eq!(out.chosen, ChosenSource::Readability);
    assert_eq!(out.text.split_whitespace().count(), 3);
}

#[test]
fn missing_article_still_uses_paginated() {
    let out = text_to_use(Ok(vec!["x y".to_string()]), None);
    assert_eq!(out.chosen, ChosenSource::Paginated);
    assert_eq!(out.text, "x y");
}

#[test]
fn nothing_extracted_gives_empty_text() {
    let out = text_to_use(Err(ExtractionFailure::DecodeFailure), None);
    assert_eq!(out.chosen, ChosenSource::Neither);
    assert_eq!(out.text, "");
}

#[test]
fn rerun_on_same_snapshot_is_identical() {
    let run = || text_to_use(Ok(vec![words(1200, "p")]), Some(format!("<p>{}</p>", words(501, "r"))));
    let a = run();
    let b = run();
    assert_eq!(a.chosen, b.chosen);
    assert_eq!(a.text, b.text);
}
