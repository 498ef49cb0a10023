use webtext::{
    select, select_outcomes, CandidateSource, ChosenSource, ExtractionFailure, TextCandidate,
};

fn words(n: usize, w: &str) -> String {
    vec![w; n].join(" ")
}

fn candidate(source: CandidateSource, n: usize, w: &str) -> TextCandidate {
    TextCandidate::new(source, words(n, w))
}

#[test]
fn rich_on_both_sides_picks_readability() {
    let p = candidate(CandidateSource::Paginated, 1000, "p");
    let r = candidate(CandidateSource::Readability, 501, "r");
    let out = select(Some(p), Some(r));
    assert_eq!(out.chosen, ChosenSource::Readability);
    assert_eq!(out.text, words(501, "r"));
}

#[test]
fn readability_at_threshold_keeps_paginated() {
    let p = candidate(CandidateSource::Paginated, 1000, "p");
    let r = candidate(CandidateSource::Readability, 500, "r");
    let out = select(Some(p), Some(r));
    assert_eq!(out.chosen, ChosenSource::Paginated);
    assert_eq!(out.text, words(1000, "p"));
}

#[test]
fn paginated_at_threshold_keeps_paginated() {
    let p = candidate(CandidateSource::Paginated, 999, "p");
    let r = candidate(CandidateSource::Readability, 999, "r");
    let out = select(Some(p), Some(r));
    assert_eq!(out.chosen, ChosenSource::Paginated);
    assert_eq!(out.text, words(999, "p"));
}

#[test]
fn both_empty_but_present_picks_paginated() {
    let p = TextCandidate::new(CandidateSource::Paginated, String::new());
    let r = TextCandidate::new(CandidateSource::Readability, String::new());
    assert_eq!(p.word_count, 0);
    let out = select(Some(p), Some(r));
    assert_eq!(out.chosen, ChosenSource::Paginated);
    assert_eq!(out.text, "");
}

#[test]
fn only_readability_present_is_used() {
    for n in [0usize, 3, 700, 2000] {
        let r = candidate(CandidateSource::Readability, n, "r");
        let out = select(None, Some(r));
        assert_eq!(out.chosen, ChosenSource::Readability);
        assert_eq!(out.text, words(n, "r"));
    }
}

#[test]
fn only_paginated_present_is_used() {
    let p = candidate(CandidateSource::Paginated, 5000, "p");
    let out = select(Some(p), None);
    assert_eq!(out.chosen, ChosenSource::Paginated);
    assert_eq!(out.text, words(5000, "p"));
}

#[test]
fn both_absent_gives_empty_text() {
    let out = select(None, None);
    assert_eq!(out.chosen, ChosenSource::Neither);
    assert_eq!(out.text, "");
}

#[test]
fn selection_is_repeatable() {
    for (pn, rn) in [(1000usize, 501usize), (1000, 500), (999, 999), (0, 0), (1500, 600)] {
        let a = select(
            Some(candidate(CandidateSource::Paginated, pn, "p")),
            Some(candidate(CandidateSource::Readability, rn, "r")),
        );
        let b = select(
            Some(candidate(CandidateSource::Paginated, pn, "p")),
            Some(candidate(CandidateSource::Readability, rn, "r")),
        );
        assert_eq!(a.chosen, b.chosen);
        assert_eq!(a.text, b.text);
    }
}

#[test]
fn failed_paginated_extraction_leaves_readability() {
    let r = candidate(CandidateSource::Readability, 12, "r");
    let out = select_outcomes(Err(ExtractionFailure::DecodeFailure), Ok(r));
    assert_eq!(out.chosen, ChosenSource::Readability);
    assert_eq!(out.text, words(12, "r"));
}

#[test]
fn failed_readability_extraction_leaves_paginated() {
    let p = candidate(CandidateSource::Paginated, 2000, "p");
    let out = select_outcomes(Ok(p), Err(ExtractionFailure::ParseFailure));
    assert_eq!(out.chosen, ChosenSource::Paginated);
    assert_eq!(out.text, words(2000, "p"));
}
