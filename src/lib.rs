//! Extraction of the readable text of a rendered web page: two independent
//! extraction paths give text candidates, and a word-count policy picks one.

mod candidate;
mod paginated;
mod pipeline;
mod readability;
mod selector;
mod words;

pub use candidate::{CandidateSource, ExtractionFailure, TextCandidate};
pub use paginated::{collect_page_texts, decode_page_texts, paginated_candidate};
pub use pipeline::{
    accepts_url, lemma_extractor_isolation, lemma_rerun_identical, pages_view, paginated_text_of,
    present, present_candidate, select_outcomes, snapshot_selects, text_selection, text_to_use,
    ExtractionRequest, PipelineError,
};
pub use readability::{
    article_candidate, html_plain_text, opt_view, origin_of, readability_base, readability_base_of,
    readability_text_of, url_components, TEXT_WIDTH,
};
pub use selector::{
    candidates_wf, chosen_source, chosen_text, jointly_text_rich, lemma_policy_cases, lemma_select_deterministic,
    lemma_source_depends_on_counts_only, select, selects, ChosenSource, SelectionResult,
    PAGE_RICH_WORDS, READABILITY_RICH_WORDS,
};
pub use words::{is_white_space, join_pages, joined_pages, word_count, word_count_of};
