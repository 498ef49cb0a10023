use vstd::prelude::*;
use crate::candidate::{ExtractionFailure, TextCandidate};
use crate::paginated::paginated_candidate;
use crate::readability::{article_candidate, opt_view, parse_url, readability_text_of, url_components};
use crate::selector::{candidates_wf, jointly_text_rich, select, selects, ChosenSource, SelectionResult};
use crate::words::{joined_pages, word_count_of};

verus! {

/// A failure that ends a request without text.
#[derive(Clone, Copy, Debug, PartialEq, Eq, Structural)]
pub enum PipelineError {
    /// The input is not an absolute URL with a scheme and a host.
    InvalidUrl,
    /// The renderer could not produce the page.
    RenderFailure,
}

/// `url` parses as a URL that has a host.
pub open spec fn accepts_url(url: Seq<char>) -> bool {
    url_components(url) matches Some((_, Some(_)))
}

/// A request to extract the text of the page at a validated URL.
pub struct ExtractionRequest {
    url: String,
}

impl View for ExtractionRequest {
    type V = Seq<char>;

    closed spec fn view(&self) -> Seq<char> {
        self.url@
    }
}

impl ExtractionRequest {
    /// A request for `url`, or `InvalidUrl` where `url` does not parse as an
    /// absolute URL with a host.
    pub fn new(url: &str) -> (r: Result<ExtractionRequest, PipelineError>)
        ensures
            accepts_url(url@) <==> r is Ok,
            r matches Ok(req) ==> req@ == url@,
            r matches Err(e) ==> e == PipelineError::InvalidUrl,
    {
        match parse_url(url) {
            Some(parts) => match parts.host {
                Some(_) => Ok(ExtractionRequest { url: url.to_string() }),
                None => Err(PipelineError::InvalidUrl),
            },
            None => Err(PipelineError::InvalidUrl),
        }
    }

    /// The validated URL.
    pub fn url(&self) -> (r: &str)
        ensures
            r@ == self@,
    {
        self.url.as_str()
    }
}

/// The candidate an extraction outcome contributes: absent where it failed.
pub open spec fn present(r: Result<TextCandidate, ExtractionFailure>) -> Option<TextCandidate> {
    match r {
        Ok(c) => Some(c),
        Err(_) => None,
    }
}

/// The page texts that decoding produced, where it succeeded.
pub open spec fn pages_view(pages: Result<Vec<String>, ExtractionFailure>) -> Option<
    Seq<Seq<char>>,
> {
    match pages {
        Ok(v) => Some(v@.map_values(|p: String| p@)),
        Err(_) => None,
    }
}

/// The paginated text for decoded page texts, where decoding succeeded.
pub open spec fn paginated_text_of(pages: Option<Seq<Seq<char>>>) -> Option<Seq<char>> {
    match pages {
        Some(p) => Some(joined_pages(p)),
        None => None,
    }
}

/// The selection policy over the two candidate texts, absent where extraction failed.
pub open spec fn text_selection(paginated: Option<Seq<char>>, readability: Option<Seq<char>>) -> (
    ChosenSource,
    Seq<char>,
) {
    match (paginated, readability) {
        (Some(p), Some(r)) => if jointly_text_rich(word_count_of(p) as int, word_count_of(r) as int) {
            (ChosenSource::Readability, r)
        } else {
            (ChosenSource::Paginated, p)
        },
        (Some(p), None) => (ChosenSource::Paginated, p),
        (None, Some(r)) => (ChosenSource::Readability, r),
        (None, None) => (ChosenSource::Neither, Seq::empty()),
    }
}

/// `r` is what the pipeline selects for a rendered page whose paginated
/// document decoded to `pages` and whose main content extraction gave `article`.
pub open spec fn snapshot_selects(
    pages: Result<Vec<String>, ExtractionFailure>,
    article: Option<String>,
    r: SelectionResult,
) -> bool {
    (r.chosen, r.text@) == text_selection(
        paginated_text_of(pages_view(pages)),
        readability_text_of(opt_view(article)),
    )
}

/// Builds the two candidates of one rendered page, each on its own (a failure
/// of one leaves it absent and does not touch the other), and selects the text.
pub fn text_to_use(pages: Result<Vec<String>, ExtractionFailure>, article: Option<String>) -> (r:
    SelectionResult)
    ensures
        snapshot_selects(pages, article, r),
{
    let paginated = match &pages {
        Ok(p) => Some(paginated_candidate(p)),
        Err(_) => None,
    };
    let readability = present_candidate(article_candidate(article));
    select(paginated, readability)
}

/// The candidate of an extraction outcome: absent where it failed.
pub fn present_candidate(r: Result<TextCandidate, ExtractionFailure>) -> (c: Option<TextCandidate>)
    ensures
        c == present(r),
{
    match r {
        Ok(c) => Some(c),
        Err(_) => None,
    }
}

/// Combines two extraction outcomes: a failed one counts as an absent candidate.
pub fn select_outcomes(
    paginated: Result<TextCandidate, ExtractionFailure>,
    readability: Result<TextCandidate, ExtractionFailure>,
) -> (r: SelectionResult)
    requires
        candidates_wf(present(paginated), present(readability)),
    ensures
        selects(present(paginated), present(readability), r),
{
    select(present_candidate(paginated), present_candidate(readability))
}

/// A failure of one extraction path does not keep the other's text from being
/// used: with one text absent, the other present one is selected.
pub proof fn lemma_extractor_isolation(paginated: Option<Seq<char>>, readability: Option<Seq<char>>)
    ensures
        paginated is None && readability is Some ==> text_selection(paginated, readability) == (
        ChosenSource::Readability, readability->Some_0),
        readability is None && paginated is Some ==> text_selection(paginated, readability) == (
        ChosenSource::Paginated, paginated->Some_0),
{
}

/// Running the pipeline twice on the same rendered page (the same decoded page
/// texts and the same extracted main content) gives the same result.
pub proof fn lemma_rerun_identical(
    pages1: Result<Vec<String>, ExtractionFailure>,
    article1: Option<String>,
    pages2: Result<Vec<String>, ExtractionFailure>,
    article2: Option<String>,
    a: SelectionResult,
    b: SelectionResult,
)
    requires
        pages_view(pages1) == pages_view(pages2),
        opt_view(article1) == opt_view(article2),
        snapshot_selects(pages1, article1, a),
        snapshot_selects(pages2, article2, b),
    ensures
        a.chosen == b.chosen,
        a.text@ == b.text@,
{
}

} // verus!
