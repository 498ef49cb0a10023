use vstd::prelude::*;
use crate::words::{word_count, word_count_of};

verus! {

/// Which extraction path produced a text.
#[derive(Clone, Copy, Debug, PartialEq, Eq, Structural)]
pub enum CandidateSource {
    /// Text decoded from the print-rendered, page-segmented document.
    Paginated,
    /// Main-content text isolated from the page's markup.
    Readability,
}

/// Why one extraction path produced no candidate.
#[derive(Clone, Copy, Debug, PartialEq, Eq, Structural)]
pub enum ExtractionFailure {
    /// The paginated document, or the text of one of its pages, could not be decoded.
    DecodeFailure,
    /// The markup could not be parsed, the base URL could not be derived, or
    /// no main content was found.
    ParseFailure,
}

/// A text produced by one extraction path, with its word count.
#[derive(Debug)]
pub struct TextCandidate {
    pub source: CandidateSource,
    pub text: String,
    pub word_count: usize,
}

impl TextCandidate {
    /// The word count is that of the text.
    pub open spec fn wf(&self) -> bool {
        self.word_count == word_count_of(self.text@)
    }

    /// A candidate from `source` holding `text`; its word count is computed once, here.
    pub fn new(source: CandidateSource, text: String) -> (r: TextCandidate)
        ensures
            r.source == source,
            r.text@ == text@,
            r.wf(),
    {
        let n = word_count(text.as_str());
        TextCandidate { source, text, word_count: n }
    }
}

} // verus!
