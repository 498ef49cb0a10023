use vstd::prelude::*;
use crate::candidate::TextCandidate;

verus! {

/// A paginated text with more words than this counts as text rich.
pub const PAGE_RICH_WORDS: usize = 999;

/// A readability text with more words than this counts as text rich.
pub const READABILITY_RICH_WORDS: usize = 500;

/// Which candidate's text a selection returned.
#[derive(Clone, Copy, Debug, PartialEq, Eq, Structural)]
pub enum ChosenSource {
    Paginated,
    Readability,
    /// Neither candidate was present; the text is empty.
    Neither,
}

/// The text the selector settled on, and where it came from.
#[derive(Debug)]
pub struct SelectionResult {
    pub text: String,
    pub chosen: ChosenSource,
}

/// Both word counts say the page is substantially textual.
pub open spec fn jointly_text_rich(paginated_words: int, readability_words: int) -> bool {
    paginated_words > PAGE_RICH_WORDS && readability_words > READABILITY_RICH_WORDS
}

/// The source the selection policy picks for the given candidates.
pub open spec fn chosen_source(
    paginated: Option<TextCandidate>,
    readability: Option<TextCandidate>,
) -> ChosenSource {
    match (paginated, readability) {
        (Some(p), Some(r)) => if jointly_text_rich(p.word_count as int, r.word_count as int) {
            ChosenSource::Readability
        } else {
            ChosenSource::Paginated
        },
        (Some(_), None) => ChosenSource::Paginated,
        (None, Some(_)) => ChosenSource::Readability,
        (None, None) => ChosenSource::Neither,
    }
}

/// The text of the candidate that `chosen` names, or the empty text.
pub open spec fn chosen_text(
    paginated: Option<TextCandidate>,
    readability: Option<TextCandidate>,
    chosen: ChosenSource,
) -> Seq<char> {
    match chosen {
        ChosenSource::Paginated => paginated->Some_0.text@,
        ChosenSource::Readability => readability->Some_0.text@,
        ChosenSource::Neither => Seq::empty(),
    }
}

/// Each present candidate's word count is that of its text.
pub open spec fn candidates_wf(paginated: Option<TextCandidate>, readability: Option<TextCandidate>) -> bool {
    &&& paginated matches Some(p) ==> p.wf()
    &&& readability matches Some(r) ==> r.wf()
}

/// The selection result holds exactly what the policy picks for the candidates.
pub open spec fn selects(
    paginated: Option<TextCandidate>,
    readability: Option<TextCandidate>,
    r: SelectionResult,
) -> bool {
    &&& r.chosen == chosen_source(paginated, readability)
    &&& r.text@ == chosen_text(paginated, readability, r.chosen)
}

/// Picks the readability text when both candidates are present and both are
/// text rich; else the paginated text when present; else the readability text
/// when present; else the empty text.
pub fn select(paginated: Option<TextCandidate>, readability: Option<TextCandidate>) -> (r:
    SelectionResult)
    requires
        candidates_wf(paginated, readability),
    ensures
        selects(paginated, readability, r),
{
    match (paginated, readability) {
        (Some(p), Some(r)) => {
            if p.word_count > PAGE_RICH_WORDS && r.word_count > READABILITY_RICH_WORDS {
                SelectionResult { text: r.text, chosen: ChosenSource::Readability }
            } else {
                SelectionResult { text: p.text, chosen: ChosenSource::Paginated }
            }
        },
        (Some(p), None) => SelectionResult { text: p.text, chosen: ChosenSource::Paginated },
        (None, Some(r)) => SelectionResult { text: r.text, chosen: ChosenSource::Readability },
        (None, None) => SelectionResult { text: String::new(), chosen: ChosenSource::Neither },
    }
}

/// The chosen source depends on nothing but which candidates are present and
/// their two word counts: candidates that agree on these are given the same source.
pub proof fn lemma_source_depends_on_counts_only(
    p1: Option<TextCandidate>,
    r1: Option<TextCandidate>,
    p2: Option<TextCandidate>,
    r2: Option<TextCandidate>,
)
    requires
        p1 is Some <==> p2 is Some,
        r1 is Some <==> r2 is Some,
        p1 is Some ==> p1->Some_0.word_count == p2->Some_0.word_count,
        r1 is Some ==> r1->Some_0.word_count == r2->Some_0.word_count,
    ensures
        chosen_source(p1, r1) == chosen_source(p2, r2),
{
}

/// Two selections over the same candidates agree, text and source.
pub proof fn lemma_select_deterministic(
    paginated: Option<TextCandidate>,
    readability: Option<TextCandidate>,
    a: SelectionResult,
    b: SelectionResult,
)
    requires
        selects(paginated, readability, a),
        selects(paginated, readability, b),
    ensures
        a.chosen == b.chosen,
        a.text@ == b.text@,
{
}

/// The readability text wins exactly when both candidates are present and
/// jointly text rich, or when it is the only candidate; the source is
/// `Neither` exactly when both are absent.
pub proof fn lemma_policy_cases(paginated: Option<TextCandidate>, readability: Option<TextCandidate>)
    ensures
        (chosen_source(paginated, readability) == ChosenSource::Readability) <==> (
        readability is Some && (paginated is None || jointly_text_rich(
            paginated->Some_0.word_count as int,
            readability->Some_0.word_count as int,
        ))),
        (chosen_source(paginated, readability) == ChosenSource::Neither) <==> (paginated is None
            && readability is None),
{
}

} // verus!
