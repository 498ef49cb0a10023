use vstd::prelude::*;
use pdfium_render::prelude::{PdfDocument, PdfPage, PdfPageText, PdfPages, Pdfium, PdfiumError};
use crate::candidate::{CandidateSource, ExtractionFailure, TextCandidate};
use crate::readability::opt_view;
use crate::words::{join_pages, joined_pages};

verus! {

#[verifier::external_type_specification]
#[verifier::external_body]
pub struct ExPdfium(Pdfium);

#[verifier::external_type_specification]
#[verifier::external_body]
pub struct ExPdfiumError(PdfiumError);

#[verifier::external_type_specification]
#[verifier::external_body]
pub struct ExPdfDocument<'a>(PdfDocument<'a>);

#[verifier::external_type_specification]
#[verifier::external_body]
pub struct ExPdfPages<'a>(PdfPages<'a>);

#[verifier::external_type_specification]
#[verifier::external_body]
pub struct ExPdfPage<'a>(PdfPage<'a>);

#[verifier::external_type_specification]
#[verifier::external_body]
pub struct ExPdfPageText<'a>(PdfPageText<'a>);

/// Relies on `Pdfium::load_pdf_from_byte_vec`: opens a document held in memory.
/// The password goes through `CString::new(..).unwrap()`, which panics on a NUL character.
#[verifier::external_body]
fn load_document<'a>(pdfium: &'a Pdfium, bytes: Vec<u8>, password: &str) -> (r: Result<
    PdfDocument<'a>,
    PdfiumError,
>)
    requires
        forall|i: int| 0 <= i < password@.len() ==> password@[i] != '\0',
{
    pdfium.load_pdf_from_byte_vec(bytes, Some(password))
}

/// Relies on `PdfDocument::pages`: the page collection of a document.
#[verifier::external_body]
fn document_pages<'a, 'b>(doc: &'b PdfDocument<'a>) -> &'b PdfPages<'a> {
    doc.pages()
}

/// Relies on `PdfPages::len`: the number of pages.
#[verifier::external_body]
fn page_count(pages: &PdfPages) -> u16 {
    pages.len()
}

/// Relies on `PdfPages::get`: loads one page, or fails.
#[verifier::external_body]
fn load_page<'a>(pages: &PdfPages<'a>, index: u16) -> Result<PdfPage<'a>, PdfiumError> {
    pages.get(index)
}

/// Relies on `PdfPage::text`: the text layer of a page, or a failure.
#[verifier::external_body]
fn page_text_layer<'p>(page: &'p PdfPage) -> Result<PdfPageText<'p>, PdfiumError> {
    page.text()
}

/// Relies on `PdfPageText::all`: every character of the page, in document order.
#[verifier::external_body]
fn all_text(text: &PdfPageText) -> String {
    text.all()
}

/// The texts of a document's pages from the outcome of decoding each page, in
/// page order: all of them where every page decoded, else a decode failure.
pub fn collect_page_texts(outcomes: Vec<Option<String>>) -> (r: Result<
    Vec<String>,
    ExtractionFailure,
>)
    ensures
        r is Ok <==> forall|i: int| 0 <= i < outcomes@.len() ==> outcomes@[i] is Some,
        r matches Ok(v) ==> v@.len() == outcomes@.len() && forall|i: int|
            0 <= i < v@.len() ==> Some(v@[i]@) == opt_view(outcomes@[i]),
        r matches Err(e) ==> e == ExtractionFailure::DecodeFailure,
{
    let mut texts: Vec<String> = Vec::new();
    let mut i: usize = 0;
    let n = outcomes.len();
    while i < n
        invariant
            n == outcomes@.len(),
            i <= n,
            texts@.len() == i,
            forall|k: int| 0 <= k < i ==> outcomes@[k] is Some,
            forall|k: int| 0 <= k < i ==> Some(texts@[k]@) == opt_view(outcomes@[k]),
        decreases n - i,
    {
        match &outcomes[i] {
            Some(t) => texts.push(t.clone()),
            None => {
                return Err(ExtractionFailure::DecodeFailure);
            },
        }
        i = i + 1;
    }
    Ok(texts)
}

/// Decodes `bytes` as a paginated document, which the renderer leaves without
/// a password, and returns the text of each page, in page order; a failure of
/// the document or of any one page fails the whole.
pub fn decode_page_texts(pdfium: &Pdfium, bytes: Vec<u8>) -> (r: Result<
    Vec<String>,
    ExtractionFailure,
>)
    ensures
        r matches Err(e) ==> e == ExtractionFailure::DecodeFailure,
{
    let no_password = "";
    proof {
        reveal_strlit("");
    }
    let doc = match load_document(pdfium, bytes, no_password) {
        Ok(d) => d,
        Err(_) => {
            return Err(ExtractionFailure::DecodeFailure);
        },
    };
    let pages = document_pages(&doc);
    let n = page_count(pages);
    let mut outcomes: Vec<Option<String>> = Vec::new();
    let mut i: u16 = 0;
    while i < n
        invariant
            i <= n,
        decreases n - i,
    {
        let outcome = match load_page(pages, i) {
            Ok(page) => match page_text_layer(&page) {
                Ok(layer) => Some(all_text(&layer)),
                Err(_) => None,
            },
            Err(_) => None,
        };
        outcomes.push(outcome);
        i = i + 1;
    }
    collect_page_texts(outcomes)
}

/// The paginated candidate for the decoded page texts: the pages joined by
/// single spaces, in order.
pub fn paginated_candidate(pages: &Vec<String>) -> (c: TextCandidate)
    ensures
        c.source == CandidateSource::Paginated,
        c.text@ == joined_pages(pages@.map_values(|p: String| p@)),
        c.wf(),
{
    TextCandidate::new(CandidateSource::Paginated, join_pages(pages))
}

} // verus!
