use vstd::prelude::*;
use crate::candidate::{CandidateSource, ExtractionFailure, TextCandidate};

verus! {

/// What `url::Url::parse` makes of a string: `None` where it refuses it, else
/// the URL's scheme and, where it has one, its host.
pub uninterp spec fn url_components(s: Seq<char>) -> Option<(Seq<char>, Option<Seq<char>>)>;

/// What html2text's plain rendering makes of an HTML text at a given wrapping
/// width: `None` where it fails, else the text.
pub uninterp spec fn html_plain_text(html: Seq<char>, width: usize) -> Option<Seq<char>>;

/// The parts of a parsed URL that the extraction reads.
pub(crate) struct UrlParts {
    pub scheme: String,
    pub host: Option<String>,
}

/// The view of an optional string.
pub open spec fn opt_view(o: Option<String>) -> Option<Seq<char>> {
    match o {
        Some(s) => Some(s@),
        None => None,
    }
}

/// Relies on `url::Url::parse`, read back through `Url::scheme` and `Url::host_str`.
#[verifier::external_body]
pub(crate) fn parse_url(s: &str) -> (r: Option<UrlParts>)
    ensures
        match r {
            Some(p) => url_components(s@) == Some((p.scheme@, opt_view(p.host))),
            None => url_components(s@) is None,
        },
{
    match url::Url::parse(s) {
        Ok(u) => Some(UrlParts { scheme: u.scheme().to_string(), host: u.host_str().map(String::from) }),
        Err(_) => None,
    }
}

/// Relies on html2text's `config::plain()` and `Config::string_from_read`:
/// renders HTML as plain text wrapped at `width` columns, or fails.
#[verifier::external_body]
fn render_plain_text(html: &str, width: usize) -> (r: Option<String>)
    ensures
        html_plain_text(html@, width) == opt_view(r),
{
    html2text::config::plain().string_from_read(html.as_bytes(), width).ok()
}

/// The wrapping width at which extracted main content is turned into text.
pub const TEXT_WIDTH: usize = 80;

/// The origin `scheme://host` of a URL with the given parts; the host is empty where absent.
pub open spec fn origin_of(scheme: Seq<char>, host: Option<Seq<char>>) -> Seq<char> {
    scheme + seq![':', '/', '/'] + match host {
        Some(h) => h,
        None => Seq::empty(),
    }
}

/// The base URL that readability extraction of `markup`, taken from the page at
/// `url`, is anchored at; `None` where the markup is empty, `url` does not
/// parse, or its origin does not parse.
pub open spec fn readability_base_of(url: Seq<char>, markup: Seq<char>) -> Option<Seq<char>> {
    if markup.len() == 0 {
        None
    } else {
        match url_components(url) {
            Some((scheme, host)) => {
                let base = origin_of(scheme, host);
                if url_components(base) is Some {
                    Some(base)
                } else {
                    None
                }
            },
            None => None,
        }
    }
}

/// Derives the base URL for readability extraction of `markup` from the page
/// URL's scheme and host, dropping path, query and fragment.
pub fn readability_base(url: &str, markup: &str) -> (r: Result<String, ExtractionFailure>)
    ensures
        markup@.len() == 0 ==> r == Err::<String, ExtractionFailure>(ExtractionFailure::ParseFailure),
        match readability_base_of(url@, markup@) {
            Some(base) => r matches Ok(b) && b@ == base,
            None => r == Err::<String, ExtractionFailure>(ExtractionFailure::ParseFailure),
        },
{
    if markup.is_empty() {
        return Err(ExtractionFailure::ParseFailure);
    }
    let parts = match parse_url(url) {
        Some(p) => p,
        None => {
            return Err(ExtractionFailure::ParseFailure);
        },
    };
    let mut base = parts.scheme;
    base.append("://");
    match &parts.host {
        Some(h) => base.append(h.as_str()),
        None => {},
    }
    proof {
        reveal_strlit("://");
        assert(base@ == origin_of(parts.scheme@, opt_view(parts.host)));
    }
    match parse_url(base.as_str()) {
        Some(_) => Ok(base),
        None => Err(ExtractionFailure::ParseFailure),
    }
}

/// The readability text for the main content that extraction isolated, if any.
pub open spec fn readability_text_of(article: Option<Seq<char>>) -> Option<Seq<char>> {
    match article {
        Some(a) => html_plain_text(a, TEXT_WIDTH),
        None => None,
    }
}

/// The readability candidate for the main-content HTML that extraction
/// isolated: that HTML as plain text at the fixed width. No content, or a
/// rendering failure, gives a parse failure.
pub fn article_candidate(article: Option<String>) -> (r: Result<TextCandidate, ExtractionFailure>)
    ensures
        match readability_text_of(opt_view(article)) {
            Some(t) => r matches Ok(c) && c.text@ == t && c.source == CandidateSource::Readability
                && c.wf(),
            None => r == Err::<TextCandidate, ExtractionFailure>(ExtractionFailure::ParseFailure),
        },
{
    match article {
        Some(html) => match render_plain_text(html.as_str(), TEXT_WIDTH) {
            Some(text) => Ok(TextCandidate::new(CandidateSource::Readability, text)),
            None => Err(ExtractionFailure::ParseFailure),
        },
        None => Err(ExtractionFailure::ParseFailure),
    }
}

} // verus!
