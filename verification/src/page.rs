//! The public domain facade: an immutable `Page` value produced by a
//! successful search, plus the decoding halves of the search and summary
//! pipelines. The network call between building a URL and decoding its
//! response body stays outside the library.

use vstd::prelude::*;

use crate::decode::decode_search;
use crate::decode::decode_summary;
use crate::decode::extract_summary;
use crate::decode::summary_decode_spec;
use crate::errors::result_view;
use crate::errors::ErrorView;
use crate::errors::WikiError;
use crate::json::search_wire_of;
use crate::urls::build_summary_url;
use crate::urls::summary_url_of;
use crate::wire::SearchResult;

verus! {

/// The result of a search operation: an immutable title/URL pair,
/// structurally equal and freely copyable, never mutated after construction.
#[derive(Debug, Clone)]
pub struct Page {
    title: String,
    url: String,
}

/// Mathematical image of a `Page`.
pub struct PageView {
    pub title: Seq<char>,
    pub url: Seq<char>,
}

impl View for Page {
    type V = PageView;

    closed spec fn view(&self) -> PageView {
        PageView { title: self.title@, url: self.url@ }
    }
}

impl PartialEq for Page {
    fn eq(&self, other: &Page) -> (r: bool) {
        self.title == other.title && self.url == other.url
    }
}

impl vstd::std_specs::cmp::PartialEqSpecImpl for Page {
    open spec fn obeys_eq_spec() -> bool {
        true
    }

    open spec fn eq_spec(&self, other: &Page) -> bool {
        self@.title == other@.title && self@.url == other@.url
    }
}

/// What decoding a search response owes for every term and body: the `Page`
/// made of the first title and first URL; `PageNotFound` carrying the
/// original term when either is absent; `JsonParse` when the body does not
/// match the positional wire shape.
pub open spec fn search_spec(term: Seq<char>, body: Seq<char>) -> Result<PageView, ErrorView> {
    match search_wire_of(body) {
        Err(_) => Err(ErrorView::JsonParse),
        Ok(w) => if w.1.len() == 0 || w.3.len() == 0 {
            Err(ErrorView::PageNotFound { term })
        } else {
            Ok(PageView { title: w.1[0], url: w.3[0] })
        },
    }
}

/// What decoding a summary response owes for every body: `JsonParse` when
/// the body is refused by the parser or does not match the wire shape,
/// `Response` when it holds no page entry, else the first entry's extract,
/// verbatim. A function of the body alone.
pub open spec fn summary_spec(body: Seq<char>) -> Result<Seq<char>, ErrorView> {
    match summary_decode_spec(body) {
        Err(_) => Err(ErrorView::JsonParse),
        Ok(w) => if w.1.len() == 0 {
            Err(ErrorView::Response)
        } else {
            Ok(w.1[0].3)
        },
    }
}

impl Page {
    /// Create a new `Page`.
    pub fn new(title: String, url: String) -> (r: Self)
        ensures
            r@.title == title@,
            r@.url == url@,
    {
        Page { title, url }
    }

    /// The page's title, as a fresh copy.
    pub fn get_title(&self) -> (r: String)
        ensures
            r@ == self@.title,
    {
        self.title.clone()
    }

    /// The page's URL, as a fresh copy.
    pub fn get_url(&self) -> (r: String)
        ensures
            r@ == self@.url,
    {
        self.url.clone()
    }

    /// Extract the best match of a decoded search answer: the `Page` made of
    /// the first title and the first URL, or `PageNotFoundError` carrying the
    /// original, unencoded search term when either is absent.
    pub fn from_search_result(search_term: &str, sr: &SearchResult) -> (r: Result<
        Page,
        WikiError,
    >)
        ensures
            sr.titles@.len() == 0 || sr.urls@.len() == 0 ==> (r matches Err(e) && e@
                == (ErrorView::PageNotFound { term: search_term@ })),
            sr.titles@.len() > 0 && sr.urls@.len() > 0 ==> (r matches Ok(p) && p@.title
                == sr.titles@[0]@ && p@.url == sr.urls@[0]@),
    {
        if sr.titles.len() == 0 {
            return Err(WikiError::PageNotFoundError(search_term.to_owned()));
        }
        if sr.urls.len() == 0 {
            return Err(WikiError::PageNotFoundError(search_term.to_owned()));
        }
        Ok(Page::new(sr.titles[0].clone(), sr.urls[0].clone()))
    }

    /// Decode the body of a search response and extract the best match. The
    /// outcome is a function of the search term and the body alone.
    pub fn search(search_term: &str, body: &str) -> (r: Result<Page, WikiError>)
        ensures
            result_view(r) == search_spec(search_term@, body@),
    {
        let sr = match decode_search(body) {
            Ok(sr) => sr,
            Err(e) => return Err(e),
        };
        Page::from_search_result(search_term, &sr)
    }

    /// The URL asking for this page's summary.
    pub fn summary_url(&self) -> (r: String)
        ensures
            r@ == summary_url_of(self@.title),
    {
        build_summary_url(self.title.as_str())
    }

    /// Decode the body of a summary response and extract the first page's
    /// plain-text extract, verbatim. A body the parser refuses or that does
    /// not match the wire shape is `JsonParseError`; a well-shaped answer
    /// with no page entries is `ResponseError`. The outcome is a function of
    /// the body alone.
    pub fn get_summary(&self, body: &str) -> (r: Result<String, WikiError>)
        ensures
            result_view(r) == summary_spec(body@),
    {
        let resp = match decode_summary(body) {
            Ok(x) => x,
            Err(e) => return Err(e),
        };
        extract_summary(&resp)
    }
}

} // verus!
