//! The library's laws, stated over the spec functions that the public
//! contracts use.

use vstd::prelude::*;

use crate::decode::summary_decode_spec;
use crate::decode::summary_extract_spec;
use crate::errors::result_view;
use crate::errors::ErrorView;
use crate::errors::WikiError;
use crate::json::search_wire_of;
use crate::page::search_spec;
use crate::page::summary_spec;
use crate::page::Page;
use crate::page::PageView;
use crate::wire::SummaryResponse;

verus! {

/// Law: a search answer with at least one title and one URL resolves to the
/// page made of the first title and the first URL — the upstream's best
/// match, misspelled terms included, since the wire tuple is whatever the
/// upstream resolved the term to.
pub proof fn law_search_takes_first_match(
    term: Seq<char>,
    body: Seq<char>,
    w: (Seq<char>, Seq<Seq<char>>, Seq<Seq<char>>, Seq<Seq<char>>),
)
    requires
        search_wire_of(body) == Ok::<_, ()>(w),
        w.1.len() > 0,
        w.3.len() > 0,
    ensures
        search_spec(term, body) == Ok::<PageView, ErrorView>(
            PageView { title: w.1[0], url: w.3[0] },
        ),
{
}

/// Law: a search answer matching nothing yields `PageNotFound` carrying the
/// original, unencoded search term.
pub proof fn law_not_found_carries_original_term(
    term: Seq<char>,
    body: Seq<char>,
    w: (Seq<char>, Seq<Seq<char>>, Seq<Seq<char>>, Seq<Seq<char>>),
)
    requires
        search_wire_of(body) == Ok::<_, ()>(w),
        w.1.len() == 0 || w.3.len() == 0,
    ensures
        search_spec(term, body) == Err::<PageView, ErrorView>(
            ErrorView::PageNotFound { term },
        ),
{
}

/// Law: a search response body that does not match the wire shape yields
/// `JsonParse`, for every term.
pub proof fn law_malformed_search_is_json_error(term: Seq<char>, body: Seq<char>)
    requires
        search_wire_of(body) is Err,
    ensures
        search_spec(term, body) == Err::<PageView, ErrorView>(ErrorView::JsonParse),
{
}

/// Law: searching is referentially transparent — one term and one response
/// body admit exactly one outcome, so repeated decodes of the same answer
/// agree.
pub proof fn law_search_repeatable(
    term: Seq<char>,
    body: Seq<char>,
    r1: Result<Page, WikiError>,
    r2: Result<Page, WikiError>,
)
    requires
        result_view(r1) == search_spec(term, body),
        result_view(r2) == search_spec(term, body),
    ensures
        result_view(r1) == result_view(r2),
{
}

/// Law: a summary body the parser refuses, or whose JSON does not match the
/// wire shape, yields `JsonParse` — and, the decode being verified, never a
/// crash.
pub proof fn law_malformed_summary_is_json_error(body: Seq<char>)
    requires
        summary_decode_spec(body) is Err,
    ensures
        summary_spec(body) == Err::<Seq<char>, ErrorView>(ErrorView::JsonParse),
{
}

/// Law: a well-shaped summary answer with at least one page entry yields the
/// first entry's extract, verbatim; one with none yields `Response`.
pub proof fn law_summary_takes_first_extract(
    body: Seq<char>,
    w: (bool, Seq<(i64, i64, Seq<char>, Seq<char>)>),
)
    requires
        summary_decode_spec(body) == Ok::<_, ()>(w),
    ensures
        w.1.len() > 0 ==> summary_spec(body) == Ok::<Seq<char>, ErrorView>(w.1[0].3),
        w.1.len() == 0 ==> summary_spec(body) == Err::<Seq<char>, ErrorView>(
            ErrorView::Response,
        ),
{
}

/// Law: fetching a summary is referentially transparent — one response body
/// admits exactly one outcome, so repeated decodes of the same answer agree.
pub proof fn law_get_summary_repeatable(
    body: Seq<char>,
    r1: Result<String, WikiError>,
    r2: Result<String, WikiError>,
)
    requires
        result_view(r1) == summary_spec(body),
        result_view(r2) == summary_spec(body),
    ensures
        result_view(r1) == result_view(r2),
{
}

/// Law: summary extraction is referentially transparent — one decoded answer
/// admits exactly one outcome, so repeated extractions agree.
pub proof fn law_summary_repeatable(
    resp: SummaryResponse,
    r1: Result<String, WikiError>,
    r2: Result<String, WikiError>,
)
    requires
        result_view(r1) == summary_extract_spec(resp),
        result_view(r2) == summary_extract_spec(resp),
    ensures
        result_view(r1) == result_view(r2),
{
}

} // verus!
