//! Decoding the two response shapes into typed values, and extracting the
//! summary text. Shape mismatches become `JsonParseError`; a well-shaped
//! summary answer with no page entries becomes `ResponseError`.

use vstd::prelude::*;

use crate::errors::result_view;
use crate::errors::ErrorView;
use crate::errors::WikiError;
use crate::json::json_as_array;
use crate::json::json_as_bool;
use crate::json::json_as_i64;
use crate::json::json_as_str;
use crate::json::json_from_str;
use crate::json::json_get;
use crate::json::json_model;
use crate::json::json_model_of;
use crate::json::parse_search_wire;
use crate::json::search_wire_of;
use crate::json::JsonModel;
use crate::wire::Query;
use crate::wire::RPage;
use crate::wire::SearchResult;
use crate::wire::SummaryResponse;

verus! {

/// Decode a search response body as the positional 4-tuple shape and give
/// its parts names. Any structural mismatch is `JsonParseError`.
pub fn decode_search(body: &str) -> (r: Result<SearchResult, WikiError>)
    ensures
        search_wire_of(body@) is Err ==> (r matches Err(e) && e@ == ErrorView::JsonParse),
        search_wire_of(body@) matches Ok(w) ==> (r matches Ok(sr) && sr.term@ == w.0
            && sr.titles.deep_view() == w.1 && sr.descriptions.deep_view() == w.2
            && sr.urls.deep_view() == w.3),
{
    match parse_search_wire(body) {
        Ok(t) => Ok(
            SearchResult { term: t.0, titles: t.1, descriptions: t.2, urls: t.3 },
        ),
        Err(_) => Err(WikiError::JsonParseError),
    }
}

/// The `i64` reading of a model that is a number with one.
pub open spec fn model_int(m: JsonModel) -> i64 {
    match m {
        JsonModel::Num(Some(x)) => x,
        _ => 0,
    }
}

/// The characters of a model that is a string.
pub open spec fn model_text(m: JsonModel) -> Seq<char> {
    match m {
        JsonModel::Text(t) => t,
        _ => Seq::empty(),
    }
}

/// Whether a model is a well-shaped page entry: an object with integer
/// `pageid` and `ns` and string `title` and `extract`.
pub open spec fn page_entry_ok(m: JsonModel) -> bool {
    m matches JsonModel::Object(o) && o.contains_key("pageid"@) && (o["pageid"@] matches
    JsonModel::Num(Some(_))) && o.contains_key("ns"@) && (o["ns"@] matches JsonModel::Num(
        Some(_),
    )) && o.contains_key("title"@) && (o["title"@] is Text) && o.contains_key("extract"@) && (
    o["extract"@] is Text)
}

/// The `(pageid, ns, title, extract)` quadruple of a well-shaped page entry.
pub open spec fn page_entry_value(m: JsonModel) -> (i64, i64, Seq<char>, Seq<char>)
    recommends
        page_entry_ok(m),
{
    let o = (match m {
        JsonModel::Object(o) => o,
        _ => Map::empty(),
    });
    (model_int(o["pageid"@]), model_int(o["ns"@]), model_text(o["title"@]), model_text(
        o["extract"@],
    ))
}

/// Whether every entry of a `pages` array is well shaped.
pub open spec fn pages_ok(entries: Seq<JsonModel>) -> bool {
    forall|i: int| 0 <= i < entries.len() ==> page_entry_ok(#[trigger] entries[i])
}

/// The quadruples of a well-shaped `pages` array, in order.
pub open spec fn pages_values(entries: Seq<JsonModel>) -> Seq<(i64, i64, Seq<char>, Seq<char>)> {
    Seq::new(entries.len(), |i: int| page_entry_value(entries[i]))
}

/// The summary wire shape read out of a parsed body's model: the
/// `batchcomplete` boolean and the quadruple of every entry of
/// `query.pages`; `Err` when the model does not match that shape.
pub open spec fn summary_wire_spec(m: JsonModel) -> Result<
    (bool, Seq<(i64, i64, Seq<char>, Seq<char>)>),
    (),
> {
    match m {
        JsonModel::Object(top) => {
            if top.contains_key("batchcomplete"@) && top.contains_key("query"@) {
                match (top["batchcomplete"@], top["query"@]) {
                    (JsonModel::Bool(b), JsonModel::Object(q)) => {
                        if q.contains_key("pages"@) {
                            match q["pages"@] {
                                JsonModel::Array(entries) => {
                                    if pages_ok(entries) {
                                        Ok((b, pages_values(entries)))
                                    } else {
                                        Err(())
                                    }
                                },
                                _ => Err(()),
                            }
                        } else {
                            Err(())
                        }
                    },
                    _ => Err(()),
                }
            } else {
                Err(())
            }
        },
        _ => Err(()),
    }
}

/// What decoding a summary body owes: `Err` when the parser refuses the
/// body or the parsed JSON does not match the wire shape, else the shape's
/// data. A function of the body alone.
pub open spec fn summary_decode_spec(body: Seq<char>) -> Result<
    (bool, Seq<(i64, i64, Seq<char>, Seq<char>)>),
    (),
> {
    match json_model_of(body) {
        Ok(m) => summary_wire_spec(m),
        Err(_) => Err(()),
    }
}

/// Decode a summary response body as the nested object shape
/// `{ batchcomplete, query: { pages: [{ pageid, ns, title, extract }] } }`.
/// Any body the parser refuses, and any structural mismatch, is
/// `JsonParseError`.
pub fn decode_summary(body: &str) -> (r: Result<SummaryResponse, WikiError>)
    ensures
        summary_decode_spec(body@) matches Ok(w) ==> (r matches Ok(resp) && resp.batchcomplete
            == w.0 && resp.query.pages@.len() == w.1.len() && (forall|i: int|
            0 <= i < w.1.len() ==> resp.query.pages@[i].pageid == w.1[i].0
                && resp.query.pages@[i].ns == w.1[i].1 && resp.query.pages@[i].title@ == w.1[i].2
                && resp.query.pages@[i].extract@ == w.1[i].3)),
        summary_decode_spec(body@) is Err ==> (r matches Err(e) && e@ == ErrorView::JsonParse),
        r matches Err(e) ==> e@ == ErrorView::JsonParse,
{
    let v = match json_from_str(body) {
        Ok(v) => v,
        Err(_) => return Err(WikiError::JsonParseError),
    };
    let ghost m = json_model(v);
    let bc_value = match json_get(&v, "batchcomplete") {
        Some(x) => x,
        None => return Err(WikiError::JsonParseError),
    };
    let batchcomplete = match json_as_bool(bc_value) {
        Some(b) => b,
        None => return Err(WikiError::JsonParseError),
    };
    let query_value = match json_get(&v, "query") {
        Some(x) => x,
        None => return Err(WikiError::JsonParseError),
    };
    let pages_value = match json_get(query_value, "pages") {
        Some(x) => x,
        None => return Err(WikiError::JsonParseError),
    };
    let entries = match json_as_array(pages_value) {
        Some(x) => x,
        None => return Err(WikiError::JsonParseError),
    };
    let ghost entries_m = json_model(*pages_value)->Array_0;
    proof {
        assert(summary_wire_spec(m) == (if pages_ok(entries_m) {
            Ok::<(bool, Seq<(i64, i64, Seq<char>, Seq<char>)>), ()>(
                (batchcomplete, pages_values(entries_m)),
            )
        } else {
            Err::<(bool, Seq<(i64, i64, Seq<char>, Seq<char>)>), ()>(())
        }));
    }
    let n = entries.len();
    let mut pages: Vec<RPage> = Vec::new();
    let mut i: usize = 0;
    #[verifier::loop_isolation(false)]
    while i < n
        invariant
            i <= n,
            pages@.len() == i,
            forall|j: int| 0 <= j < i ==> page_entry_ok(#[trigger] entries_m[j]),
            forall|j: int|
                0 <= j < i ==> (#[trigger] pages@[j]).pageid == page_entry_value(entries_m[j]).0
                    && pages@[j].ns == page_entry_value(entries_m[j]).1 && pages@[j].title@
                    == page_entry_value(entries_m[j]).2 && pages@[j].extract@ == page_entry_value(
                    entries_m[j],
                ).3,
        decreases n - i,
    {
        let entry = &entries[i];
        proof {
            assert(json_model(entries@[i as int]) == entries_m[i as int]);
        }
        let pageid_value = match json_get(entry, "pageid") {
            Some(x) => x,
            None => return Err(WikiError::JsonParseError),
        };
        let pageid = match json_as_i64(pageid_value) {
            Some(x) => x,
            None => return Err(WikiError::JsonParseError),
        };
        let ns_value = match json_get(entry, "ns") {
            Some(x) => x,
            None => return Err(WikiError::JsonParseError),
        };
        let ns = match json_as_i64(ns_value) {
            Some(x) => x,
            None => return Err(WikiError::JsonParseError),
        };
        let title_value = match json_get(entry, "title") {
            Some(x) => x,
            None => return Err(WikiError::JsonParseError),
        };
        let title = match json_as_str(title_value) {
            Some(x) => x.to_owned(),
            None => return Err(WikiError::JsonParseError),
        };
        let extract_value = match json_get(entry, "extract") {
            Some(x) => x,
            None => return Err(WikiError::JsonParseError),
        };
        let extract = match json_as_str(extract_value) {
            Some(x) => x.to_owned(),
            None => return Err(WikiError::JsonParseError),
        };
        pages.push(RPage { pageid, ns, title, extract });
        i = i + 1;
    }
    proof {
        assert(pages_ok(entries_m));
        assert(summary_decode_spec(body@) == Ok::<(bool, Seq<(i64, i64, Seq<char>, Seq<char>)>), ()>(
            (batchcomplete, pages_values(entries_m)),
        ));
    }
    Ok(SummaryResponse { batchcomplete, query: Query { pages } })
}

/// What extraction owes for every decoded summary answer: the first page's
/// extract, verbatim, or `Response` when no page entry is there.
pub open spec fn summary_extract_spec(resp: SummaryResponse) -> Result<Seq<char>, ErrorView> {
    if resp.query.pages@.len() == 0 {
        Err(ErrorView::Response)
    } else {
        Ok(resp.query.pages@[0].extract@)
    }
}

/// Read the first page entry of a decoded summary answer and hand back its
/// plain-text extract verbatim; a well-shaped answer without any page entry
/// is `ResponseError`.
pub fn extract_summary(resp: &SummaryResponse) -> (r: Result<String, WikiError>)
    ensures
        result_view(r) == summary_extract_spec(*resp),
{
    if resp.query.pages.len() == 0 {
        Err(WikiError::ResponseError)
    } else {
        Ok(resp.query.pages[0].extract.clone())
    }
}

} // verus!
