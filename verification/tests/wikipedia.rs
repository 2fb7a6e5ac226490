use wikipedia_api::build_search_url;
use wikipedia_api::build_summary_url;
use wikipedia_api::decode_search;
use wikipedia_api::decode_summary;
use wikipedia_api::extract_summary;
use wikipedia_api::Page;
use wikipedia_api::WikiError;

const EINSTEIN_SEARCH_BODY: &str = "[\"Albert Einstein\",[\"Albert Einstein\"],[\"German-born theoretical physicist\"],[\"https://en.wikipedia.org/wiki/Albert_Einstein\"]]";

const EINSTEIN_SUMMARY_BODY: &str = "{\"batchcomplete\":true,\"query\":{\"pages\":[{\"pageid\":736,\"ns\":0,\"title\":\"Albert Einstein\",\"extract\":\"Albert Einstein was a German-born theoretical physicist.\"}]}}";

#[test]
fn test_search_page() {
    let expected_page = Page::new(
        "Albert Einstein".to_string(),
        "https://en.wikipedia.org/wiki/Albert_Einstein".to_string(),
    );
    let page = Page::search("Albert Einstein", EINSTEIN_SEARCH_BODY).unwrap();
    assert_eq!(page, expected_page);
}

#[test]
fn test_search_page_misspelled() {
    let body = "[\"progrmming lang\",[\"Programming language\"],[\"\"],[\"https://en.wikipedia.org/wiki/Programming_language\"]]";
    let expected_page = Page::new(
        "Programming language".to_string(),
        "https://en.wikipedia.org/wiki/Programming_language".to_string(),
    );
    let page = Page::search("progrmming lang", body).unwrap();
    assert_eq!(page, expected_page);
}

#[test]
fn test_search_page_not_found() {
    let body = "[\"this page does not exist\",[],[],[]]";
    let err = Page::search("this page does not exist", body).err().unwrap();
    assert_eq!(
        err,
        WikiError::PageNotFoundError("this page does not exist".to_string())
    );
}

#[test]
fn test_get_page_summary() {
    let page = Page::search("Albert Einstein", EINSTEIN_SEARCH_BODY).unwrap();
    let r = page.get_summary(EINSTEIN_SUMMARY_BODY);
    assert!(r.is_ok());
    let text = r.unwrap();
    assert!(!text.is_empty());
    assert_eq!(
        text,
        "Albert Einstein was a German-born theoretical physicist.".to_string()
    );
}

#[test]
fn test_getters_return_copies() {
    let page = Page::new("Title".to_string(), "https://example.test/Title".to_string());
    assert_eq!(page.get_title(), "Title".to_string());
    assert_eq!(page.get_url(), "https://example.test/Title".to_string());
    let copy = page.clone();
    assert_eq!(copy, page);
    assert_ne!(
        page,
        Page::new("Other".to_string(), "https://example.test/Other".to_string())
    );
}

#[test]
fn test_build_search_url_encodes_spaces() {
    let url = build_search_url("USA test");
    assert!(url.contains("USA%20test"));
    assert!(!url.contains(' '));
    assert_eq!(
        url,
        "https://en.wikipedia.org/w/api.php?action=opensearch&search=USA%20test&limit=1&namespace=0&format=json".to_string()
    );
}

#[test]
fn test_build_search_url_trims_whitespace() {
    let url = build_search_url("\tUSA test\n");
    assert_eq!(
        url,
        "https://en.wikipedia.org/w/api.php?action=opensearch&search=USA%20test&limit=1&namespace=0&format=json".to_string()
    );
    // spaces are replaced before trimming, so a leading space survives as %20
    let url2 = build_search_url(" x");
    assert!(url2.contains("search=%20x&"));
}

#[test]
fn test_build_summary_url_verbatim_title() {
    let url = build_summary_url("Albert Einstein");
    assert_eq!(
        url,
        "https://en.wikipedia.org/w/api.php?action=query&format=json&prop=extracts&titles=Albert Einstein&formatversion=2&exintro=1&explaintext=1".to_string()
    );
    let page = Page::new(
        "Albert Einstein".to_string(),
        "https://en.wikipedia.org/wiki/Albert_Einstein".to_string(),
    );
    assert_eq!(page.summary_url(), url);
}

#[test]
fn test_search_malformed_json_is_parse_error() {
    let err = Page::search("x", "this is not json").err().unwrap();
    assert_eq!(err, WikiError::JsonParseError);
    let err2 = Page::search("x", "{\"a\": 1}").err().unwrap();
    assert_eq!(err2, WikiError::JsonParseError);
    let err3 = Page::search("x", "[\"a\",[],[]]").err().unwrap();
    assert_eq!(err3, WikiError::JsonParseError);
    let err4 = Page::search("x", "[\"a\",[1],[],[2]]").err().unwrap();
    assert_eq!(err4, WikiError::JsonParseError);
}

#[test]
fn test_summary_malformed_json_is_parse_error() {
    let page = Page::new("T".to_string(), "u".to_string());
    assert_eq!(page.get_summary("{").err().unwrap(), WikiError::JsonParseError);
    assert_eq!(
        page.get_summary("{\"batchcomplete\":true}").err().unwrap(),
        WikiError::JsonParseError
    );
    assert_eq!(
        page.get_summary("{\"batchcomplete\":true,\"query\":{\"pages\":7}}")
            .err()
            .unwrap(),
        WikiError::JsonParseError
    );
    assert_eq!(
        page.get_summary("{\"batchcomplete\":1,\"query\":{\"pages\":[]}}")
            .err()
            .unwrap(),
        WikiError::JsonParseError
    );
    assert_eq!(
        page.get_summary(
            "{\"batchcomplete\":true,\"query\":{\"pages\":[{\"pageid\":1,\"ns\":0,\"title\":\"T\"}]}}"
        )
        .err()
        .unwrap(),
        WikiError::JsonParseError
    );
}

#[test]
fn test_summary_fractional_pageid_is_parse_error() {
    let page = Page::new("T".to_string(), "u".to_string());
    let body = "{\"batchcomplete\":true,\"query\":{\"pages\":[{\"pageid\":7.5,\"ns\":0,\"title\":\"T\",\"extract\":\"x\"}]}}";
    assert_eq!(page.get_summary(body).err().unwrap(), WikiError::JsonParseError);
}

#[test]
fn test_summary_without_pages_is_response_error() {
    let page = Page::new("T".to_string(), "u".to_string());
    let err = page
        .get_summary("{\"batchcomplete\":true,\"query\":{\"pages\":[]}}")
        .err()
        .unwrap();
    assert_eq!(err, WikiError::ResponseError);
}

#[test]
fn test_decode_search_names_the_positions() {
    let sr = decode_search(EINSTEIN_SEARCH_BODY).unwrap();
    assert_eq!(sr.term, "Albert Einstein".to_string());
    assert_eq!(sr.titles, vec!["Albert Einstein".to_string()]);
    assert_eq!(
        sr.descriptions,
        vec!["German-born theoretical physicist".to_string()]
    );
    assert_eq!(
        sr.urls,
        vec!["https://en.wikipedia.org/wiki/Albert_Einstein".to_string()]
    );
}

#[test]
fn test_decode_summary_reads_all_fields() {
    let resp = decode_summary(EINSTEIN_SUMMARY_BODY).unwrap();
    assert!(resp.batchcomplete);
    assert_eq!(resp.query.pages.len(), 1);
    assert_eq!(resp.query.pages[0].pageid, 736);
    assert_eq!(resp.query.pages[0].ns, 0);
    assert_eq!(resp.query.pages[0].title, "Albert Einstein".to_string());
    assert_eq!(
        resp.query.pages[0].extract,
        "Albert Einstein was a German-born theoretical physicist.".to_string()
    );
    let text = extract_summary(&resp).unwrap();
    assert_eq!(
        text,
        "Albert Einstein was a German-born theoretical physicist.".to_string()
    );
}

#[test]
fn test_decode_summary_tolerates_extra_fields() {
    let body = "{\"warnings\":{\"extracts\":{\"warnings\":\"deprecated\"}},\"batchcomplete\":true,\"query\":{\"pages\":[{\"pageid\":5,\"ns\":0,\"title\":\"USA\",\"extract\":\"The United States of America.\",\"touched\":\"now\"}]}}";
    let resp = decode_summary(body).unwrap();
    assert_eq!(resp.query.pages[0].title, "USA".to_string());
    assert_eq!(
        resp.query.pages[0].extract,
        "The United States of America.".to_string()
    );
}

#[test]
fn test_error_messages() {
    assert_eq!(
        WikiError::PageNotFoundError("USA test".to_string()).message(),
        "PageNotFound: Couldn't find 'USA test'.".to_string()
    );
    assert_eq!(
        WikiError::PageRequestError.message(),
        "PageRequestError: Internal error.".to_string()
    );
    assert_eq!(
        WikiError::JsonParseError.message(),
        "JsonParseError: Internal response parsing error.".to_string()
    );
    assert_eq!(
        WikiError::ResponseError.message(),
        "ResponseError: Wikipedia returned an unexpected result.".to_string()
    );
}

#[test]
fn test_build_search_url_empty_term() {
    let url = build_search_url("");
    assert_eq!(
        url,
        "https://en.wikipedia.org/w/api.php?action=opensearch&search=&limit=1&namespace=0&format=json".to_string()
    );
}

#[test]
fn test_build_search_url_trims_unicode_whitespace() {
    let url = build_search_url("\u{3000}USA test\u{A0}");
    assert_eq!(
        url,
        "https://en.wikipedia.org/w/api.php?action=opensearch&search=USA%20test&limit=1&namespace=0&format=json".to_string()
    );
}

#[test]
fn test_search_repeated_calls_agree() {
    let a = Page::search("Albert Einstein", EINSTEIN_SEARCH_BODY).unwrap();
    let b = Page::search("Albert Einstein", EINSTEIN_SEARCH_BODY).unwrap();
    assert_eq!(a, b);
    let page = Page::new("T".to_string(), "u".to_string());
    assert_eq!(
        page.get_summary(EINSTEIN_SUMMARY_BODY).unwrap(),
        page.get_summary(EINSTEIN_SUMMARY_BODY).unwrap()
    );
}
