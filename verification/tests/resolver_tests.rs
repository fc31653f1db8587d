use bicat::batch::BatchError;
use bicat::headers::create_custom_headers;
use bicat::input::collection_selection;
use bicat::resolver::{
    collection_endpoint, collection_items, collection_query, item_url, items_in, resolved_target,
    stream_locator, stream_locator_in, stream_url, Lookup, ResolutionError,
};

#[test]
fn collection_items_are_read_in_order() {
    let body = br#"{"code":0,"data":[{"id":1,"bv_id":"BV1aa"},{"id":2,"bv_id":"BV2bb"},{"id":3,"bv_id":"BV3cc"}]}"#;
    assert_eq!(
        collection_items(body),
        Ok(vec!["BV1aa".to_string(), "BV2bb".to_string(), "BV3cc".to_string()])
    );
}

#[test]
fn entries_without_an_identifier_are_left_out() {
    let body = br#"{"data":[{"bv_id":"BV1"},{"id":2},{"bv_id":17},{"bv_id":null},"text",{"bv_id":"BV5"}]}"#;
    assert_eq!(collection_items(body), Ok(vec!["BV1".to_string(), "BV5".to_string()]));
}

#[test]
fn collection_without_the_array_is_not_found() {
    assert_eq!(collection_items(br#"{"code":-403,"message":"denied"}"#), Err(ResolutionError::NotFound));
    assert_eq!(collection_items(br#"{"data":null}"#), Err(ResolutionError::NotFound));
    assert_eq!(collection_items(br#"{"data":{"bv_id":"BV1"}}"#), Err(ResolutionError::NotFound));
    assert_eq!(collection_items(br#"[{"bv_id":"BV1"}]"#), Err(ResolutionError::NotFound));
    assert_eq!(collection_items(b"17"), Err(ResolutionError::NotFound));
}

#[test]
fn collection_body_that_is_no_json_is_a_parse_error() {
    assert_eq!(collection_items(b"<html>"), Err(ResolutionError::Parse(Lookup::Collection)));
    assert_eq!(collection_items(b""), Err(ResolutionError::Parse(Lookup::Collection)));
    assert_eq!(collection_items(br#"{"data":["#), Err(ResolutionError::Parse(Lookup::Collection)));
    assert_eq!(collection_items(&[0xff, 0xfe]), Err(ResolutionError::Parse(Lookup::Collection)));
}

#[test]
fn items_in_a_parsed_document() {
    let document: serde_json::Value =
        serde_json::from_str(r#"{"data":[{"bv_id":"BV9"},{"bv_id":"BV8"}]}"#).unwrap();
    assert_eq!(items_in(&document), Ok(vec!["BV9".to_string(), "BV8".to_string()]));
    let other: serde_json::Value = serde_json::from_str(r#"{"data":7}"#).unwrap();
    assert_eq!(items_in(&other), Err(ResolutionError::NotFound));
}

#[test]
fn collection_selection_maps_the_lookup() {
    assert_eq!(
        collection_selection(Ok(vec!["BV1".to_string()])),
        Ok(vec!["BV1".to_string()])
    );
    assert_eq!(collection_selection(Ok(Vec::new())), Err(BatchError::DataFetch));
    assert_eq!(collection_selection(Err(ResolutionError::NotFound)), Err(BatchError::DataFetch));
    assert_eq!(
        collection_selection(Err(ResolutionError::Network)),
        Err(BatchError::Resolution(ResolutionError::Network))
    );
    assert_eq!(
        collection_selection(Err(ResolutionError::Parse(Lookup::Collection))),
        Err(BatchError::Resolution(ResolutionError::Parse(Lookup::Collection)))
    );
}

#[test]
fn stream_locator_is_the_first_audio_track() {
    let body = br#"{"data":{"dash":{"video":[{"baseUrl":"https://v.example/1"}],"audio":[{"id":1,"baseUrl":"https://a.example/first"},{"baseUrl":"https://a.example/second"}]}}}"#;
    assert_eq!(stream_locator(body), Ok("https://a.example/first".to_string()));
}

#[test]
fn stream_answer_without_a_locator_is_not_found() {
    let not_found = Err(ResolutionError::NotFound);
    assert_eq!(stream_locator(br#"{"code":-404,"data":{}}"#), not_found);
    assert_eq!(stream_locator(br#"{"data":{"dash":{"audio":[]}}}"#), not_found);
    assert_eq!(stream_locator(br#"{"data":{"dash":{"audio":[{"id":1}]}}}"#), not_found);
    assert_eq!(stream_locator(br#"{"data":{"dash":{"audio":[{"baseUrl":5}]}}}"#), not_found);
    assert_eq!(stream_locator(br#"{"data":{"dash":{"audio":[{"baseUrl":null}]}}}"#), not_found);
    assert_eq!(stream_locator(br#"{"data":{"dash":{"audio":{"baseUrl":"x"}}}}"#), not_found);
    assert_eq!(stream_locator(br#"{"data":{"dash":null}}"#), not_found);
    assert_eq!(stream_locator(br#"{"code":-404}"#), not_found);
    assert_eq!(stream_locator(b"[]"), not_found);
    assert_eq!(stream_locator(b"null"), not_found);
}

#[test]
fn an_empty_locator_is_not_found() {
    assert_eq!(
        stream_locator(br#"{"data":{"dash":{"audio":[{"baseUrl":""}]}}}"#),
        Err(ResolutionError::NotFound)
    );
    assert_eq!(
        stream_locator(br#"{"data":{"dash":{"audio":[{"baseUrl":""},{"baseUrl":"https://a.example/second"}]}}}"#),
        Err(ResolutionError::NotFound)
    );
    assert_eq!(
        stream_locator(br#"{"data":{"dash":{"audio":[{"baseUrl":" "}]}}}"#),
        Ok(" ".to_string())
    );
}

#[test]
fn stream_body_that_is_no_json_is_a_parse_error() {
    assert_eq!(stream_locator(b"not json"), Err(ResolutionError::Parse(Lookup::Stream)));
}

#[test]
fn stream_locator_in_a_parsed_document() {
    let document: serde_json::Value =
        serde_json::from_str(r#"{"data":{"dash":{"audio":[{"baseUrl":"https://a.example/x"}]}}}"#).unwrap();
    assert_eq!(stream_locator_in(&document), Ok("https://a.example/x".to_string()));
    let nothing: serde_json::Value = serde_json::from_str(r#"{"code":-404,"data":{}}"#).unwrap();
    assert_eq!(stream_locator_in(&nothing), Err(ResolutionError::NotFound));
}

#[test]
fn addresses_of_the_lookups() {
    assert_eq!(collection_endpoint(), "https://api.bilibili.com/x/v3/fav/resource/ids");
    assert_eq!(
        collection_query("42"),
        vec![
            ("media_id".to_string(), "42".to_string()),
            ("platform".to_string(), "web".to_string())
        ]
    );
    assert_eq!(item_url("BV1xx"), "https://api.bilibili.com/x/web-interface/view?bvid=BV1xx");
    assert_eq!(
        stream_url("BV1xx", "12345"),
        "https://api.bilibili.com/x/player/playurl?fnval=16&bvid=BV1xx&cid=12345"
    );
}

#[test]
fn resolution_messages() {
    assert_eq!(ResolutionError::Parse(Lookup::Collection).message(), "Invalid JSON format.");
    assert_eq!(ResolutionError::Parse(Lookup::Item).message(), "Failed to parse video data.");
    assert_eq!(ResolutionError::Parse(Lookup::Stream).message(), "Failed to parse audio URL.");
    assert_eq!(ResolutionError::NotFound.message(), "No videos found or private collection.");
    assert_eq!(ResolutionError::Network.message(), "Network request failed.");
}

#[test]
fn resolved_target_holds_what_it_was_given() {
    let target = resolved_target("Title", "Owner", "https://a.example/x");
    assert_eq!(target.display_name, "Title");
    assert_eq!(target.owner, "Owner");
    assert_eq!(target.source_locator, "https://a.example/x");
}

#[test]
fn custom_headers_are_the_fixed_set() {
    let headers = create_custom_headers();
    assert_eq!(headers.len(), 5);
    assert_eq!(headers.keys_len(), 5);
    assert_eq!(headers.get("connection").unwrap(), "Keep-Alive");
    assert_eq!(
        headers.get("accept-language").unwrap(),
        "en-US,en;q=0.8,zh-Hans-CN;q=0.5,zh-Hans;q=0.3"
    );
    assert_eq!(headers.get("accept").unwrap(), "text/html, application/xhtml+xml, */*");
    assert_eq!(headers.get("referer").unwrap(), "https://www.bilibili.com");
    assert_eq!(
        headers.get("user-agent").unwrap(),
        "Mozilla/5.0 (X11; Linux x86_64; rv:109.0) Gecko/20100101 Firefox/115.0"
    );
    assert_eq!(headers.get(reqwest::header::CONNECTION).unwrap(), "Keep-Alive");
    assert_eq!(headers.get_all("accept").iter().count(), 1);
    assert!(headers.get("host").is_none());
}
