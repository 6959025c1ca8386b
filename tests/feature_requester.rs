use launchdarkly_server_sdk::feature_requester::{
    FeatureRequesterError, FetchOutcome, ReqwestFeatureRequester,
};
use launchdarkly_server_sdk::feature_requester_builders::{
    BuildError, ReqwestFeatureRequesterBuilder, LAUNCHDARKLY_TAGS_HEADER,
};

const EMPTY_SNAPSHOT: &str = r#"{"flags": {}, "segments": {}}"#;

fn build_feature_requester() -> ReqwestFeatureRequester {
    let url = url::Url::parse("http://127.0.0.1:1234").expect("Failed parsing the mock server url");
    ReqwestFeatureRequester::new(Vec::new(), url, "sdk-key".to_string())
}

fn response(status: u16, etag: &str, body: &str) -> FetchOutcome {
    FetchOutcome::Response {
        status,
        etag: etag.to_string(),
        body: body.as_bytes().to_vec(),
    }
}

fn cached_etag(requester: &ReqwestFeatureRequester) -> Option<String> {
    requester.cache().as_ref().map(|c| c.etag.clone())
}

fn validator_header(requester: &ReqwestFeatureRequester) -> Option<String> {
    requester
        .request_headers()
        .into_iter()
        .find(|(k, _)| k == "If-None-Match")
        .map(|(_, v)| v)
}

#[test]
fn updates_etag_as_appropriate() {
    let mut requester = build_feature_requester();
    assert_eq!(validator_header(&requester), None);

    let result = requester.handle_response(response(200, "INITIAL-TAG", EMPTY_SNAPSHOT));
    assert!(result.is_ok());
    let first = result.unwrap();
    assert_eq!(first, serde_json::from_str::<serde_json::Value>(EMPTY_SNAPSHOT).unwrap());
    assert_eq!(cached_etag(&requester), Some("INITIAL-TAG".to_string()));

    assert_eq!(validator_header(&requester), Some("INITIAL-TAG".to_string()));
    let result = requester.handle_response(response(304, "", ""));
    assert!(result.is_ok());
    assert_eq!(result.unwrap(), first);
    assert_eq!(cached_etag(&requester), Some("INITIAL-TAG".to_string()));

    assert_eq!(validator_header(&requester), Some("INITIAL-TAG".to_string()));
    let result = requester.handle_response(response(200, "UPDATED-TAG", EMPTY_SNAPSHOT));
    assert!(result.is_ok());
    assert_eq!(cached_etag(&requester), Some("UPDATED-TAG".to_string()));
}

#[test]
fn correctly_determines_unrecoverable_errors() {
    let cases = vec![
        (400, FeatureRequesterError::Temporary),
        (401, FeatureRequesterError::Permanent),
        (408, FeatureRequesterError::Temporary),
        (409, FeatureRequesterError::Permanent),
        (429, FeatureRequesterError::Temporary),
        (430, FeatureRequesterError::Permanent),
        (500, FeatureRequesterError::Temporary),
    ];
    for (status, error) in cases {
        let mut requester = build_feature_requester();
        let result = requester.handle_response(response(status, "", ""));
        if let Err(err) = result {
            assert_eq!(err, error);
        } else {
            panic!("get_all returned the wrong response");
        }
        assert!(requester.cache().is_none());
    }
}

#[test]
fn transport_failure_is_temporary() {
    let mut requester = build_feature_requester();
    let result = requester.handle_response(FetchOutcome::TransportError);
    assert_eq!(result, Err(FeatureRequesterError::Temporary));
    assert!(requester.cache().is_none());
}

#[test]
fn malformed_success_body_is_permanent_and_keeps_cache() {
    let mut requester = build_feature_requester();
    requester
        .handle_response(response(200, "TAG", EMPTY_SNAPSHOT))
        .unwrap();
    let result = requester.handle_response(response(200, "OTHER", "{not json"));
    assert_eq!(result, Err(FeatureRequesterError::Permanent));
    assert_eq!(cached_etag(&requester), Some("TAG".to_string()));
}

#[test]
fn success_without_etag_is_not_cached() {
    let mut requester = build_feature_requester();
    let result = requester.handle_response(response(200, "", EMPTY_SNAPSHOT));
    assert!(result.is_ok());
    assert!(requester.cache().is_none());
}

#[test]
fn not_modified_without_cache_is_temporary() {
    let mut requester = build_feature_requester();
    let result = requester.handle_response(response(304, "", ""));
    assert_eq!(result, Err(FeatureRequesterError::Temporary));
}

#[test]
fn repeated_not_modified_keeps_cache() {
    let mut requester = build_feature_requester();
    let first = requester
        .handle_response(response(200, "TAG", r#"{"flags": {"a": {}}, "segments": {}}"#))
        .unwrap();
    for _ in 0..5 {
        let again = requester.handle_response(response(304, "", "")).unwrap();
        assert_eq!(again, first);
        assert_eq!(cached_etag(&requester), Some("TAG".to_string()));
        assert_eq!(requester.cache().as_ref().unwrap().data, first);
    }
}

#[test]
fn request_headers_carry_credential_and_defaults() {
    let url = url::Url::parse("http://localhost/").unwrap();
    let requester = ReqwestFeatureRequester::new(
        vec![("X-Custom".to_string(), "yes".to_string())],
        url,
        "sdk-key".to_string(),
    );
    let headers = requester.request_headers();
    assert_eq!(headers.len(), 4);
    assert_eq!(headers[0], ("Content-Type".to_string(), "application/json".to_string()));
    assert_eq!(headers[1], ("Authorization".to_string(), "sdk-key".to_string()));
    assert_eq!(headers[2].0, "User-Agent");
    assert_eq!(headers[3], ("X-Custom".to_string(), "yes".to_string()));
}

#[test]
fn factory_handles_url_parsing_failure() {
    let builder = ReqwestFeatureRequesterBuilder::new("This is clearly not a valid URL", "sdk-key");
    let result = builder.build(None);

    match result {
        Err(BuildError::InvalidConfig(_)) => (),
        _ => panic!("Build did not return the right type of error"),
    };
}

#[test]
fn factory_builds_snapshot_url_and_tags_header() {
    let builder = ReqwestFeatureRequesterBuilder::new("https://sdk.example.com", "sdk-key");
    let requester = builder.build(Some("application-id/abc".to_string())).unwrap();
    assert_eq!(requester.url().as_str(), "https://sdk.example.com/sdk/latest-all");
    assert_eq!(requester.sdk_key(), "sdk-key");
    assert_eq!(
        requester.default_headers(),
        &vec![(LAUNCHDARKLY_TAGS_HEADER.to_string(), "application-id/abc".to_string())]
    );
    assert!(requester.cache().is_none());

    let untagged = builder.build(None).unwrap();
    assert!(untagged.default_headers().is_empty());
}
