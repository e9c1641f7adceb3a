use ai_stats_client::config::{Client, Configuration};
use ai_stats_client::decimal::decimal_string;
use ai_stats_client::request::{authorization_header, encode_list_models_query, QueryParam};
use ai_stats_client::response::{decode_list_response, list_response_from_parts, ClientError};

fn pairs(q: &[QueryParam]) -> Vec<(String, String)> {
    q.iter().map(|p| (p.name.clone(), p.value.clone())).collect()
}

fn pair(n: &str, v: &str) -> (String, String) {
    (n.to_string(), v.to_string())
}

#[test]
fn scenario_limit_only_with_token() {
    let client = Client::new("T", "https://api.example.test/v1");
    let req = client.list_models_request(None, Some(5), None);
    assert_eq!(req.method, "GET");
    assert_eq!(req.url, "https://api.example.test/v1/models");
    assert_eq!(pairs(&req.query), vec![pair("limit", "5")]);
    assert_eq!(req.authorization.as_deref(), Some("Bearer T"));

    let resp = decode_list_response(200, r#"{"models":[{"id":"a"},{"id":"b"}]}"#)
        .ok()
        .expect("a success");
    assert_eq!(resp.models, vec![r#"{"id":"a"}"#.to_string(), r#"{"id":"b"}"#.to_string()]);
}

#[test]
fn query_all_absent_is_empty() {
    assert!(encode_list_models_query(None, None, None).is_empty());
}

#[test]
fn query_all_present_in_order() {
    let q = encode_list_models_query(Some("openai".to_string()), Some(10), Some(20));
    assert_eq!(
        pairs(&q),
        vec![pair("provider", "openai"), pair("limit", "10"), pair("offset", "20")]
    );
}

#[test]
fn query_omits_exactly_the_absent() {
    let q = encode_list_models_query(Some("anthropic".to_string()), None, Some(0));
    assert_eq!(pairs(&q), vec![pair("provider", "anthropic"), pair("offset", "0")]);
    let q = encode_list_models_query(None, Some(100), None);
    assert_eq!(pairs(&q), vec![pair("limit", "100")]);
}

#[test]
fn query_keeps_empty_provider_text() {
    let q = encode_list_models_query(Some(String::new()), None, None);
    assert_eq!(pairs(&q), vec![pair("provider", "")]);
}

#[test]
fn decimal_text_of_integers() {
    assert_eq!(decimal_string(0), "0");
    assert_eq!(decimal_string(7), "7");
    assert_eq!(decimal_string(1234), "1234");
    assert_eq!(decimal_string(-45), "-45");
    assert_eq!(decimal_string(i32::MAX), "2147483647");
    assert_eq!(decimal_string(i32::MIN), "-2147483648");
}

#[test]
fn no_credential_sends_no_authorization() {
    let config = Configuration::new("https://api.example.test/v1", None);
    assert_eq!(authorization_header(&config), None);
    let client = Client::from_config(config);
    let req = client.list_models_request(None, None, None);
    assert_eq!(req.authorization, None);
    assert!(req.query.is_empty());
    assert_eq!(req.url, "https://api.example.test/v1/models");
}

#[test]
fn credential_becomes_bearer_header() {
    let config = Configuration::new("http://localhost:8080", Some("abc123".to_string()));
    assert_eq!(authorization_header(&config).as_deref(), Some("Bearer abc123"));
}

#[test]
fn client_keeps_configuration_verbatim() {
    let client = Client::new("key", "https://example.test/api/");
    assert_eq!(client.config().base_path, "https://example.test/api/");
    assert_eq!(client.config().bearer_access_token.as_deref(), Some("key"));
}

#[test]
fn empty_models_is_empty_success() {
    let resp = decode_list_response(200, r#"{"models":[]}"#).ok().expect("a success");
    assert!(resp.models.is_empty());
}

#[test]
fn models_keep_order_and_count() {
    let body = r#"{"models":[{"id":"c"},{"id":"a","provider":"x"},{"id":"b"}],"total":3}"#;
    let resp = decode_list_response(204, body).ok().expect("a success");
    assert_eq!(
        resp.models,
        vec![
            r#"{"id":"c"}"#.to_string(),
            r#"{"id":"a","provider":"x"}"#.to_string(),
            r#"{"id":"b"}"#.to_string(),
        ]
    );
}

#[test]
fn models_are_compact_json_text() {
    let resp = decode_list_response(200, "{ \"models\" : [ { \"id\" : \"a\" } , 5 ] }")
        .ok()
        .expect("a success");
    assert_eq!(resp.models, vec![r#"{"id":"a"}"#.to_string(), "5".to_string()]);
}

fn api_status(r: Result<ai_stats_client::response::ModelListResponse, ClientError>) -> (u16, String) {
    match r {
        Err(ClientError::Api { status, body }) => (status, body),
        _ => panic!("expected an API error"),
    }
}

#[test]
fn unauthorized_is_api_error() {
    let (status, body) = api_status(decode_list_response(401, r#"{"error":"unauthorized"}"#));
    assert_eq!(status, 401);
    assert_eq!(body, r#"{"error":"unauthorized"}"#);
}

#[test]
fn forbidden_is_api_error() {
    let (status, body) = api_status(decode_list_response(403, r#"{"models":[]}"#));
    assert_eq!(status, 403);
    assert_eq!(body, r#"{"models":[]}"#);
}

#[test]
fn non_success_statuses_are_api_errors() {
    assert_eq!(api_status(decode_list_response(500, "oops")).0, 500);
    assert_eq!(api_status(decode_list_response(199, "")).0, 199);
    assert_eq!(api_status(decode_list_response(300, r#"{"models":[]}"#)).0, 300);
}

fn decode_error(r: Result<ai_stats_client::response::ModelListResponse, ClientError>) -> (String, String) {
    match r {
        Err(ClientError::Decode { body, cause }) => (body, cause),
        _ => panic!("expected a decode error"),
    }
}

#[test]
fn invalid_json_is_decode_error() {
    let (body, cause) = decode_error(decode_list_response(200, "not json"));
    assert_eq!(body, "not json");
    assert!(!cause.is_empty());
}

#[test]
fn missing_models_is_decode_error() {
    let (body, cause) = decode_error(decode_list_response(200, r#"{"data":[]}"#));
    assert_eq!(body, r#"{"data":[]}"#);
    assert_eq!(cause, "the response has no models array");
}

#[test]
fn models_not_an_array_is_decode_error() {
    decode_error(decode_list_response(200, r#"{"models":{"id":"a"}}"#));
    decode_error(decode_list_response(200, r#"{"models":null}"#));
    decode_error(decode_list_response(200, r#"[{"models":[]}]"#));
    decode_error(decode_list_response(299, ""));
}

#[test]
fn parts_pass_models_through() {
    let models = vec!["x".to_string(), "y".to_string()];
    let resp = list_response_from_parts(200, "ignored", Ok(Some(models.clone()))).ok().expect("a success");
    assert_eq!(resp.models, models);
}

#[test]
fn parts_carry_parser_message() {
    let (body, cause) = decode_error(list_response_from_parts(200, "b", Err("bad".to_string())));
    assert_eq!(body, "b");
    assert_eq!(cause, "bad");
    let (status, body) = api_status(list_response_from_parts(404, "nf", Ok(Some(vec![]))));
    assert_eq!((status, body.as_str()), (404, "nf"));
}
