use splendor::adapters::{
    http_response_body, http_response_output, response_body_json,
    extract_body, extract_headers, FilesystemAdapter, FilesystemAdapterConfig, FsOperation,
    HttpAdapter, HttpAdapterConfig, HttpBody, HttpMethod, GET_ACTION, LIST_ACTION, POST_ACTION,
    READ_ACTION, STAT_ACTION, WRITE_ACTION,
};
use splendor::gateway::AdapterError;
use splendor::ids::TenantId;
use splendor::json::Json;

fn uuid(value: u128) -> String {
    let h = format!("{:032x}", value);
    format!("{}-{}-{}-{}-{}", &h[0..8], &h[8..12], &h[12..16], &h[16..20], &h[20..32])
}


fn obj(entries: Vec<(&str, Json)>) -> Json {
    Json::Object(entries.into_iter().map(|(k, v)| (k.to_string(), v)).collect())
}

fn s(t: &str) -> Json {
    Json::Str(t.to_string())
}

fn err_text(e: AdapterError) -> String {
    e.message()
}

fn fs_adapter() -> FilesystemAdapter {
    FilesystemAdapter::new(FilesystemAdapterConfig { base_dir: "/data".to_string(), ..FilesystemAdapterConfig::standard() })
}

fn root() -> String {
    "/data/tenant".to_string()
}

fn http(config: HttpAdapterConfig) -> HttpAdapter {
    HttpAdapter::new(config)
}

fn with_domains(domains: &[&str]) -> HttpAdapterConfig {
    HttpAdapterConfig { allowed_domains: domains.iter().map(|d| d.to_string()).collect(), ..HttpAdapterConfig::standard() }
}

// ---- filesystem ----

#[test]
fn path_traversal_is_denied() {
    let adapter = fs_adapter();
    let error = adapter
        .plan(&READ_ACTION.to_string(), &obj(vec![("path", s("../secret"))]), &root())
        .expect_err("error");
    assert!(err_text(error).contains("path traversal"));
}

#[test]
fn read_rejects_absolute_path() {
    let adapter = fs_adapter();
    let error = adapter.plan(&READ_ACTION.to_string(), &obj(vec![("path", s("/tmp"))]), &root()).expect_err("absolute path");
    assert!(err_text(error).contains("absolute"));
}

#[test]
fn unsupported_action_is_rejected() {
    let adapter = fs_adapter();
    let error = adapter.plan(&"unknown".to_string(), &obj(vec![("path", s("file"))]), &root()).expect_err("unsupported action");
    assert!(err_text(error).contains("unsupported"));
}

#[test]
fn params_must_be_object() {
    let adapter = fs_adapter();
    let error = adapter.plan(&READ_ACTION.to_string(), &s("oops"), &root()).expect_err("params must be object");
    assert!(err_text(error).contains("params must be an object"));
}

#[test]
fn write_rejects_invalid_bytes() {
    let adapter = fs_adapter();
    let params = obj(vec![("path", s("bad.bin")), ("bytes", Json::Array(vec![Json::UInt(256)]))]);
    let error = adapter.plan(&WRITE_ACTION.to_string(), &params, &root()).expect_err("bytes out of range");
    assert!(err_text(error).contains("byte value"));
}

#[test]
fn write_rejects_missing_contents() {
    let adapter = fs_adapter();
    let error = adapter
        .plan(&WRITE_ACTION.to_string(), &obj(vec![("path", s("empty.txt"))]), &root())
        .expect_err("missing contents");
    assert!(err_text(error).contains("contents"));
}

#[test]
fn write_limit_is_enforced() {
    let adapter = FilesystemAdapter::new(FilesystemAdapterConfig { max_write_bytes: 2, ..FilesystemAdapterConfig::standard() });
    let params = obj(vec![("path", s("big.txt")), ("contents", s("abcd"))]);
    let op = adapter.plan(&WRITE_ACTION.to_string(), &params, &root()).expect("plan");
    let bytes = match op {
        FsOperation::Write { bytes, .. } => bytes,
        _ => panic!("write expected"),
    };
    let error = adapter.check_write_size(bytes.len() as u64).expect_err("write limit");
    assert!(err_text(error).contains("write size"));
}

#[test]
fn write_plan_resolves_inside_tenant_root() {
    let adapter = fs_adapter();
    let params = obj(vec![("path", s("nested/dir/file.txt")), ("contents", s("ok"))]);
    match adapter.plan(&WRITE_ACTION.to_string(), &params, &root()).expect("plan") {
        FsOperation::Write { path, bytes } => {
            assert_eq!(path, "/data/tenant/nested/dir/file.txt");
            assert_eq!(bytes, b"ok".to_vec());
        }
        _ => panic!("write expected"),
    }
}

#[test]
fn write_bytes_array_plan_keeps_bytes() {
    let adapter = fs_adapter();
    let params = obj(vec![
        ("path", s("raw.bin")),
        ("bytes", Json::Array(vec![Json::UInt(0), Json::UInt(1), Json::UInt(255)])),
    ]);
    match adapter.plan(&WRITE_ACTION.to_string(), &params, &root()).expect("plan") {
        FsOperation::Write { bytes, .. } => assert_eq!(bytes, vec![0, 1, 255]),
        _ => panic!("write expected"),
    }
}

#[test]
fn list_defaults_to_root_and_stat_needs_path() {
    let adapter = fs_adapter();
    match adapter.plan(&LIST_ACTION.to_string(), &obj(vec![]), &root()).expect("plan") {
        FsOperation::List { path } => assert_eq!(path, "/data/tenant/"),
        _ => panic!("list expected"),
    }
    let error = adapter.plan(&STAT_ACTION.to_string(), &obj(vec![]), &root()).expect_err("missing path");
    assert!(err_text(error).contains("path"));
}

#[test]
fn dot_segments_are_dropped_when_resolving() {
    let adapter = fs_adapter();
    let resolved = adapter.resolve_path(&root(), &"./a/./b.txt".to_string()).expect("resolved");
    assert_eq!(resolved, "/data/tenant/a/b.txt");
}

#[test]
fn tenant_root_joins_base_and_tenant_id() {
    let adapter = fs_adapter();
    let r = adapter.tenant_root(&TenantId::from_u128(255));
    assert_eq!(r, format!("/data/{}", uuid(255u128)));
}

#[test]
fn read_and_list_limits() {
    let adapter = FilesystemAdapter::new(FilesystemAdapterConfig { max_read_bytes: 2, max_list_entries: 1, ..FilesystemAdapterConfig::standard() });
    assert!(adapter.check_read_size(2).is_ok());
    let error = adapter.check_read_size(4).expect_err("read limit");
    assert!(err_text(error).contains("exceeds limit"));
    assert!(!adapter.listing_full(0));
    assert!(adapter.listing_full(1));
}

// ---- http ----

#[test]
fn http_denies_disallowed_domain() {
    let adapter = http(HttpAdapterConfig::standard());
    let error = adapter
        .plan(&TenantId::from_u128(1), &GET_ACTION.to_string(), &obj(vec![("url", s("http://example.com"))]))
        .expect_err("error");
    assert!(err_text(error).contains("allowlisted"));
}

#[test]
fn http_post_enforces_request_limit() {
    let adapter = http(HttpAdapterConfig { max_request_bytes: 2, ..with_domains(&["127.0.0.1"]) });
    let params = obj(vec![("url", s("http://127.0.0.1:1/")), ("body", s("abcd"))]);
    let error = adapter.plan(&TenantId::from_u128(1), &POST_ACTION.to_string(), &params).expect_err("error");
    assert!(err_text(error).contains("request size"));
}

#[test]
fn tenant_domains_override_allowlist() {
    let tenant_id = TenantId::from_u128(5);
    let adapter = http(HttpAdapterConfig {
        tenant_domains: vec![(tenant_id, vec!["tenant.local".to_string()])],
        ..with_domains(&["example.com"])
    });
    let allowlist = adapter.allowed_domains(&tenant_id);
    assert_eq!(allowlist, &vec!["tenant.local".to_string()]);
    assert!(adapter.domain_allowed(&tenant_id, &"tenant.local".to_string()));
    assert!(!adapter.domain_allowed(&tenant_id, &"example.com".to_string()));
    let method = adapter.method_for_action(&POST_ACTION.to_string()).expect("method");
    assert_eq!(method, HttpMethod::Post);
    assert!(adapter.method_allowed(method));
    let body = extract_body(&obj(vec![("json", obj(vec![("value", Json::UInt(1))]))])).expect("body");
    assert!(matches!(body, HttpBody::JsonParam));
}

#[test]
fn http_rejects_unsupported_action() {
    let adapter = http(with_domains(&["example.com"]));
    let error = adapter
        .plan(&TenantId::from_u128(1), &"http_put".to_string(), &obj(vec![("url", s("http://example.com"))]))
        .expect_err("unsupported action");
    assert!(err_text(error).contains("unsupported http action"));
}

#[test]
fn http_rejects_disallowed_method() {
    let adapter = http(HttpAdapterConfig { allowed_methods: vec![HttpMethod::Get], ..with_domains(&["example.com"]) });
    let error = adapter
        .plan(&TenantId::from_u128(1), &POST_ACTION.to_string(), &obj(vec![("url", s("http://example.com"))]))
        .expect_err("method denied");
    assert!(err_text(error).contains("method POST is not allowed"));
}

#[test]
fn domain_allowlist_supports_wildcards() {
    let adapter = http(with_domains(&["*.example.com", ".example.org"]));
    let tenant_id = TenantId::from_u128(9);
    assert!(adapter.domain_allowed(&tenant_id, &"api.example.com".to_string()));
    assert!(adapter.domain_allowed(&tenant_id, &"svc.example.org".to_string()));
    assert!(!adapter.domain_allowed(&tenant_id, &"example.net".to_string()));
}

#[test]
fn extract_url_requires_value() {
    let adapter = http(HttpAdapterConfig::standard());
    let error = adapter.plan(&TenantId::from_u128(1), &GET_ACTION.to_string(), &obj(vec![])).expect_err("missing url");
    assert!(err_text(error).contains("missing url"));
}

#[test]
fn extract_headers_validates_types() {
    let error = extract_headers(&obj(vec![("headers", Json::Array(vec![s("bad")]))])).expect_err("headers must be object");
    assert!(err_text(error).contains("headers must be an object"));
    let error = extract_headers(&obj(vec![("headers", obj(vec![("X-Test", Json::UInt(1))]))])).expect_err("header values must be strings");
    assert!(err_text(error).contains("header values"));
}

#[test]
fn extract_headers_accepts_valid_map() {
    let headers = extract_headers(&obj(vec![("headers", obj(vec![("X-Test", s("ok"))]))])).expect("headers");
    assert_eq!(headers, vec![("X-Test".to_string(), "ok".to_string())]);
}

#[test]
fn extract_body_handles_json_and_bytes() {
    let body = extract_body(&obj(vec![("json", obj(vec![("k", Json::UInt(1))]))])).expect("json body");
    assert!(matches!(body, HttpBody::JsonParam));
    let body = extract_body(&obj(vec![("bytes", Json::Array(vec![Json::UInt(1), Json::UInt(2), Json::UInt(3)]))])).expect("bytes body");
    match body {
        HttpBody::Raw(v) => assert_eq!(v, vec![1, 2, 3]),
        _ => panic!("raw expected"),
    }
    let error = extract_body(&obj(vec![("bytes", Json::Array(vec![Json::UInt(300)]))])).expect_err("byte out of range");
    assert!(err_text(error).contains("byte value"));
}

#[test]
fn extract_body_accepts_string() {
    match extract_body(&obj(vec![("body", s("hello"))])).expect("body") {
        HttpBody::Raw(v) => assert_eq!(v, b"hello".to_vec()),
        _ => panic!("raw expected"),
    }
}

#[test]
fn extract_body_defaults_to_empty() {
    match extract_body(&obj(vec![])).expect("body") {
        HttpBody::Raw(v) => assert!(v.is_empty()),
        _ => panic!("raw expected"),
    }
}

#[test]
fn execute_rejects_missing_host() {
    let adapter = http(with_domains(&["example.com"]));
    let error = adapter
        .plan(&TenantId::from_u128(1), &GET_ACTION.to_string(), &obj(vec![("url", s("file:///tmp/x"))]))
        .expect_err("missing host");
    assert!(err_text(error).contains("url must include host"));
}

#[test]
fn execute_requires_params_object() {
    let adapter = http(with_domains(&["example.com"]));
    let error = adapter.plan(&TenantId::from_u128(1), &GET_ACTION.to_string(), &s("oops")).expect_err("params must be object");
    assert!(err_text(error).contains("params must be an object"));
}

#[test]
fn http_plan_parses_url_and_keeps_headers() {
    let adapter = http(with_domains(&["example.com"]));
    let params = obj(vec![
        ("url", s("http://example.com/path?q=1")),
        ("headers", obj(vec![("X-Test", s("ok"))])),
    ]);
    let plan = adapter.plan(&TenantId::from_u128(1), &GET_ACTION.to_string(), &params).expect("plan");
    assert_eq!(plan.method, HttpMethod::Get);
    assert_eq!(plan.url, "http://example.com/path?q=1");
    assert_eq!(plan.host, "example.com");
    assert_eq!(plan.headers, vec![("X-Test".to_string(), "ok".to_string())]);
    assert!(matches!(plan.body, HttpBody::Empty));
}

#[test]
fn http_unparsable_url_is_refused() {
    let adapter = http(with_domains(&["example.com"]));
    let error = adapter.plan(&TenantId::from_u128(1), &GET_ACTION.to_string(), &obj(vec![("url", s("not a url"))]));
    assert!(error.is_err());
}

#[test]
fn http_method_names() {
    assert_eq!(HttpMethod::Get.as_str(), "GET");
    assert_eq!(HttpMethod::Post.as_str(), "POST");
}

#[test]
fn http_response_limits() {
    let adapter = http(HttpAdapterConfig { max_response_bytes: 4, ..HttpAdapterConfig::standard() });
    assert!(adapter.check_response_size(4).is_ok());
    let error = adapter.check_response_size(5).expect_err("too large");
    assert_eq!(err_text(error), "adapter failed: response size 5 exceeds limit 4");
    assert!(adapter.check_content_length(None).is_ok());
    assert!(adapter.check_content_length(Some(&"3".to_string())).is_ok());
    assert!(adapter.check_content_length(Some(&"not-a-number".to_string())).is_ok());
    assert!(adapter.check_content_length(Some(&"10".to_string())).is_err());
}

#[test]
fn empty_allowlist_admits_nothing() {
    let adapter = http(HttpAdapterConfig::standard());
    assert!(!adapter.domain_allowed(&TenantId::from_u128(1), &"example.com".to_string()));
}

#[test]
fn http_refusal_names_the_domain() {
    let adapter = http(HttpAdapterConfig::standard());
    let error = adapter
        .plan(&TenantId::from_u128(1), &GET_ACTION.to_string(), &obj(vec![("url", s("http://example.com/x"))]))
        .expect_err("error");
    assert_eq!(err_text(error), "adapter failed: domain not allowlisted: example.com");
}

// ---- planning after the URL is parsed, and response output ----

#[test]
fn plan_with_url_uses_the_parsed_host() {
    let adapter = http(with_domains(&["example.com"]));
    let tenant = TenantId::from_u128(7);
    let params = obj(vec![("url", s("https://example.com/a"))]);
    let parsed = Ok(("https://example.com/a".to_string(), Some("example.com".to_string())));
    let plan = adapter.plan_with_url(&tenant, &GET_ACTION.to_string(), &params, parsed).expect("plan");
    assert_eq!(plan.url, "https://example.com/a");
    assert_eq!(plan.host, "example.com");
    assert!(matches!(plan.method, HttpMethod::Get));
    assert!(matches!(plan.body, HttpBody::Empty));
}

#[test]
fn plan_with_url_refuses_a_parse_error_with_its_text() {
    let adapter = http(with_domains(&["example.com"]));
    let params = obj(vec![("url", s("::"))]);
    let error = adapter
        .plan_with_url(&TenantId::from_u128(7), &GET_ACTION.to_string(), &params, Err("relative URL without a base".to_string()))
        .expect_err("parse error");
    assert!(matches!(error, AdapterError::Failed(m) if m == "relative URL without a base"));
}

#[test]
fn plan_with_url_refuses_a_url_without_host() {
    let adapter = http(with_domains(&["example.com"]));
    let params = obj(vec![("url", s("data:text/plain,hi"))]);
    let error = adapter
        .plan_with_url(&TenantId::from_u128(7), &GET_ACTION.to_string(), &params, Ok(("data:text/plain,hi".to_string(), None)))
        .expect_err("no host");
    assert!(matches!(error, AdapterError::Failed(m) if m == "url must include host"));
}

#[test]
fn plan_with_url_refuses_a_host_off_the_allowlist() {
    let adapter = http(with_domains(&["example.com"]));
    let params = obj(vec![("url", s("https://other.org/"))]);
    let error = adapter
        .plan_with_url(&TenantId::from_u128(7), &GET_ACTION.to_string(), &params, Ok(("https://other.org/".to_string(), Some("other.org".to_string()))))
        .expect_err("not allowlisted");
    assert!(matches!(error, AdapterError::Failed(m) if m == "domain not allowlisted: other.org"));
}

fn text_of(j: &Json) -> Option<String> {
    match j {
        Json::Str(t) => Some(t.clone()),
        _ => None,
    }
}

fn uints_of(j: &Json) -> Option<Vec<u64>> {
    match j {
        Json::Array(items) => items.iter().map(|i| match i { Json::UInt(n) => Some(*n), _ => None }).collect(),
        _ => None,
    }
}

#[test]
fn response_body_is_text_when_utf8() {
    assert_eq!(text_of(&http_response_body(&b"hello".to_vec())), Some("hello".to_string()));
}

#[test]
fn response_body_is_bytes_when_not_utf8() {
    assert_eq!(uints_of(&http_response_body(&vec![0xff, 0x01])), Some(vec![255, 1]));
}

#[test]
fn response_body_json_follows_the_decoding() {
    assert_eq!(text_of(&response_body_json(Some("ok".to_string()), &b"ok".to_vec())), Some("ok".to_string()));
    assert_eq!(uints_of(&response_body_json(None, &vec![7])), Some(vec![7]));
}

#[test]
fn response_output_lists_the_response_fields_in_order() {
    let adapter = http(with_domains(&["example.com"]));
    let params = obj(vec![("url", s("https://example.com/a"))]);
    let plan = adapter.plan(&TenantId::from_u128(7), &GET_ACTION.to_string(), &params).expect("plan");
    let output = http_response_output(&plan, 200, Some("text/plain".to_string()), &b"hi".to_vec(), 12);
    let entries = match output {
        Json::Object(entries) => entries,
        _ => panic!("object"),
    };
    let keys: Vec<&str> = entries.iter().map(|(k, _)| k.as_str()).collect();
    assert_eq!(keys, vec!["url", "method", "status", "bytes", "duration_ms", "content_type", "body"]);
    assert_eq!(text_of(&entries[0].1), Some("https://example.com/a".to_string()));
    assert_eq!(text_of(&entries[1].1), Some("GET".to_string()));
    assert!(matches!(entries[2].1, Json::UInt(200)));
    assert!(matches!(entries[3].1, Json::UInt(2)));
    assert!(matches!(entries[4].1, Json::UInt(12)));
    assert_eq!(text_of(&entries[5].1), Some("text/plain".to_string()));
    assert_eq!(text_of(&entries[6].1), Some("hi".to_string()));
}

#[test]
fn content_length_is_read_as_an_unsigned_decimal() {
    let adapter = http(HttpAdapterConfig { max_response_bytes: 4, ..HttpAdapterConfig::standard() });
    assert!(adapter.check_content_length(Some(&"+10".to_string())).is_err());
    assert!(adapter.check_content_length(Some(&"0005".to_string())).is_err());
    assert!(adapter.check_content_length(Some(&"+".to_string())).is_ok());
    assert!(adapter.check_content_length(Some(&"-10".to_string())).is_ok());
    assert!(adapter.check_content_length(Some(&" 10".to_string())).is_ok());
    assert!(adapter.check_content_length(Some(&"".to_string())).is_ok());
    assert!(adapter.check_content_length(Some(&"99999999999999999999999".to_string())).is_ok());
    assert!(adapter.check_content_length(Some(&"4".to_string())).is_ok());
}

#[test]
fn size_messages_render_numbers_in_decimal() {
    let adapter = http(HttpAdapterConfig { max_request_bytes: 1000, ..HttpAdapterConfig::standard() });
    let error = adapter.check_request_size(1_234_567).expect_err("too large");
    assert_eq!(err_text(error), "adapter failed: request size 1234567 exceeds limit 1000");
}
