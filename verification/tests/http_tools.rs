use axum_tracing_opentelemetry::otel_http::request::{HttpVersion, RequestHead, RequestUri};
use axum_tracing_opentelemetry::otel_http::tools::{
    extract_client_ip_from_forwarded, extract_client_ip_from_headers,
    extract_client_ip_from_x_forwarded_for, extract_service_method, http_flavor, http_host,
    http_target, url_scheme, user_agent,
};
use http::{HeaderMap, HeaderValue, Uri};

fn uri_parts(input: &str) -> RequestUri {
    let uri: Uri = input.parse().unwrap();
    RequestUri {
        scheme: uri.scheme_str().map(|s| s.to_string()),
        host: uri.host().map(|s| s.to_string()),
        path: uri.path().to_string(),
        query: uri.query().map(|s| s.to_string()),
        path_and_query: uri.path_and_query().map(|s| s.as_str().to_string()),
    }
}

fn request(uri: &str, headers: &[(&'static str, &str)]) -> RequestHead {
    let mut map = HeaderMap::new();
    for (name, value) in headers {
        map.append(*name, value.parse().unwrap());
    }
    RequestHead {
        method: "GET".to_string(),
        uri: uri_parts(uri),
        version: HttpVersion::Http11,
        headers: map,
        matched_path: None,
        original_uri: None,
        peer_addr: None,
    }
}

fn headers_with(name: &'static str, value: &str) -> HeaderMap {
    let mut headers = HeaderMap::new();
    if !value.is_empty() {
        headers.insert(name, value.parse().unwrap());
    }
    headers
}

#[test]
fn test_extract_service_method_empty() {
    assert_eq!(extract_service_method(""), ("", ""));
}

#[test]
fn test_extract_service_method_slash() {
    assert_eq!(extract_service_method("/"), ("", ""));
}

#[test]
fn test_extract_service_method_two_slashes() {
    assert_eq!(extract_service_method("//"), ("", ""));
}

#[test]
fn test_extract_service_method() {
    assert_eq!(
        extract_service_method("/grpc.health.v1.Health/Check"),
        ("grpc.health.v1.Health", "Check")
    );
}

#[test]
fn extract_service_method_single_segment_names_nothing() {
    assert_eq!(extract_service_method("/grpc.health.v1.Health"), ("", ""));
    assert_eq!(extract_service_method("grpc.health.v1.Health/"), ("", ""));
}

#[test]
fn extract_service_method_takes_the_first_two_segments() {
    assert_eq!(extract_service_method("/a/b/c"), ("a", "b"));
    assert_eq!(extract_service_method("a/b"), ("a", "b"));
    assert_eq!(extract_service_method("//a///b//"), ("a", "b"));
    assert_eq!(extract_service_method("/séance/été"), ("séance", "été"));
}

#[test]
fn test_extract_url_scheme_http() {
    assert_eq!(url_scheme(&uri_parts("http://example.org/hello/world")), "http");
}

#[test]
fn test_extract_url_scheme_https() {
    assert_eq!(url_scheme(&uri_parts("https://example.org/hello/world")), "https");
}

#[test]
fn test_extract_url_scheme_other() {
    assert_eq!(url_scheme(&uri_parts("foo://example.org/hello/world")), "foo");
}

#[test]
fn url_scheme_of_a_path_is_empty() {
    assert_eq!(url_scheme(&uri_parts("/hello/world")), "");
}

#[test]
fn test_extract_client_ip_from_x_forwarded_for_absent() {
    let headers = headers_with("X-Forwarded-For", "");
    assert_eq!(extract_client_ip_from_x_forwarded_for(&headers), None);
}

#[test]
fn test_extract_client_ip_from_x_forwarded_for_ipv6() {
    let headers = headers_with("X-Forwarded-For", "2001:db8:85a3:8d3:1319:8a2e:370:7348");
    assert_eq!(
        extract_client_ip_from_x_forwarded_for(&headers),
        Some("2001:db8:85a3:8d3:1319:8a2e:370:7348")
    );
}

#[test]
fn test_extract_client_ip_from_x_forwarded_for_single() {
    let headers = headers_with("X-Forwarded-For", "203.0.113.195");
    assert_eq!(extract_client_ip_from_x_forwarded_for(&headers), Some("203.0.113.195"));
}

#[test]
fn test_extract_client_ip_from_x_forwarded_for_two() {
    let headers = headers_with("X-Forwarded-For", "203.0.113.195,10.10.10.10");
    assert_eq!(extract_client_ip_from_x_forwarded_for(&headers), Some("203.0.113.195"));
}

#[test]
fn test_extract_client_ip_from_x_forwarded_for_mixed() {
    let headers =
        headers_with("X-Forwarded-For", "203.0.113.195, 2001:db8:85a3:8d3:1319:8a2e:370:7348");
    assert_eq!(extract_client_ip_from_x_forwarded_for(&headers), Some("203.0.113.195"));
}

#[test]
fn x_forwarded_for_is_trimmed_and_may_be_empty() {
    let headers = headers_with("x-forwarded-for", "  203.0.113.195\t , 10.0.0.1");
    assert_eq!(extract_client_ip_from_x_forwarded_for(&headers), Some("203.0.113.195"));
    let headers = headers_with("x-forwarded-for", ",10.0.0.1");
    assert_eq!(extract_client_ip_from_x_forwarded_for(&headers), Some(""));
}

#[test]
fn x_forwarded_for_that_is_no_text_is_ignored() {
    let mut headers = HeaderMap::new();
    headers.insert("x-forwarded-for", HeaderValue::from_bytes(&[0xe9, 0x31]).unwrap());
    assert_eq!(extract_client_ip_from_x_forwarded_for(&headers), None);
}

#[test]
fn x_forwarded_for_reads_the_first_value_only() {
    let mut headers = HeaderMap::new();
    headers.append("x-forwarded-for", "198.51.100.1".parse().unwrap());
    headers.append("x-forwarded-for", "198.51.100.2".parse().unwrap());
    assert_eq!(extract_client_ip_from_x_forwarded_for(&headers), Some("198.51.100.1"));
}

#[test]
fn test_extract_client_ip_from_forwarded_absent() {
    let headers = headers_with("Forwarded", "");
    assert_eq!(extract_client_ip_from_forwarded(&headers), None);
}

#[test]
fn test_extract_client_ip_from_forwarded_ipv6() {
    let headers = headers_with("Forwarded", "for=[\"2001:db8:85a3:8d3:1319:8a2e:370:7348\"]");
    assert_eq!(
        extract_client_ip_from_forwarded(&headers),
        Some("2001:db8:85a3:8d3:1319:8a2e:370:7348")
    );
}

#[test]
fn test_extract_client_ip_from_forwarded_single() {
    let headers = headers_with("Forwarded", "for=203.0.113.195");
    assert_eq!(extract_client_ip_from_forwarded(&headers), Some("203.0.113.195"));
}

#[test]
fn test_extract_client_ip_from_forwarded_two() {
    let headers = headers_with("Forwarded", "for=203.0.113.195, for=10.10.10.10");
    assert_eq!(extract_client_ip_from_forwarded(&headers), Some("203.0.113.195"));
}

#[test]
fn test_extract_client_ip_from_forwarded_mixed() {
    let headers = headers_with(
        "Forwarded",
        "for=203.0.113.195, for=[\"2001:db8:85a3:8d3:1319:8a2e:370:7348\"]",
    );
    assert_eq!(extract_client_ip_from_forwarded(&headers), Some("203.0.113.195"));
}

#[test]
fn test_extract_client_ip_from_forwarded_obfuscated() {
    let headers = headers_with("Forwarded", "for=\"_mdn\"");
    assert_eq!(extract_client_ip_from_forwarded(&headers), Some("_mdn"));
}

#[test]
fn test_extract_client_ip_from_forwarded_secret() {
    let headers = headers_with("Forwarded", "for=\"secret\"");
    assert_eq!(extract_client_ip_from_forwarded(&headers), Some("secret"));
}

#[test]
fn test_extract_client_ip_from_forwarded_with_other_directives() {
    let headers = headers_with("Forwarded", "for=203.0.113.195;proto=http;by=203.0.113.43");
    assert_eq!(extract_client_ip_from_forwarded(&headers), Some("203.0.113.195"));
}

#[test]
fn test_extract_client_ip_from_forwarded_without_for() {
    let headers = headers_with("Forwarded", "proto=http;by=203.0.113.43");
    assert_eq!(extract_client_ip_from_forwarded(&headers), None);
}

#[test]
fn forwarded_for_after_other_directives() {
    let headers = headers_with("forwarded", "by=203.0.113.43; proto=https ;  for=192.0.2.60 ");
    assert_eq!(extract_client_ip_from_forwarded(&headers), Some("192.0.2.60"));
}

#[test]
fn forwarded_for_is_matched_in_lower_case_only() {
    let headers = headers_with("forwarded", "For=192.0.2.60");
    assert_eq!(extract_client_ip_from_forwarded(&headers), None);
}

#[test]
fn forwarded_for_keeps_an_ipv6_port_inside_the_quotes() {
    let headers = headers_with("forwarded", "for=\"[2001:db8::1]:4711\"");
    assert_eq!(extract_client_ip_from_forwarded(&headers), Some("[2001:db8::1]:4711"));
}

#[test]
fn client_ip_prefers_forwarded() {
    let mut headers = HeaderMap::new();
    headers.insert("x-forwarded-for", "198.51.100.1".parse().unwrap());
    assert_eq!(extract_client_ip_from_headers(&headers), Some("198.51.100.1"));
    headers.insert("forwarded", "for=192.0.2.60".parse().unwrap());
    assert_eq!(extract_client_ip_from_headers(&headers), Some("192.0.2.60"));
    headers.insert("forwarded", "proto=http".parse().unwrap());
    assert_eq!(extract_client_ip_from_headers(&headers), Some("198.51.100.1"));
    assert_eq!(extract_client_ip_from_headers(&HeaderMap::new()), None);
}

#[test]
fn http_target_is_path_and_query() {
    assert_eq!(http_target(&uri_parts("http://example.org/a/b?c=d")), "/a/b?c=d");
    assert_eq!(http_target(&uri_parts("/a")), "/a");
    let none = RequestUri {
        scheme: None,
        host: Some("example.org".to_string()),
        path: String::new(),
        query: None,
        path_and_query: None,
    };
    assert_eq!(http_target(&none), "");
}

#[test]
fn http_flavor_names_each_version() {
    assert_eq!(http_flavor(HttpVersion::Http09), "0.9");
    assert_eq!(http_flavor(HttpVersion::Http10), "1.0");
    assert_eq!(http_flavor(HttpVersion::Http11), "1.1");
    assert_eq!(http_flavor(HttpVersion::H2), "2.0");
    assert_eq!(http_flavor(HttpVersion::H3), "3.0");
}

#[test]
fn user_agent_is_read_from_the_header() {
    assert_eq!(user_agent(&request("/", &[("user-agent", "tests")])), "tests");
    assert_eq!(user_agent(&request("/", &[])), "");
    let mut req = request("/", &[]);
    req.headers.insert("user-agent", HeaderValue::from_bytes(&[0xff]).unwrap());
    assert_eq!(user_agent(&req), "");
}

#[test]
fn http_host_prefers_the_header() {
    assert_eq!(http_host(&request("http://example.org/", &[("host", "example.com")])), "example.com");
    assert_eq!(http_host(&request("http://example.org/", &[])), "example.org");
    assert_eq!(http_host(&request("/", &[])), "");
    let mut req = request("http://example.org/", &[]);
    req.headers.insert("host", HeaderValue::from_bytes(&[0xff]).unwrap());
    assert_eq!(http_host(&req), "");
}
