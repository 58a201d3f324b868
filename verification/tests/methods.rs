use http_bridge::{parse_method, HttpMethod, ProxyError};

const ALL: [HttpMethod; 10] = [
    HttpMethod::Options,
    HttpMethod::Get,
    HttpMethod::Post,
    HttpMethod::Put,
    HttpMethod::Delete,
    HttpMethod::Head,
    HttpMethod::Trace,
    HttpMethod::Connect,
    HttpMethod::Patch,
    HttpMethod::Query,
];

#[test]
fn every_named_method_parses() {
    assert_eq!(parse_method("OPTIONS"), Ok(HttpMethod::Options));
    assert_eq!(parse_method("GET"), Ok(HttpMethod::Get));
    assert_eq!(parse_method("POST"), Ok(HttpMethod::Post));
    assert_eq!(parse_method("PUT"), Ok(HttpMethod::Put));
    assert_eq!(parse_method("DELETE"), Ok(HttpMethod::Delete));
    assert_eq!(parse_method("HEAD"), Ok(HttpMethod::Head));
    assert_eq!(parse_method("TRACE"), Ok(HttpMethod::Trace));
    assert_eq!(parse_method("CONNECT"), Ok(HttpMethod::Connect));
    assert_eq!(parse_method("PATCH"), Ok(HttpMethod::Patch));
    assert_eq!(parse_method("QUERY"), Ok(HttpMethod::Query));
}

#[test]
fn a_method_parses_back_from_its_own_token() {
    for method in ALL {
        assert_eq!(parse_method(method.as_str()), Ok(method));
    }
}

#[test]
fn tokens_are_written_as_http_writes_them() {
    assert_eq!(HttpMethod::Options.as_str(), "OPTIONS");
    assert_eq!(HttpMethod::Get.as_str(), "GET");
    assert_eq!(HttpMethod::Post.as_str(), "POST");
    assert_eq!(HttpMethod::Put.as_str(), "PUT");
    assert_eq!(HttpMethod::Delete.as_str(), "DELETE");
    assert_eq!(HttpMethod::Head.as_str(), "HEAD");
    assert_eq!(HttpMethod::Trace.as_str(), "TRACE");
    assert_eq!(HttpMethod::Connect.as_str(), "CONNECT");
    assert_eq!(HttpMethod::Patch.as_str(), "PATCH");
    assert_eq!(HttpMethod::Query.as_str(), "QUERY");
}

#[test]
fn tokens_agree_with_the_http_library() {
    assert_eq!(HttpMethod::Options.as_str(), reqwest::Method::OPTIONS.as_str());
    assert_eq!(HttpMethod::Get.as_str(), reqwest::Method::GET.as_str());
    assert_eq!(HttpMethod::Post.as_str(), reqwest::Method::POST.as_str());
    assert_eq!(HttpMethod::Put.as_str(), reqwest::Method::PUT.as_str());
    assert_eq!(HttpMethod::Delete.as_str(), reqwest::Method::DELETE.as_str());
    assert_eq!(HttpMethod::Head.as_str(), reqwest::Method::HEAD.as_str());
    assert_eq!(HttpMethod::Trace.as_str(), reqwest::Method::TRACE.as_str());
    assert_eq!(HttpMethod::Connect.as_str(), reqwest::Method::CONNECT.as_str());
    assert_eq!(HttpMethod::Patch.as_str(), reqwest::Method::PATCH.as_str());
    assert_eq!(HttpMethod::Query.as_str(), reqwest::Method::QUERY.as_str());
}

#[test]
fn no_two_methods_share_a_token() {
    for (i, a) in ALL.iter().enumerate() {
        for (j, b) in ALL.iter().enumerate() {
            assert_eq!(a.as_str() == b.as_str(), i == j);
        }
    }
}

#[test]
fn an_unknown_token_is_rejected() {
    assert_eq!(parse_method("FOOBAR"), Err(ProxyError::InvalidMethod));
}

#[test]
fn a_token_the_http_library_would_take_as_an_extension_is_rejected() {
    assert!(reqwest::Method::from_bytes(b"FOOBAR").is_ok());
    assert!(reqwest::Method::from_bytes(b"PROPFIND").is_ok());
    assert_eq!(parse_method("PROPFIND"), Err(ProxyError::InvalidMethod));
    assert_eq!(parse_method("A-VERY-LONG-EXTENSION-METHOD"), Err(ProxyError::InvalidMethod));
}

#[test]
fn tokens_are_case_sensitive() {
    assert_eq!(parse_method("get"), Err(ProxyError::InvalidMethod));
    assert_eq!(parse_method("Get"), Err(ProxyError::InvalidMethod));
    assert_eq!(parse_method("pOST"), Err(ProxyError::InvalidMethod));
}

#[test]
fn the_empty_token_is_rejected() {
    assert_eq!(parse_method(""), Err(ProxyError::InvalidMethod));
}

#[test]
fn a_token_with_anything_around_a_name_is_rejected() {
    assert_eq!(parse_method(" GET"), Err(ProxyError::InvalidMethod));
    assert_eq!(parse_method("GET "), Err(ProxyError::InvalidMethod));
    assert_eq!(parse_method("GET\n"), Err(ProxyError::InvalidMethod));
    assert_eq!(parse_method("GETS"), Err(ProxyError::InvalidMethod));
    assert_eq!(parse_method("GE"), Err(ProxyError::InvalidMethod));
    assert_eq!(parse_method("G\u{c9}T"), Err(ProxyError::InvalidMethod));
    assert_eq!(parse_method("GET\0"), Err(ProxyError::InvalidMethod));
}
