use axum::http::{HeaderMap, HeaderValue};
use server_fn::context::{parse_cookies, resolve_client_ip, IpAddress, RequestContext};

fn headers(pairs: &[(&'static str, &'static str)]) -> HeaderMap {
    let mut map = HeaderMap::new();
    for (name, value) in pairs {
        map.append(*name, HeaderValue::from_static(value));
    }
    map
}

// the addresses these tests use, read the way an address parser would
fn address(text: &str) -> Option<IpAddress> {
    if text == "2001:db8::1" {
        return Some(IpAddress::V6([0x2001, 0xdb8, 0, 0, 0, 0, 0, 1]));
    }
    let parts: Vec<&str> = text.split('.').collect();
    if parts.len() != 4 {
        return None;
    }
    let mut octets = [0u8; 4];
    for (i, part) in parts.iter().enumerate() {
        match part.parse::<u8>() {
            Ok(octet) => octets[i] = octet,
            Err(_) => return None,
        }
    }
    Some(IpAddress::V4(octets))
}

fn resolve(context: &RequestContext) -> Option<IpAddress> {
    let parsed: Vec<Option<IpAddress>> =
        context.client_ip_candidates().iter().map(|text| address(text)).collect();
    context.client_ip(&parsed)
}

#[test]
fn client_ip_is_first_forwarded_address() {
    let context = RequestContext::from_parts(
        headers(&[("X-Forwarded-For", "10.0.0.5, 10.0.0.1")]),
        address("192.168.1.1"),
        "/api/whoami".to_string(),
        None,
    );
    assert_eq!(context.client_ip_candidates(), vec!["10.0.0.5", "10.0.0.1"]);
    assert_eq!(resolve(&context), Some(IpAddress::V4([10, 0, 0, 5])));
    assert_eq!(context.connection_ip(), Some(IpAddress::V4([192, 168, 1, 1])));
}

#[test]
fn client_ip_is_peer_without_forwarding_headers() {
    let context = RequestContext::from_parts(
        HeaderMap::new(),
        address("192.168.1.1"),
        "/".to_string(),
        None,
    );
    assert!(context.client_ip_candidates().is_empty());
    assert_eq!(resolve(&context), Some(IpAddress::V4([192, 168, 1, 1])));
}

#[test]
fn client_ip_skips_what_is_no_address() {
    let context = RequestContext::from_parts(
        headers(&[("x-forwarded-for", "unknown, 2001:db8::1"), ("x-real-ip", " 10.9.9.9 ")]),
        None,
        "/".to_string(),
        None,
    );
    assert_eq!(context.client_ip_candidates(), vec!["unknown", "2001:db8::1", "10.9.9.9"]);
    assert_eq!(resolve(&context), Some(IpAddress::V6([0x2001, 0xdb8, 0, 0, 0, 0, 0, 1])));
}

#[test]
fn client_ip_falls_back_to_real_ip_then_peer() {
    let context = RequestContext::from_parts(
        headers(&[("x-forwarded-for", "garbage"), ("x-real-ip", "10.1.2.3")]),
        address("127.0.0.1"),
        "/".to_string(),
        None,
    );
    assert_eq!(resolve(&context), Some(IpAddress::V4([10, 1, 2, 3])));
    let context = RequestContext::from_parts(
        headers(&[("x-forwarded-for", "garbage"), ("x-real-ip", "more garbage")]),
        address("127.0.0.1"),
        "/".to_string(),
        None,
    );
    assert_eq!(resolve(&context), Some(IpAddress::V4([127, 0, 0, 1])));
    let context = RequestContext::from_parts(
        headers(&[("x-forwarded-for", "garbage")]),
        None,
        "/".to_string(),
        None,
    );
    assert_eq!(resolve(&context), None);
}

#[test]
fn resolve_takes_first_address() {
    let a = IpAddress::V4([1, 1, 1, 1]);
    let b = IpAddress::V4([2, 2, 2, 2]);
    let peer = IpAddress::V4([9, 9, 9, 9]);
    assert_eq!(resolve_client_ip(&vec![None, Some(a), Some(b)], Some(peer)), Some(a));
    assert_eq!(resolve_client_ip(&vec![None, None], Some(peer)), Some(peer));
    assert_eq!(resolve_client_ip(&vec![], None), None);
}

#[test]
fn header_lookup_ignores_case() {
    let context = RequestContext::from_parts(
        headers(&[("User-Agent", "tester/1.0")]),
        None,
        "/".to_string(),
        None,
    );
    assert_eq!(context.header("user-agent"), Some("tester/1.0"));
    assert_eq!(context.header("USER-AGENT"), Some("tester/1.0"));
    assert_eq!(context.header("User-Agent"), Some("tester/1.0"));
    assert_eq!(context.header("accept"), None);
    assert_eq!(context.header("not a header name"), None);
    assert_eq!(context.headers().len(), 1);
}

#[test]
fn header_that_is_not_text_is_not_given() {
    let mut map = HeaderMap::new();
    map.insert("x-blob", HeaderValue::from_bytes(&[0xff, 0xfe]).unwrap());
    let context = RequestContext::from_parts(map, None, "/".to_string(), None);
    assert_eq!(context.header("x-blob"), None);
}

#[test]
fn first_value_of_a_repeated_header_counts() {
    let context = RequestContext::from_parts(
        headers(&[("x-tag", "one"), ("x-tag", "two")]),
        None,
        "/".to_string(),
        None,
    );
    assert_eq!(context.header("x-tag"), Some("one"));
}

#[test]
fn cookies_are_read_from_the_header() {
    let context = RequestContext::from_parts(
        headers(&[("Cookie", "session=abc123; theme=dark ;flag; a=b=c; =x; empty=")]),
        None,
        "/".to_string(),
        None,
    );
    assert_eq!(context.cookie("session"), Some("abc123"));
    assert_eq!(context.cookie("theme"), Some("dark"));
    assert_eq!(context.cookie("flag"), None);
    assert_eq!(context.cookie("a"), Some("b=c"));
    assert_eq!(context.cookie(""), Some("x"));
    assert_eq!(context.cookie("empty"), Some(""));
    assert_eq!(context.cookie("missing"), None);
    assert_eq!(context.cookies().len(), 5);
}

#[test]
fn last_cookie_of_a_name_counts() {
    let context = RequestContext::from_parts(
        headers(&[("cookie", "id=1; id=2")]),
        None,
        "/".to_string(),
        None,
    );
    assert_eq!(context.cookie("id"), Some("2"));
}

#[test]
fn parse_cookies_keeps_order() {
    let pairs = parse_cookies(" a=1;b = 2 ;; c ");
    assert_eq!(
        pairs,
        vec![("a".to_string(), "1".to_string()), ("b ".to_string(), " 2".to_string())]
    );
    assert!(parse_cookies("").is_empty());
}

#[test]
fn empty_context_has_nothing() {
    let context = RequestContext::new();
    assert_eq!(context.header("cookie"), None);
    assert!(context.cookies().is_empty());
    assert_eq!(context.connection_ip(), None);
    assert_eq!(context.client_ip(&vec![]), None);
    assert_eq!(context.path(), "");
    assert_eq!(context.query(), None);
    assert!(!context.is_secure());
    assert_eq!(context.authorization(), None);
    assert_eq!(context.bearer_token(), None);
}

#[test]
fn path_and_query_are_kept() {
    let context = RequestContext::from_parts(
        HeaderMap::new(),
        None,
        "/api/greet".to_string(),
        Some("name=World".to_string()),
    );
    assert_eq!(context.path(), "/api/greet");
    assert_eq!(context.query(), Some("name=World"));
}

#[test]
fn secure_follows_forwarded_proto() {
    let secure = |value: &'static str| {
        RequestContext::from_parts(
            headers(&[("x-forwarded-proto", value)]),
            None,
            "/".to_string(),
            None,
        )
        .is_secure()
    };
    assert!(secure("https"));
    assert!(secure("HTTPS"));
    assert!(secure("HttpS"));
    assert!(!secure("http"));
    assert!(!secure("https "));
    assert!(!secure(""));
}

#[test]
fn bearer_token_follows_the_prefix() {
    let token = |value: &'static str| {
        RequestContext::from_parts(
            headers(&[("Authorization", value)]),
            None,
            "/".to_string(),
            None,
        )
        .bearer_token()
    };
    assert_eq!(token("Bearer abc.def"), Some("abc.def".to_string()));
    assert_eq!(token("Bearer "), Some("".to_string()));
    assert_eq!(token("bearer abc"), None);
    assert_eq!(token("Basic dXNlcg=="), None);
    assert_eq!(token("Bearer"), None);
    let context = RequestContext::from_parts(
        headers(&[("authorization", "Basic dXNlcg==")]),
        None,
        "/".to_string(),
        None,
    );
    assert_eq!(context.authorization(), Some("Basic dXNlcg=="));
}

#[test]
fn a_copy_of_a_context_holds_the_same() {
    let context = RequestContext::from_parts(
        headers(&[("Cookie", "a=1; b=2"), ("X-Forwarded-For", "10.0.0.5"), ("User-Agent", "t")]),
        address("192.168.1.1"),
        "/api/x".to_string(),
        Some("q=1".to_string()),
    );
    let copy = context.clone();
    drop(context);
    assert_eq!(copy.header("user-agent"), Some("t"));
    assert_eq!(copy.headers().len(), 3);
    assert_eq!(copy.cookie("a"), Some("1"));
    assert_eq!(copy.cookie("b"), Some("2"));
    assert_eq!(copy.cookies().len(), 2);
    assert_eq!(copy.client_ip_candidates(), vec!["10.0.0.5"]);
    assert_eq!(copy.connection_ip(), Some(IpAddress::V4([192, 168, 1, 1])));
    assert_eq!(copy.path(), "/api/x");
    assert_eq!(copy.query(), Some("q=1"));
}

#[test]
fn header_names_of_any_length_are_found_in_any_case() {
    let long = "x-a-header-name-that-is-longer-than-sixty-four-characters-all-in-all-yes";
    assert!(long.len() > 64);
    let mut map = HeaderMap::new();
    map.insert(
        axum::http::HeaderName::from_bytes(long.as_bytes()).unwrap(),
        HeaderValue::from_static("long"),
    );
    let context = RequestContext::from_parts(map, None, "/".to_string(), None);
    assert_eq!(context.header(long), Some("long"));
    assert_eq!(context.header(&long.to_uppercase()), Some("long"));
    assert_eq!(context.header(&long[1..]), None);
    assert_eq!(context.header(""), None);
    assert_eq!(context.header("caf\u{e9}"), None);
}

#[test]
fn header_text_may_hold_tabs_and_spaces() {
    let context = RequestContext::from_parts(
        headers(&[("x-note", "a\tb c")]),
        None,
        "/".to_string(),
        None,
    );
    assert_eq!(context.header("X-Note"), Some("a\tb c"));
}
