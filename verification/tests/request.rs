use irontray::http::protocol::{HttpVersion, ParseError};
use irontray::http::request::{HttpHeader, HttpMethod, HttpRequest};
use irontray::http::traits::FromString;

fn parse(text: &str) -> Result<HttpRequest, ParseError> {
    HttpRequest::from_string(text.to_string())
}

#[test]
fn from_string_works() {
    let request = "GET /blob HTTP/1.1\r\nHost: john.com\r\nUser-Agent: rust-test";
    let req = HttpRequest::from_string(request.to_string());
    match req {
        Ok(v) => {
            assert!(v.method == HttpMethod::GET);
            assert!(v.path == "/blob".to_string());
            assert!(v.http_version == HttpVersion::HTTP1dot1);
            assert!(v.host == "john.com".to_string());
            assert!(v.user_agent == "rust-test".to_string());
        }
        Err(e) => {
            panic!("{:?}", e);
        }
    }
}

#[test]
fn request_line_round_trips_for_every_method_and_version() {
    let methods = [
        ("OPTIONS", HttpMethod::OPTIONS),
        ("GET", HttpMethod::GET),
        ("HEAD", HttpMethod::HEAD),
        ("POST", HttpMethod::POST),
        ("PUT", HttpMethod::PUT),
        ("DELETE", HttpMethod::DELETE),
        ("TRACE", HttpMethod::TRACE),
        ("CONNECT", HttpMethod::CONNECT),
    ];
    let versions = [
        ("HTTP/1.0", HttpVersion::HTTP1dot0),
        ("HTTP/1.1", HttpVersion::HTTP1dot1),
        ("HTTP/2.0", HttpVersion::HTTP2),
        ("HTTP/2", HttpVersion::HTTP2),
    ];
    for (method_text, method) in methods {
        for (version_text, version) in versions {
            let line = format!("{} /a/b.html {}", method_text, version_text);
            let req = parse(&line).unwrap_or_else(|e| panic!("{}: {:?}", line, e));
            assert_eq!(req.method, method);
            assert_eq!(req.path, "/a/b.html");
            assert_eq!(req.http_version, version);
            assert_eq!(req.host, "");
            assert_eq!(req.user_agent, "");
            assert_eq!(req.length, 0);
            assert_eq!(method.to_string(), method_text);
        }
    }
}

#[test]
fn version_text_is_read_back() {
    for version in [HttpVersion::HTTP1dot0, HttpVersion::HTTP1dot1, HttpVersion::HTTP2] {
        assert_eq!(HttpVersion::from_str(&version.to_string()), Ok(version));
    }
    assert_eq!(HttpVersion::HTTP1dot0.to_string(), "HTTP/1.0");
    assert_eq!(HttpVersion::HTTP1dot1.to_string(), "HTTP/1.1");
    assert_eq!(HttpVersion::HTTP2.to_string(), "HTTP/2");
}

#[test]
fn request_line_needs_exactly_three_tokens() {
    for text in ["", "GET", "GET /", "GET / HTTP/1.1 extra", "GET  / HTTP/1.1", "\r\nGET / HTTP/1.1"] {
        assert_eq!(parse(text).err(), Some(ParseError::MalformedRequestLine), "{:?}", text);
    }
}

#[test]
fn empty_path_is_a_token() {
    let req = parse("GET  HTTP/1.1").unwrap();
    assert_eq!(req.path, "");
}

#[test]
fn unknown_method_is_an_error() {
    assert_eq!(parse("FETCH / HTTP/1.1").err(), Some(ParseError::UnsupportedMethod));
    assert_eq!(parse("get / HTTP/1.1").err(), Some(ParseError::UnsupportedMethod));
    assert_eq!(HttpMethod::from_str("Get"), Err(ParseError::UnsupportedMethod));
}

#[test]
fn unknown_version_is_an_error() {
    assert_eq!(parse("GET / HTTP/3").err(), Some(ParseError::UnsupportedVersion));
    assert_eq!(parse("GET / http/1.1").err(), Some(ParseError::UnsupportedVersion));
    assert_eq!(HttpVersion::from_str("HTTP2"), Err(ParseError::UnsupportedVersion));
}

#[test]
fn method_error_comes_before_version_error() {
    assert_eq!(parse("FETCH / HTTP/3").err(), Some(ParseError::UnsupportedMethod));
}

#[test]
fn content_length_is_read() {
    let req = parse("POST /x HTTP/1.0\r\nContent-Length: 42\r\n\r\n").unwrap();
    assert_eq!(req.length, 42);
    assert!(req.method == HttpMethod::POST);
    assert!(req.http_version == HttpVersion::HTTP1dot0);
}

#[test]
fn content_length_must_be_a_number() {
    for value in ["abc", "", " 42", "42 ", "-1", "4_2", "+", "0x10", "99999999999999999999999999"] {
        let text = format!("GET / HTTP/1.1\r\nContent-Length: {}", value);
        assert_eq!(parse(&text).err(), Some(ParseError::MalformedContentLength), "{:?}", value);
    }
}

#[test]
fn content_length_takes_a_sign_and_leading_zeros() {
    assert_eq!(parse("GET / HTTP/1.1\r\nContent-Length: +7").unwrap().length, 7);
    assert_eq!(parse("GET / HTTP/1.1\r\nContent-Length: 007").unwrap().length, 7);
    assert_eq!(parse("GET / HTTP/1.1\r\nContent-Length: 0").unwrap().length, 0);
    let max = format!("GET / HTTP/1.1\r\nContent-Length: {}", usize::MAX);
    assert_eq!(parse(&max).unwrap().length, usize::MAX);
}

#[test]
fn a_malformed_content_length_is_fatal_wherever_it_stands() {
    let text = "GET / HTTP/1.1\r\nContent-Length: x\r\nContent-Length: 3";
    assert_eq!(parse(text).err(), Some(ParseError::MalformedContentLength));
    let text = "GET / HTTP/1.1\r\nContent-Length: 3\r\nContent-Length: x";
    assert_eq!(parse(text).err(), Some(ParseError::MalformedContentLength));
}

#[test]
fn request_line_errors_come_before_header_errors() {
    assert_eq!(
        parse("GET /\r\nContent-Length: x").err(),
        Some(ParseError::MalformedRequestLine)
    );
}

#[test]
fn later_headers_win() {
    let req = parse("GET / HTTP/1.1\r\nHost: a\r\nHost: b\r\nContent-Length: 1\r\nContent-Length: 2")
        .unwrap();
    assert_eq!(req.host, "b");
    assert_eq!(req.length, 2);
}

#[test]
fn lines_without_separator_are_ignored() {
    let with = parse("GET / HTTP/1.1\r\nnot a header\r\nHost: a\r\nHost:b\r\n\r\n").unwrap();
    let without = parse("GET / HTTP/1.1\r\nHost: a").unwrap();
    assert_eq!(with.method, without.method);
    assert_eq!(with.path, without.path);
    assert_eq!(with.http_version, without.http_version);
    assert_eq!(with.host, without.host);
    assert_eq!(with.user_agent, without.user_agent);
    assert_eq!(with.length, without.length);
}

#[test]
fn header_names_are_case_sensitive() {
    let req = parse("GET / HTTP/1.1\r\nhost: a\r\nUSER-AGENT: b\r\ncontent-length: x").unwrap();
    assert_eq!(req.host, "");
    assert_eq!(req.user_agent, "");
    assert_eq!(req.length, 0);
}

#[test]
fn other_headers_are_ignored() {
    let req = parse("GET / HTTP/1.1\r\nAccept: */*\r\nUser-Agent: u").unwrap();
    assert_eq!(req.user_agent, "u");
    assert_eq!(req.host, "");
}

#[test]
fn a_bare_line_feed_ends_no_line() {
    let req = parse("GET / HTTP/1.1\nHost:a");
    assert_eq!(req.err(), Some(ParseError::UnsupportedVersion));
    let req = parse("GET / HTTP/1.1\nHost: a");
    assert_eq!(req.err(), Some(ParseError::MalformedRequestLine));
}

#[test]
fn header_splits_at_first_separator() {
    let header = HttpHeader::from_str("Host: a: b").unwrap();
    assert_eq!(header.name, "Host");
    assert_eq!(header.value, "a: b");
    let header = HttpHeader::from_str(": ").unwrap();
    assert_eq!(header.name, "");
    assert_eq!(header.value, "");
    assert!(HttpHeader::from_str("no separator").is_err());
    assert!(HttpHeader::from_str("Host:a").is_err());
    assert!(HttpHeader::from_str("").is_err());
}

#[test]
fn header_text_may_be_any_unicode() {
    let req = parse("GET /caf\u{e9} HTTP/1.1\r\nHost: \u{4f8b}.jp\r\nUser-Agent: \u{1f980}").unwrap();
    assert_eq!(req.path, "/caf\u{e9}");
    assert_eq!(req.host, "\u{4f8b}.jp");
    assert_eq!(req.user_agent, "\u{1f980}");
}

#[test]
fn request_to_string_gives_line_and_two_headers() {
    let req = parse("GET /blob HTTP/2.0\r\nUser-Agent: rust-test\r\nHost: john.com").unwrap();
    assert_eq!(
        req.to_string(),
        "GET /blob HTTP/2\r\nHost: john.com\r\nUser-Agent: rust-test"
    );
}

#[test]
fn what_to_string_writes_is_read_back() {
    let text = "DELETE /a HTTP/2\r\nHost: h: 1\r\nUser-Agent: ";
    let req = parse(text).unwrap();
    assert_eq!(req.to_string(), text);
    let again = parse(&req.to_string()).unwrap();
    assert_eq!(again.method, HttpMethod::DELETE);
    assert_eq!(again.path, "/a");
    assert_eq!(again.http_version, HttpVersion::HTTP2);
    assert_eq!(again.host, "h: 1");
    assert_eq!(again.user_agent, "");
    assert_eq!(again.length, 0);
}
