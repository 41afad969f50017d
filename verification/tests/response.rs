use irontray::http::protocol::HttpVersion;
use irontray::http::response::{HttpResponse, HttpStatus, UnknownStatus};
use irontray::http::traits::FromU16;

const CATALOGUE: [(HttpStatus, u16, &str); 52] = [
    (HttpStatus::CONTINUE, 100, "Continue"),
    (HttpStatus::SWITCH_PROTO, 101, "Switching Protocols"),
    (HttpStatus::OK, 200, "OK"),
    (HttpStatus::CREATED, 201, "Created"),
    (HttpStatus::ACCEPTED, 202, "Accepted"),
    (HttpStatus::NON_AUTHORITATIVE_INFO, 203, "Non-Authoritative Information"),
    (HttpStatus::NO_CONTENT, 204, "No Content"),
    (HttpStatus::RESET_CONTENT, 205, "Reset Content"),
    (HttpStatus::PARTIAL_CONTENT, 206, "Partial Content"),
    (HttpStatus::MULTIPLE_CHOICES, 300, "Multiple Choices"),
    (HttpStatus::MOVED_PERMANENTLY, 301, "Moved Permanently"),
    (HttpStatus::FOUND, 302, "Found"),
    (HttpStatus::SEE_OTHER, 303, "See Other"),
    (HttpStatus::NOT_MODIFIED, 304, "Not Modified"),
    (HttpStatus::USE_PROXY, 305, "Use Proxy"),
    (HttpStatus::SWITCH_PROXY, 306, "Switch Proxy"),
    (HttpStatus::TEMP_REDIRECT, 307, "Temporary Redirect"),
    (HttpStatus::PERM_REDIRECT, 308, "Permanent Redirect"),
    (HttpStatus::BAD_REQUEST, 400, "Bad Request"),
    (HttpStatus::UNAUTHORIZED, 401, "Unauthorized"),
    (HttpStatus::PAYMENT_REQUIRED, 402, "Payment Required"),
    (HttpStatus::FORBIDDEN, 403, "Forbidden"),
    (HttpStatus::NOT_FOUND, 404, "Not Found"),
    (HttpStatus::METHOD_NOT_ALLOWED, 405, "Method Not Allowed"),
    (HttpStatus::NOT_ACCEPTABLE, 406, "Not Acceptable"),
    (HttpStatus::PROXY_AUTH_REQUIRED, 407, "Proxy Authentication Required"),
    (HttpStatus::REQUEST_TIMEOUT, 408, "Request Timeout"),
    (HttpStatus::CONFLICT, 409, "Conflict"),
    (HttpStatus::GONE, 410, "Gone"),
    (HttpStatus::LENGTH_REQUIRED, 411, "Length Required"),
    (HttpStatus::PRECONDITION_FAILED, 412, "Precondition Failed"),
    (HttpStatus::REQUEST_ENTITY_TOO_LARGE, 413, "Request Entity Too Large"),
    (HttpStatus::REQUEST_URI_TOO_LONG, 414, "Request-URI Too Long"),
    (HttpStatus::UNSUPPORTED_MEDIA_TYPE, 415, "Unsupported Media Type"),
    (HttpStatus::REQUEST_RANGE_NOT_SATISFIABLE, 416, "Requested Range Not Satisfiable"),
    (HttpStatus::EXPECTATION_FAILED, 417, "Expectation Failed"),
    (HttpStatus::IM_A_TEAPOT, 418, "I'm a teapot"),
    (HttpStatus::AUTH_TIMEOUT, 419, "Authentication Timeout"),
    (HttpStatus::MISDIRECTED_REQUEST, 421, "Misdirected Request"),
    (HttpStatus::UPGRADE_REQUIRED, 426, "Upgrade Required"),
    (HttpStatus::PRECONDITION_REQUIRED, 428, "Precondition Required"),
    (HttpStatus::TOO_MANY_REQUESTS, 429, "Too Many Requests"),
    (HttpStatus::REQUEST_HEADER_FIELDS_TOO_LARGE, 431, "Request Header Fields Too Large"),
    (HttpStatus::INTERNAL_SERVER_ERROR, 500, "Internal Server Error"),
    (HttpStatus::NOT_IMPLEMENTED, 501, "Not Implemented"),
    (HttpStatus::BAD_GATEWAY, 502, "Bad Gateway"),
    (HttpStatus::SERVICE_UNAVAILABLE, 503, "Service Unavailable"),
    (HttpStatus::GATEWAY_TIMEOUT, 504, "Gateway Timeout"),
    (HttpStatus::HTTP_VERSION_NOT_SUPPORTED, 505, "HTTP Version Not Supported"),
    (HttpStatus::VARIANT_ALSO_NEGOCIATES, 506, "Variant Also Negotiates"),
    (HttpStatus::NOT_EXTENDED, 510, "Not Extended"),
    (HttpStatus::NETWORK_AUTH_REQUIRED, 511, "Network Authentication Required"),
];

#[test]
fn catalogue_has_the_canonical_codes_and_phrases() {
    for (status, code, phrase) in CATALOGUE {
        assert_eq!(status.code(), code);
        assert_eq!(status.reason_phrase(), phrase);
        assert_eq!(status.to_string(), format!("{} {}", code, phrase));
    }
}

#[test]
fn every_status_is_found_by_its_code_and_by_its_text() {
    for (status, code, phrase) in CATALOGUE {
        assert_eq!(HttpStatus::from_u16(code), Ok(status));
        assert_eq!(HttpStatus::from_u16(status.code()), Ok(status));
        assert_eq!(HttpStatus::from_str(&status.to_string()), Ok(status));
        assert_eq!(HttpStatus::from_str(&format!("{} {}", code, phrase)), Ok(status));
    }
}

#[test]
fn every_code_outside_the_catalogue_is_unknown() {
    let known: Vec<u16> = CATALOGUE.iter().map(|entry| entry.1).collect();
    let mut found = 0;
    for code in 0..=u16::MAX {
        match HttpStatus::from_u16(code) {
            Ok(status) => {
                assert!(known.contains(&code));
                assert_eq!(status.code(), code);
                found += 1;
            }
            Err(e) => {
                assert!(!known.contains(&code));
                assert_eq!(e, UnknownStatus);
            }
        }
    }
    assert_eq!(found, 52);
}

#[test]
fn no_two_statuses_share_a_code_or_a_phrase() {
    for (i, a) in CATALOGUE.iter().enumerate() {
        for b in &CATALOGUE[i + 1..] {
            assert_ne!(a.0, b.0);
            assert_ne!(a.0.code(), b.0.code());
            assert_ne!(a.0.reason_phrase(), b.0.reason_phrase());
            assert_ne!(a.0.to_string(), b.0.to_string());
        }
    }
}

#[test]
fn partial_content_has_its_own_phrase() {
    assert_eq!(HttpStatus::PARTIAL_CONTENT.to_string(), "206 Partial Content");
    assert_eq!(HttpStatus::from_str("206 Partial Content"), Ok(HttpStatus::PARTIAL_CONTENT));
    assert_eq!(HttpStatus::from_str("206 Reset Content"), Err(UnknownStatus));
    assert_eq!(HttpStatus::from_str("205 Reset Content"), Ok(HttpStatus::RESET_CONTENT));
}

#[test]
fn texts_outside_the_catalogue_are_unknown() {
    for text in [
        "",
        "200",
        "200 ",
        "200 ok",
        "200 OK ",
        " 200 OK",
        "200  OK",
        "+20 OK",
        "0200 OK",
        "299 OK",
        "OK",
        "200 Not Found",
        "506 Variant Also Negociates",
        "\u{663}\u{660}\u{660} OK",
    ] {
        assert_eq!(HttpStatus::from_str(text), Err(UnknownStatus), "{:?}", text);
    }
}

#[test]
fn response_is_serialised_exactly() {
    let response = HttpResponse::new(
        HttpVersion::HTTP1dot1,
        HttpStatus::OK,
        "text/html".to_string(),
        "<h1>hi</h1>".to_string(),
    );
    assert_eq!(
        response.to_string(),
        "HTTP/1.1 200 OK\r\nContent-Type: text/html\r\nContent-Length: 11\r\n\r\n<h1>hi</h1>"
    );
}

#[test]
fn content_length_counts_bytes() {
    let response = HttpResponse::new(
        HttpVersion::HTTP1dot0,
        HttpStatus::NOT_FOUND,
        "text/plain".to_string(),
        "caf\u{e9} \u{1f980}".to_string(),
    );
    assert_eq!(response.length(), 10);
    assert_eq!(response.to_bytes(), response.to_string().into_bytes());
    assert_eq!(response.to_bytes().len(), 72 + 10);
    assert_eq!(
        response.to_string(),
        "HTTP/1.0 404 Not Found\r\nContent-Type: text/plain\r\nContent-Length: 10\r\n\r\ncaf\u{e9} \u{1f980}"
    );
}

#[test]
fn empty_content_has_length_zero() {
    let response = HttpResponse::new(
        HttpVersion::HTTP2,
        HttpStatus::NO_CONTENT,
        "text/html".to_string(),
        String::new(),
    );
    assert_eq!(response.length(), 0);
    assert_eq!(
        response.to_string(),
        "HTTP/2 204 No Content\r\nContent-Type: text/html\r\nContent-Length: 0\r\n\r\n"
    );
}

#[test]
fn long_content_has_a_length_of_several_digits() {
    let content = "x".repeat(12345);
    let response = HttpResponse::success_with_content(content.clone());
    assert_eq!(response.length(), 12345);
    assert_eq!(
        response.to_string(),
        format!("HTTP/1.1 200 OK\r\nContent-Type: text/html\r\nContent-Length: 12345\r\n\r\n{}", content)
    );
}

#[test]
fn quick_responses_have_their_status() {
    let ok = HttpResponse::success_with_content("a".to_string());
    assert_eq!(ok.status(), HttpStatus::OK);
    assert_eq!(ok.http_version(), HttpVersion::HTTP1dot1);
    assert_eq!(ok.content_type(), "text/html");
    assert_eq!(ok.content(), "a");
    let bad = HttpResponse::quick_bad_request("b".to_string());
    assert_eq!(bad.status(), HttpStatus::BAD_REQUEST);
    assert_eq!(bad.content(), "b");
    let missing = HttpResponse::quick_not_found("c".to_string());
    assert_eq!(missing.status(), HttpStatus::NOT_FOUND);
    assert_eq!(missing.content(), "c");
    let failed = HttpResponse::quick_server_error("d".to_string());
    assert_eq!(failed.status(), HttpStatus::INTERNAL_SERVER_ERROR);
    assert_eq!(failed.content(), "d");
    assert_eq!(
        failed.to_string(),
        "HTTP/1.1 500 Internal Server Error\r\nContent-Type: text/html\r\nContent-Length: 1\r\n\r\nd"
    );
}
