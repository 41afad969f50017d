//! Responses: the catalogue of status codes and the serialiser.

use crate::http::protocol::HttpVersion;
use crate::http::traits::FromU16;
use crate::text::{
    chars_of, decimal_text, decimal_usize, lemma_decimal_round_trip, parse_usize, push_decimal,
    str_equals,
};
use vstd::prelude::*;
use vstd::utf8::encode_utf8;

verus! {

/// The statuses that the server knows. Each has one numeric code and one
/// reason phrase, and no two share a code.
#[allow(non_camel_case_types)]
#[derive(Clone, Copy, Debug, PartialEq, Eq, Structural)]
pub enum HttpStatus {
    CONTINUE,
    SWITCH_PROTO,
    OK,
    CREATED,
    ACCEPTED,
    NON_AUTHORITATIVE_INFO,
    NO_CONTENT,
    RESET_CONTENT,
    PARTIAL_CONTENT,
    MULTIPLE_CHOICES,
    MOVED_PERMANENTLY,
    FOUND,
    SEE_OTHER,
    NOT_MODIFIED,
    USE_PROXY,
    SWITCH_PROXY,
    TEMP_REDIRECT,
    PERM_REDIRECT,
    BAD_REQUEST,
    UNAUTHORIZED,
    PAYMENT_REQUIRED,
    FORBIDDEN,
    NOT_FOUND,
    METHOD_NOT_ALLOWED,
    NOT_ACCEPTABLE,
    PROXY_AUTH_REQUIRED,
    REQUEST_TIMEOUT,
    CONFLICT,
    GONE,
    LENGTH_REQUIRED,
    PRECONDITION_FAILED,
    REQUEST_ENTITY_TOO_LARGE,
    REQUEST_URI_TOO_LONG,
    UNSUPPORTED_MEDIA_TYPE,
    REQUEST_RANGE_NOT_SATISFIABLE,
    EXPECTATION_FAILED,
    IM_A_TEAPOT,
    AUTH_TIMEOUT,
    MISDIRECTED_REQUEST,
    UPGRADE_REQUIRED,
    PRECONDITION_REQUIRED,
    TOO_MANY_REQUESTS,
    REQUEST_HEADER_FIELDS_TOO_LARGE,
    INTERNAL_SERVER_ERROR,
    NOT_IMPLEMENTED,
    BAD_GATEWAY,
    SERVICE_UNAVAILABLE,
    GATEWAY_TIMEOUT,
    HTTP_VERSION_NOT_SUPPORTED,
    VARIANT_ALSO_NEGOCIATES,
    NOT_EXTENDED,
    NETWORK_AUTH_REQUIRED,
}

/// The failure of a lookup in the catalogue: no status has that code or
/// that text.
#[derive(Clone, Copy, Debug, PartialEq, Eq, Structural)]
pub struct UnknownStatus;

impl HttpStatus {
    /// The numeric code of this status.
    pub open spec fn spec_code(&self) -> u16 {
        match self {
            HttpStatus::CONTINUE => 100,
            HttpStatus::SWITCH_PROTO => 101,
            HttpStatus::OK => 200,
            HttpStatus::CREATED => 201,
            HttpStatus::ACCEPTED => 202,
            HttpStatus::NON_AUTHORITATIVE_INFO => 203,
            HttpStatus::NO_CONTENT => 204,
            HttpStatus::RESET_CONTENT => 205,
            HttpStatus::PARTIAL_CONTENT => 206,
            HttpStatus::MULTIPLE_CHOICES => 300,
            HttpStatus::MOVED_PERMANENTLY => 301,
            HttpStatus::FOUND => 302,
            HttpStatus::SEE_OTHER => 303,
            HttpStatus::NOT_MODIFIED => 304,
            HttpStatus::USE_PROXY => 305,
            HttpStatus::SWITCH_PROXY => 306,
            HttpStatus::TEMP_REDIRECT => 307,
            HttpStatus::PERM_REDIRECT => 308,
            HttpStatus::BAD_REQUEST => 400,
            HttpStatus::UNAUTHORIZED => 401,
            HttpStatus::PAYMENT_REQUIRED => 402,
            HttpStatus::FORBIDDEN => 403,
            HttpStatus::NOT_FOUND => 404,
            HttpStatus::METHOD_NOT_ALLOWED => 405,
            HttpStatus::NOT_ACCEPTABLE => 406,
            HttpStatus::PROXY_AUTH_REQUIRED => 407,
            HttpStatus::REQUEST_TIMEOUT => 408,
            HttpStatus::CONFLICT => 409,
            HttpStatus::GONE => 410,
            HttpStatus::LENGTH_REQUIRED => 411,
            HttpStatus::PRECONDITION_FAILED => 412,
            HttpStatus::REQUEST_ENTITY_TOO_LARGE => 413,
            HttpStatus::REQUEST_URI_TOO_LONG => 414,
            HttpStatus::UNSUPPORTED_MEDIA_TYPE => 415,
            HttpStatus::REQUEST_RANGE_NOT_SATISFIABLE => 416,
            HttpStatus::EXPECTATION_FAILED => 417,
            HttpStatus::IM_A_TEAPOT => 418,
            HttpStatus::AUTH_TIMEOUT => 419,
            HttpStatus::MISDIRECTED_REQUEST => 421,
            HttpStatus::UPGRADE_REQUIRED => 426,
            HttpStatus::PRECONDITION_REQUIRED => 428,
            HttpStatus::TOO_MANY_REQUESTS => 429,
            HttpStatus::REQUEST_HEADER_FIELDS_TOO_LARGE => 431,
            HttpStatus::INTERNAL_SERVER_ERROR => 500,
            HttpStatus::NOT_IMPLEMENTED => 501,
            HttpStatus::BAD_GATEWAY => 502,
            HttpStatus::SERVICE_UNAVAILABLE => 503,
            HttpStatus::GATEWAY_TIMEOUT => 504,
            HttpStatus::HTTP_VERSION_NOT_SUPPORTED => 505,
            HttpStatus::VARIANT_ALSO_NEGOCIATES => 506,
            HttpStatus::NOT_EXTENDED => 510,
            HttpStatus::NETWORK_AUTH_REQUIRED => 511,
        }
    }

    /// The reason phrase of this status.
    pub open spec fn reason(self) -> Seq<char> {
        match self {
            HttpStatus::CONTINUE => "Continue"@,
            HttpStatus::SWITCH_PROTO => "Switching Protocols"@,
            HttpStatus::OK => "OK"@,
            HttpStatus::CREATED => "Created"@,
            HttpStatus::ACCEPTED => "Accepted"@,
            HttpStatus::NON_AUTHORITATIVE_INFO => "Non-Authoritative Information"@,
            HttpStatus::NO_CONTENT => "No Content"@,
            HttpStatus::RESET_CONTENT => "Reset Content"@,
            HttpStatus::PARTIAL_CONTENT => "Partial Content"@,
            HttpStatus::MULTIPLE_CHOICES => "Multiple Choices"@,
            HttpStatus::MOVED_PERMANENTLY => "Moved Permanently"@,
            HttpStatus::FOUND => "Found"@,
            HttpStatus::SEE_OTHER => "See Other"@,
            HttpStatus::NOT_MODIFIED => "Not Modified"@,
            HttpStatus::USE_PROXY => "Use Proxy"@,
            HttpStatus::SWITCH_PROXY => "Switch Proxy"@,
            HttpStatus::TEMP_REDIRECT => "Temporary Redirect"@,
            HttpStatus::PERM_REDIRECT => "Permanent Redirect"@,
            HttpStatus::BAD_REQUEST => "Bad Request"@,
            HttpStatus::UNAUTHORIZED => "Unauthorized"@,
            HttpStatus::PAYMENT_REQUIRED => "Payment Required"@,
            HttpStatus::FORBIDDEN => "Forbidden"@,
            HttpStatus::NOT_FOUND => "Not Found"@,
            HttpStatus::METHOD_NOT_ALLOWED => "Method Not Allowed"@,
            HttpStatus::NOT_ACCEPTABLE => "Not Acceptable"@,
            HttpStatus::PROXY_AUTH_REQUIRED => "Proxy Authentication Required"@,
            HttpStatus::REQUEST_TIMEOUT => "Request Timeout"@,
            HttpStatus::CONFLICT => "Conflict"@,
            HttpStatus::GONE => "Gone"@,
            HttpStatus::LENGTH_REQUIRED => "Length Required"@,
            HttpStatus::PRECONDITION_FAILED => "Precondition Failed"@,
            HttpStatus::REQUEST_ENTITY_TOO_LARGE => "Request Entity Too Large"@,
            HttpStatus::REQUEST_URI_TOO_LONG => "Request-URI Too Long"@,
            HttpStatus::UNSUPPORTED_MEDIA_TYPE => "Unsupported Media Type"@,
            HttpStatus::REQUEST_RANGE_NOT_SATISFIABLE => "Requested Range Not Satisfiable"@,
            HttpStatus::EXPECTATION_FAILED => "Expectation Failed"@,
            HttpStatus::IM_A_TEAPOT => "I'm a teapot"@,
            HttpStatus::AUTH_TIMEOUT => "Authentication Timeout"@,
            HttpStatus::MISDIRECTED_REQUEST => "Misdirected Request"@,
            HttpStatus::UPGRADE_REQUIRED => "Upgrade Required"@,
            HttpStatus::PRECONDITION_REQUIRED => "Precondition Required"@,
            HttpStatus::TOO_MANY_REQUESTS => "Too Many Requests"@,
            HttpStatus::REQUEST_HEADER_FIELDS_TOO_LARGE => "Request Header Fields Too Large"@,
            HttpStatus::INTERNAL_SERVER_ERROR => "Internal Server Error"@,
            HttpStatus::NOT_IMPLEMENTED => "Not Implemented"@,
            HttpStatus::BAD_GATEWAY => "Bad Gateway"@,
            HttpStatus::SERVICE_UNAVAILABLE => "Service Unavailable"@,
            HttpStatus::GATEWAY_TIMEOUT => "Gateway Timeout"@,
            HttpStatus::HTTP_VERSION_NOT_SUPPORTED => "HTTP Version Not Supported"@,
            HttpStatus::VARIANT_ALSO_NEGOCIATES => "Variant Also Negotiates"@,
            HttpStatus::NOT_EXTENDED => "Not Extended"@,
            HttpStatus::NETWORK_AUTH_REQUIRED => "Network Authentication Required"@,
        }
    }

    /// The text of this status in a status line: the code in decimal, a
    /// space, the reason phrase.
    pub open spec fn text(self) -> Seq<char> {
        decimal_text(self.spec_code() as nat) + " "@ + self.reason()
    }

    /// The status with the code `num`, if the catalogue has one.
    pub open spec fn of_code(num: u16) -> Option<HttpStatus> {
        if exists|status: HttpStatus| status.spec_code() == num {
            Some(choose|status: HttpStatus| status.spec_code() == num)
        } else {
            None
        }
    }

    /// The status with the text `text`, if the catalogue has one.
    pub open spec fn of_text(text: Seq<char>) -> Option<HttpStatus> {
        if exists|status: HttpStatus| status.text() == text {
            Some(choose|status: HttpStatus| status.text() == text)
        } else {
            None
        }
    }

    #[verifier::when_used_as_spec(spec_code)]
    /// The numeric code of this status.
    pub fn code(&self) -> (num: u16)
        ensures
            num == self.spec_code(),
    {
        match self {
            HttpStatus::CONTINUE => 100,
            HttpStatus::SWITCH_PROTO => 101,
            HttpStatus::OK => 200,
            HttpStatus::CREATED => 201,
            HttpStatus::ACCEPTED => 202,
            HttpStatus::NON_AUTHORITATIVE_INFO => 203,
            HttpStatus::NO_CONTENT => 204,
            HttpStatus::RESET_CONTENT => 205,
            HttpStatus::PARTIAL_CONTENT => 206,
            HttpStatus::MULTIPLE_CHOICES => 300,
            HttpStatus::MOVED_PERMANENTLY => 301,
            HttpStatus::FOUND => 302,
            HttpStatus::SEE_OTHER => 303,
            HttpStatus::NOT_MODIFIED => 304,
            HttpStatus::USE_PROXY => 305,
            HttpStatus::SWITCH_PROXY => 306,
            HttpStatus::TEMP_REDIRECT => 307,
            HttpStatus::PERM_REDIRECT => 308,
            HttpStatus::BAD_REQUEST => 400,
            HttpStatus::UNAUTHORIZED => 401,
            HttpStatus::PAYMENT_REQUIRED => 402,
            HttpStatus::FORBIDDEN => 403,
            HttpStatus::NOT_FOUND => 404,
            HttpStatus::METHOD_NOT_ALLOWED => 405,
            HttpStatus::NOT_ACCEPTABLE => 406,
            HttpStatus::PROXY_AUTH_REQUIRED => 407,
            HttpStatus::REQUEST_TIMEOUT => 408,
            HttpStatus::CONFLICT => 409,
            HttpStatus::GONE => 410,
            HttpStatus::LENGTH_REQUIRED => 411,
            HttpStatus::PRECONDITION_FAILED => 412,
            HttpStatus::REQUEST_ENTITY_TOO_LARGE => 413,
            HttpStatus::REQUEST_URI_TOO_LONG => 414,
            HttpStatus::UNSUPPORTED_MEDIA_TYPE => 415,
            HttpStatus::REQUEST_RANGE_NOT_SATISFIABLE => 416,
            HttpStatus::EXPECTATION_FAILED => 417,
            HttpStatus::IM_A_TEAPOT => 418,
            HttpStatus::AUTH_TIMEOUT => 419,
            HttpStatus::MISDIRECTED_REQUEST => 421,
            HttpStatus::UPGRADE_REQUIRED => 426,
            HttpStatus::PRECONDITION_REQUIRED => 428,
            HttpStatus::TOO_MANY_REQUESTS => 429,
            HttpStatus::REQUEST_HEADER_FIELDS_TOO_LARGE => 431,
            HttpStatus::INTERNAL_SERVER_ERROR => 500,
            HttpStatus::NOT_IMPLEMENTED => 501,
            HttpStatus::BAD_GATEWAY => 502,
            HttpStatus::SERVICE_UNAVAILABLE => 503,
            HttpStatus::GATEWAY_TIMEOUT => 504,
            HttpStatus::HTTP_VERSION_NOT_SUPPORTED => 505,
            HttpStatus::VARIANT_ALSO_NEGOCIATES => 506,
            HttpStatus::NOT_EXTENDED => 510,
            HttpStatus::NETWORK_AUTH_REQUIRED => 511,
        }
    }

    /// The reason phrase of this status.
    pub fn reason_phrase(&self) -> (phrase: &'static str)
        ensures
            phrase@ == self.reason(),
    {
        match self {
            HttpStatus::CONTINUE => "Continue",
            HttpStatus::SWITCH_PROTO => "Switching Protocols",
            HttpStatus::OK => "OK",
            HttpStatus::CREATED => "Created",
            HttpStatus::ACCEPTED => "Accepted",
            HttpStatus::NON_AUTHORITATIVE_INFO => "Non-Authoritative Information",
            HttpStatus::NO_CONTENT => "No Content",
            HttpStatus::RESET_CONTENT => "Reset Content",
            HttpStatus::PARTIAL_CONTENT => "Partial Content",
            HttpStatus::MULTIPLE_CHOICES => "Multiple Choices",
            HttpStatus::MOVED_PERMANENTLY => "Moved Permanently",
            HttpStatus::FOUND => "Found",
            HttpStatus::SEE_OTHER => "See Other",
            HttpStatus::NOT_MODIFIED => "Not Modified",
            HttpStatus::USE_PROXY => "Use Proxy",
            HttpStatus::SWITCH_PROXY => "Switch Proxy",
            HttpStatus::TEMP_REDIRECT => "Temporary Redirect",
            HttpStatus::PERM_REDIRECT => "Permanent Redirect",
            HttpStatus::BAD_REQUEST => "Bad Request",
            HttpStatus::UNAUTHORIZED => "Unauthorized",
            HttpStatus::PAYMENT_REQUIRED => "Payment Required",
            HttpStatus::FORBIDDEN => "Forbidden",
            HttpStatus::NOT_FOUND => "Not Found",
            HttpStatus::METHOD_NOT_ALLOWED => "Method Not Allowed",
            HttpStatus::NOT_ACCEPTABLE => "Not Acceptable",
            HttpStatus::PROXY_AUTH_REQUIRED => "Proxy Authentication Required",
            HttpStatus::REQUEST_TIMEOUT => "Request Timeout",
            HttpStatus::CONFLICT => "Conflict",
            HttpStatus::GONE => "Gone",
            HttpStatus::LENGTH_REQUIRED => "Length Required",
            HttpStatus::PRECONDITION_FAILED => "Precondition Failed",
            HttpStatus::REQUEST_ENTITY_TOO_LARGE => "Request Entity Too Large",
            HttpStatus::REQUEST_URI_TOO_LONG => "Request-URI Too Long",
            HttpStatus::UNSUPPORTED_MEDIA_TYPE => "Unsupported Media Type",
            HttpStatus::REQUEST_RANGE_NOT_SATISFIABLE => "Requested Range Not Satisfiable",
            HttpStatus::EXPECTATION_FAILED => "Expectation Failed",
            HttpStatus::IM_A_TEAPOT => "I'm a teapot",
            HttpStatus::AUTH_TIMEOUT => "Authentication Timeout",
            HttpStatus::MISDIRECTED_REQUEST => "Misdirected Request",
            HttpStatus::UPGRADE_REQUIRED => "Upgrade Required",
            HttpStatus::PRECONDITION_REQUIRED => "Precondition Required",
            HttpStatus::TOO_MANY_REQUESTS => "Too Many Requests",
            HttpStatus::REQUEST_HEADER_FIELDS_TOO_LARGE => "Request Header Fields Too Large",
            HttpStatus::INTERNAL_SERVER_ERROR => "Internal Server Error",
            HttpStatus::NOT_IMPLEMENTED => "Not Implemented",
            HttpStatus::BAD_GATEWAY => "Bad Gateway",
            HttpStatus::SERVICE_UNAVAILABLE => "Service Unavailable",
            HttpStatus::GATEWAY_TIMEOUT => "Gateway Timeout",
            HttpStatus::HTTP_VERSION_NOT_SUPPORTED => "HTTP Version Not Supported",
            HttpStatus::VARIANT_ALSO_NEGOCIATES => "Variant Also Negotiates",
            HttpStatus::NOT_EXTENDED => "Not Extended",
            HttpStatus::NETWORK_AUTH_REQUIRED => "Network Authentication Required",
        }
    }

    /// The code and the reason phrase, as they stand in a status line.
    pub fn to_string(&self) -> (r: String)
        ensures
            r@ == self.text(),
    {
        let mut out = String::new();
        push_decimal(&mut out, self.code() as u64);
        out.append(" ");
        out.append(self.reason_phrase());
        out
    }
}

impl FromU16 for HttpStatus {
    type Err = UnknownStatus;

    /// The status with the code `num`.
    fn from_u16(num: u16) -> (r: Result<HttpStatus, UnknownStatus>)
        ensures
            r == match HttpStatus::of_code(num) {
                Some(status) => Ok::<HttpStatus, UnknownStatus>(status),
                None => Err(UnknownStatus),
            },
    {
        let r = match num {
            100 => Ok(HttpStatus::CONTINUE),
            101 => Ok(HttpStatus::SWITCH_PROTO),
            200 => Ok(HttpStatus::OK),
            201 => Ok(HttpStatus::CREATED),
            202 => Ok(HttpStatus::ACCEPTED),
            203 => Ok(HttpStatus::NON_AUTHORITATIVE_INFO),
            204 => Ok(HttpStatus::NO_CONTENT),
            205 => Ok(HttpStatus::RESET_CONTENT),
            206 => Ok(HttpStatus::PARTIAL_CONTENT),
            300 => Ok(HttpStatus::MULTIPLE_CHOICES),
            301 => Ok(HttpStatus::MOVED_PERMANENTLY),
            302 => Ok(HttpStatus::FOUND),
            303 => Ok(HttpStatus::SEE_OTHER),
            304 => Ok(HttpStatus::NOT_MODIFIED),
            305 => Ok(HttpStatus::USE_PROXY),
            306 => Ok(HttpStatus::SWITCH_PROXY),
            307 => Ok(HttpStatus::TEMP_REDIRECT),
            308 => Ok(HttpStatus::PERM_REDIRECT),
            400 => Ok(HttpStatus::BAD_REQUEST),
            401 => Ok(HttpStatus::UNAUTHORIZED),
            402 => Ok(HttpStatus::PAYMENT_REQUIRED),
            403 => Ok(HttpStatus::FORBIDDEN),
            404 => Ok(HttpStatus::NOT_FOUND),
            405 => Ok(HttpStatus::METHOD_NOT_ALLOWED),
            406 => Ok(HttpStatus::NOT_ACCEPTABLE),
            407 => Ok(HttpStatus::PROXY_AUTH_REQUIRED),
            408 => Ok(HttpStatus::REQUEST_TIMEOUT),
            409 => Ok(HttpStatus::CONFLICT),
            410 => Ok(HttpStatus::GONE),
            411 => Ok(HttpStatus::LENGTH_REQUIRED),
            412 => Ok(HttpStatus::PRECONDITION_FAILED),
            413 => Ok(HttpStatus::REQUEST_ENTITY_TOO_LARGE),
            414 => Ok(HttpStatus::REQUEST_URI_TOO_LONG),
            415 => Ok(HttpStatus::UNSUPPORTED_MEDIA_TYPE),
            416 => Ok(HttpStatus::REQUEST_RANGE_NOT_SATISFIABLE),
            417 => Ok(HttpStatus::EXPECTATION_FAILED),
            418 => Ok(HttpStatus::IM_A_TEAPOT),
            419 => Ok(HttpStatus::AUTH_TIMEOUT),
            421 => Ok(HttpStatus::MISDIRECTED_REQUEST),
            426 => Ok(HttpStatus::UPGRADE_REQUIRED),
            428 => Ok(HttpStatus::PRECONDITION_REQUIRED),
            429 => Ok(HttpStatus::TOO_MANY_REQUESTS),
            431 => Ok(HttpStatus::REQUEST_HEADER_FIELDS_TOO_LARGE),
            500 => Ok(HttpStatus::INTERNAL_SERVER_ERROR),
            501 => Ok(HttpStatus::NOT_IMPLEMENTED),
            502 => Ok(HttpStatus::BAD_GATEWAY),
            503 => Ok(HttpStatus::SERVICE_UNAVAILABLE),
            504 => Ok(HttpStatus::GATEWAY_TIMEOUT),
            505 => Ok(HttpStatus::HTTP_VERSION_NOT_SUPPORTED),
            506 => Ok(HttpStatus::VARIANT_ALSO_NEGOCIATES),
            510 => Ok(HttpStatus::NOT_EXTENDED),
            511 => Ok(HttpStatus::NETWORK_AUTH_REQUIRED),
            _ => Err(UnknownStatus),
        };
        proof {
            match r {
                Ok(status) => {
                    assert(status.spec_code() == num);
                },
                Err(_) => {
                    assert forall|status: HttpStatus| status.spec_code() != num by {}
                },
            }
        }
        r
    }
}

/// The first four characters of the text of a status are its code in three
/// digits and a space.
pub proof fn lemma_status_text_starts_with_code(status: HttpStatus)
    ensures
        status.text().len() >= 4,
        status.text().subrange(0, 3) == decimal_text(status.spec_code() as nat),
        decimal_usize(status.text().subrange(0, 3)) == Some(status.spec_code() as usize),
{
    let code = status.spec_code() as nat;
    let digits = decimal_text(code);
    assert(100 <= code <= 511);
    assert(digits == decimal_text(code / 10).push(crate::text::digit_char(code % 10)));
    assert(decimal_text(code / 10) == decimal_text(code / 100).push(
        crate::text::digit_char((code / 10) % 10),
    ));
    assert(decimal_text(code / 100).len() == 1);
    assert(digits.len() == 3);
    reveal_strlit(" ");
    assert(status.text().subrange(0, 3) == digits);
    lemma_decimal_round_trip(code);
}

impl HttpStatus {
    /// The status whose code and reason phrase `s` holds, as `to_string`
    /// writes them.
    pub fn from_str(s: &str) -> (r: Result<HttpStatus, UnknownStatus>)
        ensures
            r == match HttpStatus::of_text(s@) {
                Some(status) => Ok::<HttpStatus, UnknownStatus>(status),
                None => Err(UnknownStatus),
            },
    {
        proof {
            assert forall|status: HttpStatus| status.text() == s@ implies s@.len() >= 4
                && decimal_usize(s@.subrange(0, 3)) == Some(status.spec_code() as usize) by {
                lemma_status_text_starts_with_code(status);
            }
        }
        let chars = chars_of(s);
        if chars.len() < 4 {
            return Err(UnknownStatus);
        }
        let num = match parse_usize(s.substring_char(0, 3)) {
            Some(num) => num,
            None => {
                return Err(UnknownStatus);
            },
        };
        if num > 0xffff {
            return Err(UnknownStatus);
        }
        let status = match HttpStatus::from_u16(num as u16) {
            Ok(status) => status,
            Err(_) => {
                return Err(UnknownStatus);
            },
        };
        let text = status.to_string();
        if str_equals(&chars, text.as_str()) {
            Ok(status)
        } else {
            Err(UnknownStatus)
        }
    }
}

/// The code identifies the status: the status of the code of a status is
/// that status, and a status found by a code has that code.
pub proof fn lemma_code_round_trip(status: HttpStatus, num: u16)
    ensures
        HttpStatus::of_code(status.spec_code()) == Some(status),
        HttpStatus::of_code(num) matches Some(found) ==> found.spec_code() == num,
{
}

/// The text identifies the status: the status of the text of a status is
/// that status, and a status found by a text has that text.
pub proof fn lemma_text_round_trip(status: HttpStatus, text: Seq<char>)
    ensures
        HttpStatus::of_text(status.text()) == Some(status),
        HttpStatus::of_text(text) matches Some(found) ==> found.text() == text,
{
    let found = choose|other: HttpStatus| other.text() == status.text();
    lemma_status_text_starts_with_code(status);
    lemma_status_text_starts_with_code(found);
}

/// The number of bytes that a text takes on the wire.
pub open spec fn byte_length(content: Seq<char>) -> nat {
    encode_utf8(content).len()
}

/// A response: it is made once, serialised, and done with.
#[derive(Debug)]
pub struct HttpResponse {
    http_version: HttpVersion,
    status: HttpStatus,
    content_type: String,
    length: u64,
    content: String,
}

/// A response as a mathematical value. The content length is no part of
/// it: it is the byte length of the content.
pub struct ResponseView {
    pub http_version: HttpVersion,
    pub status: HttpStatus,
    pub content_type: Seq<char>,
    pub content: Seq<char>,
}

impl View for HttpResponse {
    type V = ResponseView;

    closed spec fn view(&self) -> ResponseView {
        ResponseView {
            http_version: self.http_version,
            status: self.status,
            content_type: self.content_type@,
            content: self.content@,
        }
    }
}

/// The media type of the responses that the server composes itself.
pub open spec fn html() -> Seq<char> {
    "text/html"@
}

/// The wire form of a response: the status line, the content type, the
/// content length, an empty line, and the content with nothing after it.
pub open spec fn response_text(response: ResponseView) -> Seq<char> {
    response.http_version.text() + " "@ + response.status.text() + "\r\nContent-Type: "@
        + response.content_type + "\r\nContent-Length: "@ + decimal_text(
        byte_length(response.content),
    ) + "\r\n\r\n"@ + response.content
}

impl HttpResponse {
    #[verifier::type_invariant]
    spec fn length_is_exact(self) -> bool {
        self.length == byte_length(self.content@)
    }

    /// A response with the given parts. Its content length is computed
    /// from the content.
    pub fn new(http_version: HttpVersion, status: HttpStatus, content_type: String, content: String) -> (r:
        HttpResponse)
        ensures
            r@ == (ResponseView {
                http_version,
                status,
                content_type: content_type@,
                content: content@,
            }),
    {
        let length = content.as_str().as_bytes().len() as u64;
        HttpResponse { http_version, status, content_type, length, content }
    }

    /// `200 OK` with the given content.
    pub fn success_with_content(content: String) -> (r: HttpResponse)
        ensures
            r@ == (ResponseView {
                http_version: HttpVersion::HTTP1dot1,
                status: HttpStatus::OK,
                content_type: html(),
                content: content@,
            }),
    {
        HttpResponse::new(HttpVersion::HTTP1dot1, HttpStatus::OK, "text/html".to_owned(), content)
    }

    /// `400 Bad Request` with the given content.
    pub fn quick_bad_request(content: String) -> (r: HttpResponse)
        ensures
            r@ == (ResponseView {
                http_version: HttpVersion::HTTP1dot1,
                status: HttpStatus::BAD_REQUEST,
                content_type: html(),
                content: content@,
            }),
    {
        HttpResponse::new(
            HttpVersion::HTTP1dot1,
            HttpStatus::BAD_REQUEST,
            "text/html".to_owned(),
            content,
        )
    }

    /// `404 Not Found` with the given content.
    pub fn quick_not_found(content: String) -> (r: HttpResponse)
        ensures
            r@ == (ResponseView {
                http_version: HttpVersion::HTTP1dot1,
                status: HttpStatus::NOT_FOUND,
                content_type: html(),
                content: content@,
            }),
    {
        HttpResponse::new(
            HttpVersion::HTTP1dot1,
            HttpStatus::NOT_FOUND,
            "text/html".to_owned(),
            content,
        )
    }

    /// `500 Internal Server Error` with the given content.
    pub fn quick_server_error(content: String) -> (r: HttpResponse)
        ensures
            r@ == (ResponseView {
                http_version: HttpVersion::HTTP1dot1,
                status: HttpStatus::INTERNAL_SERVER_ERROR,
                content_type: html(),
                content: content@,
            }),
    {
        HttpResponse::new(
            HttpVersion::HTTP1dot1,
            HttpStatus::INTERNAL_SERVER_ERROR,
            "text/html".to_owned(),
            content,
        )
    }

    /// The version in the status line.
    pub fn http_version(&self) -> (r: HttpVersion)
        ensures
            r == self@.http_version,
    {
        self.http_version
    }

    /// The status in the status line.
    pub fn status(&self) -> (r: HttpStatus)
        ensures
            r == self@.status,
    {
        self.status
    }

    /// The media type of the content.
    pub fn content_type(&self) -> (r: &str)
        ensures
            r@ == self@.content_type,
    {
        self.content_type.as_str()
    }

    /// The content length: the number of bytes of the content.
    pub fn length(&self) -> (r: u64)
        ensures
            r == byte_length(self@.content),
    {
        proof {
            use_type_invariant(self);
        }
        self.length
    }

    /// The content.
    pub fn content(&self) -> (r: &str)
        ensures
            r@ == self@.content,
    {
        self.content.as_str()
    }

    /// The bytes to put on the wire: the text of the response in UTF-8.
    pub fn to_bytes(&self) -> (r: Vec<u8>)
        ensures
            r@ == encode_utf8(response_text(self@)),
    {
        self.to_string().as_str().as_bytes_vec()
    }

    /// The response as it goes on the wire, as a text.
    pub fn to_string(&self) -> (r: String)
        ensures
            r@ == response_text(self@),
    {
        proof {
            use_type_invariant(self);
        }
        let mut buf = self.http_version.to_string();
        buf.append(" ");
        buf.append(self.status.to_string().as_str());
        buf.append("\r\nContent-Type: ");
        buf.append(self.content_type.as_str());
        buf.append("\r\nContent-Length: ");
        push_decimal(&mut buf, self.length);
        buf.append("\r\n\r\n");
        buf.append(self.content.as_str());
        buf
    }
}

} // verus!
