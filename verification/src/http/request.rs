//! Requests: methods, header lines and the parser of a header block.

use crate::http::protocol::{lemma_version_round_trip, HttpVersion, ParseError};
use crate::http::traits::FromString;
use crate::text::{
    chars_of, decimal_usize, find, find_text, first_occurrence, lemma_find_first,
    lemma_occurs_at_pair, lemma_occurs_at_single, lemma_split_first, lemma_split_none, occurs_at,
    parse_usize, split, split_text, str_equals,
};
use vstd::prelude::*;

verus! {

/// The request methods that the server knows.
#[derive(Clone, Copy, Debug, PartialEq, Eq, Structural)]
pub enum HttpMethod {
    OPTIONS,
    GET,
    HEAD,
    POST,
    PUT,
    DELETE,
    TRACE,
    CONNECT,
}

impl HttpMethod {
    /// The token that stands for this method on the wire.
    pub open spec fn text(self) -> Seq<char> {
        match self {
            HttpMethod::OPTIONS => "OPTIONS"@,
            HttpMethod::GET => "GET"@,
            HttpMethod::HEAD => "HEAD"@,
            HttpMethod::POST => "POST"@,
            HttpMethod::PUT => "PUT"@,
            HttpMethod::DELETE => "DELETE"@,
            HttpMethod::TRACE => "TRACE"@,
            HttpMethod::CONNECT => "CONNECT"@,
        }
    }

    /// The method that a token names; matching is case-sensitive.
    pub open spec fn parse(token: Seq<char>) -> Option<HttpMethod> {
        if token == "OPTIONS"@ {
            Some(HttpMethod::OPTIONS)
        } else if token == "GET"@ {
            Some(HttpMethod::GET)
        } else if token == "HEAD"@ {
            Some(HttpMethod::HEAD)
        } else if token == "POST"@ {
            Some(HttpMethod::POST)
        } else if token == "PUT"@ {
            Some(HttpMethod::PUT)
        } else if token == "DELETE"@ {
            Some(HttpMethod::DELETE)
        } else if token == "TRACE"@ {
            Some(HttpMethod::TRACE)
        } else if token == "CONNECT"@ {
            Some(HttpMethod::CONNECT)
        } else {
            None
        }
    }

    /// The method that `s` names.
    pub fn from_str(s: &str) -> (r: Result<HttpMethod, ParseError>)
        ensures
            r == match HttpMethod::parse(s@) {
                Some(method) => Ok::<HttpMethod, ParseError>(method),
                None => Err(ParseError::UnsupportedMethod),
            },
    {
        let token = chars_of(s);
        if str_equals(&token, "OPTIONS") {
            Ok(HttpMethod::OPTIONS)
        } else if str_equals(&token, "GET") {
            Ok(HttpMethod::GET)
        } else if str_equals(&token, "HEAD") {
            Ok(HttpMethod::HEAD)
        } else if str_equals(&token, "POST") {
            Ok(HttpMethod::POST)
        } else if str_equals(&token, "PUT") {
            Ok(HttpMethod::PUT)
        } else if str_equals(&token, "DELETE") {
            Ok(HttpMethod::DELETE)
        } else if str_equals(&token, "TRACE") {
            Ok(HttpMethod::TRACE)
        } else if str_equals(&token, "CONNECT") {
            Ok(HttpMethod::CONNECT)
        } else {
            Err(ParseError::UnsupportedMethod)
        }
    }

    /// The token of this method.
    pub fn to_string(&self) -> (r: String)
        ensures
            r@ == self.text(),
    {
        match self {
            HttpMethod::OPTIONS => "OPTIONS".to_owned(),
            HttpMethod::GET => "GET".to_owned(),
            HttpMethod::HEAD => "HEAD".to_owned(),
            HttpMethod::POST => "POST".to_owned(),
            HttpMethod::PUT => "PUT".to_owned(),
            HttpMethod::DELETE => "DELETE".to_owned(),
            HttpMethod::TRACE => "TRACE".to_owned(),
            HttpMethod::CONNECT => "CONNECT".to_owned(),
        }
    }
}

/// What separates the lines of a header block.
pub open spec fn line_break() -> Seq<char> {
    seq!['\r', '\n']
}

/// What separates the tokens of a request line.
pub open spec fn token_separator() -> Seq<char> {
    seq![' ']
}

/// What separates the name of a header from its value.
pub open spec fn header_separator() -> Seq<char> {
    seq![':', ' ']
}

/// The name and the value of a header line: what stands before and after
/// the first `": "`. A line without that separator is no header.
pub open spec fn header_of(line: Seq<char>) -> Option<(Seq<char>, Seq<char>)> {
    match find(line, header_separator()) {
        Some(i) => Some((line.subrange(0, i), line.subrange(i + 2, line.len() as int))),
        None => None,
    }
}

/// One header of a request.
#[derive(Debug)]
pub struct HttpHeader {
    pub name: String,
    pub value: String,
}

impl View for HttpHeader {
    type V = (Seq<char>, Seq<char>);

    open spec fn view(&self) -> (Seq<char>, Seq<char>) {
        (self.name@, self.value@)
    }
}

impl HttpHeader {
    /// The header that the line `s` holds, if it holds one.
    pub fn from_str(s: &str) -> (r: Result<HttpHeader, ()>)
        ensures
            match header_of(s@) {
                Some(pair) => r matches Ok(header) && header@ == pair,
                None => r is Err,
            },
    {
        proof {
            reveal_strlit(": ");
            assert(": "@ == header_separator());
        }
        match find_text(s, ": ") {
            Some(i) => {
                let n = s.unicode_len();
                Ok(
                    HttpHeader {
                        name: s.substring_char(0, i).to_owned(),
                        value: s.substring_char(i + 2, n).to_owned(),
                    },
                )
            },
            None => Err(()),
        }
    }
}

/// The value of the last header among `lines` that bears `name`: of two
/// headers of one name the later one counts.
pub open spec fn header_value(lines: Seq<Seq<char>>, name: Seq<char>) -> Option<Seq<char>>
    decreases lines.len(),
{
    if lines.len() == 0 {
        None
    } else {
        match header_of(lines.last()) {
            Some((n, v)) if n == name => Some(v),
            _ => header_value(lines.drop_last(), name),
        }
    }
}

/// A `Content-Length` header whose value is no unsigned number that a
/// `usize` can hold.
pub open spec fn malformed_length(line: Seq<char>) -> bool {
    header_of(line) matches Some((name, value)) && name == "Content-Length"@ && decimal_usize(
        value,
    ) is None
}

/// The text of a header that may be absent: nothing stands for an absent one.
pub open spec fn text_or_empty(value: Option<Seq<char>>) -> Seq<char> {
    match value {
        Some(text) => text,
        None => Seq::empty(),
    }
}

/// The number in a `Content-Length` header that may be absent: 0 stands
/// for an absent one.
pub open spec fn length_or_zero(value: Option<Seq<char>>) -> usize {
    match value {
        Some(text) => match decimal_usize(text) {
            Some(n) => n,
            None => 0,
        },
        None => 0,
    }
}

/// What the server reads of a request. The path is as it came: nothing in
/// it is decoded.
#[derive(Debug)]
pub struct HttpRequest {
    pub method: HttpMethod,
    pub path: String,
    pub http_version: HttpVersion,
    pub host: String,
    pub user_agent: String,
    pub length: usize,
}

/// A request as a mathematical value.
pub struct RequestView {
    pub method: HttpMethod,
    pub path: Seq<char>,
    pub http_version: HttpVersion,
    pub host: Seq<char>,
    pub user_agent: Seq<char>,
    pub length: usize,
}

impl View for HttpRequest {
    type V = RequestView;

    open spec fn view(&self) -> RequestView {
        RequestView {
            method: self.method,
            path: self.path@,
            http_version: self.http_version,
            host: self.host@,
            user_agent: self.user_agent@,
            length: self.length,
        }
    }
}

/// The request that the lines of a header block describe. The first line
/// is the request line: a method, a path and a version, separated by single
/// spaces. Each further line is a header or, without `": "`, nothing at all.
/// Of the headers only `Host`, `User-Agent` and `Content-Length` are read.
pub open spec fn request_of_lines(lines: Seq<Seq<char>>) -> Result<RequestView, ParseError> {
    let tokens = split(lines[0], token_separator());
    let headers = lines.drop_first();
    if tokens.len() != 3 {
        Err(ParseError::MalformedRequestLine)
    } else if HttpMethod::parse(tokens[0]) is None {
        Err(ParseError::UnsupportedMethod)
    } else if HttpVersion::parse(tokens[2]) is None {
        Err(ParseError::UnsupportedVersion)
    } else if exists|k: int| 0 <= k < headers.len() && malformed_length(#[trigger] headers[k]) {
        Err(ParseError::MalformedContentLength)
    } else {
        Ok(
            RequestView {
                method: HttpMethod::parse(tokens[0]).unwrap(),
                path: tokens[1],
                http_version: HttpVersion::parse(tokens[2]).unwrap(),
                host: text_or_empty(header_value(headers, "Host"@)),
                user_agent: text_or_empty(header_value(headers, "User-Agent"@)),
                length: length_or_zero(header_value(headers, "Content-Length"@)),
            },
        )
    }
}

/// The request that a header block describes.
pub open spec fn parse_request(text: Seq<char>) -> Result<RequestView, ParseError> {
    request_of_lines(split(text, line_break()))
}

/// The text that `to_string` gives for a request.
pub open spec fn request_text(request: RequestView) -> Seq<char> {
    request.method.text() + " "@ + request.path + " "@ + request.http_version.text()
        + "\r\nHost: "@ + request.host + "\r\nUser-Agent: "@ + request.user_agent
}

impl HttpRequest {
    /// The request line and the headers `Host` and `User-Agent` of this
    /// request.
    pub fn to_string(&self) -> (r: String)
        ensures
            r@ == request_text(self@),
    {
        let mut out = self.method.to_string();
        out.append(" ");
        out.append(self.path.as_str());
        out.append(" ");
        out.append(self.http_version.to_string().as_str());
        out.append("\r\nHost: ");
        out.append(self.host.as_str());
        out.append("\r\nUser-Agent: ");
        out.append(self.user_agent.as_str());
        out
    }
}

impl FromString for HttpRequest {
    type Err = ParseError;

    /// The request that the header block `request_string` describes, or
    /// the first reason why it describes none.
    fn from_string(request_string: String) -> (r: Result<HttpRequest, ParseError>)
        ensures
            match parse_request(request_string@) {
                Ok(request) => r matches Ok(parsed) && parsed@ == request,
                Err(e) => r matches Err(error) && error == e,
            },
            split(split(request_string@, line_break())[0], token_separator()).len() != 3 ==> r
                == Err::<HttpRequest, ParseError>(ParseError::MalformedRequestLine),
    {
        proof {
            reveal_strlit("\r\n");
            reveal_strlit(" ");
            reveal_strlit("Host");
            reveal_strlit("User-Agent");
            reveal_strlit("Content-Length");
            assert("\r\n"@ == line_break());
            assert(" "@ == token_separator());
        }
        let header_lines = split_text(request_string.as_str(), "\r\n");
        let ghost lines = header_lines@.map_values(|line: String| line@);
        let ghost headers = lines.drop_first();
        assert(lines.len() >= 1);
        assert(lines[0] == header_lines@[0]@);

        let first_line = split_text(header_lines[0].as_str(), " ");
        let ghost tokens = first_line@.map_values(|token: String| token@);
        if first_line.len() != 3 {
            return Err(ParseError::MalformedRequestLine);
        }
        assert(tokens[0] == first_line@[0]@ && tokens[1] == first_line@[1]@ && tokens[2]
            == first_line@[2]@);
        let method = match HttpMethod::from_str(first_line[0].as_str()) {
            Ok(method) => method,
            Err(e) => {
                return Err(e);
            },
        };
        let http_version = match HttpVersion::from_str(first_line[2].as_str()) {
            Ok(version) => version,
            Err(e) => {
                return Err(e);
            },
        };
        let path = first_line[1].clone();

        let mut host = String::new();
        let mut user_agent = String::new();
        let mut length: usize = 0;
        assert(headers.take(0) == Seq::<Seq<char>>::empty());
        let mut k: usize = 1;
        while k < header_lines.len()
            invariant
                1 <= k <= header_lines.len(),
                lines == header_lines@.map_values(|line: String| line@),
                lines == split(request_string@, line_break()),
                headers == lines.drop_first(),
                split(lines[0], token_separator()).len() == 3,
                HttpMethod::parse(split(lines[0], token_separator())[0]) is Some,
                HttpVersion::parse(split(lines[0], token_separator())[2]) is Some,
                "Host"@.len() == 4,
                "User-Agent"@.len() == 10,
                "Content-Length"@.len() == 14,
                forall|j: int| 0 <= j < k - 1 ==> !malformed_length(#[trigger] headers[j]),
                host@ == text_or_empty(header_value(headers.take(k - 1), "Host"@)),
                user_agent@ == text_or_empty(header_value(headers.take(k - 1), "User-Agent"@)),
                length == length_or_zero(header_value(headers.take(k - 1), "Content-Length"@)),
            decreases header_lines.len() - k,
        {
            proof {
                assert(header_lines@[k as int]@ == headers[k - 1]);
                assert(headers.take(k as int).drop_last() == headers.take(k - 1));
                assert(headers.take(k as int).last() == headers[k - 1]);
            }
            match HttpHeader::from_str(header_lines[k].as_str()) {
                Ok(header) => {
                    let name = chars_of(header.name.as_str());
                    if str_equals(&name, "Host") {
                        host = header.value;
                    } else if str_equals(&name, "User-Agent") {
                        user_agent = header.value;
                    } else if str_equals(&name, "Content-Length") {
                        match parse_usize(header.value.as_str()) {
                            Some(value) => {
                                length = value;
                            },
                            None => {
                                assert(malformed_length(headers[k - 1]));
                                return Err(ParseError::MalformedContentLength);
                            },
                        }
                    }
                },
                Err(_) => {},
            }
            k += 1;
        }
        assert(headers.take(k - 1) == headers);
        Ok(HttpRequest { method, path, http_version, host, user_agent, length })
    }
}

/// A text that can stand as one line of a header block: it holds no line
/// break.
pub open spec fn is_line(s: Seq<char>) -> bool {
    forall|j: int| !occurs_at(s, line_break(), j)
}

/// A text that can stand as one token of a request line: it holds no
/// space and no line break.
pub open spec fn is_token(s: Seq<char>) -> bool {
    &&& forall|j: int| 0 <= j < s.len() ==> s[j] != ' '
    &&& is_line(s)
}

/// The header block with these lines: the lines with a line break between
/// each two of them.
pub open spec fn join_lines(lines: Seq<Seq<char>>) -> Seq<char>
    decreases lines.len(),
{
    if lines.len() == 0 {
        Seq::empty()
    } else if lines.len() == 1 {
        lines[0]
    } else {
        lines[0] + line_break() + join_lines(lines.drop_first())
    }
}

/// Where a line break follows a line, that is the first line break.
proof fn lemma_line_ends_at_first_break(line: Seq<char>, rest: Seq<char>)
    requires
        is_line(line),
    ensures
        first_occurrence(line + line_break() + rest, line_break(), line.len() as int),
        (line + line_break() + rest).subrange(0, line.len() as int) == line,
        (line + line_break() + rest).subrange(
            line.len() as int + 2,
            (line + line_break() + rest).len() as int,
        ) == rest,
{
    let text = line + line_break() + rest;
    let n = line.len() as int;
    assert(text[n] == '\r');
    assert(text[n + 1] == '\n');
    assert forall|j: int| 0 <= j < n implies !occurs_at(text, line_break(), j) by {
        assert(text[j] == line[j]);
        lemma_occurs_at_pair(text, '\r', '\n', j);
        lemma_occurs_at_pair(line, '\r', '\n', j);
        if j + 1 < n {
            assert(text[j + 1] == line[j + 1]);
        }
    }
    lemma_occurs_at_pair(text, '\r', '\n', n);
}

/// A header block falls into the lines that it was made of.
pub proof fn lemma_split_join_lines(lines: Seq<Seq<char>>)
    requires
        lines.len() > 0,
        forall|i: int| 0 <= i < lines.len() ==> is_line(#[trigger] lines[i]),
    ensures
        split(join_lines(lines), line_break()) == lines,
    decreases lines.len(),
{
    let first = lines[0];
    assert(is_line(first));
    if lines.len() == 1 {
        lemma_split_none(first, line_break());
        assert(seq![first] == lines);
    } else {
        let others = lines.drop_first();
        let rest = join_lines(others);
        assert forall|i: int| 0 <= i < others.len() implies is_line(#[trigger] others[i]) by {
            assert(others[i] == lines[i + 1]);
        }
        lemma_split_join_lines(others);
        lemma_line_ends_at_first_break(first, rest);
        lemma_split_first(first + line_break() + rest, line_break(), first.len() as int);
        assert(seq![first] + others == lines);
    }
}

/// Every method is read back from its own token, and that token holds no
/// space, carriage return or line feed.
pub proof fn lemma_method_round_trip(method: HttpMethod)
    ensures
        HttpMethod::parse(method.text()) == Some(method),
        forall|j: int|
            0 <= j < method.text().len() ==> {
                let c = #[trigger] method.text()[j];
                c != ' ' && c != '\r' && c != '\n'
            },
{
    reveal_strlit("OPTIONS");
    reveal_strlit("GET");
    reveal_strlit("HEAD");
    reveal_strlit("POST");
    reveal_strlit("PUT");
    reveal_strlit("DELETE");
    reveal_strlit("TRACE");
    reveal_strlit("CONNECT");
    assert("GET"@ != "OPTIONS"@) by {
        assert("GET"@.len() != "OPTIONS"@.len());
    }
    assert("HEAD"@ != "OPTIONS"@) by {
        assert("HEAD"@.len() != "OPTIONS"@.len());
    }
    assert("HEAD"@ != "GET"@) by {
        assert("HEAD"@.len() != "GET"@.len());
    }
    assert("POST"@ != "OPTIONS"@) by {
        assert("POST"@.len() != "OPTIONS"@.len());
    }
    assert("POST"@ != "GET"@) by {
        assert("POST"@.len() != "GET"@.len());
    }
    assert("POST"@ != "HEAD"@) by {
        assert("POST"@[0] != "HEAD"@[0]);
    }
    assert("PUT"@ != "OPTIONS"@) by {
        assert("PUT"@.len() != "OPTIONS"@.len());
    }
    assert("PUT"@ != "GET"@) by {
        assert("PUT"@[0] != "GET"@[0]);
    }
    assert("PUT"@ != "HEAD"@) by {
        assert("PUT"@.len() != "HEAD"@.len());
    }
    assert("PUT"@ != "POST"@) by {
        assert("PUT"@.len() != "POST"@.len());
    }
    assert("DELETE"@ != "OPTIONS"@) by {
        assert("DELETE"@.len() != "OPTIONS"@.len());
    }
    assert("DELETE"@ != "GET"@) by {
        assert("DELETE"@.len() != "GET"@.len());
    }
    assert("DELETE"@ != "HEAD"@) by {
        assert("DELETE"@.len() != "HEAD"@.len());
    }
    assert("DELETE"@ != "POST"@) by {
        assert("DELETE"@.len() != "POST"@.len());
    }
    assert("DELETE"@ != "PUT"@) by {
        assert("DELETE"@.len() != "PUT"@.len());
    }
    assert("TRACE"@ != "OPTIONS"@) by {
        assert("TRACE"@.len() != "OPTIONS"@.len());
    }
    assert("TRACE"@ != "GET"@) by {
        assert("TRACE"@.len() != "GET"@.len());
    }
    assert("TRACE"@ != "HEAD"@) by {
        assert("TRACE"@.len() != "HEAD"@.len());
    }
    assert("TRACE"@ != "POST"@) by {
        assert("TRACE"@.len() != "POST"@.len());
    }
    assert("TRACE"@ != "PUT"@) by {
        assert("TRACE"@.len() != "PUT"@.len());
    }
    assert("TRACE"@ != "DELETE"@) by {
        assert("TRACE"@.len() != "DELETE"@.len());
    }
    assert("CONNECT"@ != "OPTIONS"@) by {
        assert("CONNECT"@[0] != "OPTIONS"@[0]);
    }
    assert("CONNECT"@ != "GET"@) by {
        assert("CONNECT"@.len() != "GET"@.len());
    }
    assert("CONNECT"@ != "HEAD"@) by {
        assert("CONNECT"@.len() != "HEAD"@.len());
    }
    assert("CONNECT"@ != "POST"@) by {
        assert("CONNECT"@.len() != "POST"@.len());
    }
    assert("CONNECT"@ != "PUT"@) by {
        assert("CONNECT"@.len() != "PUT"@.len());
    }
    assert("CONNECT"@ != "DELETE"@) by {
        assert("CONNECT"@.len() != "DELETE"@.len());
    }
    assert("CONNECT"@ != "TRACE"@) by {
        assert("CONNECT"@.len() != "TRACE"@.len());
    }
}

/// The tokens that name a version hold no space, carriage return or line
/// feed.
pub proof fn lemma_version_token(token: Seq<char>)
    requires
        HttpVersion::parse(token) is Some,
    ensures
        forall|j: int|
            0 <= j < token.len() ==> {
                let c = #[trigger] token[j];
                c != ' ' && c != '\r' && c != '\n'
            },
{
    reveal_strlit("HTTP/1.0");
    reveal_strlit("HTTP/1.1");
    reveal_strlit("HTTP/2.0");
    reveal_strlit("HTTP/2");
}

/// A request line of three tokens is one line, and its tokens are these
/// three.
proof fn lemma_request_line(first: Seq<char>, path: Seq<char>, last: Seq<char>)
    requires
        forall|j: int|
            0 <= j < first.len() ==> {
                let c = #[trigger] first[j];
                c != ' ' && c != '\r' && c != '\n'
            },
        forall|j: int|
            0 <= j < last.len() ==> {
                let c = #[trigger] last[j];
                c != ' ' && c != '\r' && c != '\n'
            },
        is_token(path),
    ensures
        is_line(first + token_separator() + path + token_separator() + last),
        split(first + token_separator() + path + token_separator() + last, line_break())
            == seq![first + token_separator() + path + token_separator() + last],
        split(first + token_separator() + path + token_separator() + last, token_separator())
            == seq![first, path, last],
{
    let space = token_separator();
    let line = first + space + path + space + last;
    let a = first.len() as int;
    let b = a + 1 + path.len();
    assert(forall|j: int| 0 <= j < a ==> line[j] == first[j]);
    assert(line[a] == ' ');
    assert(forall|j: int| a < j < b ==> line[j] == path[j - a - 1]);
    assert(line[b] == ' ');
    assert(forall|j: int| b < j < line.len() ==> line[j] == last[j - b - 1]);
    assert forall|j: int| !occurs_at(line, line_break(), j) by {
        lemma_occurs_at_pair(line, '\r', '\n', j);
        if occurs_at(line, line_break(), j) {
            assert(a < j < b && a < j + 1 < b);
            lemma_occurs_at_pair(path, '\r', '\n', j - a - 1);
        }
    }
    lemma_split_none(line, line_break());
    // The first token ends at the first space.
    assert forall|j: int| 0 <= j < a implies !occurs_at(line, space, j) by {
        lemma_occurs_at_single(line, ' ', j);
    }
    lemma_occurs_at_single(line, ' ', a);
    lemma_split_first(line, space, a);
    let rest = line.subrange(a + 1, line.len() as int);
    assert(line.subrange(0, a) == first);
    assert(rest == path + space + last);
    // The second token ends at the next space.
    let c = path.len() as int;
    assert forall|j: int| 0 <= j < c implies !occurs_at(rest, space, j) by {
        lemma_occurs_at_single(rest, ' ', j);
    }
    lemma_occurs_at_single(rest, ' ', c);
    lemma_split_first(rest, space, c);
    assert(rest.subrange(0, c) == path);
    assert(rest.subrange(c + 1, rest.len() as int) == last);
    // The third token is all that is left.
    assert forall|j: int| !occurs_at(last, space, j) by {
        lemma_occurs_at_single(last, ' ', j);
    }
    lemma_split_none(last, space);
    assert(seq![first] + (seq![path] + seq![last]) == seq![first, path, last]);
}

/// A request line made of the token of a method, a path and a token that
/// names a version, with single spaces between them, is read as a request
/// with that method, that path and that version, and nothing else.
pub proof fn lemma_request_line_round_trip(method: HttpMethod, path: Seq<char>, version: Seq<char>)
    requires
        is_token(path),
        HttpVersion::parse(version) is Some,
    ensures
        parse_request(method.text() + token_separator() + path + token_separator() + version)
            == Ok::<RequestView, ParseError>(
            RequestView {
                method,
                path,
                http_version: HttpVersion::parse(version).unwrap(),
                host: Seq::empty(),
                user_agent: Seq::empty(),
                length: 0,
            },
        ),
{
    let line = method.text() + token_separator() + path + token_separator() + version;
    lemma_method_round_trip(method);
    lemma_version_token(version);
    lemma_request_line(method.text(), path, version);
    let lines = seq![line];
    assert(lines.drop_first() == Seq::<Seq<char>>::empty());
}

/// A name without a colon, the separator and a value make the header of
/// that name and that value.
pub proof fn lemma_header_line(name: Seq<char>, value: Seq<char>)
    requires
        forall|j: int| 0 <= j < name.len() ==> name[j] != ':',
    ensures
        header_of(name + header_separator() + value) == Some((name, value)),
{
    let line = name + header_separator() + value;
    let n = name.len() as int;
    assert(line[n] == ':');
    assert(line[n + 1] == ' ');
    assert forall|j: int| 0 <= j < n implies !occurs_at(line, header_separator(), j) by {
        assert(line[j] == name[j]);
        lemma_occurs_at_pair(line, ':', ' ', j);
    }
    lemma_occurs_at_pair(line, ':', ' ', n);
    lemma_find_first(line, header_separator(), n);
    assert(line.subrange(0, n) == name);
    assert(line.subrange(n + 2, line.len() as int) == value);
}

/// A line that starts with a name without carriage return, goes on with
/// the separator and ends with a line, is a line.
proof fn lemma_header_line_is_line(name: Seq<char>, value: Seq<char>)
    requires
        forall|j: int| 0 <= j < name.len() ==> name[j] != '\r',
        is_line(value),
    ensures
        is_line(name + header_separator() + value),
{
    let line = name + header_separator() + value;
    let n = name.len() as int;
    assert forall|j: int| !occurs_at(line, line_break(), j) by {
        lemma_occurs_at_pair(line, '\r', '\n', j);
        if 0 <= j && j + 2 <= line.len() {
            if j < n {
                assert(line[j] == name[j]);
            } else if j == n {
                assert(line[j] == ':');
            } else if j == n + 1 {
                assert(line[j] == ' ');
            } else {
                assert(line[j] == value[j - n - 2]);
                assert(line[j + 1] == value[j - n - 1]);
                lemma_occurs_at_pair(value, '\r', '\n', j - n - 2);
            }
        }
    }
}

/// What `to_string` writes, `from_string` reads back: the text of a request
/// without content, whose path is a token and whose host and user agent
/// are lines, describes that request.
pub proof fn lemma_request_text_is_read_back(request: RequestView)
    requires
        is_token(request.path),
        is_line(request.host),
        is_line(request.user_agent),
        request.length == 0,
    ensures
        parse_request(request_text(request)) == Ok::<RequestView, ParseError>(request),
{
    reveal_strlit(" ");
    reveal_strlit("\r\nHost: ");
    reveal_strlit("\r\nUser-Agent: ");
    reveal_strlit("Host");
    reveal_strlit("User-Agent");
    reveal_strlit("Content-Length");
    let space = token_separator();
    let version = request.http_version.text();
    let first = request.method.text() + space + request.path + space + version;
    let second = "Host"@ + header_separator() + request.host;
    let third = "User-Agent"@ + header_separator() + request.user_agent;
    let lines = seq![first, second, third];
    // The text is made of three lines.
    assert(" "@ == space);
    assert("\r\nHost: "@ == line_break() + "Host"@ + header_separator());
    assert("\r\nUser-Agent: "@ == line_break() + "User-Agent"@ + header_separator());
    assert(lines.drop_first() == seq![second, third]);
    assert(lines.drop_first().drop_first() == seq![third]);
    assert(join_lines(seq![third]) == third);
    assert(join_lines(seq![second, third]) == second + line_break() + third);
    assert(join_lines(lines) == first + line_break() + (second + line_break() + third));
    assert(request_text(request) == join_lines(lines));
    // The lines are read back from the text.
    lemma_method_round_trip(request.method);
    lemma_version_round_trip(request.http_version);
    lemma_version_token(version);
    lemma_request_line(request.method.text(), request.path, version);
    lemma_header_line_is_line("Host"@, request.host);
    lemma_header_line_is_line("User-Agent"@, request.user_agent);
    assert forall|i: int| 0 <= i < lines.len() implies is_line(#[trigger] lines[i]) by {
        assert(i == 0 || i == 1 || i == 2);
    }
    lemma_split_join_lines(lines);
    // The first line gives method, path and version; the others are the
    // two headers.
    lemma_header_line("Host"@, request.host);
    lemma_header_line("User-Agent"@, request.user_agent);
    let headers = lines.drop_first();
    assert(headers.last() == third);
    assert(headers.drop_last() == seq![second]);
    assert(seq![second].last() == second);
    assert(seq![second].drop_last() == Seq::<Seq<char>>::empty());
    assert("Host"@ != "User-Agent"@);
    assert("Host"@ != "Content-Length"@);
    assert("User-Agent"@ != "Content-Length"@);
    assert(header_value(seq![second], "Host"@) == Some(request.host));
    assert(header_value(Seq::<Seq<char>>::empty(), "Content-Length"@) is None);
    assert(header_value(seq![second], "Content-Length"@) is None);
    assert(header_value(headers, "Host"@) == Some(request.host));
    assert(header_value(headers, "User-Agent"@) == Some(request.user_agent));
    assert(header_value(headers, "Content-Length"@) is None);
}

/// A line without `": "` after the request line is ignored: with it or
/// without it, the lines describe the same request or fail alike.
pub proof fn lemma_line_without_separator_is_ignored(
    lines: Seq<Seq<char>>,
    k: int,
    line: Seq<char>,
)
    requires
        1 <= k <= lines.len(),
        forall|j: int| !occurs_at(line, header_separator(), j),
    ensures
        request_of_lines(lines.insert(k, line)) == request_of_lines(lines),
{
    let headers = lines.drop_first();
    let longer = lines.insert(k, line);
    assert(longer[0] == lines[0]);
    assert(longer.drop_first() == headers.insert(k - 1, line));
    assert(header_of(line) is None);
    lemma_header_value_skips(headers, k - 1, line, "Host"@);
    lemma_header_value_skips(headers, k - 1, line, "User-Agent"@);
    lemma_header_value_skips(headers, k - 1, line, "Content-Length"@);
    let more = headers.insert(k - 1, line);
    if exists|i: int| 0 <= i < more.len() && malformed_length(#[trigger] more[i]) {
        let i = choose|i: int| 0 <= i < more.len() && malformed_length(#[trigger] more[i]);
        if i < k - 1 {
            assert(malformed_length(headers[i]));
        } else {
            assert(i > k - 1);
            assert(malformed_length(headers[i - 1]));
        }
    }
    if exists|i: int| 0 <= i < headers.len() && malformed_length(#[trigger] headers[i]) {
        let i = choose|i: int| 0 <= i < headers.len() && malformed_length(#[trigger] headers[i]);
        if i < k - 1 {
            assert(malformed_length(more[i]));
        } else {
            assert(malformed_length(more[i + 1]));
        }
    }
}

/// A line without `": "` after the request line of a header block is
/// ignored: with it or without it, the block describes the same request or
/// fails alike.
pub proof fn lemma_line_without_separator_is_ignored_in_text(
    lines: Seq<Seq<char>>,
    k: int,
    line: Seq<char>,
)
    requires
        1 <= k <= lines.len(),
        forall|i: int| 0 <= i < lines.len() ==> is_line(#[trigger] lines[i]),
        is_line(line),
        forall|j: int| !occurs_at(line, header_separator(), j),
    ensures
        parse_request(join_lines(lines.insert(k, line))) == parse_request(join_lines(lines)),
{
    let longer = lines.insert(k, line);
    assert forall|i: int| 0 <= i < longer.len() implies is_line(#[trigger] longer[i]) by {
        if i < k {
            assert(longer[i] == lines[i]);
        } else if i > k {
            assert(longer[i] == lines[i - 1]);
        }
    }
    lemma_split_join_lines(lines);
    lemma_split_join_lines(longer);
    lemma_line_without_separator_is_ignored(lines, k, line);
}

/// A line that is no header changes the value of no header.
proof fn lemma_header_value_skips(headers: Seq<Seq<char>>, k: int, line: Seq<char>, name: Seq<char>)
    requires
        0 <= k <= headers.len(),
        header_of(line) is None,
    ensures
        header_value(headers.insert(k, line), name) == header_value(headers, name),
    decreases headers.len() - k,
{
    let more = headers.insert(k, line);
    if k == headers.len() {
        assert(more.drop_last() == headers);
    } else {
        assert(more.last() == headers.last());
        assert(more.drop_last() == headers.drop_last().insert(k, line));
        lemma_header_value_skips(headers.drop_last(), k, line, name);
    }
}

} // verus!
