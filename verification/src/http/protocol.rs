//! Protocol versions and the errors of request parsing.

use crate::text::{chars_of, str_equals};
use vstd::prelude::*;

verus! {

/// Why a header block is not a request.
#[derive(Clone, Copy, Debug, PartialEq, Eq, Structural)]
pub enum ParseError {
    /// The request line does not consist of exactly three tokens.
    MalformedRequestLine,
    /// The first token names no known method.
    UnsupportedMethod,
    /// The third token names no known protocol version.
    UnsupportedVersion,
    /// A `Content-Length` header does not hold an unsigned number.
    MalformedContentLength,
}

/// The versions of the protocol that the server knows.
#[derive(Clone, Copy, Debug, PartialEq, Eq, Structural)]
pub enum HttpVersion {
    HTTP1dot0,
    HTTP1dot1,
    HTTP2,
}

impl HttpVersion {
    /// The token that stands for this version on the wire.
    pub open spec fn text(self) -> Seq<char> {
        match self {
            HttpVersion::HTTP1dot0 => "HTTP/1.0"@,
            HttpVersion::HTTP1dot1 => "HTTP/1.1"@,
            HttpVersion::HTTP2 => "HTTP/2"@,
        }
    }

    /// The version that a token names. `HTTP/2.0` and `HTTP/2` are two
    /// spellings of one version; matching is case-sensitive.
    pub open spec fn parse(token: Seq<char>) -> Option<HttpVersion> {
        if token == "HTTP/1.0"@ {
            Some(HttpVersion::HTTP1dot0)
        } else if token == "HTTP/1.1"@ {
            Some(HttpVersion::HTTP1dot1)
        } else if token == "HTTP/2.0"@ || token == "HTTP/2"@ {
            Some(HttpVersion::HTTP2)
        } else {
            None
        }
    }

    /// The version that `s` names.
    pub fn from_str(s: &str) -> (r: Result<HttpVersion, ParseError>)
        ensures
            r == match HttpVersion::parse(s@) {
                Some(version) => Ok::<HttpVersion, ParseError>(version),
                None => Err(ParseError::UnsupportedVersion),
            },
    {
        let token = chars_of(s);
        if str_equals(&token, "HTTP/1.0") {
            Ok(HttpVersion::HTTP1dot0)
        } else if str_equals(&token, "HTTP/1.1") {
            Ok(HttpVersion::HTTP1dot1)
        } else if str_equals(&token, "HTTP/2.0") || str_equals(&token, "HTTP/2") {
            Ok(HttpVersion::HTTP2)
        } else {
            Err(ParseError::UnsupportedVersion)
        }
    }

    /// The token of this version.
    pub fn to_string(&self) -> (r: String)
        ensures
            r@ == self.text(),
    {
        match self {
            HttpVersion::HTTP1dot0 => "HTTP/1.0".to_owned(),
            HttpVersion::HTTP1dot1 => "HTTP/1.1".to_owned(),
            HttpVersion::HTTP2 => "HTTP/2".to_owned(),
        }
    }
}

/// Every version is read back from its own token.
pub proof fn lemma_version_round_trip(version: HttpVersion)
    ensures
        HttpVersion::parse(version.text()) == Some(version),
{
    reveal_strlit("HTTP/1.0");
    reveal_strlit("HTTP/1.1");
    reveal_strlit("HTTP/2.0");
    reveal_strlit("HTTP/2");
    assert("HTTP/1.1"@[7] != "HTTP/1.0"@[7]);
    assert("HTTP/2"@.len() != "HTTP/1.0"@.len());
    assert("HTTP/2"@.len() != "HTTP/1.1"@.len());
}

} // verus!
