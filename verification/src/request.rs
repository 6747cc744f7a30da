//! Requests as they arrive on the wire: method, target, version and
//! header fields, and the ways in which reading one can fail.

use vstd::prelude::*;
use vstd::string::*;
use crate::headers::HttpHeaders;
use crate::text::{option_text, str_eq, to_chars};

verus! {

/// The protocol versions the server understands.
#[allow(non_camel_case_types)]
#[derive(Debug, Clone, Copy, PartialEq, Eq, Structural)]
pub enum HttpVersion {
    HTTP1_0,
}

/// Why no request could be read.
#[derive(Debug, Clone, PartialEq, Eq)]
pub enum ParseRequestError {
    /// The version token names no version the server understands.
    UnsupportedHttpVersion,
    /// The request line or a header line has the wrong shape; the text
    /// says which line.
    MalformedRequest(String),
    /// The method token is not a method by its syntax.
    InvalidMethod,
    /// The request target cannot be used.
    InvalidUri,
    /// Reading the stream failed; the text is the failure's description.
    IoError(String),
}

/// What a [`ParseRequestError`] stands for.
pub enum ParseRequestErrorModel {
    UnsupportedHttpVersion,
    MalformedRequest(Seq<char>),
    InvalidMethod,
    InvalidUri,
    IoError(Seq<char>),
}

impl View for ParseRequestError {
    type V = ParseRequestErrorModel;

    open spec fn view(&self) -> ParseRequestErrorModel {
        match self {
            ParseRequestError::UnsupportedHttpVersion => ParseRequestErrorModel::UnsupportedHttpVersion,
            ParseRequestError::MalformedRequest(detail) => ParseRequestErrorModel::MalformedRequest(
                detail@,
            ),
            ParseRequestError::InvalidMethod => ParseRequestErrorModel::InvalidMethod,
            ParseRequestError::InvalidUri => ParseRequestErrorModel::InvalidUri,
            ParseRequestError::IoError(detail) => ParseRequestErrorModel::IoError(detail@),
        }
    }
}

impl ParseRequestErrorModel {
    /// The message that describes the error.
    pub open spec fn message(self) -> Seq<char> {
        match self {
            ParseRequestErrorModel::UnsupportedHttpVersion => "Unsupported HTTP version"@,
            ParseRequestErrorModel::MalformedRequest(detail) => "Malformed request: "@ + detail,
            ParseRequestErrorModel::InvalidMethod => "Invalid method"@,
            ParseRequestErrorModel::InvalidUri => "Invalid URI"@,
            ParseRequestErrorModel::IoError(detail) => "I/O error: "@ + detail,
        }
    }
}

impl ParseRequestError {
    /// The message that describes the error.
    pub fn to_string(&self) -> (s: String)
        ensures
            s@ == self@.message(),
    {
        match self {
            ParseRequestError::UnsupportedHttpVersion => String::from_str(
                "Unsupported HTTP version",
            ),
            ParseRequestError::MalformedRequest(detail) => String::from_str(
                "Malformed request: ",
            ).concat(detail.as_str()),
            ParseRequestError::InvalidMethod => String::from_str("Invalid method"),
            ParseRequestError::InvalidUri => String::from_str("Invalid URI"),
            ParseRequestError::IoError(detail) => String::from_str("I/O error: ").concat(
                detail.as_str(),
            ),
        }
    }
}

impl HttpVersion {
    /// The token that names this version on the wire.
    pub open spec fn token(self) -> Seq<char> {
        "HTTP/1.0"@
    }

    /// The version that a token names, if the server understands it.
    pub open spec fn of_token(token: Seq<char>) -> Option<HttpVersion> {
        if token == "HTTP/1.0"@ {
            Some(HttpVersion::HTTP1_0)
        } else {
            None
        }
    }

    /// The token that names this version on the wire.
    pub fn as_str(&self) -> (s: &'static str)
        ensures
            s@ == self.token(),
    {
        match self {
            HttpVersion::HTTP1_0 => "HTTP/1.0",
        }
    }

    /// The token that names this version on the wire, as an owned string.
    pub fn to_string(&self) -> (s: String)
        ensures
            s@ == self.token(),
    {
        String::from_str(self.as_str())
    }

    /// Reads a version token. Any token but that of a known version is
    /// `UnsupportedHttpVersion`.
    pub fn from_str(s: &str) -> (r: Result<HttpVersion, ParseRequestError>)
        ensures
            match r {
                Ok(v) => HttpVersion::of_token(s@) == Some(v),
                Err(e) => HttpVersion::of_token(s@).is_none() && e@
                    == ParseRequestErrorModel::UnsupportedHttpVersion,
            },
    {
        if str_eq(s, "HTTP/1.0") {
            Ok(HttpVersion::HTTP1_0)
        } else {
            Err(ParseRequestError::UnsupportedHttpVersion)
        }
    }
}

/// Whether `c` may stand in a method token: a letter, a digit, or one of
/// ``! # $ % & ' * + - . ^ _ ` | ~``.
pub open spec fn is_token_char(c: char) -> bool {
    let n = c as u32;
    ||| 0x30 <= n <= 0x39
    ||| 0x41 <= n <= 0x5a
    ||| 0x61 <= n <= 0x7a
    ||| n == 0x21
    ||| 0x23 <= n <= 0x27
    ||| n == 0x2a
    ||| n == 0x2b
    ||| n == 0x2d
    ||| n == 0x2e
    ||| n == 0x5e
    ||| n == 0x5f
    ||| n == 0x60
    ||| n == 0x7c
    ||| n == 0x7e
}

/// Whether `token` is a method by its syntax: one or more token characters.
pub open spec fn is_method_token(token: Seq<char>) -> bool {
    token.len() > 0 && forall|k: int| 0 <= k < token.len() ==> is_token_char(#[trigger] token[k])
}

fn char_is_token_char(c: char) -> (b: bool)
    ensures
        b == is_token_char(c),
{
    let n: u32 = c as u32;
    (0x30 <= n && n <= 0x39) || (0x41 <= n && n <= 0x5a) || (0x61 <= n && n <= 0x7a) || n == 0x21
        || (0x23 <= n && n <= 0x27) || n == 0x2a || n == 0x2b || n == 0x2d || n == 0x2e || n
        == 0x5e || n == 0x5f || n == 0x60 || n == 0x7c || n == 0x7e
}

/// The method of a request. `GET` is the one method the server serves;
/// every other well-formed method is kept under `Other` with its token, for
/// the handler to refuse.
#[derive(Debug, Clone, PartialEq, Eq)]
pub enum HttpMethod {
    Get,
    Other(String),
}

/// What an [`HttpMethod`] stands for.
pub enum HttpMethodModel {
    Get,
    Other(Seq<char>),
}

impl View for HttpMethod {
    type V = HttpMethodModel;

    open spec fn view(&self) -> HttpMethodModel {
        match self {
            HttpMethod::Get => HttpMethodModel::Get,
            HttpMethod::Other(token) => HttpMethodModel::Other(token@),
        }
    }
}

impl HttpMethodModel {
    /// The token that names the method on the wire.
    pub open spec fn token(self) -> Seq<char> {
        match self {
            HttpMethodModel::Get => "GET"@,
            HttpMethodModel::Other(token) => token,
        }
    }

    /// The method that a token names, if the token is a method by its
    /// syntax.
    pub open spec fn of_token(token: Seq<char>) -> Option<HttpMethodModel> {
        if token == "GET"@ {
            Some(HttpMethodModel::Get)
        } else if is_method_token(token) {
            Some(HttpMethodModel::Other(token))
        } else {
            None
        }
    }
}

impl HttpMethod {
    /// The token that names the method on the wire.
    pub fn as_str(&self) -> (s: &str)
        ensures
            s@ == self@.token(),
    {
        match self {
            HttpMethod::Get => "GET",
            HttpMethod::Other(token) => token.as_str(),
        }
    }

    /// The token that names the method on the wire, as an owned string.
    pub fn to_string(&self) -> (s: String)
        ensures
            s@ == self@.token(),
    {
        String::from_str(self.as_str())
    }

    /// Reads a method token. `GET` is `Get`, any other token made of token
    /// characters is `Other`, and anything else is `InvalidMethod`.
    pub fn from_str(s: &str) -> (r: Result<HttpMethod, ParseRequestError>)
        ensures
            match r {
                Ok(m) => HttpMethodModel::of_token(s@) == Some(m@),
                Err(e) => HttpMethodModel::of_token(s@).is_none() && e@
                    == ParseRequestErrorModel::InvalidMethod,
            },
    {
        if str_eq(s, "GET") {
            return Ok(HttpMethod::Get);
        }
        let chars = to_chars(s);
        if chars.len() == 0 {
            return Err(ParseRequestError::InvalidMethod);
        }
        let mut i: usize = 0;
        while i < chars.len()
            invariant
                i <= chars.len(),
                chars@ == s@,
                s@ != "GET"@,
                forall|k: int| 0 <= k < i ==> is_token_char(#[trigger] s@[k]),
            decreases chars.len() - i,
        {
            if !char_is_token_char(chars[i]) {
                assert(!is_token_char(s@[i as int]));
                return Err(ParseRequestError::InvalidMethod);
            }
            i += 1;
        }
        Ok(HttpMethod::Other(String::from_str(s)))
    }
}

/// A request: what the request line and the header block said.
#[derive(Debug, Clone, PartialEq, Eq)]
pub struct HttpRequest {
    pub method: HttpMethod,
    /// The request target as written, not yet resolved to a file.
    pub uri: String,
    pub version: HttpVersion,
    pub headers: Option<HttpHeaders>,
    pub body: Option<String>,
}

/// What an [`HttpRequest`] stands for.
pub struct HttpRequestModel {
    pub method: HttpMethodModel,
    pub uri: Seq<char>,
    pub version: HttpVersion,
    pub headers: Option<Seq<(Seq<char>, Seq<char>)>>,
    pub body: Option<Seq<char>>,
}

/// The fields of an optional header set.
pub open spec fn option_headers(headers: Option<HttpHeaders>) -> Option<
    Seq<(Seq<char>, Seq<char>)>,
> {
    match headers {
        Some(h) => Some(h@),
        None => None,
    }
}

impl View for HttpRequest {
    type V = HttpRequestModel;

    open spec fn view(&self) -> HttpRequestModel {
        HttpRequestModel {
            method: self.method@,
            uri: self.uri@,
            version: self.version,
            headers: option_headers(self.headers),
            body: option_text(self.body),
        }
    }
}

impl HttpRequest {
    /// A request made of the given parts.
    pub fn new(
        method: HttpMethod,
        path: String,
        version: HttpVersion,
        headers: Option<HttpHeaders>,
        body: Option<String>,
    ) -> (request: Self)
        ensures
            request.method == method,
            request.uri == path,
            request.version == version,
            request.headers == headers,
            request.body == body,
    {
        HttpRequest { method, uri: path, version, headers, body }
    }
}

} // verus!
