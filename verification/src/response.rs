//! Responses: how one is assembled, and the text it is sent as.

use vstd::prelude::*;
use vstd::string::*;
use vstd::utf8::encode_utf8;
use crate::headers::{insert, lookup, HttpHeaders};
use crate::request::{option_headers, HttpVersion};
use crate::status::HttpStatus;
use crate::text::{
    all_digits, decimal, decimal_string, decimal_value, find_char, first_index, is_digit,
    lemma_decimal, lemma_first_index_unique, option_text, to_chars,
};

verus! {

/// A response: status line, header fields and body.
#[derive(Debug, Clone, PartialEq, Eq)]
pub struct HttpResponse {
    pub version: HttpVersion,
    pub status: HttpStatus,
    pub headers: Option<HttpHeaders>,
    pub body: Option<String>,
}

/// What an [`HttpResponse`] stands for.
pub struct HttpResponseModel {
    pub version: HttpVersion,
    pub status: HttpStatus,
    pub headers: Option<Seq<(Seq<char>, Seq<char>)>>,
    pub body: Option<Seq<char>>,
}

impl View for HttpResponse {
    type V = HttpResponseModel;

    open spec fn view(&self) -> HttpResponseModel {
        HttpResponseModel {
            version: self.version,
            status: self.status,
            headers: option_headers(self.headers),
            body: option_text(self.body),
        }
    }
}

/// The header fields of a response with the given body: those the caller
/// set, then `Content-Length` with the body's length in bytes and
/// `Content-Type: text/plain`, each only where there is a body and the
/// caller did not set the field.
pub open spec fn with_default_headers(
    headers: Seq<(Seq<char>, Seq<char>)>,
    body: Option<Seq<char>>,
) -> Seq<(Seq<char>, Seq<char>)> {
    match body {
        None => headers,
        Some(b) => {
            let with_length = if lookup(headers, "Content-Length"@).is_some() {
                headers
            } else {
                insert(headers, "Content-Length"@, decimal(encode_utf8(b).len()))
            };
            if lookup(with_length, "Content-Type"@).is_some() {
                with_length
            } else {
                insert(with_length, "Content-Type"@, "text/plain"@)
            }
        },
    }
}

/// The response that [`HttpResponse::new`] builds.
pub open spec fn response_of(
    status: HttpStatus,
    headers: Option<Seq<(Seq<char>, Seq<char>)>>,
    body: Option<Seq<char>>,
) -> HttpResponseModel {
    HttpResponseModel {
        version: HttpVersion::HTTP1_0,
        status,
        headers: Some(
            with_default_headers(
                match headers {
                    Some(h) => h,
                    None => Seq::empty(),
                },
                body,
            ),
        ),
        body,
    }
}

/// The status line, without its line end: version, code and reason
/// phrase, with one space between them.
pub open spec fn status_line(version: HttpVersion, status: HttpStatus) -> Seq<char> {
    version.token() + seq![' '] + decimal(status.spec_code() as nat) + seq![' ']
        + status.reason()
}

/// One line per field, in order: name, colon, space, value, line end.
pub open spec fn header_lines(headers: Seq<(Seq<char>, Seq<char>)>) -> Seq<char>
    decreases headers.len(),
{
    if headers.len() == 0 {
        Seq::empty()
    } else {
        header_lines(headers.drop_last()) + headers.last().0 + seq![':', ' '] + headers.last().1
            + seq!['\n']
    }
}

/// The text a response is sent as: the status line, the header lines, an
/// empty line, and then the body with a line end, if the body is not empty.
pub open spec fn wire_text(response: HttpResponseModel) -> Seq<char> {
    status_line(response.version, response.status) + seq!['\n'] + (match response.headers {
        Some(h) => header_lines(h),
        None => Seq::empty(),
    }) + seq!['\n'] + (match response.body {
        Some(b) => if b.len() > 0 {
            b + seq!['\n']
        } else {
            Seq::empty()
        },
        None => Seq::empty(),
    })
}

impl HttpResponse {
    /// Builds a response, filling in `Content-Length` and `Content-Type`
    /// where there is a body and the caller left them out.
    pub fn new(status: HttpStatus, headers: Option<HttpHeaders>, body: Option<String>) -> (response:
        Self)
        ensures
            response@ == response_of(status, option_headers(headers), option_text(body)),
    {
        let mut fields = match headers {
            Some(h) => h,
            None => HttpHeaders::new(),
        };
        if let Some(text) = &body {
            if !fields.contains_key("Content-Length") {
                let length = text.as_str().as_bytes().len();
                fields.insert(String::from_str("Content-Length"), decimal_string(length));
            }
            if !fields.contains_key("Content-Type") {
                fields.insert(String::from_str("Content-Type"), String::from_str("text/plain"));
            }
        }
        HttpResponse { version: HttpVersion::HTTP1_0, status, headers: Some(fields), body }
    }

    /// The text this response is sent as.
    pub fn to_string(&self) -> (text: String)
        ensures
            text@ == wire_text(self@),
    {
        proof {
            reveal_strlit(" ");
            reveal_strlit("\n");
            reveal_strlit(": ");
        }
        assert(" "@ =~= seq![' ']);
        assert("\n"@ =~= seq!['\n']);
        assert(": "@ =~= seq![':', ' ']);
        let mut text = String::from_str(self.version.as_str());
        text.append(" ");
        text.append(decimal_string(self.status.code() as usize).as_str());
        text.append(" ");
        text.append(self.status.as_str());
        text.append("\n");
        let ghost head = status_line(self.version, self.status) + seq!['\n'];
        assert(text@ =~= head);
        if let Some(headers) = &self.headers {
            let n = headers.len();
            let mut i: usize = 0;
            assert(headers@.take(0) =~= Seq::empty());
            while i < n
                invariant
                    i <= n,
                    n == headers@.len(),
                    text@ == head + header_lines(headers@.take(i as int)),
                    ": "@ == seq![':', ' '],
                    "\n"@ == seq!['\n'],
                decreases n - i,
            {
                if let Some((name, value)) = headers.entry(i) {
                    text.append(name);
                    text.append(": ");
                    text.append(value);
                    text.append("\n");
                }
                proof {
                    let next = headers@.take(i + 1);
                    assert(next.drop_last() =~= headers@.take(i as int));
                    assert(next.last() == headers@[i as int]);
                    assert(text@ =~= head + header_lines(next));
                }
                i += 1;
            }
            assert(headers@.take(n as int) =~= headers@);
        }
        text.append("\n");
        if let Some(body) = &self.body {
            if !body.as_str().is_empty() {
                text.append(body.as_str());
                text.append("\n");
            }
        }
        assert(text@ =~= wire_text(self@));
        text
    }
}

/// No position of `s` holds `c`.
pub open spec fn free_of(s: Seq<char>, c: char) -> bool {
    forall|k: int| 0 <= k < s.len() ==> s[k] != c
}

proof fn lemma_tokens_are_clean(status: HttpStatus)
    ensures
        free_of(HttpVersion::HTTP1_0.token(), ' '),
        free_of(HttpVersion::HTTP1_0.token(), '\n'),
        free_of(status.reason(), '\n'),
{
    reveal_strlit("HTTP/1.0");
    reveal_strlit("Bad Request");
    reveal_strlit("Forbidden");
    reveal_strlit("Http Version Not Supported");
    reveal_strlit("Interal Server Errror");
    reveal_strlit("Method Not Allowed");
    reveal_strlit("Not Found");
    reveal_strlit("Ok");
}

/// The first line of `text`: what stands before its first line feed.
pub open spec fn first_line(text: Seq<char>) -> Seq<char> {
    text.take(first_index(text, '\n'))
}

/// What a status line says: the code and the reason phrase.
///
/// The line holds the token of a version the server speaks, a space, a
/// run of digits, a space, and the reason phrase, which is the rest.
pub open spec fn parse_status_line(line: Seq<char>) -> Option<(nat, Seq<char>)> {
    let a = first_index(line, ' ');
    let rest = line.skip(a + 1);
    let b = first_index(rest, ' ');
    let digits = rest.take(b);
    if a < line.len() && b < rest.len() && HttpVersion::of_token(line.take(a)).is_some()
        && digits.len() > 0 && all_digits(digits) {
        Some((decimal_value(digits), rest.skip(b + 1)))
    } else {
        None
    }
}

proof fn lemma_decimal_value_grows(s: Seq<char>, n: int)
    requires
        0 <= n <= s.len(),
        all_digits(s),
    ensures
        decimal_value(s.take(n)) <= decimal_value(s),
    decreases s.len() - n,
{
    if n < s.len() {
        lemma_decimal_value_grows(s, n + 1);
        let next = s.take(n + 1);
        assert(next.drop_last() =~= s.take(n));
        assert(is_digit(s[n]));
        assert(next.last() == s[n]);
    } else {
        assert(s.take(n) =~= s);
    }
}

/// Reads a status line: the code, where it is at most 65535, and the
/// reason phrase.
pub fn read_status_line(line: &str) -> (r: Option<(u16, String)>)
    ensures
        match r {
            Some((code, reason)) => parse_status_line(line@) == Some((code as nat, reason@)),
            None => match parse_status_line(line@) {
                Some((code, _)) => code > u16::MAX,
                None => true,
            },
        },
{
    let chars = to_chars(line);
    let n = chars.len();
    let a = find_char(&chars, 0, ' ');
    proof {
        assert(line@.skip(0) =~= line@);
    }
    if a >= n {
        return None;
    }
    let b = find_char(&chars, a + 1, ' ');
    if b >= n {
        return None;
    }
    let ghost rest = line@.skip(a + 1);
    let ghost digits = rest.take(b - a - 1);
    if HttpVersion::from_str(line.substring_char(0, a)).is_err() {
        return None;
    }
    if b == a + 1 {
        return None;
    }
    let mut code: u32 = 0;
    let mut i: usize = a + 1;
    assert(digits.take(0) =~= Seq::empty());
    while i < b
        invariant
            a + 1 <= i <= b < n,
            n == chars.len(),
            chars@ == line@,
            rest == line@.skip(a + 1),
            digits == rest.take(b - a - 1),
            a == first_index(line@, ' '),
            b - a - 1 == first_index(rest, ' '),
            all_digits(digits.take(i - a - 1)),
            code == decimal_value(digits.take(i - a - 1)),
            code <= u16::MAX,
        decreases b - i,
    {
        let c = chars[i];
        let d: u32 = c as u32;
        let ghost upto = digits.take(i - a);
        proof {
            assert(upto.drop_last() =~= digits.take(i - a - 1));
            assert(upto.last() == c);
        }
        if d < 0x30 || d > 0x39 {
            assert(!is_digit(digits[i - a - 1]));
            return None;
        }
        code = code * 10 + (d - 0x30);
        assert(code == decimal_value(upto));
        assert forall|k: int| 0 <= k < upto.len() implies is_digit(#[trigger] upto[k]) by {
            if k < upto.len() - 1 {
                assert(upto[k] == digits.take(i - a - 1)[k]);
            }
        }
        if code > 65535 {
            proof {
                if all_digits(digits) {
                    lemma_decimal_value_grows(digits, i - a);
                }
            }
            return None;
        }
        i += 1;
    }
    assert(digits.take(b - a - 1) =~= digits);
    let reason = String::from_str(line.substring_char(b + 1, n));
    assert(reason@ =~= rest.skip(b - a));
    Some((code as u16, reason))
}

/// The status line of a response can be read back from the text the
/// response is sent as: the first line of that text gives the code and the
/// reason phrase of the response's status.
pub proof fn lemma_status_line_round_trip(response: HttpResponseModel)
    ensures
        first_line(wire_text(response)) == status_line(response.version, response.status),
        parse_status_line(first_line(wire_text(response))) == Some(
            (response.status.spec_code() as nat, response.status.reason()),
        ),
{
    let version = response.version.token();
    let code = decimal(response.status.spec_code() as nat);
    let reason = response.status.reason();
    let line = status_line(response.version, response.status);
    let text = wire_text(response);
    lemma_tokens_are_clean(response.status);
    lemma_decimal(response.status.spec_code() as nat);
    assert(forall|k: int| 0 <= k < code.len() ==> is_digit(#[trigger] code[k]));
    assert forall|k: int| 0 <= k < line.len() implies line[k] != '\n' by {
        if k < version.len() {
            assert(line[k] == version[k]);
        } else if k == version.len() {
        } else if k < version.len() + 1 + code.len() {
            assert(line[k] == code[k - version.len() - 1]);
        } else if k == version.len() + 1 + code.len() {
        } else {
            assert(line[k] == reason[k - version.len() - code.len() - 2]);
        }
    }
    assert(text[line.len() as int] == '\n');
    assert forall|k: int| 0 <= k < line.len() implies text[k] != '\n' by {
        assert(text[k] == line[k]);
    }
    lemma_first_index_unique(text, '\n', line.len() as int);
    assert(text.take(line.len() as int) =~= line);

    assert forall|k: int| 0 <= k < version.len() implies line[k] != ' ' by {
        assert(line[k] == version[k]);
    }
    assert(line[version.len() as int] == ' ');
    lemma_first_index_unique(line, ' ', version.len() as int);
    assert(line.take(version.len() as int) =~= version);
    let rest = line.skip(version.len() as int + 1);
    assert(rest =~= code + seq![' '] + reason);
    assert forall|k: int| 0 <= k < code.len() implies rest[k] != ' ' by {
        assert(rest[k] == code[k]);
        assert(is_digit(code[k]));
    }
    assert(rest[code.len() as int] == ' ');
    lemma_first_index_unique(rest, ' ', code.len() as int);
    assert(rest.take(code.len() as int) =~= code);
    assert(rest.skip(code.len() as int + 1) =~= reason);
}

} // verus!
