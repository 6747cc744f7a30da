//! Reading a request from a stream of lines.
//!
//! The parser takes one line at a time and says after each whether it
//! needs another. It reads the request line, then header lines up to an
//! empty line or the end of the stream.

use vstd::prelude::*;
use vstd::string::*;
use crate::headers::{distinct_names, insert, lemma_insert, HttpHeaders};
use crate::request::{
    HttpMethod, HttpMethodModel, HttpRequest, HttpRequestModel, HttpVersion, ParseRequestError,
    ParseRequestErrorModel,
};
use crate::status::HttpStatus;
use crate::text::{
    find_char, first_index, lemma_first_index, lemma_split, lines_of, option_text, split,
    to_chars, trim, trim_bounds, without_carriage_return,
};

verus! {

/// The error for a request line that does not hold three tokens.
pub open spec fn malformed_request_line(line: Seq<char>) -> ParseRequestErrorModel {
    ParseRequestErrorModel::MalformedRequest("Malformed request line: "@ + line)
}

/// The error for a header line without a colon.
pub open spec fn malformed_header(line: Seq<char>) -> ParseRequestErrorModel {
    ParseRequestErrorModel::MalformedRequest("Malformed header: "@ + line)
}

/// What a request line says: method, target and version.
///
/// The line is cut at every space and must fall into exactly three
/// tokens. The first must be a method and the third a version the server
/// understands; the second is the target, taken as it is.
pub open spec fn parse_request_line(line: Seq<char>) -> Result<
    (HttpMethodModel, Seq<char>, HttpVersion),
    ParseRequestErrorModel,
> {
    let tokens = split(line, ' ');
    if tokens.len() != 3 {
        Err(malformed_request_line(line))
    } else {
        match HttpMethodModel::of_token(tokens[0]) {
            None => Err(ParseRequestErrorModel::InvalidMethod),
            Some(method) => match HttpVersion::of_token(tokens[2]) {
                None => Err(ParseRequestErrorModel::UnsupportedHttpVersion),
                Some(version) => Ok((method, tokens[1], version)),
            },
        }
    }
}

/// What a header line says: the name before its first colon and the value
/// after it, both without white space at their ends.
pub open spec fn parse_header_line(line: Seq<char>) -> Result<
    (Seq<char>, Seq<char>),
    ParseRequestErrorModel,
> {
    let colon = first_index(line, ':');
    if 0 <= colon < line.len() {
        Ok((trim(line.take(colon)), trim(line.skip(colon + 1))))
    } else {
        Err(malformed_header(line))
    }
}

/// The three tokens of a line with exactly two spaces, and the number of
/// tokens of any other line.
proof fn lemma_three_tokens(line: Seq<char>, first: int, second: int, third: int)
    requires
        first == first_index(line, ' '),
        first < line.len() ==> second == first + 1 + first_index(line.skip(first + 1), ' '),
        first < line.len() && second < line.len() ==> third == second + 1 + first_index(
            line.skip(second + 1),
            ' ',
        ),
    ensures
        first >= line.len() ==> split(line, ' ').len() == 1,
        first < line.len() && second >= line.len() ==> split(line, ' ').len() == 2,
        first < line.len() && second < line.len() && third < line.len() ==> split(line, ' ').len()
            > 3,
        first < line.len() && second < line.len() && third >= line.len() ==> split(line, ' ')
            == seq![
            line.subrange(0, first),
            line.subrange(first + 1, second),
            line.subrange(second + 1, line.len() as int),
        ],
{
    lemma_first_index(line, ' ');
    if first < line.len() {
        let rest = line.skip(first + 1);
        lemma_first_index(rest, ' ');
        assert(split(line, ' ') == seq![line.take(first)] + split(rest, ' '));
        if second < line.len() {
            let last = rest.skip(second - first);
            assert(last =~= line.skip(second + 1));
            lemma_first_index(last, ' ');
            assert(split(rest, ' ') == seq![rest.take(second - first - 1)] + split(last, ' '));
            if third < line.len() {
                let tail = last.skip(third - second);
                lemma_split(tail, ' ');
                assert(split(last, ' ') == seq![last.take(third - second - 1)] + split(
                    tail,
                    ' ',
                ));
            } else {
                assert(split(last, ' ') == seq![last]);
                assert(rest.take(second - first - 1) =~= line.subrange(first + 1, second));
                assert(split(line, ' ') =~= seq![
                    line.subrange(0, first),
                    line.subrange(first + 1, second),
                    line.subrange(second + 1, line.len() as int),
                ]);
            }
        } else {
            assert(split(rest, ' ') == seq![rest]);
        }
    }
}

/// Reads a request line.
pub fn read_request_line(line: &str) -> (r: Result<
    (HttpMethod, String, HttpVersion),
    ParseRequestError,
>)
    ensures
        match r {
            Ok((method, uri, version)) => parse_request_line(line@) == Ok::<
                (HttpMethodModel, Seq<char>, HttpVersion),
                ParseRequestErrorModel,
            >((method@, uri@, version)),
            Err(e) => parse_request_line(line@) == Err::<
                (HttpMethodModel, Seq<char>, HttpVersion),
                ParseRequestErrorModel,
            >(e@),
        },
{
    let chars = to_chars(line);
    let n = chars.len();
    let first = find_char(&chars, 0, ' ');
    let second = if first < n {
        find_char(&chars, first + 1, ' ')
    } else {
        n
    };
    let third = if second < n {
        find_char(&chars, second + 1, ' ')
    } else {
        n
    };
    proof {
        assert(line@.skip(0) =~= line@);
        lemma_three_tokens(line@, first as int, second as int, third as int);
    }
    if first >= n || second >= n || third < n {
        return Err(
            ParseRequestError::MalformedRequest(
                String::from_str("Malformed request line: ").concat(line),
            ),
        );
    }
    let method = match HttpMethod::from_str(line.substring_char(0, first)) {
        Ok(m) => m,
        Err(e) => {
            return Err(e);
        },
    };
    let version = match HttpVersion::from_str(line.substring_char(second + 1, n)) {
        Ok(v) => v,
        Err(e) => {
            return Err(e);
        },
    };
    let uri = String::from_str(line.substring_char(first + 1, second));
    Ok((method, uri, version))
}

/// Reads a header line.
pub fn read_header_line(line: &str) -> (r: Result<(String, String), ParseRequestError>)
    ensures
        match r {
            Ok((name, value)) => parse_header_line(line@) == Ok::<
                (Seq<char>, Seq<char>),
                ParseRequestErrorModel,
            >((name@, value@)),
            Err(e) => parse_header_line(line@) == Err::<
                (Seq<char>, Seq<char>),
                ParseRequestErrorModel,
            >(e@),
        },
{
    let chars = to_chars(line);
    let n = chars.len();
    let colon = find_char(&chars, 0, ':');
    proof {
        assert(line@.skip(0) =~= line@);
    }
    if colon >= n {
        return Err(
            ParseRequestError::MalformedRequest(
                String::from_str("Malformed header: ").concat(line),
            ),
        );
    }
    let name = trim_bounds(&chars, 0, colon);
    let value = trim_bounds(&chars, colon + 1, n);
    proof {
        assert(line@.take(colon as int) =~= chars@.subrange(0, colon as int));
        assert(line@.skip(colon + 1) =~= chars@.subrange(colon + 1, n as int));
    }
    Ok(
        (
            String::from_str(line.substring_char(name.0, name.1)),
            String::from_str(line.substring_char(value.0, value.1)),
        ),
    )
}

/// What reading one line from the stream gave.
#[derive(Debug, Clone, PartialEq, Eq)]
pub enum StreamEvent {
    /// A line, without its line end.
    Line(String),
    /// The stream has ended.
    End,
    /// Reading failed; the text describes the failure.
    Failed(String),
}

/// What a [`StreamEvent`] stands for.
pub enum StreamEventModel {
    Line(Seq<char>),
    End,
    Failed(Seq<char>),
}

impl View for StreamEvent {
    type V = StreamEventModel;

    open spec fn view(&self) -> StreamEventModel {
        match self {
            StreamEvent::Line(line) => StreamEventModel::Line(line@),
            StreamEvent::End => StreamEventModel::End,
            StreamEvent::Failed(detail) => StreamEventModel::Failed(detail@),
        }
    }
}

/// How far the parser has come.
#[derive(Debug, PartialEq, Eq)]
pub enum ParserState {
    /// Nothing has been read; the request line comes next.
    RequestLine,
    /// The request line has been read, and these header fields after it.
    Headers { method: HttpMethod, uri: String, version: HttpVersion, headers: HttpHeaders },
}

/// What a [`ParserState`] stands for.
pub enum ParserStateModel {
    RequestLine,
    Headers {
        method: HttpMethodModel,
        uri: Seq<char>,
        version: HttpVersion,
        headers: Seq<(Seq<char>, Seq<char>)>,
    },
}

impl View for ParserState {
    type V = ParserStateModel;

    open spec fn view(&self) -> ParserStateModel {
        match self {
            ParserState::RequestLine => ParserStateModel::RequestLine,
            ParserState::Headers { method, uri, version, headers } => ParserStateModel::Headers {
                method: method@,
                uri: uri@,
                version: *version,
                headers: headers@,
            },
        }
    }
}

/// What a parse has come to: a request, no request because the stream
/// ended before it said anything, or an error.
pub open spec fn parsed(r: Result<Option<HttpRequest>, ParseRequestError>) -> Result<
    Option<HttpRequestModel>,
    ParseRequestErrorModel,
> {
    match r {
        Ok(Some(request)) => Ok(Some(request@)),
        Ok(None) => Ok(None),
        Err(e) => Err(e@),
    }
}

/// One step of a parse: the state in which to read another line, or the
/// outcome.
#[derive(Debug, PartialEq, Eq)]
pub enum Parsing {
    ReadLine(ParserState),
    Done(Result<Option<HttpRequest>, ParseRequestError>),
}

/// What a [`Parsing`] stands for.
pub enum ParsingModel {
    ReadLine(ParserStateModel),
    Done(Result<Option<HttpRequestModel>, ParseRequestErrorModel>),
}

impl View for Parsing {
    type V = ParsingModel;

    open spec fn view(&self) -> ParsingModel {
        match self {
            Parsing::ReadLine(state) => ParsingModel::ReadLine(state@),
            Parsing::Done(outcome) => ParsingModel::Done(parsed(*outcome)),
        }
    }
}

/// The request made of a request line's parts and the header fields read
/// after it. It has no body.
pub open spec fn request_of(
    method: HttpMethodModel,
    uri: Seq<char>,
    version: HttpVersion,
    headers: Seq<(Seq<char>, Seq<char>)>,
) -> HttpRequestModel {
    HttpRequestModel { method, uri, version, headers: Some(headers), body: None }
}

/// The header fields of a header block, added to `fields` in the order of
/// the lines. The block ends with its first empty line, or with the stream;
/// a stream that ends by failing gives `IoError`, and a line that cannot be
/// read as a header gives its error.
pub open spec fn read_headers(
    fields: Seq<(Seq<char>, Seq<char>)>,
    lines: Seq<Seq<char>>,
    failure: Option<Seq<char>>,
) -> Result<Seq<(Seq<char>, Seq<char>)>, ParseRequestErrorModel>
    decreases lines.len(),
{
    if lines.len() == 0 {
        match failure {
            None => Ok(fields),
            Some(detail) => Err(ParseRequestErrorModel::IoError(detail)),
        }
    } else if lines[0].len() == 0 {
        Ok(fields)
    } else {
        match parse_header_line(lines[0]) {
            Err(e) => Err(e),
            Ok((name, value)) => read_headers(
                insert(fields, name, value),
                lines.drop_first(),
                failure,
            ),
        }
    }
}

/// The request that a stream holds. The stream is given by the lines it
/// yields before it ends and by the failure it ends with, if it does not
/// end in order.
///
/// A stream that ends before its first line holds no request. Otherwise
/// the first line is the request line and the lines after it are the
/// header block; an error in the request line comes before any in the
/// header block.
pub open spec fn read_request(lines: Seq<Seq<char>>, failure: Option<Seq<char>>) -> Result<
    Option<HttpRequestModel>,
    ParseRequestErrorModel,
> {
    if lines.len() == 0 {
        match failure {
            None => Ok(None),
            Some(detail) => Err(ParseRequestErrorModel::IoError(detail)),
        }
    } else {
        match parse_request_line(lines[0]) {
            Err(e) => Err(e),
            Ok((method, uri, version)) => match read_headers(
                Seq::empty(),
                lines.drop_first(),
                failure,
            ) {
                Err(e) => Err(e),
                Ok(headers) => Ok(Some(request_of(method, uri, version, headers))),
            },
        }
    }
}

/// The first step of every parse: read the request line.
pub open spec fn first_step() -> ParsingModel {
    ParsingModel::ReadLine(ParserStateModel::RequestLine)
}

/// What a parse in `state` comes to when the stream ends, with `failure`
/// if it does not end in order: a failure is `IoError`; before the request
/// line there is no request; after it the request is complete.
pub open spec fn at_end(state: ParserStateModel, failure: Option<Seq<char>>) -> Result<
    Option<HttpRequestModel>,
    ParseRequestErrorModel,
> {
    match failure {
        Some(detail) => Err(ParseRequestErrorModel::IoError(detail)),
        None => match state {
            ParserStateModel::RequestLine => Ok(None),
            ParserStateModel::Headers { method, uri, version, headers } => Ok(
                Some(request_of(method, uri, version, headers)),
            ),
        },
    }
}

/// The step that follows when `line` arrives in `state`. The first line
/// is the request line; an empty line after it ends the header block; any
/// other line after it is a header.
pub open spec fn after_line(state: ParserStateModel, line: Seq<char>) -> ParsingModel {
    match state {
        ParserStateModel::RequestLine => match parse_request_line(line) {
            Err(e) => ParsingModel::Done(Err(e)),
            Ok((method, uri, version)) => ParsingModel::ReadLine(
                ParserStateModel::Headers { method, uri, version, headers: Seq::empty() },
            ),
        },
        ParserStateModel::Headers { method, uri, version, headers } => if line.len() == 0 {
            ParsingModel::Done(Ok(Some(request_of(method, uri, version, headers))))
        } else {
            match parse_header_line(line) {
                Err(e) => ParsingModel::Done(Err(e)),
                Ok((name, value)) => ParsingModel::ReadLine(
                    ParserStateModel::Headers {
                        method,
                        uri,
                        version,
                        headers: insert(headers, name, value),
                    },
                ),
            }
        },
    }
}

/// The step that follows when `event` arrives in `state`.
pub open spec fn next_step(state: ParserStateModel, event: StreamEventModel) -> ParsingModel {
    match event {
        StreamEventModel::Line(line) => after_line(state, line),
        StreamEventModel::End => ParsingModel::Done(at_end(state, None)),
        StreamEventModel::Failed(detail) => ParsingModel::Done(at_end(state, Some(detail))),
    }
}

/// The event with which a stream ends.
pub open spec fn last_event(failure: Option<Seq<char>>) -> StreamEventModel {
    match failure {
        None => StreamEventModel::End,
        Some(detail) => StreamEventModel::Failed(detail),
    }
}

/// The outcome that `step` leads to when the stream yields `lines` and then
/// ends, with `failure` if it does not end in order.
pub open spec fn result_after(
    step: ParsingModel,
    lines: Seq<Seq<char>>,
    failure: Option<Seq<char>>,
) -> Result<Option<HttpRequestModel>, ParseRequestErrorModel>
    decreases lines.len(),
{
    match step {
        ParsingModel::Done(outcome) => outcome,
        ParsingModel::ReadLine(state) => if lines.len() == 0 {
            at_end(state, failure)
        } else {
            result_after(after_line(state, lines[0]), lines.drop_first(), failure)
        },
    }
}

/// The first step of a parse.
pub fn start() -> (step: Parsing)
    ensures
        step@ == first_step(),
{
    Parsing::ReadLine(ParserState::RequestLine)
}

/// Ends a parse: what it comes to when the stream ends, with `failure`
/// if it does not end in order.
pub fn finish(state: ParserState, failure: Option<String>) -> (r: Result<
    Option<HttpRequest>,
    ParseRequestError,
>)
    ensures
        parsed(r) == at_end(state@, option_text(failure)),
{
    match failure {
        Some(detail) => Err(ParseRequestError::IoError(detail)),
        None => match state {
            ParserState::RequestLine => Ok(None),
            ParserState::Headers { method, uri, version, headers } => Ok(
                Some(HttpRequest::new(method, uri, version, Some(headers), None)),
            ),
        },
    }
}

fn take_line(state: ParserState, line: String) -> (step: Parsing)
    ensures
        step@ == after_line(state@, line@),
{
    match state {
        ParserState::RequestLine => match read_request_line(line.as_str()) {
            Err(e) => Parsing::Done(Err(e)),
            Ok((method, uri, version)) => Parsing::ReadLine(
                ParserState::Headers { method, uri, version, headers: HttpHeaders::new() },
            ),
        },
        ParserState::Headers { method, uri, version, headers } => if line.as_str().is_empty() {
            Parsing::Done(Ok(Some(HttpRequest::new(method, uri, version, Some(headers), None))))
        } else {
            match read_header_line(line.as_str()) {
                Err(e) => Parsing::Done(Err(e)),
                Ok((name, value)) => {
                    let mut headers = headers;
                    headers.insert(name, value);
                    Parsing::ReadLine(ParserState::Headers { method, uri, version, headers })
                },
            }
        },
    }
}

/// Resumes a parse with what reading the next line gave.
pub fn feed(state: ParserState, event: StreamEvent) -> (step: Parsing)
    ensures
        step@ == next_step(state@, event@),
{
    match event {
        StreamEvent::Line(line) => take_line(state, line),
        StreamEvent::End => Parsing::Done(finish(state, None)),
        StreamEvent::Failed(detail) => Parsing::Done(finish(state, Some(detail))),
    }
}

proof fn lemma_headers_after(
    method: HttpMethodModel,
    uri: Seq<char>,
    version: HttpVersion,
    fields: Seq<(Seq<char>, Seq<char>)>,
    lines: Seq<Seq<char>>,
    failure: Option<Seq<char>>,
)
    ensures
        result_after(
            ParsingModel::ReadLine(
                ParserStateModel::Headers { method, uri, version, headers: fields },
            ),
            lines,
            failure,
        ) == (match read_headers(fields, lines, failure) {
            Err(e) => Err(e),
            Ok(headers) => Ok(Some(request_of(method, uri, version, headers))),
        }),
    decreases lines.len(),
{
    reveal_with_fuel(result_after, 2);
    if lines.len() > 0 && lines[0].len() > 0 {
        if let Ok((name, value)) = parse_header_line(lines[0]) {
            lemma_headers_after(
                method,
                uri,
                version,
                insert(fields, name, value),
                lines.drop_first(),
                failure,
            );
        }
    }
}

/// Feeding the parser the lines of a stream one by one, and then its end,
/// leads to the outcome that `read_request` names.
pub proof fn lemma_result_is_read_request(lines: Seq<Seq<char>>, failure: Option<Seq<char>>)
    ensures
        result_after(first_step(), lines, failure) == read_request(lines, failure),
{
    reveal_with_fuel(result_after, 2);
    if lines.len() > 0 {
        if let Ok((method, uri, version)) = parse_request_line(lines[0]) {
            lemma_headers_after(method, uri, version, Seq::empty(), lines.drop_first(), failure);
        }
    }
}

/// The header fields of a request are a mapping: no name occurs twice
/// among them, however often it occurred among the lines.
pub proof fn lemma_read_headers_distinct(
    fields: Seq<(Seq<char>, Seq<char>)>,
    lines: Seq<Seq<char>>,
    failure: Option<Seq<char>>,
)
    requires
        distinct_names(fields),
    ensures
        read_headers(fields, lines, failure) matches Ok(headers) ==> distinct_names(headers),
    decreases lines.len(),
{
    if lines.len() > 0 && lines[0].len() > 0 {
        if let Ok((name, value)) = parse_header_line(lines[0]) {
            lemma_insert(fields, name, value, name);
            lemma_read_headers_distinct(
                insert(fields, name, value),
                lines.drop_first(),
                failure,
            );
        }
    }
}

/// A request line with another number of tokens than three is a malformed
/// request, and is answered with `BadRequest`.
pub proof fn lemma_wrong_token_count_is_malformed(
    lines: Seq<Seq<char>>,
    failure: Option<Seq<char>>,
)
    requires
        lines.len() > 0,
        split(lines[0], ' ').len() != 3,
    ensures
        read_request(lines, failure) == Err::<Option<HttpRequestModel>, ParseRequestErrorModel>(
            malformed_request_line(lines[0]),
        ),
        HttpStatus::of_parse_error(malformed_request_line(lines[0]))
            == HttpStatus::BadRequest,
        HttpStatus::BadRequest.spec_code() == 400,
{
}

/// A request line of three tokens whose first is a method and whose third
/// is not the token of a version the server understands is an unsupported
/// version, and is answered with `HttpVersionNotSupported`.
pub proof fn lemma_unknown_version_is_unsupported(
    lines: Seq<Seq<char>>,
    failure: Option<Seq<char>>,
)
    requires
        lines.len() > 0,
        split(lines[0], ' ').len() == 3,
        HttpMethodModel::of_token(split(lines[0], ' ')[0]).is_some(),
        split(lines[0], ' ')[2] != HttpVersion::HTTP1_0.token(),
    ensures
        read_request(lines, failure) == Err::<Option<HttpRequestModel>, ParseRequestErrorModel>(
            ParseRequestErrorModel::UnsupportedHttpVersion,
        ),
        HttpStatus::of_parse_error(ParseRequestErrorModel::UnsupportedHttpVersion)
            == HttpStatus::HttpVersionNotSupported,
        HttpStatus::HttpVersionNotSupported.spec_code() == 505,
{
}

impl HttpRequest {
    /// Reads a request from the text that a stream holds, cut into lines
    /// as [`lines_of`] says.
    pub fn from_stream(stream: &str) -> (r: Result<Option<HttpRequest>, ParseRequestError>)
        ensures
            parsed(r) == read_request(lines_of(stream@), None),
    {
        let chars = to_chars(stream);
        let n = chars.len();
        let mut step = start();
        let mut pos: usize = 0;
        proof {
            assert(stream@.skip(0) =~= stream@);
            lemma_result_is_read_request(lines_of(stream@), None);
        }
        while pos < n
            invariant
                pos <= n,
                n == chars.len(),
                chars@ == stream@,
                result_after(step@, lines_of(stream@.skip(pos as int)), None) == read_request(
                    lines_of(stream@),
                    None,
                ),
            decreases n - pos,
        {
            let ghost rest = stream@.skip(pos as int);
            match step {
                Parsing::Done(outcome) => {
                    return outcome;
                },
                Parsing::ReadLine(state) => {
                    let end = find_char(&chars, pos, '\n');
                    let line_end = if end < n && end > pos && chars[end - 1] == '\r' {
                        end - 1
                    } else {
                        end
                    };
                    let line = String::from_str(stream.substring_char(pos, line_end));
                    proof {
                        if end < n {
                            let raw = rest.take(end - pos);
                            if raw.len() > 0 {
                                assert(raw.last() == chars@[end - 1]);
                            }
                            assert(line@ =~= without_carriage_return(raw));
                            assert(rest.skip(end - pos + 1) =~= stream@.skip(end + 1));
                        } else {
                            assert(line@ =~= rest);
                            assert(lines_of(stream@.skip(n as int)) =~= Seq::empty());
                            assert(lines_of(rest).drop_first() =~= Seq::empty());
                        }
                        assert(lines_of(rest)[0] == line@);
                    }
                    step = take_line(state, line);
                    pos = if end < n {
                        end + 1
                    } else {
                        n
                    };
                    proof {
                        assert(lines_of(rest).drop_first() =~= lines_of(stream@.skip(pos as int)));
                    }
                },
            }
        }
        assert(lines_of(stream@.skip(pos as int)) =~= Seq::empty());
        match step {
            Parsing::Done(outcome) => outcome,
            Parsing::ReadLine(state) => finish(state, None),
        }
    }
}

} // verus!
