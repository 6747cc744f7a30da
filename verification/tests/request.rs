use serve::headers::HttpHeaders;
use serve::parse::{
    feed, read_header_line, read_request_line, start, ParserState, Parsing, StreamEvent,
};
use serve::request::{HttpMethod, HttpRequest, HttpVersion, ParseRequestError};

fn malformed_line(line: &str) -> ParseRequestError {
    ParseRequestError::MalformedRequest(format!("Malformed request line: {line}"))
}

fn malformed_header(line: &str) -> ParseRequestError {
    ParseRequestError::MalformedRequest(format!("Malformed header: {line}"))
}

fn header(request: &HttpRequest, name: &str) -> Option<String> {
    request.headers.as_ref().and_then(|h| h.get(name)).map(|v| v.to_string())
}

#[test]
fn version_tokens() {
    assert_eq!(HttpVersion::from_str("HTTP/1.0"), Ok(HttpVersion::HTTP1_0));
    assert_eq!(HttpVersion::from_str("HTTP/1.1"), Err(ParseRequestError::UnsupportedHttpVersion));
    assert_eq!(HttpVersion::from_str("HTTP/2.0"), Err(ParseRequestError::UnsupportedHttpVersion));
    assert_eq!(HttpVersion::from_str("http/1.0"), Err(ParseRequestError::UnsupportedHttpVersion));
    assert_eq!(HttpVersion::from_str(""), Err(ParseRequestError::UnsupportedHttpVersion));
    assert_eq!(HttpVersion::HTTP1_0.as_str(), "HTTP/1.0");
    assert_eq!(HttpVersion::HTTP1_0.to_string(), "HTTP/1.0");
}

#[test]
fn method_tokens() {
    assert_eq!(HttpMethod::from_str("GET"), Ok(HttpMethod::Get));
    assert_eq!(HttpMethod::from_str("POST"), Ok(HttpMethod::Other("POST".to_string())));
    assert_eq!(HttpMethod::from_str("get"), Ok(HttpMethod::Other("get".to_string())));
    assert_eq!(HttpMethod::from_str("M-SEARCH"), Ok(HttpMethod::Other("M-SEARCH".to_string())));
    assert_eq!(HttpMethod::from_str(""), Err(ParseRequestError::InvalidMethod));
    assert_eq!(HttpMethod::from_str("G(T"), Err(ParseRequestError::InvalidMethod));
    assert_eq!(HttpMethod::from_str("GET\t"), Err(ParseRequestError::InvalidMethod));
    assert_eq!(HttpMethod::from_str("G\u{c9}T"), Err(ParseRequestError::InvalidMethod));
    assert_eq!(HttpMethod::Get.as_str(), "GET");
    assert_eq!(HttpMethod::Get.to_string(), "GET");
    assert_eq!(HttpMethod::Other("PUT".to_string()).to_string(), "PUT");
}

#[test]
fn every_token_character_is_allowed_in_a_method() {
    let token = "!#$%&'*+-.^_`|~09AZaz";
    assert_eq!(HttpMethod::from_str(token), Ok(HttpMethod::Other(token.to_string())));
    for bad in ["\"", "(", ")", ",", "/", ":", ";", "<", "=", ">", "?", "@", "[", "\\", "]", "{", "}", " "] {
        assert_eq!(HttpMethod::from_str(bad), Err(ParseRequestError::InvalidMethod), "{bad}");
    }
}

#[test]
fn error_messages() {
    assert_eq!(ParseRequestError::UnsupportedHttpVersion.to_string(), "Unsupported HTTP version");
    assert_eq!(
        ParseRequestError::MalformedRequest("Malformed header: x".to_string()).to_string(),
        "Malformed request: Malformed header: x"
    );
    assert_eq!(ParseRequestError::InvalidMethod.to_string(), "Invalid method");
    assert_eq!(ParseRequestError::InvalidUri.to_string(), "Invalid URI");
    assert_eq!(
        ParseRequestError::IoError("connection reset".to_string()).to_string(),
        "I/O error: connection reset"
    );
}

#[test]
fn new_request_holds_its_parts() {
    let mut headers = HttpHeaders::new();
    headers.insert("Host".to_string(), "x".to_string());
    let request = HttpRequest::new(
        HttpMethod::Get,
        "/a".to_string(),
        HttpVersion::HTTP1_0,
        Some(headers.clone()),
        Some("body".to_string()),
    );
    assert_eq!(request.method, HttpMethod::Get);
    assert_eq!(request.uri, "/a");
    assert_eq!(request.version, HttpVersion::HTTP1_0);
    assert_eq!(request.headers, Some(headers));
    assert_eq!(request.body, Some("body".to_string()));
}

#[test]
fn request_line_of_three_tokens() {
    assert_eq!(
        read_request_line("GET /index.html HTTP/1.0"),
        Ok((HttpMethod::Get, "/index.html".to_string(), HttpVersion::HTTP1_0))
    );
    assert_eq!(
        read_request_line("DELETE /a%20b?q=1 HTTP/1.0"),
        Ok((HttpMethod::Other("DELETE".to_string()), "/a%20b?q=1".to_string(), HttpVersion::HTTP1_0))
    );
}

#[test]
fn request_line_with_another_number_of_tokens_is_malformed() {
    for line in ["", "GET", "GET /", "GET / HTTP/1.0 extra", "GET  / HTTP/1.0", " GET / HTTP/1.0", "GET / HTTP/1.0 "] {
        assert_eq!(read_request_line(line), Err(malformed_line(line)), "{line:?}");
    }
}

#[test]
fn request_line_is_cut_at_spaces_only() {
    assert_eq!(read_request_line("GET\t/\tHTTP/1.0"), Err(malformed_line("GET\t/\tHTTP/1.0")));
    assert_eq!(
        read_request_line("GET /a\tb HTTP/1.0"),
        Ok((HttpMethod::Get, "/a\tb".to_string(), HttpVersion::HTTP1_0))
    );
    assert_eq!(
        read_request_line("GET  HTTP/1.0"),
        Ok((HttpMethod::Get, "".to_string(), HttpVersion::HTTP1_0))
    );
}

#[test]
fn method_error_comes_before_version_error() {
    assert_eq!(read_request_line("G@T / HTTP/9"), Err(ParseRequestError::InvalidMethod));
    assert_eq!(read_request_line("GET / HTTP/9"), Err(ParseRequestError::UnsupportedHttpVersion));
    assert_eq!(read_request_line(" / HTTP/1.0"), Err(ParseRequestError::InvalidMethod));
}

#[test]
fn header_line_is_cut_at_its_first_colon_and_trimmed() {
    assert_eq!(read_header_line("Host: x"), Ok(("Host".to_string(), "x".to_string())));
    assert_eq!(read_header_line("Host:x"), Ok(("Host".to_string(), "x".to_string())));
    assert_eq!(
        read_header_line("  Host \t:  example.org:8080  "),
        Ok(("Host".to_string(), "example.org:8080".to_string()))
    );
    assert_eq!(read_header_line(":"), Ok(("".to_string(), "".to_string())));
    assert_eq!(read_header_line("X-Empty:   "), Ok(("X-Empty".to_string(), "".to_string())));
    assert_eq!(
        read_header_line("User-Agent: a b  c"),
        Ok(("User-Agent".to_string(), "a b  c".to_string()))
    );
}

#[test]
fn header_line_without_colon_is_malformed() {
    assert_eq!(read_header_line("Host x"), Err(malformed_header("Host x")));
    assert_eq!(read_header_line(" "), Err(malformed_header(" ")));
}

#[test]
fn stream_without_bytes_holds_no_request() {
    assert_eq!(HttpRequest::from_stream(""), Ok(None));
}

#[test]
fn request_with_headers() {
    let request = HttpRequest::from_stream("GET / HTTP/1.0\r\nHost: x\r\nAccept: */*\r\n\r\n")
        .unwrap()
        .unwrap();
    assert_eq!(request.method, HttpMethod::Get);
    assert_eq!(request.uri, "/");
    assert_eq!(request.version, HttpVersion::HTTP1_0);
    assert_eq!(request.body, None);
    let headers = request.headers.as_ref().unwrap();
    assert_eq!(headers.len(), 2);
    assert_eq!(headers.entry(0), Some(("Host", "x")));
    assert_eq!(headers.entry(1), Some(("Accept", "*/*")));
}

#[test]
fn request_without_headers_has_an_empty_header_set() {
    let request = HttpRequest::from_stream("GET /a HTTP/1.0\r\n\r\n").unwrap().unwrap();
    assert_eq!(request.headers, Some(HttpHeaders::new()));
    let bare = HttpRequest::from_stream("GET /a HTTP/1.0").unwrap().unwrap();
    assert_eq!(bare, request);
}

#[test]
fn header_block_ends_with_the_stream_or_an_empty_line() {
    let ended = HttpRequest::from_stream("GET / HTTP/1.0\nHost: x").unwrap().unwrap();
    assert_eq!(header(&ended, "Host"), Some("x".to_string()));
    let cut = HttpRequest::from_stream("GET / HTTP/1.0\nHost: x\n\nnot a header\n").unwrap().unwrap();
    assert_eq!(cut.headers.as_ref().unwrap().len(), 1);
    assert_eq!(cut, ended);
}

#[test]
fn later_header_overwrites_earlier_one() {
    let request =
        HttpRequest::from_stream("GET / HTTP/1.0\r\nHost: a\r\nAccept: b\r\nHost: c\r\n\r\n")
            .unwrap()
            .unwrap();
    let headers = request.headers.as_ref().unwrap();
    assert_eq!(headers.len(), 2);
    assert_eq!(headers.get("Host"), Some("c"));
    assert_eq!(headers.entry(0), Some(("Host", "c")));
}

#[test]
fn lines_end_with_line_feed_with_or_without_carriage_return() {
    let crlf = HttpRequest::from_stream("GET / HTTP/1.0\r\nHost: x\r\n\r\n").unwrap().unwrap();
    let lf = HttpRequest::from_stream("GET / HTTP/1.0\nHost: x\n\n").unwrap().unwrap();
    assert_eq!(crlf, lf);
}

#[test]
fn malformed_header_cites_the_line() {
    assert_eq!(
        HttpRequest::from_stream("GET / HTTP/1.0\r\nHost x\r\n\r\n"),
        Err(malformed_header("Host x"))
    );
}

#[test]
fn request_line_errors_come_before_header_errors() {
    assert_eq!(
        HttpRequest::from_stream("GET / HTTP/1.1\r\nHost x\r\n\r\n"),
        Err(ParseRequestError::UnsupportedHttpVersion)
    );
    assert_eq!(
        HttpRequest::from_stream("GET /\r\nHost x\r\n\r\n"),
        Err(malformed_line("GET /"))
    );
    assert_eq!(
        HttpRequest::from_stream("\r\nGET / HTTP/1.0\r\n\r\n"),
        Err(malformed_line(""))
    );
}

#[test]
fn parser_asks_for_lines_until_the_header_block_ends() {
    let state = match start() {
        Parsing::ReadLine(state) => state,
        other => panic!("{other:?}"),
    };
    assert_eq!(state, ParserState::RequestLine);
    let state = match feed(state, StreamEvent::Line("GET / HTTP/1.0".to_string())) {
        Parsing::ReadLine(state) => state,
        other => panic!("{other:?}"),
    };
    let state = match feed(state, StreamEvent::Line("Host: x".to_string())) {
        Parsing::ReadLine(state) => state,
        other => panic!("{other:?}"),
    };
    match feed(state, StreamEvent::Line(String::new())) {
        Parsing::Done(Ok(Some(request))) => {
            assert_eq!(request.uri, "/");
            assert_eq!(header(&request, "Host"), Some("x".to_string()));
        }
        other => panic!("{other:?}"),
    }
}

#[test]
fn parser_stops_at_the_first_error() {
    let state = match start() {
        Parsing::ReadLine(state) => state,
        other => panic!("{other:?}"),
    };
    assert_eq!(
        feed(state, StreamEvent::Line("GET /".to_string())),
        Parsing::Done(Err(malformed_line("GET /")))
    );
}

#[test]
fn read_failure_is_an_io_error() {
    let state = match start() {
        Parsing::ReadLine(state) => state,
        other => panic!("{other:?}"),
    };
    assert_eq!(
        feed(state, StreamEvent::Failed("reset".to_string())),
        Parsing::Done(Err(ParseRequestError::IoError("reset".to_string())))
    );
    let state = match feed(ParserState::RequestLine, StreamEvent::Line("GET / HTTP/1.0".to_string())) {
        Parsing::ReadLine(state) => state,
        other => panic!("{other:?}"),
    };
    assert_eq!(
        feed(state, StreamEvent::Failed("stream did not contain valid UTF-8".to_string())),
        Parsing::Done(Err(ParseRequestError::IoError(
            "stream did not contain valid UTF-8".to_string()
        )))
    );
}

#[test]
fn end_of_stream_before_the_first_line_is_no_request() {
    assert_eq!(feed(ParserState::RequestLine, StreamEvent::End), Parsing::Done(Ok(None)));
}
