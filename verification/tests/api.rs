use serve::{
    HttpHeaders, HttpMethod, HttpRequest, HttpResponse, HttpStatus, HttpVersion, LogFormat, Mime,
    ParseRequestError,
};

#[test]
fn main_types_are_reachable_from_the_crate_root() {
    let request = HttpRequest::new(
        HttpMethod::Get,
        "/".to_string(),
        HttpVersion::HTTP1_0,
        Some(HttpHeaders::new()),
        None,
    );
    assert_eq!(HttpRequest::from_stream("GET / HTTP/1.0\r\n\r\n"), Ok(Some(request)));
    assert_eq!(
        HttpRequest::from_stream("GET / HTTP/3\r\n\r\n"),
        Err(ParseRequestError::UnsupportedHttpVersion)
    );
    let response = HttpResponse::new(HttpStatus::OK, None, Some(Mime::Html.as_str().to_string()));
    assert_eq!(response.headers.as_ref().unwrap().get("Content-Length"), Some("9"));
    assert_eq!(LogFormat::Combined.format("a", "b", "c", "d", 1, 2, "e", "f"), "a - b [c] \"d\" 1 2 \"e\" \"f\"");
}
