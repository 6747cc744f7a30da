use serve::connection::{accept, advance, Action, ConnectionState, Event, Progress};
use serve::fs::{EntryKind, FilePath, FsAnswer, FsError, FsQuery};
use serve::handler::{process_request, reject, resume, HandlerState, Handling};
use serve::parse::StreamEvent;
use serve::request::{HttpMethod, HttpRequest, HttpVersion, ParseRequestError};
use serve::resolve::ResolverState;
use serve::response::HttpResponse;
use serve::status::HttpStatus;

/// A disk made up for a test: a root directory, and the files and
/// directories that exist, each by its canonical path.
struct Disk {
    root: Vec<String>,
    files: Vec<(Vec<String>, Result<String, FsError>)>,
    dirs: Vec<Vec<String>>,
}

fn parts(path: &str) -> Vec<String> {
    let mut out = vec!["/".to_string()];
    out.extend(path.split('/').filter(|p| !p.is_empty()).map(|p| p.to_string()));
    out
}

impl Disk {
    fn new(root: &str) -> Disk {
        let mut disk = Disk { root: parts(root), files: Vec::new(), dirs: Vec::new() };
        disk.dir("/");
        disk.dir(root);
        disk
    }

    fn dir(&mut self, path: &str) -> &mut Disk {
        self.dirs.push(parts(path));
        self
    }

    fn file(&mut self, path: &str, text: &str) -> &mut Disk {
        self.files.push((parts(path), Ok(text.to_string())));
        self
    }

    fn unreadable(&mut self, path: &str) -> &mut Disk {
        self.files.push((parts(path), Err(FsError::Other)));
        self
    }

    fn is_there(&self, path: &[String]) -> bool {
        self.dirs.iter().any(|d| d.as_slice() == path) || self.files.iter().any(|f| f.0.as_slice() == path)
    }

    fn canonical(&self, relative: &str) -> Result<FilePath, FsError> {
        let mut path = if relative.starts_with('/') { vec!["/".to_string()] } else { self.root.clone() };
        for part in relative.split('/') {
            match part {
                "" | "." => {}
                ".." => {
                    if !self.is_there(&path) {
                        return Err(FsError::NotFound);
                    }
                    if path.len() > 1 {
                        path.pop();
                    }
                }
                name => path.push(name.to_string()),
            }
        }
        if self.is_there(&path) {
            Ok(FilePath { components: path })
        } else {
            Err(FsError::NotFound)
        }
    }

    fn answer(&self, query: &FsQuery) -> FsAnswer {
        match query {
            FsQuery::Canonicalize { relative } => FsAnswer::Canonical {
                candidate: self.canonical(relative),
                root: Ok(FilePath { components: self.root.clone() }),
            },
            FsQuery::EntryKind { path } => FsAnswer::Kind(
                if self.files.iter().any(|f| f.0 == path.components) {
                    EntryKind::File
                } else if self.dirs.iter().any(|d| *d == path.components) {
                    EntryKind::Directory
                } else {
                    EntryKind::Other
                },
            ),
            FsQuery::ReadFile { path } => FsAnswer::Content(
                match self.files.iter().find(|f| f.0 == path.components) {
                    Some(file) => file.1.clone(),
                    None => Err(FsError::NotFound),
                },
            ),
        }
    }
}

/// What a peer saw of a connection, and what was handed on for logging.
struct Seen {
    sent: Option<String>,
    logged: Option<(HttpRequest, HttpResponse)>,
    reads: usize,
    queries: Vec<FsQuery>,
}

/// Runs one connection: the stream yields the lines of `input` and then
/// ends, `disk` answers the queries, and writing succeeds if `writable`.
fn run(disk: &Disk, input: &str, writable: bool) -> Seen {
    let mut lines = input.lines().map(|l| l.to_string()).collect::<Vec<_>>().into_iter();
    let mut seen = Seen { sent: None, logged: None, reads: 0, queries: Vec::new() };
    let mut progress = accept();
    loop {
        match progress {
            Progress::Close => return seen,
            Progress::Log(request, response) => {
                seen.logged = Some((request, response));
                return seen;
            }
            Progress::Do(action, state) => {
                let event = match action {
                    Action::ReadLine => {
                        seen.reads += 1;
                        Event::Read(match lines.next() {
                            Some(line) => StreamEvent::Line(line),
                            None => StreamEvent::End,
                        })
                    }
                    Action::Ask(query) => {
                        let answer = disk.answer(&query);
                        seen.queries.push(query);
                        Event::Answer(answer)
                    }
                    Action::Send(text) => {
                        if writable {
                            seen.sent = Some(text);
                        }
                        Event::Sent(writable)
                    }
                };
                progress = advance(state, event);
            }
        }
    }
}

fn site() -> Disk {
    let mut disk = Disk::new("/srv/www");
    disk.dir("/etc")
        .dir("/srv")
        .file("/etc/passwd", "root:x:0:0")
        .file("/srv/www/index.html", "hello")
        .file("/srv/www/style.css", "body {}")
        .file("/srv/www/data", "raw")
        .file("/srv/www/notes.TXT", "upper")
        .dir("/srv/www/docs")
        .file("/srv/www/docs/index.html", "<h1>docs</h1>")
        .file("/srv/www/docs/guide.md", "# guide")
        .dir("/srv/www/empty")
        .unreadable("/srv/www/broken.txt");
    disk
}

#[test]
fn root_with_index_document_is_served() {
    let seen = run(&site(), "GET / HTTP/1.0\r\nHost: x\r\n\r\n", true);
    assert_eq!(
        seen.sent.as_deref(),
        Some("HTTP/1.0 200 Ok\nContent-Type: text/html\nContent-Length: 5\n\nhello\n")
    );
    let (request, response) = seen.logged.unwrap();
    assert_eq!(request.uri, "/");
    assert_eq!(response.status, HttpStatus::OK);
    assert_eq!(response.status.code(), 200);
    assert_eq!(response.body.as_deref(), Some("hello"));
    assert_eq!(response.headers.as_ref().unwrap().get("Content-Type"), Some("text/html"));
}

#[test]
fn missing_file_is_not_found() {
    let seen = run(&site(), "GET /missing.txt HTTP/1.0\r\n\r\n", true);
    assert_eq!(seen.sent.as_deref(), Some("HTTP/1.0 404 Not Found\n\n"));
    assert_eq!(seen.logged.unwrap().1.status.code(), 404);
}

#[test]
fn post_is_not_allowed() {
    let seen = run(&site(), "POST / HTTP/1.0\r\n\r\n", true);
    assert_eq!(seen.sent.as_deref(), Some("HTTP/1.0 405 Method Not Allowed\n\n"));
    let (request, response) = seen.logged.unwrap();
    assert_eq!(request.method, HttpMethod::Other("POST".to_string()));
    assert_eq!(response.status.code(), 405);
    assert_eq!(response.body, None);
    assert!(seen.queries.is_empty());
}

#[test]
fn traversal_out_of_the_root_is_forbidden() {
    let seen = run(&site(), "GET /../../etc/passwd HTTP/1.0\r\n\r\n", true);
    assert_eq!(seen.sent.as_deref(), Some("HTTP/1.0 403 Forbidden\n\n"));
    assert_eq!(seen.logged.unwrap().1.status.code(), 403);
    assert_eq!(
        seen.queries,
        vec![FsQuery::Canonicalize { relative: "../../etc/passwd".to_string() }]
    );
}

#[test]
fn every_file_under_the_root_is_served_with_its_type() {
    let cases = [
        ("/index.html", "hello", "text/html"),
        ("/style.css", "body {}", "text/css"),
        ("/docs/guide.md", "# guide", "text/markdown"),
        ("/data", "raw", "application/octet-stream"),
        ("/notes.TXT", "upper", "application/octet-stream"),
        ("/docs/../style.css", "body {}", "text/css"),
        ("style.css", "body {}", "text/css"),
        ("/style.css/", "body {}", "text/css"),
    ];
    for (target, text, kind) in cases {
        let seen = run(&site(), &format!("GET {target} HTTP/1.0\r\n\r\n"), true);
        let (_, response) = seen.logged.unwrap();
        assert_eq!(response.status, HttpStatus::OK, "{target}");
        assert_eq!(response.body.as_deref(), Some(text), "{target}");
        let headers = response.headers.as_ref().unwrap();
        assert_eq!(headers.get("Content-Type"), Some(kind), "{target}");
        assert_eq!(headers.get("Content-Length"), Some(text.len().to_string().as_str()));
        assert_eq!(seen.sent, Some(response.to_string()));
    }
}

#[test]
fn directory_is_served_by_its_index_document() {
    for target in ["/docs", "/docs/", "docs"] {
        let seen = run(&site(), &format!("GET {target} HTTP/1.0\r\n\r\n"), true);
        assert_eq!(
            seen.sent.as_deref(),
            Some("HTTP/1.0 200 Ok\nContent-Type: text/html\nContent-Length: 13\n\n<h1>docs</h1>\n"),
            "{target}"
        );
    }
}

#[test]
fn request_for_directory_without_index_document_is_not_found() {
    let seen = run(&site(), "GET /empty/ HTTP/1.0\r\n\r\n", true);
    assert_eq!(seen.sent.as_deref(), Some("HTTP/1.0 404 Not Found\n\n"));
    let mut bare = Disk::new("/srv/www");
    bare.dir("/srv");
    let seen = run(&bare, "GET / HTTP/1.0\r\n\r\n", true);
    assert_eq!(seen.sent.as_deref(), Some("HTTP/1.0 404 Not Found\n\n"));
}

#[test]
fn targets_that_leave_the_root_are_forbidden() {
    for target in ["/../../etc/passwd", "//etc/passwd", "/..", "/docs/../../../etc", "//", "/../www/../../etc/passwd"] {
        let seen = run(&site(), &format!("GET {target} HTTP/1.0\r\n\r\n"), true);
        if target == "//" {
            // two slashes are stripped to nothing: the root itself
            assert_eq!(seen.logged.unwrap().1.status, HttpStatus::OK);
            continue;
        }
        let (_, response) = seen.logged.unwrap();
        assert_eq!(response.status, HttpStatus::Forbidden, "{target}");
        assert_eq!(response.body, None);
        assert_eq!(seen.queries.len(), 1, "{target}");
    }
}

#[test]
fn escape_to_nothing_is_not_found() {
    let seen = run(&site(), "GET /../../etc/shadow HTTP/1.0\r\n\r\n", true);
    assert_eq!(seen.logged.unwrap().1.status, HttpStatus::NotFound);
}

#[test]
fn other_methods_are_refused_before_the_disk_is_asked() {
    for method in ["POST", "PUT", "DELETE", "HEAD", "OPTIONS", "PATCH", "get", "BREW"] {
        let seen = run(&site(), &format!("{method} /index.html HTTP/1.0\r\n\r\n"), true);
        assert_eq!(seen.sent.as_deref(), Some("HTTP/1.0 405 Method Not Allowed\n\n"), "{method}");
        assert!(seen.queries.is_empty());
    }
}

#[test]
fn other_versions_are_not_supported() {
    for version in ["HTTP/1.1", "HTTP/2.0", "HTTP/0.9", "http/1.0", "HTTP/1.0\t", "x"] {
        let seen = run(&site(), &format!("GET / {version}\r\nHost: x\r\n\r\n"), true);
        assert_eq!(
            seen.sent.as_deref(),
            Some("HTTP/1.0 505 Http Version Not Supported\n\n"),
            "{version}"
        );
        assert!(seen.logged.is_none());
        assert_eq!(seen.reads, 1);
    }
}

#[test]
fn request_line_without_three_tokens_is_a_bad_request() {
    for line in ["GET", "GET /", "GET / HTTP/1.0 x", "", "GET  / HTTP/1.0"] {
        let seen = run(&site(), &format!("{line}\r\nHost: x\r\n\r\n"), true);
        assert_eq!(seen.sent.as_deref(), Some("HTTP/1.0 400 Bad Request\n\n"), "{line:?}");
        assert!(seen.logged.is_none());
        assert!(seen.queries.is_empty());
    }
}

#[test]
fn malformed_header_and_invalid_method_are_bad_requests() {
    let seen = run(&site(), "GET / HTTP/1.0\r\nHost\r\n\r\n", true);
    assert_eq!(seen.sent.as_deref(), Some("HTTP/1.0 400 Bad Request\n\n"));
    let seen = run(&site(), "G(T / HTTP/1.0\r\n\r\n", true);
    assert_eq!(seen.sent.as_deref(), Some("HTTP/1.0 400 Bad Request\n\n"));
}

#[test]
fn stream_without_bytes_is_closed_in_silence() {
    let seen = run(&site(), "", true);
    assert_eq!(seen.sent, None);
    assert!(seen.logged.is_none());
    assert_eq!(seen.reads, 1);
}

#[test]
fn read_failure_is_answered_with_an_internal_error() {
    let state = match accept() {
        Progress::Do(Action::ReadLine, state) => state,
        other => panic!("{other:?}"),
    };
    match advance(state, Event::Read(StreamEvent::Failed("reset".to_string()))) {
        Progress::Do(Action::Send(text), ConnectionState::Sending(None, response)) => {
            assert_eq!(text, "HTTP/1.0 500 Interal Server Errror\n\n");
            assert_eq!(response.status, HttpStatus::InternalServerError);
        }
        other => panic!("{other:?}"),
    }
}

#[test]
fn file_that_cannot_be_read_is_an_internal_error() {
    let seen = run(&site(), "GET /broken.txt HTTP/1.0\r\n\r\n", true);
    assert_eq!(seen.sent.as_deref(), Some("HTTP/1.0 500 Interal Server Errror\n\n"));
    assert_eq!(seen.logged.unwrap().1.status.code(), 500);
}

#[test]
fn response_that_cannot_be_written_is_not_logged() {
    let seen = run(&site(), "GET / HTTP/1.0\r\n\r\n", false);
    assert_eq!(seen.sent, None);
    assert!(seen.logged.is_none());
}

#[test]
fn lines_are_read_up_to_the_empty_line_and_no_further() {
    let seen = run(&site(), "GET / HTTP/1.0\r\nHost: x\r\nAccept: y\r\n\r\nrest\r\nmore\r\n", true);
    assert_eq!(seen.reads, 4);
    assert_eq!(seen.logged.unwrap().0.headers.unwrap().len(), 2);
}

#[test]
fn same_request_twice_gives_the_same_response() {
    let disk = site();
    for target in ["/", "/docs", "/missing", "/../../etc/passwd", "/style.css"] {
        let input = format!("GET {target} HTTP/1.0\r\n\r\n");
        let first = run(&disk, &input, true);
        let second = run(&disk, &input, true);
        assert_eq!(first.sent, second.sent);
        assert_eq!(first.queries, second.queries);
        assert_eq!(first.logged, second.logged);
    }
}

#[test]
fn event_of_another_kind_closes_the_connection() {
    let state = match accept() {
        Progress::Do(Action::ReadLine, state) => state,
        other => panic!("{other:?}"),
    };
    assert_eq!(advance(state, Event::Sent(true)), Progress::Close);
    let response = HttpResponse::new(HttpStatus::OK, None, None);
    assert_eq!(
        advance(
            ConnectionState::Sending(None, response.clone()),
            Event::Read(StreamEvent::End)
        ),
        Progress::Close
    );
    assert_eq!(advance(ConnectionState::Sending(None, response), Event::Sent(true)), Progress::Close);
}

#[test]
fn handler_refuses_and_serves() {
    let request = HttpRequest::new(HttpMethod::Get, "/a.json".to_string(), HttpVersion::HTTP1_0, None, None);
    let state = match process_request(&request) {
        Handling::Ask(FsQuery::Canonicalize { relative }, state) => {
            assert_eq!(relative, "a.json");
            state
        }
        other => panic!("{other:?}"),
    };
    assert_eq!(state, HandlerState::Resolving(ResolverState::Canonical));
    let file = FilePath { components: vec!["/".to_string(), "a.json".to_string()] };
    let root = FilePath { components: vec!["/".to_string()] };
    let state = match resume(state, FsAnswer::Canonical { candidate: Ok(file.clone()), root: Ok(root) }) {
        Handling::Ask(FsQuery::EntryKind { path }, state) => {
            assert_eq!(path, file);
            state
        }
        other => panic!("{other:?}"),
    };
    let state = match resume(state, FsAnswer::Kind(EntryKind::File)) {
        Handling::Ask(FsQuery::ReadFile { path }, state) => {
            assert_eq!(path, file);
            state
        }
        other => panic!("{other:?}"),
    };
    assert_eq!(state, HandlerState::Reading(file.clone()));
    match resume(state, FsAnswer::Content(Ok("{}".to_string()))) {
        Handling::Done(response) => {
            assert_eq!(
                response.to_string(),
                "HTTP/1.0 200 Ok\nContent-Type: application/json\nContent-Length: 2\n\n{}\n"
            );
        }
        other => panic!("{other:?}"),
    }
    match resume(HandlerState::Reading(file), FsAnswer::Kind(EntryKind::File)) {
        Handling::Done(response) => assert_eq!(response.status, HttpStatus::InternalServerError),
        other => panic!("{other:?}"),
    }
}

#[test]
fn rejection_carries_the_status_of_the_error() {
    assert_eq!(reject(ParseRequestError::InvalidUri).status, HttpStatus::BadRequest);
    assert_eq!(
        reject(ParseRequestError::UnsupportedHttpVersion).to_string(),
        "HTTP/1.0 505 Http Version Not Supported\n\n"
    );
    assert_eq!(reject(ParseRequestError::IoError("x".to_string())).status.code(), 500);
}
