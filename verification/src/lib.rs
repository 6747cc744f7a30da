//! The protocol engine of a small HTTP/1.0 static file server.
//!
//! The engine reads a request from a stream of lines, resolves its target
//! to a file under a root directory, and builds the response and the
//! access-log entry. It does no input or output itself: at every step it
//! tells its caller what to do next, and takes what came of it.
//!
//! * [`connection`] runs one connection from its first line to its end.
//! * [`parse`] reads the request, [`handler`] answers it, and [`resolve`]
//!   finds the file that its target names.
//! * [`request`], [`response`], [`headers`], [`status`] and [`mime`] hold
//!   the values that pass between them; [`fs`] holds what is asked of the
//!   file system.
//! * [`logger`] writes access-log entries, and [`text`] has the string
//!   helpers that the others share.

pub mod connection;
pub mod fs;
pub mod handler;
pub mod headers;
pub mod logger;
pub mod mime;
pub mod parse;
pub mod request;
pub mod resolve;
pub mod response;
pub mod status;
pub mod text;

pub use crate::headers::HttpHeaders;
pub use crate::logger::LogFormat;
pub use crate::mime::Mime;
pub use crate::request::{HttpMethod, HttpRequest, HttpVersion, ParseRequestError};
pub use crate::response::HttpResponse;
pub use crate::status::HttpStatus;
