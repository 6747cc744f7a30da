//! The statuses the server can answer with.

use vstd::prelude::*;
use vstd::string::*;
use vstd::std_specs::convert::FromSpecImpl;
use crate::fs::FsError;
use crate::request::{ParseRequestError, ParseRequestErrorModel};

verus! {

/// The statuses the server can answer with, each with its code and its
/// reason phrase.
#[derive(Debug, Clone, Copy, PartialEq, Eq, Structural)]
pub enum HttpStatus {
    BadRequest,
    Forbidden,
    HttpVersionNotSupported,
    InternalServerError,
    MethodNotAllowed,
    NotFound,
    OK,
}

impl HttpStatus {
    /// The numeric code of each status.
    pub open spec fn spec_code(self) -> u16 {
        match self {
            HttpStatus::BadRequest => 400,
            HttpStatus::Forbidden => 403,
            HttpStatus::HttpVersionNotSupported => 505,
            HttpStatus::InternalServerError => 500,
            HttpStatus::MethodNotAllowed => 405,
            HttpStatus::NotFound => 404,
            HttpStatus::OK => 200,
        }
    }

    /// The reason phrase of each status, as the server writes it.
    pub open spec fn reason(self) -> Seq<char> {
        match self {
            HttpStatus::BadRequest => "Bad Request"@,
            HttpStatus::Forbidden => "Forbidden"@,
            HttpStatus::HttpVersionNotSupported => "Http Version Not Supported"@,
            HttpStatus::InternalServerError => "Interal Server Errror"@,
            HttpStatus::MethodNotAllowed => "Method Not Allowed"@,
            HttpStatus::NotFound => "Not Found"@,
            HttpStatus::OK => "Ok"@,
        }
    }

    /// The status that answers a request that could not be read.
    pub open spec fn of_parse_error(error: ParseRequestErrorModel) -> HttpStatus {
        match error {
            ParseRequestErrorModel::UnsupportedHttpVersion => HttpStatus::HttpVersionNotSupported,
            ParseRequestErrorModel::MalformedRequest(_) => HttpStatus::BadRequest,
            ParseRequestErrorModel::InvalidMethod => HttpStatus::BadRequest,
            ParseRequestErrorModel::InvalidUri => HttpStatus::BadRequest,
            ParseRequestErrorModel::IoError(_) => HttpStatus::InternalServerError,
        }
    }

    /// The status that answers a request whose target led to no file.
    pub open spec fn of_fs_error(error: FsError) -> HttpStatus {
        match error {
            FsError::PermissionDenied => HttpStatus::Forbidden,
            FsError::NotFound => HttpStatus::NotFound,
            FsError::Other => HttpStatus::InternalServerError,
        }
    }

    /// The status that answers a request whose target led to no file.
    pub fn from_fs_error(error: FsError) -> (status: HttpStatus)
        ensures
            status == HttpStatus::of_fs_error(error),
    {
        match error {
            FsError::PermissionDenied => HttpStatus::Forbidden,
            FsError::NotFound => HttpStatus::NotFound,
            FsError::Other => HttpStatus::InternalServerError,
        }
    }

    /// The numeric code of this status.
    #[verifier::when_used_as_spec(spec_code)]
    pub fn code(self) -> (code: u16)
        ensures
            code == self.spec_code(),
    {
        match &self {
            HttpStatus::BadRequest => 400,
            HttpStatus::Forbidden => 403,
            HttpStatus::HttpVersionNotSupported => 505,
            HttpStatus::InternalServerError => 500,
            HttpStatus::MethodNotAllowed => 405,
            HttpStatus::NotFound => 404,
            HttpStatus::OK => 200,
        }
    }

    /// The reason phrase of this status.
    pub fn as_str(&self) -> (s: &'static str)
        ensures
            s@ == self.reason(),
    {
        match self {
            HttpStatus::BadRequest => "Bad Request",
            HttpStatus::Forbidden => "Forbidden",
            HttpStatus::HttpVersionNotSupported => "Http Version Not Supported",
            HttpStatus::InternalServerError => "Interal Server Errror",
            HttpStatus::MethodNotAllowed => "Method Not Allowed",
            HttpStatus::NotFound => "Not Found",
            HttpStatus::OK => "Ok",
        }
    }

    /// The reason phrase of this status, as an owned string.
    pub fn to_string(&self) -> (s: String)
        ensures
            s@ == self.reason(),
    {
        String::from_str(self.as_str())
    }
}

impl From<ParseRequestError> for HttpStatus {
    fn from(error: ParseRequestError) -> (status: HttpStatus) {
        match error {
            ParseRequestError::UnsupportedHttpVersion => HttpStatus::HttpVersionNotSupported,
            ParseRequestError::MalformedRequest(_)
            | ParseRequestError::InvalidMethod
            | ParseRequestError::InvalidUri => HttpStatus::BadRequest,
            ParseRequestError::IoError(_) => HttpStatus::InternalServerError,
        }
    }
}

impl FromSpecImpl<ParseRequestError> for HttpStatus {
    open spec fn obeys_from_spec() -> bool {
        true
    }

    open spec fn from_spec(error: ParseRequestError) -> HttpStatus {
        HttpStatus::of_parse_error(error@)
    }
}

/// Every status has a code between 200 and 505, and statuses with the same
/// code are the same status.
pub proof fn lemma_codes_distinct(a: HttpStatus, b: HttpStatus)
    ensures
        200 <= a.spec_code() <= 505,
        a.spec_code() == b.spec_code() ==> a == b,
{
}

} // verus!
