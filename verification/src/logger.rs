//! Access-log lines, one per handled request.

use vstd::prelude::*;
use vstd::string::*;
use vstd::utf8::encode_utf8;
use crate::headers::lookup;
use crate::request::{HttpRequest, HttpRequestModel};
use crate::response::{HttpResponse, HttpResponseModel};
use crate::text::{decimal, decimal_string};

verus! {

/// The layouts in which an access-log line can be written.
#[derive(Debug, Clone, Copy, PartialEq, Eq, Structural)]
pub enum LogFormat {
    /// The combined log format.
    Combined,
}

/// A line in the combined log format: the peer address, a dash for the
/// remote identity, the remote user, the time in square brackets, the
/// request line in quotes, the status code, the number of body bytes sent,
/// and the referer and the user agent, each in quotes.
pub open spec fn combined(
    remote_addr: Seq<char>,
    remote_user: Seq<char>,
    time_local: Seq<char>,
    request_line: Seq<char>,
    status: nat,
    body_bytes_sent: nat,
    referer: Seq<char>,
    user_agent: Seq<char>,
) -> Seq<char> {
    remote_addr + seq![' ', '-', ' '] + remote_user + seq![' ', '['] + time_local + seq![
        ']',
        ' ',
        '"',
    ] + request_line + seq!['"', ' '] + decimal(status) + seq![' '] + decimal(body_bytes_sent)
        + seq![' ', '"'] + referer + seq!['"', ' ', '"'] + user_agent + seq!['"']
}

impl LogFormat {
    /// Lays the fields of one access out as a log line, without a line end.
    pub fn format(
        &self,
        remote_addr: &str,
        remote_user: &str,
        time_local: &str,
        request_line: &str,
        status: u16,
        body_bytes_sent: usize,
        referer: &str,
        user_agent: &str,
    ) -> (line: String)
        ensures
            line@ == combined(
                remote_addr@,
                remote_user@,
                time_local@,
                request_line@,
                status as nat,
                body_bytes_sent as nat,
                referer@,
                user_agent@,
            ),
    {
        proof {
            reveal_strlit(" - ");
            reveal_strlit(" [");
            reveal_strlit("] \"");
            reveal_strlit("\" ");
            reveal_strlit(" ");
            reveal_strlit(" \"");
            reveal_strlit("\" \"");
            reveal_strlit("\"");
        }
        assert(" - "@ =~= seq![' ', '-', ' ']);
        assert(" ["@ =~= seq![' ', '[']);
        assert("] \""@ =~= seq![']', ' ', '"']);
        assert("\" "@ =~= seq!['"', ' ']);
        assert(" "@ =~= seq![' ']);
        assert(" \""@ =~= seq![' ', '"']);
        assert("\" \""@ =~= seq!['"', ' ', '"']);
        assert("\""@ =~= seq!['"']);
        match self {
            LogFormat::Combined => {
                let mut line = String::from_str(remote_addr);
                line.append(" - ");
                line.append(remote_user);
                line.append(" [");
                line.append(time_local);
                line.append("] \"");
                line.append(request_line);
                line.append("\" ");
                line.append(decimal_string(status as usize).as_str());
                line.append(" ");
                line.append(decimal_string(body_bytes_sent).as_str());
                line.append(" \"");
                line.append(referer);
                line.append("\" \"");
                line.append(user_agent);
                line.append("\"");
                line
            },
        }
    }
}

/// The request line as it is logged: the method's token, the target and
/// the version's token, with one space between them.
pub open spec fn request_line_of(request: HttpRequestModel) -> Seq<char> {
    request.method.token() + seq![' '] + request.uri + seq![' '] + request.version.token()
}

/// The value of the request's header field `name`, or a dash where the
/// request has no such field.
pub open spec fn field_or_dash(request: HttpRequestModel, name: Seq<char>) -> Seq<char> {
    match request.headers {
        Some(fields) => match lookup(fields, name) {
            Some(value) => value,
            None => seq!['-'],
        },
        None => seq!['-'],
    }
}

/// The number of bytes in the body of `response`.
pub open spec fn body_bytes(response: HttpResponseModel) -> nat {
    match response.body {
        Some(body) => encode_utf8(body).len(),
        None => 0,
    }
}

/// The access-log entry for one request and its response, written at the
/// local time `time_local`: a line in the combined format, with `"-"` as the
/// remote user, and a line end.
pub open spec fn log_entry(
    request: HttpRequestModel,
    response: HttpResponseModel,
    remote_addr: Seq<char>,
    time_local: Seq<char>,
) -> Seq<char> {
    combined(
        remote_addr,
        seq!['"', '-', '"'],
        time_local,
        request_line_of(request),
        response.status.spec_code() as nat,
        body_bytes(response),
        field_or_dash(request, "Referer"@),
        field_or_dash(request, "User-Agent"@),
    ) + seq!['\n']
}

fn header_or_dash<'a>(request: &'a HttpRequest, name: &str) -> (value: &'a str)
    ensures
        value@ == field_or_dash(request@, name@),
{
    proof {
        reveal_strlit("-");
    }
    assert("-"@ =~= seq!['-']);
    match &request.headers {
        Some(fields) => match fields.get(name) {
            Some(value) => value,
            None => "-",
        },
        None => "-",
    }
}

/// The access-log entry for one request and its response, written at the
/// local time `time_local`.
pub fn format_request_log(
    request: &HttpRequest,
    response: &HttpResponse,
    remote_addr: &str,
    time_local: &str,
) -> (entry: String)
    ensures
        entry@ == log_entry(request@, response@, remote_addr@, time_local@),
{
    proof {
        reveal_strlit("\"-\"");
        reveal_strlit(" ");
        reveal_strlit("\n");
    }
    assert("\"-\""@ =~= seq!['"', '-', '"']);
    assert(" "@ =~= seq![' ']);
    assert("\n"@ =~= seq!['\n']);
    let mut request_line = request.method.to_string();
    request_line.append(" ");
    request_line.append(request.uri.as_str());
    request_line.append(" ");
    request_line.append(request.version.as_str());
    assert(request_line@ =~= request_line_of(request@));
    let body_bytes_sent = match &response.body {
        Some(body) => body.as_str().as_bytes().len(),
        None => 0,
    };
    let referer = header_or_dash(request, "Referer");
    let user_agent = header_or_dash(request, "User-Agent");
    let mut entry = LogFormat::Combined.format(
        remote_addr,
        "\"-\"",
        time_local,
        request_line.as_str(),
        response.status.code(),
        body_bytes_sent,
        referer,
        user_agent,
    );
    entry.append("\n");
    entry
}

/// `std::time::SystemTime`, carried through without looking inside.
#[verifier::external_type_specification]
#[verifier::external_body]
pub struct ExSystemTime(std::time::SystemTime);

/// jiff's `Zoned`, an instant in a time zone, carried through without
/// looking inside.
#[verifier::external_type_specification]
#[verifier::external_body]
pub struct ExZoned(jiff::Zoned);

/// jiff's `Error`, carried through without looking inside.
#[verifier::external_type_specification]
#[verifier::external_body]
pub struct ExJiffError(jiff::Error);

/// `std::time::SystemTime::now`: the reading of the system clock. Nothing
/// is claimed of it.
#[verifier::external_body]
fn system_time() -> (now: std::time::SystemTime) {
    std::time::SystemTime::now()
}

/// jiff's `Zoned::try_from` for a `SystemTime`: that instant in the
/// system's time zone, or an error for an instant outside the years that
/// jiff supports. Nothing is claimed of which it is.
#[verifier::external_body]
fn zoned_from(time: std::time::SystemTime) -> (zoned: Result<jiff::Zoned, jiff::Error>) {
    jiff::Zoned::try_from(time)
}

/// jiff's `Zoned::strftime`, with its result written out as a string.
/// Nothing is claimed of the text; jiff formats leniently and reports no
/// error.
#[verifier::external_body]
fn strftime(zoned: &jiff::Zoned, format: &str) -> (text: String) {
    zoned.strftime(format).to_string()
}

/// Why no log entry could be made.
#[derive(Debug, Clone, Copy, PartialEq, Eq, Structural)]
pub enum LogError {
    /// The system clock shows an instant that cannot be written as a date.
    ClockOutOfRange,
}

/// The access-log entry for one request and its response, written at the
/// present local time. The clock decides whether there is an entry; an
/// entry that is made is [`log_entry`] at some time.
pub fn request_log(request: &HttpRequest, response: &HttpResponse, remote_addr: &str) -> (r: Result<
    String,
    LogError,
>)
    ensures
        r matches Ok(entry) ==> exists|time_local: Seq<char>|
            entry@ == log_entry(request@, response@, remote_addr@, time_local),
{
    request_log_at(request, response, remote_addr, zoned_from(system_time()))
}

/// The access-log entry for one request and its response, written at the
/// instant that reading the clock gave. Where the clock gave an instant,
/// there is an entry, and it is [`log_entry`] at the local time that jiff
/// writes for that instant; where it gave none, there is
/// `ClockOutOfRange`.
pub fn request_log_at(
    request: &HttpRequest,
    response: &HttpResponse,
    remote_addr: &str,
    now: Result<jiff::Zoned, jiff::Error>,
) -> (r: Result<String, LogError>)
    ensures
        match r {
            Ok(entry) => now is Ok && exists|time_local: Seq<char>|
                entry@ == log_entry(request@, response@, remote_addr@, time_local),
            Err(e) => now is Err && e == LogError::ClockOutOfRange,
        },
{
    match now {
        Ok(instant) => {
            let time_local = strftime(&instant, "%d/%b/%Y:%H:%M:%S %z");
            let entry = format_request_log(request, response, remote_addr, time_local.as_str());
            assert(entry@ == log_entry(request@, response@, remote_addr@, time_local@));
            Ok(entry)
        },
        Err(_) => Err(LogError::ClockOutOfRange),
    }
}

} // verus!
