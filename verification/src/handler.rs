//! From a request to its response.
//!
//! The handler validates the request, has its target resolved, has the
//! file read, and builds the response. Like the resolver it only decides:
//! each step hands out one query for the caller to answer, or the response.

use vstd::prelude::*;
use vstd::string::*;
use vstd::utf8::encode_utf8;
use crate::fs::{
    extension_of, EntryKind, FilePath, FileSystem, FsAnswer, FsAnswerModel, FsError, FsQuery,
    FsQueryModel,
};
use crate::headers::{lemma_position_unique, lookup, HttpHeaders};
use crate::mime::Mime;
use crate::request::{
    HttpMethod, HttpMethodModel, HttpRequest, HttpRequestModel, HttpVersion, ParseRequestError,
};
use crate::resolve::{
    begin, index_document, next, resolve, resolve_uri, strip_slashes, Resolution,
    ResolutionModel, ResolverState, ResolverStateModel,
};
use crate::response::{response_of, HttpResponse, HttpResponseModel};
use crate::status::HttpStatus;
use crate::text::decimal;

verus! {

/// The response that carries `status` and nothing else.
pub open spec fn refusal(status: HttpStatus) -> HttpResponseModel {
    response_of(status, None, None)
}

/// The response that serves the file at `path`, which holds `text`: the
/// text is the body, and the content type is the one that the path's
/// extension names.
pub open spec fn served(path: Seq<Seq<char>>, text: Seq<char>) -> HttpResponseModel {
    response_of(
        HttpStatus::OK,
        Some(seq![("Content-Type"@, Mime::of_extension(extension_of(path)).content_type())]),
        Some(text),
    )
}

/// The response to `request` in the file system `fs`.
///
/// A method other than `GET` is answered with `MethodNotAllowed`, a
/// version other than the one the server speaks with
/// `HttpVersionNotSupported`. A target that resolves to no file is answered
/// with the status of the failure, a file that cannot be read with
/// `InternalServerError`. Otherwise the file is served.
pub open spec fn respond(fs: FileSystem, request: HttpRequestModel) -> HttpResponseModel {
    if request.method != HttpMethodModel::Get {
        refusal(HttpStatus::MethodNotAllowed)
    } else if request.version != HttpVersion::HTTP1_0 {
        refusal(HttpStatus::HttpVersionNotSupported)
    } else {
        match resolve(fs, request.uri) {
            Err(e) => refusal(HttpStatus::of_fs_error(e)),
            Ok(path) => match (fs.content)(path) {
                Err(_) => refusal(HttpStatus::InternalServerError),
                Ok(text) => served(path, text),
            },
        }
    }
}

/// What the handler is waiting to hear.
#[derive(Debug, Clone, PartialEq, Eq)]
pub enum HandlerState {
    /// An answer for the resolver.
    Resolving(ResolverState),
    /// The text of the file at the resolved path.
    Reading(FilePath),
}

/// What a [`HandlerState`] stands for.
pub enum HandlerStateModel {
    Resolving(ResolverStateModel),
    Reading(Seq<Seq<char>>),
}

impl View for HandlerState {
    type V = HandlerStateModel;

    open spec fn view(&self) -> HandlerStateModel {
        match self {
            HandlerState::Resolving(state) => HandlerStateModel::Resolving(state@),
            HandlerState::Reading(path) => HandlerStateModel::Reading(path@),
        }
    }
}

/// One step of handling a request: a query to answer, with the state to
/// resume from, or the response.
#[derive(Debug, PartialEq, Eq)]
pub enum Handling {
    Ask(FsQuery, HandlerState),
    Done(HttpResponse),
}

/// What a [`Handling`] stands for.
pub enum HandlingModel {
    Ask(FsQueryModel, HandlerStateModel),
    Done(HttpResponseModel),
}

impl View for Handling {
    type V = HandlingModel;

    open spec fn view(&self) -> HandlingModel {
        match self {
            Handling::Ask(query, state) => HandlingModel::Ask(query@, state@),
            Handling::Done(response) => HandlingModel::Done(response@),
        }
    }
}

/// The handler's step for a step of the resolver: its queries are passed
/// on, a failure is answered with its status, and a resolved path is read.
pub open spec fn after_resolution(step: ResolutionModel) -> HandlingModel {
    match step {
        ResolutionModel::Ask(query, state) => HandlingModel::Ask(
            query,
            HandlerStateModel::Resolving(state),
        ),
        ResolutionModel::Done(Err(e)) => HandlingModel::Done(refusal(HttpStatus::of_fs_error(e))),
        ResolutionModel::Done(Ok(path)) => HandlingModel::Ask(
            FsQueryModel::ReadFile { path },
            HandlerStateModel::Reading(path),
        ),
    }
}

/// The first step for `request`: a refusal, or the resolver's first query.
pub open spec fn first_step(request: HttpRequestModel) -> HandlingModel {
    if request.method != HttpMethodModel::Get {
        HandlingModel::Done(refusal(HttpStatus::MethodNotAllowed))
    } else if request.version != HttpVersion::HTTP1_0 {
        HandlingModel::Done(refusal(HttpStatus::HttpVersionNotSupported))
    } else {
        after_resolution(begin(request.uri))
    }
}

/// The step that follows when `answer` arrives in `state`. While the file
/// is awaited, anything but its text is answered with
/// `InternalServerError`.
pub open spec fn next_step(state: HandlerStateModel, answer: FsAnswerModel) -> HandlingModel {
    match state {
        HandlerStateModel::Resolving(resolver) => after_resolution(next(resolver, answer)),
        HandlerStateModel::Reading(path) => match answer {
            FsAnswerModel::Content(Ok(text)) => HandlingModel::Done(served(path, text)),
            _ => HandlingModel::Done(refusal(HttpStatus::InternalServerError)),
        },
    }
}

/// How many more queries a step can lead to, at most.
pub open spec fn queries_left(step: HandlingModel) -> nat {
    match step {
        HandlingModel::Done(_) => 0,
        HandlingModel::Ask(_, HandlerStateModel::Reading(_)) => 1,
        HandlingModel::Ask(_, HandlerStateModel::Resolving(ResolverStateModel::Index(_))) => 2,
        HandlingModel::Ask(_, HandlerStateModel::Resolving(ResolverStateModel::Target(_))) => 3,
        HandlingModel::Ask(_, HandlerStateModel::Resolving(ResolverStateModel::Canonical)) => 4,
    }
}

/// The response that `step` leads to when `fs` answers every query.
pub open spec fn response_after(fs: FileSystem, step: HandlingModel) -> HttpResponseModel
    decreases queries_left(step),
{
    match step {
        HandlingModel::Done(response) => response,
        HandlingModel::Ask(query, state) => response_after(
            fs,
            next_step(state, fs.answer(query)),
        ),
    }
}

fn refuse(status: HttpStatus) -> (response: HttpResponse)
    ensures
        response@ == refusal(status),
{
    HttpResponse::new(status, None, None)
}

fn serve(path: &FilePath, text: String) -> (response: HttpResponse)
    ensures
        response@ == served(path@, text@),
{
    let ext = path.extension();
    let mime = Mime::from_extension(
        match &ext {
            Some(e) => Some(e.as_str()),
            None => None,
        },
    );
    let mut headers = HttpHeaders::new();
    headers.insert(String::from_str("Content-Type"), String::from_str(mime.as_str()));
    assert(headers@ =~= seq![("Content-Type"@, mime.content_type())]);
    HttpResponse::new(HttpStatus::OK, Some(headers), Some(text))
}

fn follow(step: Resolution) -> (handling: Handling)
    ensures
        handling@ == after_resolution(step@),
{
    match step {
        Resolution::Ask(query, state) => Handling::Ask(query, HandlerState::Resolving(state)),
        Resolution::Done(Err(e)) => Handling::Done(refuse(HttpStatus::from_fs_error(e))),
        Resolution::Done(Ok(path)) => Handling::Ask(
            FsQuery::ReadFile { path: path.clone() },
            HandlerState::Reading(path),
        ),
    }
}

/// The response to a request that could not be read: the status of the
/// failure, and nothing else.
pub fn reject(error: ParseRequestError) -> (response: HttpResponse)
    ensures
        response@ == refusal(HttpStatus::of_parse_error(error@)),
{
    refuse(HttpStatus::from(error))
}

/// Begins to handle `request`: a refusal, or the first query to answer.
pub fn process_request(request: &HttpRequest) -> (step: Handling)
    ensures
        step@ == first_step(request@),
{
    match &request.method {
        HttpMethod::Get => {},
        HttpMethod::Other(_) => {
            return Handling::Done(refuse(HttpStatus::MethodNotAllowed));
        },
    }
    if request.version != HttpVersion::HTTP1_0 {
        return Handling::Done(refuse(HttpStatus::HttpVersionNotSupported));
    }
    follow(resolve_uri(request.uri.as_str()))
}

/// Resumes the handling of a request with the answer to its last query.
pub fn resume(state: HandlerState, answer: FsAnswer) -> (step: Handling)
    ensures
        step@ == next_step(state@, answer@),
{
    match state {
        HandlerState::Resolving(resolver) => follow(crate::resolve::resume(resolver, answer)),
        HandlerState::Reading(path) => match answer {
            FsAnswer::Content(Ok(text)) => Handling::Done(serve(&path, text)),
            _ => Handling::Done(refuse(HttpStatus::InternalServerError)),
        },
    }
}

/// Answering every query from one file system leads to the response that
/// `respond` names.
pub proof fn lemma_response_is_respond(fs: FileSystem, request: HttpRequestModel)
    ensures
        response_after(fs, first_step(request)) == respond(fs, request),
{
    reveal_with_fuel(response_after, 5);
}

/// A response that serves a file says `OK`, carries the file's text, and
/// announces the content type of the file's extension and the length of the
/// text in bytes.
pub proof fn lemma_served(path: Seq<Seq<char>>, text: Seq<char>)
    ensures
        served(path, text).status == HttpStatus::OK,
        served(path, text).body == Some(text),
        served(path, text).headers matches Some(fields) && lookup(fields, "Content-Type"@) == Some(
            Mime::of_extension(extension_of(path)).content_type(),
        ) && lookup(fields, "Content-Length"@) == Some(decimal(encode_utf8(text).len())),
{
    reveal_strlit("Content-Type");
    reveal_strlit("Content-Length");
    let kind = Mime::of_extension(extension_of(path)).content_type();
    let given = seq![("Content-Type"@, kind)];
    let length = decimal(encode_utf8(text).len());
    let sent = given.push(("Content-Length"@, length));
    assert("Content-Type"@.len() != "Content-Length"@.len());
    lemma_position_unique(given, "Content-Length"@, 1);
    lemma_position_unique(sent, "Content-Type"@, 0);
    lemma_position_unique(sent, "Content-Length"@, 1);
}

/// A response that refuses a request carries its status, no body and no
/// header field.
pub proof fn lemma_refusal(status: HttpStatus)
    ensures
        refusal(status).status == status,
        refusal(status).body.is_none(),
        refusal(status).headers == Some(Seq::<(Seq<char>, Seq<char>)>::empty()),
{
}

/// A `GET` request whose target leads to a regular file under the root
/// directory is answered with `OK`, with the text of that file as the body
/// and with the content type of its extension.
pub proof fn lemma_file_is_served(
    fs: FileSystem,
    request: HttpRequestModel,
    root: Seq<Seq<char>>,
    path: Seq<Seq<char>>,
    text: Seq<char>,
)
    requires
        request.method == HttpMethodModel::Get,
        fs.root == Ok::<Seq<Seq<char>>, FsError>(root),
        (fs.canonical)(strip_slashes(request.uri)) == Ok::<Seq<Seq<char>>, FsError>(
            path,
        ),
        root.is_prefix_of(path),
        (fs.kind)(path) == EntryKind::File,
        (fs.content)(path) == Ok::<Seq<char>, FsError>(text),
    ensures
        response_after(fs, first_step(request)) == served(path, text),
        served(path, text).status == HttpStatus::OK,
        served(path, text).body == Some(text),
        served(path, text).headers matches Some(fields) && lookup(fields, "Content-Type"@) == Some(
            Mime::of_extension(extension_of(path)).content_type(),
        ),
{
    lemma_response_is_respond(fs, request);
    lemma_served(path, text);
}

/// A `GET` request whose target leads to a directory under the root is
/// answered with the index document of that directory, where that is a
/// regular file, and with `NotFound` where it is not.
pub proof fn lemma_directory_serves_index(
    fs: FileSystem,
    request: HttpRequestModel,
    root: Seq<Seq<char>>,
    path: Seq<Seq<char>>,
)
    requires
        request.method == HttpMethodModel::Get,
        fs.root == Ok::<Seq<Seq<char>>, FsError>(root),
        (fs.canonical)(strip_slashes(request.uri)) == Ok::<Seq<Seq<char>>, FsError>(
            path,
        ),
        root.is_prefix_of(path),
        (fs.kind)(path) == EntryKind::Directory,
    ensures
        (fs.kind)(path.push(index_document())) == EntryKind::File ==> (
        (fs.content)(path.push(index_document())) matches Ok(text) ==> response_after(
            fs,
            first_step(request),
        ) == served(path.push(index_document()), text)),
        (fs.kind)(path.push(index_document())) != EntryKind::File ==> response_after(
            fs,
            first_step(request),
        ) == refusal(HttpStatus::NotFound),
{
    lemma_response_is_respond(fs, request);
}

/// A request with any method but `GET` is refused with `MethodNotAllowed`
/// before the file system is asked anything, so that no file can reach the
/// response.
pub proof fn lemma_other_methods_refused(request: HttpRequestModel)
    requires
        request.method != HttpMethodModel::Get,
    ensures
        first_step(request) == HandlingModel::Done(refusal(HttpStatus::MethodNotAllowed)),
        refusal(HttpStatus::MethodNotAllowed).status.spec_code() == 405,
        refusal(HttpStatus::MethodNotAllowed).body.is_none(),
{
}

/// A `GET` request whose target leaves the root directory is refused with
/// `Forbidden`, and the file system is not asked what the target leads to.
pub proof fn lemma_escape_is_forbidden(
    fs: FileSystem,
    request: HttpRequestModel,
    root: Seq<Seq<char>>,
    path: Seq<Seq<char>>,
)
    requires
        request.method == HttpMethodModel::Get,
        fs.root == Ok::<Seq<Seq<char>>, FsError>(root),
        (fs.canonical)(strip_slashes(request.uri)) == Ok::<Seq<Seq<char>>, FsError>(
            path,
        ),
        !root.is_prefix_of(path),
    ensures
        response_after(fs, first_step(request)) == refusal(HttpStatus::Forbidden),
        next_step(
            HandlerStateModel::Resolving(ResolverStateModel::Canonical),
            FsAnswerModel::Canonical { candidate: Ok(path), root: Ok(root) },
        ) == HandlingModel::Done(refusal(HttpStatus::Forbidden)),
{
    lemma_response_is_respond(fs, request);
}

} // verus!
