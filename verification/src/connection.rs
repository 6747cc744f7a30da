//! One connection, from its first line to its log entry.
//!
//! A connection is read, handled, answered and logged, in that order. The
//! engine decides each step and its caller carries it out: it reads a line,
//! looks at the disk or writes the response, and reports what came of it.

use vstd::prelude::*;
use vstd::string::*;
use crate::fs::{
    EntryKind, FileSystem, FsAnswer, FsAnswerModel, FsError, FsQuery, FsQueryModel,
};
use crate::handler::{
    lemma_file_is_served, lemma_response_is_respond, process_request, refusal, reject, respond,
    response_after, served, HandlerState, HandlerStateModel, Handling, HandlingModel,
};
use crate::parse::{
    feed, last_event, read_request, result_after, start, ParserState, ParserStateModel, Parsing,
    ParsingModel, StreamEvent, StreamEventModel,
};
use crate::request::{
    HttpMethodModel, HttpRequest, HttpRequestModel, HttpVersion, ParseRequestErrorModel,
};
use crate::resolve::{strip_slashes, ResolverStateModel};
use crate::response::{wire_text, HttpResponse, HttpResponseModel};
use crate::status::HttpStatus;
use crate::text::split;

verus! {

/// What the caller is to do next.
#[derive(Debug, PartialEq, Eq)]
pub enum Action {
    /// Read one line from the stream.
    ReadLine,
    /// Find out what the query asks.
    Ask(FsQuery),
    /// Write the text to the stream.
    Send(String),
}

/// What came of an action.
#[derive(Debug, PartialEq, Eq)]
pub enum Event {
    /// What reading a line gave.
    Read(StreamEvent),
    /// The answer to a query.
    Answer(FsAnswer),
    /// Whether the text was written in full.
    Sent(bool),
}

/// Where a connection stands.
#[derive(Debug, PartialEq, Eq)]
pub enum ConnectionState {
    /// The request is being read.
    Reading(ParserState),
    /// The request has been read and is being handled.
    Handling(HttpRequest, HandlerState),
    /// The response is being written. It answers the request, or, where
    /// there is none, a stream that no request could be read from.
    Sending(Option<HttpRequest>, HttpResponse),
}

/// One step of a connection.
#[derive(Debug, PartialEq, Eq)]
pub enum Progress {
    /// An action to carry out, and the state to resume from.
    Do(Action, ConnectionState),
    /// The response has been written: log the request with it, and close.
    Log(HttpRequest, HttpResponse),
    /// Close, with nothing to log.
    Close,
}

/// What an [`Action`] stands for.
pub enum ActionModel {
    ReadLine,
    Ask(FsQueryModel),
    Send(Seq<char>),
}

/// What an [`Event`] stands for.
pub enum EventModel {
    Read(StreamEventModel),
    Answer(FsAnswerModel),
    Sent(bool),
}

/// What a [`ConnectionState`] stands for.
pub enum ConnectionStateModel {
    Reading(ParserStateModel),
    Handling(HttpRequestModel, HandlerStateModel),
    Sending(Option<HttpRequestModel>, HttpResponseModel),
}

/// What a [`Progress`] stands for.
pub enum ProgressModel {
    Do(ActionModel, ConnectionStateModel),
    Log(HttpRequestModel, HttpResponseModel),
    Close,
}

impl View for Action {
    type V = ActionModel;

    open spec fn view(&self) -> ActionModel {
        match self {
            Action::ReadLine => ActionModel::ReadLine,
            Action::Ask(query) => ActionModel::Ask(query@),
            Action::Send(text) => ActionModel::Send(text@),
        }
    }
}

impl View for Event {
    type V = EventModel;

    open spec fn view(&self) -> EventModel {
        match self {
            Event::Read(event) => EventModel::Read(event@),
            Event::Answer(answer) => EventModel::Answer(answer@),
            Event::Sent(done) => EventModel::Sent(*done),
        }
    }
}

/// The request that an optional request stands for.
pub open spec fn option_request(request: Option<HttpRequest>) -> Option<HttpRequestModel> {
    match request {
        Some(r) => Some(r@),
        None => None,
    }
}

impl View for ConnectionState {
    type V = ConnectionStateModel;

    open spec fn view(&self) -> ConnectionStateModel {
        match self {
            ConnectionState::Reading(parser) => ConnectionStateModel::Reading(parser@),
            ConnectionState::Handling(request, handler) => ConnectionStateModel::Handling(
                request@,
                handler@,
            ),
            ConnectionState::Sending(request, response) => ConnectionStateModel::Sending(
                option_request(*request),
                response@,
            ),
        }
    }
}

impl View for Progress {
    type V = ProgressModel;

    open spec fn view(&self) -> ProgressModel {
        match self {
            Progress::Do(action, state) => ProgressModel::Do(action@, state@),
            Progress::Log(request, response) => ProgressModel::Log(request@, response@),
            Progress::Close => ProgressModel::Close,
        }
    }
}

/// The step that sends `response`: its text goes to the stream.
pub open spec fn sending(
    request: Option<HttpRequestModel>,
    response: HttpResponseModel,
) -> ProgressModel {
    ProgressModel::Do(
        ActionModel::Send(wire_text(response)),
        ConnectionStateModel::Sending(request, response),
    )
}

/// The connection's step for a step of the handler: its queries are
/// passed on, and its response is sent.
pub open spec fn after_handling(request: HttpRequestModel, step: HandlingModel) -> ProgressModel {
    match step {
        HandlingModel::Ask(query, state) => ProgressModel::Do(
            ActionModel::Ask(query),
            ConnectionStateModel::Handling(request, state),
        ),
        HandlingModel::Done(response) => sending(Some(request), response),
    }
}

/// The connection's step for a step of the parser: another line is read; a
/// stream that held nothing is closed; an error is answered with its
/// status; a request is handled.
pub open spec fn after_parsing(step: ParsingModel) -> ProgressModel {
    match step {
        ParsingModel::ReadLine(state) => ProgressModel::Do(
            ActionModel::ReadLine,
            ConnectionStateModel::Reading(state),
        ),
        ParsingModel::Done(Ok(None)) => ProgressModel::Close,
        ParsingModel::Done(Err(e)) => sending(None, refusal(HttpStatus::of_parse_error(e))),
        ParsingModel::Done(Ok(Some(request))) => after_handling(
            request,
            crate::handler::first_step(request),
        ),
    }
}

/// The first step of every connection: read the request line.
pub open spec fn first_step() -> ProgressModel {
    after_parsing(crate::parse::first_step())
}

/// The step that follows when `event` arrives in `state`. An event of
/// another kind than the one awaited closes the connection, and so does a
/// response that could not be written. A response that was written is
/// logged with its request, if it has one.
pub open spec fn next_step(state: ConnectionStateModel, event: EventModel) -> ProgressModel {
    match (state, event) {
        (ConnectionStateModel::Reading(parser), EventModel::Read(read)) => after_parsing(
            crate::parse::next_step(parser, read),
        ),
        (ConnectionStateModel::Handling(request, handler), EventModel::Answer(answer)) => {
            after_handling(request, crate::handler::next_step(handler, answer))
        },
        (ConnectionStateModel::Sending(Some(request), response), EventModel::Sent(true)) => {
            ProgressModel::Log(request, response)
        },
        _ => ProgressModel::Close,
    }
}

fn send(request: Option<HttpRequest>, response: HttpResponse) -> (step: Progress)
    ensures
        step@ == sending(option_request(request), response@),
{
    Progress::Do(Action::Send(response.to_string()), ConnectionState::Sending(request, response))
}

fn handled(request: HttpRequest, step: Handling) -> (progress: Progress)
    ensures
        progress@ == after_handling(request@, step@),
{
    match step {
        Handling::Ask(query, state) => Progress::Do(
            Action::Ask(query),
            ConnectionState::Handling(request, state),
        ),
        Handling::Done(response) => send(Some(request), response),
    }
}

fn parsed(step: Parsing) -> (progress: Progress)
    ensures
        progress@ == after_parsing(step@),
{
    match step {
        Parsing::ReadLine(state) => Progress::Do(Action::ReadLine, ConnectionState::Reading(state)),
        Parsing::Done(Ok(None)) => Progress::Close,
        Parsing::Done(Err(e)) => send(None, reject(e)),
        Parsing::Done(Ok(Some(request))) => {
            let step = process_request(&request);
            handled(request, step)
        },
    }
}

/// The first step of a connection.
pub fn accept() -> (step: Progress)
    ensures
        step@ == first_step(),
{
    parsed(start())
}

/// Resumes a connection with what came of its last action.
pub fn advance(state: ConnectionState, event: Event) -> (step: Progress)
    ensures
        step@ == next_step(state@, event@),
{
    match (state, event) {
        (ConnectionState::Reading(parser), Event::Read(read)) => parsed(feed(parser, read)),
        (ConnectionState::Handling(request, handler), Event::Answer(answer)) => handled(
            request,
            crate::handler::resume(handler, answer),
        ),
        (ConnectionState::Sending(Some(request), response), Event::Sent(true)) => Progress::Log(
            request,
            response,
        ),
        _ => Progress::Close,
    }
}

/// What a connection meets: the lines its stream yields and the failure
/// it ends with, if it does not end in order; the file system; and whether
/// the stream can be written to.
pub struct World {
    pub lines: Seq<Seq<char>>,
    pub failure: Option<Seq<char>>,
    pub fs: FileSystem,
    pub writable: bool,
}

/// What a connection leaves behind: the text its peer received, and the
/// request and response that were handed on for logging.
pub struct Outcome {
    pub sent: Option<Seq<char>>,
    pub logged: Option<(HttpRequestModel, HttpResponseModel)>,
}

/// What comes of sending `response`, which answers `request` where there
/// is one: on a stream that can be written to, the peer receives the text
/// of the response, and the request is logged with it.
pub open spec fn delivered(
    world: World,
    request: Option<HttpRequestModel>,
    response: HttpResponseModel,
) -> Outcome {
    if world.writable {
        Outcome {
            sent: Some(wire_text(response)),
            logged: match request {
                Some(r) => Some((r, response)),
                None => None,
            },
        }
    } else {
        Outcome { sent: None, logged: None }
    }
}

/// What comes of a connection whose stream was read with `parsed`. A
/// stream that held nothing is closed in silence. A stream that no request
/// could be read from is answered with the status of the error, and nothing
/// is logged. A request is answered with its response, and logged with it.
pub open spec fn concluded(
    world: World,
    parsed: Result<Option<HttpRequestModel>, ParseRequestErrorModel>,
) -> Outcome {
    match parsed {
        Ok(None) => Outcome { sent: None, logged: None },
        Err(e) => delivered(world, None, refusal(HttpStatus::of_parse_error(e))),
        Ok(Some(request)) => delivered(world, Some(request), respond(world.fs, request)),
    }
}

/// What comes of a connection in `world`.
pub open spec fn conversation(world: World) -> Outcome {
    concluded(world, read_request(world.lines, world.failure))
}

/// How many more steps a connection can take without reading a line, at
/// most.
pub open spec fn steps_left(step: ProgressModel) -> nat {
    match step {
        ProgressModel::Close => 0,
        ProgressModel::Log(_, _) => 0,
        ProgressModel::Do(_, ConnectionStateModel::Sending(_, _)) => 1,
        ProgressModel::Do(_, ConnectionStateModel::Handling(_, HandlerStateModel::Reading(_))) => 2,
        ProgressModel::Do(
            _,
            ConnectionStateModel::Handling(
                _,
                HandlerStateModel::Resolving(ResolverStateModel::Index(_)),
            ),
        ) => 3,
        ProgressModel::Do(
            _,
            ConnectionStateModel::Handling(
                _,
                HandlerStateModel::Resolving(ResolverStateModel::Target(_)),
            ),
        ) => 4,
        ProgressModel::Do(
            _,
            ConnectionStateModel::Handling(
                _,
                HandlerStateModel::Resolving(ResolverStateModel::Canonical),
            ),
        ) => 5,
        ProgressModel::Do(_, ConnectionStateModel::Reading(_)) => 6,
    }
}

/// What comes of a connection that stands at `step`, when the stream still
/// holds `lines` and `world` answers every action. `ended` says whether the
/// end of the stream has been reported.
pub open spec fn outcome_after(
    world: World,
    lines: Seq<Seq<char>>,
    ended: bool,
    step: ProgressModel,
) -> Outcome
    decreases
            lines.len() + (if ended {
                0nat
            } else {
                1nat
            }),
            steps_left(step),
{
    match step {
        ProgressModel::Close => Outcome { sent: None, logged: None },
        ProgressModel::Log(request, response) => Outcome {
            sent: Some(wire_text(response)),
            logged: Some((request, response)),
        },
        ProgressModel::Do(ActionModel::Send(text), state) => {
            match next_step(state, EventModel::Sent(world.writable)) {
                ProgressModel::Log(request, response) => Outcome {
                    sent: Some(text),
                    logged: Some((request, response)),
                },
                _ => Outcome {
                    sent: if world.writable {
                        Some(text)
                    } else {
                        None
                    },
                    logged: None,
                },
            }
        },
        ProgressModel::Do(ActionModel::Ask(query), state) => {
            if state is Handling {
                outcome_after(
                    world,
                    lines,
                    ended,
                    next_step(state, EventModel::Answer(world.fs.answer(query))),
                )
            } else {
                Outcome { sent: None, logged: None }
            }
        },
        ProgressModel::Do(ActionModel::ReadLine, state) => {
            if lines.len() > 0 {
                outcome_after(
                    world,
                    lines.drop_first(),
                    ended,
                    next_step(state, EventModel::Read(StreamEventModel::Line(lines[0]))),
                )
            } else if !ended {
                outcome_after(
                    world,
                    lines,
                    true,
                    next_step(state, EventModel::Read(last_event(world.failure))),
                )
            } else {
                Outcome { sent: None, logged: None }
            }
        },
    }
}

proof fn lemma_after_handling(
    world: World,
    lines: Seq<Seq<char>>,
    ended: bool,
    request: HttpRequestModel,
    step: HandlingModel,
)
    ensures
        outcome_after(world, lines, ended, after_handling(request, step)) == delivered(
            world,
            Some(request),
            response_after(world.fs, step),
        ),
    decreases crate::handler::queries_left(step),
{
    reveal_with_fuel(outcome_after, 2);
    match step {
        HandlingModel::Done(_) => {},
        HandlingModel::Ask(query, state) => {
            lemma_after_handling(
                world,
                lines,
                ended,
                request,
                crate::handler::next_step(state, world.fs.answer(query)),
            );
        },
    }
}

proof fn lemma_after_parsing(world: World, lines: Seq<Seq<char>>, step: ParsingModel)
    ensures
        outcome_after(world, lines, false, after_parsing(step)) == concluded(
            world,
            result_after(step, lines, world.failure),
        ),
    decreases lines.len(),
{
    reveal_with_fuel(outcome_after, 3);
    match step {
        ParsingModel::Done(Ok(Some(request))) => {
            lemma_after_handling(
                world,
                lines,
                false,
                request,
                crate::handler::first_step(request),
            );
            lemma_response_is_respond(world.fs, request);
        },
        ParsingModel::Done(_) => {},
        ParsingModel::ReadLine(state) => {
            if lines.len() > 0 {
                lemma_after_parsing(
                    world,
                    lines.drop_first(),
                    crate::parse::after_line(state, lines[0]),
                );
            } else {
                match crate::parse::next_step(state, last_event(world.failure)) {
                    ParsingModel::Done(Ok(Some(request))) => {
                        lemma_after_handling(
                            world,
                            lines,
                            true,
                            request,
                            crate::handler::first_step(request),
                        );
                        lemma_response_is_respond(world.fs, request);
                    },
                    _ => {},
                }
            }
        },
    }
}

/// Carrying out every action of a connection in one world leads to what
/// `conversation` names: nothing is sent before the request has been read
/// and handled, what is sent is the text of the response, and what is
/// logged is the request with the response that was sent.
pub proof fn lemma_outcome_is_conversation(world: World)
    ensures
        outcome_after(world, world.lines, false, first_step()) == conversation(world),
{
    lemma_after_parsing(world, world.lines, crate::parse::first_step());
    crate::parse::lemma_result_is_read_request(world.lines, world.failure);
}

/// A connection whose first line does not fall into three tokens is
/// answered with `BadRequest`, and nothing is logged.
pub proof fn lemma_malformed_request_line_is_bad_request(world: World)
    requires
        world.lines.len() > 0,
        split(world.lines[0], ' ').len() != 3,
    ensures
        conversation(world) == delivered(world, None, refusal(HttpStatus::BadRequest)),
{
}

/// A connection whose request line names a method and then a version that
/// the server does not speak is answered with `HttpVersionNotSupported`.
pub proof fn lemma_unknown_version_is_not_supported(world: World)
    requires
        world.lines.len() > 0,
        split(world.lines[0], ' ').len() == 3,
        HttpMethodModel::of_token(split(world.lines[0], ' ')[0]).is_some(),
        split(world.lines[0], ' ')[2] != HttpVersion::HTTP1_0.token(),
    ensures
        conversation(world) == delivered(
            world,
            None,
            refusal(HttpStatus::HttpVersionNotSupported),
        ),
{
}

/// A request with any method but `GET` is answered with
/// `MethodNotAllowed`, whatever the file system holds.
pub proof fn lemma_other_method_is_not_allowed(world: World, request: HttpRequestModel)
    requires
        read_request(world.lines, world.failure) == Ok::<
            Option<HttpRequestModel>,
            ParseRequestErrorModel,
        >(Some(request)),
        request.method != HttpMethodModel::Get,
    ensures
        conversation(world) == delivered(
            world,
            Some(request),
            refusal(HttpStatus::MethodNotAllowed),
        ),
{
}

/// A `GET` request whose target leads to a regular file under the root
/// directory is answered with that file: with `OK`, the text of the file,
/// and the content type of its extension.
pub proof fn lemma_file_is_delivered(
    world: World,
    request: HttpRequestModel,
    root: Seq<Seq<char>>,
    path: Seq<Seq<char>>,
    text: Seq<char>,
)
    requires
        read_request(world.lines, world.failure) == Ok::<
            Option<HttpRequestModel>,
            ParseRequestErrorModel,
        >(Some(request)),
        request.method == HttpMethodModel::Get,
        world.fs.root == Ok::<Seq<Seq<char>>, FsError>(root),
        (world.fs.canonical)(strip_slashes(request.uri)) == Ok::<Seq<Seq<char>>, FsError>(path),
        root.is_prefix_of(path),
        (world.fs.kind)(path) == EntryKind::File,
        (world.fs.content)(path) == Ok::<Seq<char>, FsError>(text),
    ensures
        conversation(world) == delivered(world, Some(request), served(path, text)),
{
    lemma_file_is_served(world.fs, request, root, path, text);
    lemma_response_is_respond(world.fs, request);
}

} // verus!
