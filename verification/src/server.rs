//! The transport: one message a line, and the steps of a session.
//!
//! Requests are dealt with strictly one after another: the response to a
//! line is written before the next line is read, so responses leave in the
//! order in which their requests came.

use crate::host::{HostReply, HostReplyView, HostRequest, HostRequestView};
use crate::json::{parsed, printed, Json, JsonValue};
use crate::mcp::{
    lemma_handle_settles, lemma_resume_settles, respond, response_for, settles, McpServer,
    Outcome, OutcomeView, PendingCall, PendingView, ServerView,
};
use crate::tools::ToolHandler;
use crate::types::{
    value_of, ErrorView, JsonRpcError, JsonRpcRequest, JsonRpcResponse, RequestView, ResponseView,
};
use vstd::prelude::*;
use vstd::utf8::encode_utf8;

verus! {

/// `char::is_whitespace`: whether a character has the Unicode property
/// `White_Space`.
pub uninterp spec fn is_white_space(c: char) -> bool;

/// The text without the white space at its start.
pub open spec fn trimmed_start(text: Seq<char>) -> Seq<char>
    decreases text.len(),
{
    if text.len() > 0 && is_white_space(text[0]) {
        trimmed_start(text.drop_first())
    } else {
        text
    }
}

/// The text without the white space at its end.
pub open spec fn trimmed_end(text: Seq<char>) -> Seq<char>
    decreases text.len(),
{
    if text.len() > 0 && is_white_space(text.last()) {
        trimmed_end(text.drop_last())
    } else {
        text
    }
}

/// The text without the white space at its start and at its end.
pub open spec fn trimmed(text: Seq<char>) -> Seq<char> {
    trimmed_end(trimmed_start(text))
}

/// `str::trim`: the text without the white space at its start and at its
/// end, where white space is what `char::is_whitespace` says it is.
#[verifier::external_body]
fn trim(text: &str) -> (r: &str)
    ensures
        r@ == trimmed(text@),
        r@.len() > 0 ==> !is_white_space(r@[0]) && !is_white_space(r@.last()),
{
    text.trim()
}

/// The longest line that a server takes unless it is told otherwise:
/// 16 MiB.
pub const DEFAULT_MAX_LINE_LEN: usize = 16777216;

/// The line that is written where a response cannot be put into text: an
/// internal error without an `id`.
pub open spec fn fallback_line() -> Seq<char> {
    "{\"jsonrpc\":\"2.0\",\"id\":null,\"error\":{\"code\":-32603,\"message\":\"Internal error\"}}"@
}

/// The fallback line holds no line break.
pub proof fn lemma_fallback_is_one_line()
    ensures
        !fallback_line().contains('\n'),
{
    reveal_strlit(
        "{\"jsonrpc\":\"2.0\",\"id\":null,\"error\":{\"code\":-32603,\"message\":\"Internal error\"}}",
    );
    assert forall|i: int| 0 <= i < fallback_line().len() implies fallback_line()[i] != '\n' by {}
}

/// The line for the text of a response: the text, or the fallback line
/// where there is none.
pub open spec fn line_of(text: Option<Seq<char>>) -> Seq<char> {
    match text {
        Some(text) => text,
        None => fallback_line(),
    }
}

/// The line that carries a response: its envelope as compact JSON.
pub open spec fn rendered(response: ResponseView) -> Seq<char> {
    line_of(printed(response.json()))
}

/// The envelope among what was read from a message: a document that is an
/// object.
pub open spec fn envelope(document: Option<JsonValue>) -> Option<JsonValue> {
    match document {
        Some(document) => if document is Object {
            Some(document)
        } else {
            None
        },
        None => None,
    }
}

/// The request that a document carries.
pub open spec fn request_of(document: Option<JsonValue>) -> Option<RequestView> {
    match envelope(document) {
        Some(document) => RequestView::decode(document),
        None => None,
    }
}

/// What the server does with what was read from a message: no document, or
/// one that is no object, gets a parse error without an `id`; an object
/// that is no request gets an invalid-request error under its `id`, if it
/// has one; a request goes to the engine.
pub open spec fn dispatch<H: ToolHandler>(
    server: ServerView<H>,
    document: Option<JsonValue>,
) -> OutcomeView {
    match envelope(document) {
        Some(document) => match RequestView::decode(document) {
            Some(request) => server.handle(request),
            None => OutcomeView::Reply(
                response_for(document.field("id"@), Err(ErrorView::invalid_request())),
            ),
        },
        None => OutcomeView::Reply(
            Some(ResponseView::failure(None, ErrorView::parse_error())),
        ),
    }
}

/// The server after what was read from a message.
pub open spec fn after_document<H: ToolHandler>(
    server: ServerView<H>,
    document: Option<JsonValue>,
) -> ServerView<H> {
    match request_of(document) {
        Some(request) => server.after(request),
        None => server,
    }
}

/// What the server does with a message: with the document that its text
/// spells, if it spells one.
pub open spec fn process<H: ToolHandler>(server: ServerView<H>, message: Seq<char>) -> OutcomeView {
    dispatch(server, parsed(message))
}

/// The server after a message.
pub open spec fn after_message<H: ToolHandler>(
    server: ServerView<H>,
    message: Seq<char>,
) -> ServerView<H> {
    after_document(server, parsed(message))
}

/// What happened outside since the last action.
#[derive(Debug, Clone, PartialEq, Eq)]
pub enum Event {
    /// A line was read.
    Line(String),
    /// The input is at its end.
    EndOfInput,
    /// Reading failed.
    ReadFailed,
    /// The line was written and flushed.
    Written,
    /// Writing failed.
    WriteFailed,
    /// The host answered the question.
    Answer(HostReply),
}

/// The mathematical content of an [`Event`].
pub enum EventView {
    Line(Seq<char>),
    EndOfInput,
    ReadFailed,
    Written,
    WriteFailed,
    Answer(HostReplyView),
}

impl View for Event {
    type V = EventView;

    open spec fn view(&self) -> EventView {
        match self {
            Event::Line(line) => EventView::Line(line@),
            Event::EndOfInput => EventView::EndOfInput,
            Event::ReadFailed => EventView::ReadFailed,
            Event::Written => EventView::Written,
            Event::WriteFailed => EventView::WriteFailed,
            Event::Answer(reply) => EventView::Answer(reply@),
        }
    }
}

/// What is to be done outside next.
#[derive(Debug, Clone, PartialEq, Eq)]
pub enum Action {
    /// Read the next line.
    Read,
    /// Write the line, a line feed after it, and flush.
    Write(String),
    /// Find the answer to the question.
    Ask(HostRequest),
    /// Stop: the session is over.
    Stop,
}

/// The mathematical content of an [`Action`].
pub enum ActionView {
    Read,
    Write(Seq<char>),
    Ask(HostRequestView),
    Stop,
}

impl View for Action {
    type V = ActionView;

    open spec fn view(&self) -> ActionView {
        match self {
            Action::Read => ActionView::Read,
            Action::Write(line) => ActionView::Write(line@),
            Action::Ask(question) => ActionView::Ask(question@),
            Action::Stop => ActionView::Stop,
        }
    }
}

/// What the transport waits for.
#[derive(Debug, Clone, PartialEq, Eq)]
pub enum Phase {
    /// The next line.
    Line,
    /// The word that the response was written.
    Write,
    /// The host's answer to the question of a pending call.
    Answer(PendingCall),
    /// Nothing: the session is over.
    Stopped,
}

/// The mathematical content of a [`Phase`].
pub enum PhaseView {
    Line,
    Write,
    Answer(PendingView),
    Stopped,
}

impl View for Phase {
    type V = PhaseView;

    open spec fn view(&self) -> PhaseView {
        match self {
            Phase::Line => PhaseView::Line,
            Phase::Write => PhaseView::Write,
            Phase::Answer(pending) => PhaseView::Answer(pending@),
            Phase::Stopped => PhaseView::Stopped,
        }
    }
}

/// The transport of a server over lines of text: one message a line, and
/// one request at a time.
pub struct StdioServer<H: ToolHandler> {
    mcp_server: McpServer<H>,
    quiet: bool,
    max_line_len: usize,
    phase: Phase,
}

/// The mathematical content of a [`StdioServer`].
pub struct TransportView<H> {
    pub server: ServerView<H>,
    pub quiet: bool,
    pub max_line_len: nat,
    pub phase: PhaseView,
}

impl<H: ToolHandler> View for StdioServer<H> {
    type V = TransportView<H>;

    closed spec fn view(&self) -> TransportView<H> {
        TransportView {
            server: self.mcp_server@,
            quiet: self.quiet,
            max_line_len: self.max_line_len as nat,
            phase: self.phase@,
        }
    }
}

impl<H: ToolHandler> TransportView<H> {
    /// The transport and the action after the engine has dealt with a
    /// message or an answer: a response is written, a notification is
    /// followed by the next line, and a question goes to the host.
    pub open spec fn settle(self, server: ServerView<H>, outcome: OutcomeView) -> (
        TransportView<H>,
        ActionView,
    ) {
        match outcome {
            OutcomeView::Reply(Some(response)) => (
                TransportView { server, phase: PhaseView::Write, ..self },
                ActionView::Write(rendered(response)),
            ),
            OutcomeView::Reply(None) => (
                TransportView { server, phase: PhaseView::Line, ..self },
                ActionView::Read,
            ),
            OutcomeView::Ask { pending, question } => (
                TransportView { server, phase: PhaseView::Answer(pending), ..self },
                ActionView::Ask(question),
            ),
        }
    }

    /// The transport and the action after a line was read: a line of more
    /// bytes than the limit gets a parse error without an `id`, a line of
    /// nothing but white space is passed over, and any other line is a
    /// message.
    pub open spec fn accept(self, line: Seq<char>) -> (TransportView<H>, ActionView) {
        if encode_utf8(line).len() > self.max_line_len {
            self.settle(
                self.server,
                OutcomeView::Reply(Some(ResponseView::failure(None, ErrorView::parse_error()))),
            )
        } else if trimmed(line).len() == 0 {
            (self, ActionView::Read)
        } else {
            self.settle(
                after_message(self.server, trimmed(line)),
                process(self.server, trimmed(line)),
            )
        }
    }

    /// The transport and the action after an event. An event that the
    /// transport does not wait for ends the session.
    pub open spec fn step(self, event: EventView) -> (TransportView<H>, ActionView) {
        match (self.phase, event) {
            (PhaseView::Line, EventView::Line(line)) => self.accept(line),
            (PhaseView::Write, EventView::Written) => (
                TransportView { phase: PhaseView::Line, ..self },
                ActionView::Read,
            ),
            (PhaseView::Answer(pending), EventView::Answer(answer)) => self.settle(
                self.server,
                self.server.resume(pending, answer),
            ),
            _ => (TransportView { phase: PhaseView::Stopped, ..self }, ActionView::Stop),
        }
    }
}

/// The line for the text of a response: the text, or the fallback line
/// where there is none. No line break occurs in the line unless one occurs
/// in the text.
pub fn line_for(text: Option<String>) -> (r: String)
    ensures
        r@ == line_of(
            match text {
                Some(text) => Some(text@),
                None => None,
            },
        ),
        (text matches Some(t) ==> !t@.contains('\n')) ==> !r@.contains('\n'),
{
    match text {
        Some(text) => text,
        None => {
            proof {
                lemma_fallback_is_one_line();
            }
            "{\"jsonrpc\":\"2.0\",\"id\":null,\"error\":{\"code\":-32603,\"message\":\"Internal error\"}}".to_owned()
        },
    }
}

/// The line that carries a response. No line break occurs in it.
pub fn render(response: JsonRpcResponse) -> (r: String)
    ensures
        r@ == rendered(response@),
        !r@.contains('\n'),
{
    line_for(response.to_json().print())
}

impl<H: ToolHandler> StdioServer<H> {
    /// The transport of `mcp_server`, waiting for the first line, with the
    /// default limit on the length of a line.
    pub fn new(mcp_server: McpServer<H>, quiet: bool) -> (r: Self)
        ensures
            r@ == (TransportView {
                server: mcp_server@,
                quiet,
                max_line_len: DEFAULT_MAX_LINE_LEN as nat,
                phase: PhaseView::Line,
            }),
    {
        StdioServer { mcp_server, quiet, max_line_len: DEFAULT_MAX_LINE_LEN, phase: Phase::Line }
    }

    /// The same transport with another limit on the length of a line, in
    /// bytes.
    pub fn with_max_line_len(self, max_line_len: usize) -> (r: Self)
        ensures
            r@ == (TransportView { max_line_len: max_line_len as nat, ..self@ }),
    {
        StdioServer { max_line_len, ..self }
    }

    /// The server behind the transport.
    pub fn server(&self) -> (r: &McpServer<H>)
        ensures
            r@ == self@.server,
    {
        &self.mcp_server
    }

    /// The limit on the length of a line, in bytes.
    pub fn max_line_len(&self) -> (r: usize)
        ensures
            r == self@.max_line_len,
    {
        self.max_line_len
    }

    /// Whether the server is to keep quiet in its log.
    pub fn quiet(&self) -> (r: bool)
        ensures
            r == self@.quiet,
    {
        self.quiet
    }

    /// Whether the session is over.
    pub fn is_stopped(&self) -> (r: bool)
        ensures
            r == (self@.phase is Stopped),
    {
        match self.phase {
            Phase::Stopped => true,
            _ => false,
        }
    }

    /// Deals with one message: the text of a line without the white space
    /// around it.
    pub fn process_message(&mut self, message: &str) -> (r: Outcome)
        ensures
            r@ == process(old(self)@.server, message@),
            final(self)@ == (TransportView {
                server: after_message(old(self)@.server, message@),
                ..old(self)@
            }),
    {
        self.process_document(Json::parse(message))
    }

    /// Deals with what was read from one message: the document, or `None`
    /// where the message was no JSON.
    pub fn process_document(&mut self, document: Option<Json>) -> (r: Outcome)
        ensures
            r@ == dispatch(old(self)@.server, value_of(document)),
            final(self)@ == (TransportView {
                server: after_document(old(self)@.server, value_of(document)),
                ..old(self)@
            }),
    {
        let document = match document {
            Some(document) => document,
            None => {
                return Outcome::Reply(
                    Some(JsonRpcResponse::failure(None, JsonRpcError::parse_error())),
                );
            },
        };
        if !document.is_object() {
            return Outcome::Reply(
                Some(JsonRpcResponse::failure(None, JsonRpcError::parse_error())),
            );
        }
        match JsonRpcRequest::from_json(&document) {
            Some(request) => self.mcp_server.handle_request(request),
            None => {
                let id = match document.get("id") {
                    Some(id) => Some(id.clone()),
                    None => None,
                };
                Outcome::Reply(respond(id, Err(JsonRpcError::invalid_request())))
            },
        }
    }

    fn settle(&mut self, outcome: Outcome) -> (r: Action)
        ensures
            (final(self)@, r@) == old(self)@.settle(old(self)@.server, outcome@),
            r matches Action::Write(line) ==> !line@.contains('\n'),
    {
        match outcome {
            Outcome::Reply(Some(response)) => {
                self.phase = Phase::Write;
                Action::Write(render(response))
            },
            Outcome::Reply(None) => {
                self.phase = Phase::Line;
                Action::Read
            },
            Outcome::Ask { pending, question } => {
                self.phase = Phase::Answer(pending);
                Action::Ask(question)
            },
        }
    }

    /// Takes one step of the session: given what happened outside, says what
    /// is to be done next.
    ///
    /// The session starts with [`Action::Read`]. Each line that is read gets
    /// at most one line written back, before the next line is read; no line
    /// break occurs in a line that is written.
    pub fn step(&mut self, event: Event) -> (r: Action)
        ensures
            (final(self)@, r@) == old(self)@.step(event@),
            r matches Action::Write(line) ==> !line@.contains('\n'),
    {
        let mut phase = Phase::Stopped;
        std::mem::swap(&mut self.phase, &mut phase);
        match (phase, event) {
            (Phase::Line, Event::Line(line)) => {
                self.phase = Phase::Line;
                if line.as_str().as_bytes().len() > self.max_line_len {
                    self.settle(
                        Outcome::Reply(
                            Some(JsonRpcResponse::failure(None, JsonRpcError::parse_error())),
                        ),
                    )
                } else {
                    let message = trim(line.as_str());
                    if message.is_empty() {
                        Action::Read
                    } else {
                        let outcome = self.process_message(message);
                        self.settle(outcome)
                    }
                }
            },
            (Phase::Write, Event::Written) => {
                self.phase = Phase::Line;
                Action::Read
            },
            (Phase::Answer(pending), Event::Answer(answer)) => {
                let outcome = self.mcp_server.resume(pending, answer);
                self.settle(outcome)
            },
            _ => Action::Stop,
        }
    }
}

/// A line of nothing but white space, the empty line among them, is passed
/// over: nothing is written, nothing changes, and the next line is read.
pub proof fn lemma_blank_line_is_skipped<H: ToolHandler>(
    transport: TransportView<H>,
    line: Seq<char>,
)
    requires
        transport.phase is Line,
        encode_utf8(line).len() <= transport.max_line_len,
        forall|i: int| 0 <= i < line.len() ==> is_white_space(#[trigger] line[i]),
    ensures
        transport.step(EventView::Line(line)) == (transport, ActionView::Read),
{
    lemma_white_space_is_trimmed(line);
}

/// A text of nothing but white space is trimmed to nothing.
pub proof fn lemma_white_space_is_trimmed(text: Seq<char>)
    requires
        forall|i: int| 0 <= i < text.len() ==> is_white_space(#[trigger] text[i]),
    ensures
        trimmed(text).len() == 0,
    decreases text.len(),
{
    if text.len() > 0 {
        let rest = text.drop_first();
        assert forall|i: int| 0 <= i < rest.len() implies is_white_space(#[trigger] rest[i]) by {}
        lemma_white_space_is_trimmed(rest);
    }
}

/// A line of more bytes than the limit gets one response: a parse error
/// without an `id`.
pub proof fn lemma_long_line_is_refused<H: ToolHandler>(
    transport: TransportView<H>,
    line: Seq<char>,
)
    requires
        transport.phase is Line,
        encode_utf8(line).len() > transport.max_line_len,
    ensures
        transport.step(EventView::Line(line)) == (
            TransportView { phase: PhaseView::Write, ..transport },
            ActionView::Write(rendered(ResponseView::failure(None, ErrorView::parse_error()))),
        ),
{
}

/// What is answered to a message is well formed. A message that carries a
/// request gets what the request is owed. Text that is no JSON object gets
/// a parse error without an `id`, and an object that is no request gets an
/// invalid-request error under its `id`, or nothing where it has none.
pub proof fn lemma_dispatch_settles<H: ToolHandler>(
    server: ServerView<H>,
    document: Option<JsonValue>,
)
    ensures
        match request_of(document) {
            Some(request) => settles(dispatch(server, document), request.id),
            None => match envelope(document) {
                Some(envelope) => settles(dispatch(server, document), envelope.field("id"@)),
                None => dispatch(server, document) == OutcomeView::Reply(
                    Some(ResponseView::failure(None, ErrorView::parse_error())),
                ),
            },
        },
        dispatch(server, document) matches OutcomeView::Reply(Some(response))
            ==> response.well_formed(),
{
    match request_of(document) {
        Some(request) => {
            lemma_handle_settles(server, request);
        },
        None => {},
    }
}

/// Every line that the transport writes carries a well-formed response, and
/// after a line is written the transport waits for the word that it was.
pub proof fn lemma_step_writes_responses<H: ToolHandler>(
    transport: TransportView<H>,
    event: EventView,
)
    ensures
        transport.step(event).1 matches ActionView::Write(line) ==> {
            &&& transport.step(event).0.phase is Write
            &&& exists|response: ResponseView| #[trigger]
                response.well_formed() && line == rendered(response)
        },
        transport.step(event).1 is Stop <==> transport.step(event).0.phase is Stopped,
        transport.step(event).1 is Read ==> transport.step(event).0.phase is Line,
        transport.step(event).1 is Ask ==> transport.step(event).0.phase is Answer,
{
    match (transport.phase, event) {
        (PhaseView::Line, EventView::Line(line)) => {
            assert(ResponseView::failure(None, ErrorView::parse_error()).well_formed());
            lemma_dispatch_settles(transport.server, parsed(trimmed(line)));
        },
        (PhaseView::Answer(pending), EventView::Answer(answer)) => {
            lemma_resume_settles(transport.server, pending, answer);
        },
        _ => {},
    }
}

} // verus!
