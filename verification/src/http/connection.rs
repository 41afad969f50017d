//! The handling of one connection, as a state machine.
//!
//! The handler decides and its owner acts: the owner performs each action
//! that the handler asks for (a read from the stream, a look for the file, a
//! write of the response) and reports the outcome, until the handler asks
//! to close. One connection serves one request.

use crate::config::httpconfig::{ConfigView, HttpConfig};
use crate::http::assembler::{
    after_read, fresh, header_block, AssemblerStatus, AssemblerView, HeaderAssembler, ReadOutcome,
};
use crate::http::protocol::HttpVersion;
use crate::http::request::{parse_request, HttpRequest, RequestView};
use crate::http::response::{html, HttpResponse, HttpStatus, ResponseView};
use crate::http::traits::FromString;
use crate::text::{trim, trim_matches};
use vstd::prelude::*;
use vstd::utf8::{decode_utf8, encode_utf8, encode_utf8_decode_utf8, valid_utf8};

verus! {

/// Where the handling of a connection stands.
#[derive(Clone, Copy, Debug, PartialEq, Eq, Structural)]
pub enum ConnectionState {
    /// The header block is being read.
    AwaitingHeaders,
    /// The request is known and the file is being looked for.
    Parsed,
    /// A response is being written.
    Responding,
    /// Nothing more will happen on this connection.
    Closed,
}

/// What the look for a file came to.
#[derive(Debug)]
pub enum FileOutcome {
    /// The file was read; this is its content.
    Found(String),
    /// There is no such file.
    NotFound,
    /// The file is there and could not be read.
    IoError,
}

/// The file to look for: the path of the request, without the separators
/// around it, below the root; and the file that stands for a directory.
#[derive(Debug)]
pub struct FileQuery {
    pub root_path: String,
    pub path: String,
    pub index: String,
}

/// What the owner of the handler is to do next.
#[derive(Debug)]
pub enum ConnectionAction {
    /// Read from the stream, and report with `on_read`.
    Read,
    /// Look for the file, and report with `on_resolved`.
    Resolve(FileQuery),
    /// Write the response, and report with `on_written`.
    Write(HttpResponse),
    /// Close the connection.
    Close,
}

/// What a look for a file came to, as a mathematical value.
pub enum FileOutcomeView {
    Found(Seq<char>),
    NotFound,
    IoError,
}

impl View for FileOutcome {
    type V = FileOutcomeView;

    open spec fn view(&self) -> FileOutcomeView {
        match self {
            FileOutcome::Found(content) => FileOutcomeView::Found(content@),
            FileOutcome::NotFound => FileOutcomeView::NotFound,
            FileOutcome::IoError => FileOutcomeView::IoError,
        }
    }
}

/// A query for a file, as a mathematical value.
pub struct FileQueryView {
    pub root_path: Seq<char>,
    pub path: Seq<char>,
    pub index: Seq<char>,
}

impl View for FileQuery {
    type V = FileQueryView;

    open spec fn view(&self) -> FileQueryView {
        FileQueryView { root_path: self.root_path@, path: self.path@, index: self.index@ }
    }
}

/// An action, as a mathematical value.
pub enum ActionView {
    Read,
    Resolve(FileQueryView),
    Write(ResponseView),
    Close,
}

impl View for ConnectionAction {
    type V = ActionView;

    open spec fn view(&self) -> ActionView {
        match self {
            ConnectionAction::Read => ActionView::Read,
            ConnectionAction::Resolve(query) => ActionView::Resolve(query@),
            ConnectionAction::Write(response) => ActionView::Write(response@),
            ConnectionAction::Close => ActionView::Close,
        }
    }
}

/// A handler, as a mathematical value.
pub struct HandlerView {
    pub config: ConfigView,
    pub state: ConnectionState,
    pub assembler: AssemblerView,
    pub request: Option<RequestView>,
}

/// The response that the server composes itself, with one sentence as its
/// content.
pub open spec fn notice(status: HttpStatus, sentence: Seq<char>) -> ResponseView {
    ResponseView {
        http_version: HttpVersion::HTTP1dot1,
        status,
        content_type: html(),
        content: sentence,
    }
}

/// The request in a header block: the block read as UTF-8 and parsed.
/// Nothing where the block is not UTF-8 or is no request.
pub open spec fn request_in(block: Seq<u8>) -> Option<RequestView> {
    if valid_utf8(block) {
        match parse_request(decode_utf8(block)) {
            Ok(request) => Some(request),
            Err(_) => None,
        }
    } else {
        None
    }
}

/// The handler that has taken a step into the state `state`.
pub open spec fn moved(before: HandlerView, state: ConnectionState) -> HandlerView {
    HandlerView { state, ..before }
}

/// The step that a report of a read brings about.
///
/// While the header block is incomplete the handler asks for the next
/// read. A stream that ends or fails before the end of the block cannot be
/// answered: the connection is closed. A complete block that holds a
/// request leads to the look for its file; any other complete block is
/// answered with `400 Bad Request`.
pub open spec fn read_step(before: HandlerView, buf: Seq<u8>, outcome: ReadOutcome) -> (
    HandlerView,
    ActionView,
) {
    if before.state != ConnectionState::AwaitingHeaders {
        (moved(before, ConnectionState::Closed), ActionView::Close)
    } else {
        let assembler = after_read(before.assembler, buf, outcome);
        let fed = HandlerView { assembler, ..before };
        match assembler.status {
            AssemblerStatus::Reading => (fed, ActionView::Read),
            AssemblerStatus::Failed(_) => (moved(fed, ConnectionState::Closed), ActionView::Close),
            AssemblerStatus::Complete => match request_in(
                header_block(assembler.received).unwrap(),
            ) {
                Some(request) => (
                    HandlerView {
                        state: ConnectionState::Parsed,
                        request: Some(request),
                        ..fed
                    },
                    ActionView::Resolve(
                        FileQueryView {
                            root_path: before.config.root_path,
                            path: trim(request.path, '/'),
                            index: before.config.index,
                        },
                    ),
                ),
                None => (
                    moved(fed, ConnectionState::Responding),
                    ActionView::Write(notice(HttpStatus::BAD_REQUEST, "Bad request!"@)),
                ),
            },
        }
    }
}

/// The step that a report of the look for the file brings about: the
/// content of the file is sent with `200 OK`, a missing file is answered
/// with `404 Not Found`, and a file that could not be read with
/// `500 Internal Server Error`.
pub open spec fn resolve_step(before: HandlerView, outcome: FileOutcomeView) -> (
    HandlerView,
    ActionView,
) {
    if before.state != ConnectionState::Parsed {
        (moved(before, ConnectionState::Closed), ActionView::Close)
    } else {
        (
            moved(before, ConnectionState::Responding),
            ActionView::Write(
                match outcome {
                    FileOutcomeView::Found(content) => notice(HttpStatus::OK, content),
                    FileOutcomeView::NotFound => notice(HttpStatus::NOT_FOUND, "File not found!"@),
                    FileOutcomeView::IoError => notice(
                        HttpStatus::INTERNAL_SERVER_ERROR,
                        "File not found!"@,
                    ),
                },
            ),
        )
    }
}

/// The step that a report of a write brings about: whether the write was
/// complete or failed, the connection is closed.
pub open spec fn write_step(before: HandlerView) -> (HandlerView, ActionView) {
    (moved(before, ConnectionState::Closed), ActionView::Close)
}

/// The place of a state in the course of a connection.
pub open spec fn stage(state: ConnectionState) -> nat {
    match state {
        ConnectionState::AwaitingHeaders => 0,
        ConnectionState::Parsed => 1,
        ConnectionState::Responding => 2,
        ConnectionState::Closed => 3,
    }
}

/// The action that the handler asks for in a state.
pub open spec fn asked_in(state: ConnectionState, action: ActionView) -> bool {
    match state {
        ConnectionState::AwaitingHeaders => action is Read,
        ConnectionState::Parsed => action is Resolve,
        ConnectionState::Responding => action is Write,
        ConnectionState::Closed => action is Close,
    }
}

/// No step leads back: the state after a step is the state before it or a
/// later one, a step on a report that is out of turn closes the connection,
/// and every report of a write does.
pub proof fn lemma_steps_lead_forward(
    before: HandlerView,
    buf: Seq<u8>,
    read: ReadOutcome,
    file: FileOutcomeView,
)
    ensures
        stage(read_step(before, buf, read).0.state) >= stage(before.state),
        stage(resolve_step(before, file).0.state) > stage(before.state) || before.state
            == ConnectionState::Closed,
        before.state != ConnectionState::AwaitingHeaders ==> read_step(before, buf, read).0.state
            == ConnectionState::Closed,
        before.state != ConnectionState::Parsed ==> resolve_step(before, file).0.state
            == ConnectionState::Closed,
        write_step(before).0.state == ConnectionState::Closed,
{
}

/// After every step the handler asks for the action of its state: a read
/// while it awaits the headers, the look for the file once the request is
/// parsed, a write while it responds, and to close once it is closed. So a
/// response is written only on entering `Responding`, and never twice.
pub proof fn lemma_action_goes_with_state(
    before: HandlerView,
    buf: Seq<u8>,
    read: ReadOutcome,
    file: FileOutcomeView,
)
    ensures
        asked_in(read_step(before, buf, read).0.state, read_step(before, buf, read).1),
        asked_in(resolve_step(before, file).0.state, resolve_step(before, file).1),
        asked_in(write_step(before).0.state, write_step(before).1),
{
}

/// A step changes neither the configuration nor, once it is known, the
/// request.
pub proof fn lemma_steps_keep_request(
    before: HandlerView,
    buf: Seq<u8>,
    read: ReadOutcome,
    file: FileOutcomeView,
)
    ensures
        read_step(before, buf, read).0.config == before.config,
        resolve_step(before, file).0 == moved(before, resolve_step(before, file).0.state),
        write_step(before).0 == moved(before, ConnectionState::Closed),
        before.state != ConnectionState::AwaitingHeaders ==> read_step(before, buf, read).0
            == moved(before, ConnectionState::Closed),
{
}

/// Calls `String::from_utf8`, which makes a text of bytes that are valid
/// UTF-8, keeping the bytes as they are, and refuses any others.
#[verifier::external_body]
fn text_of_bytes(bytes: Vec<u8>) -> (r: Option<String>)
    ensures
        r is Some <==> valid_utf8(bytes@),
        r matches Some(text) ==> encode_utf8(text@) == bytes@,
{
    String::from_utf8(bytes).ok()
}

/// The handler of one connection. It reads the configuration and never
/// changes it.
pub struct ConnectionHandler<'a> {
    config: &'a HttpConfig,
    state: ConnectionState,
    assembler: HeaderAssembler,
    request: Option<HttpRequest>,
}

impl<'a> View for ConnectionHandler<'a> {
    type V = HandlerView;

    closed spec fn view(&self) -> HandlerView {
        HandlerView {
            config: self.config@,
            state: self.state,
            assembler: self.assembler@,
            request: match self.request {
                Some(request) => Some(request@),
                None => None,
            },
        }
    }
}

impl<'a> ConnectionHandler<'a> {
    /// The handler of a connection that was just accepted. Its first
    /// action is a read.
    pub fn new(config: &'a HttpConfig) -> (r: ConnectionHandler<'a>)
        ensures
            r@ == (HandlerView {
                config: config@,
                state: ConnectionState::AwaitingHeaders,
                assembler: fresh(),
                request: None,
            }),
    {
        ConnectionHandler {
            config,
            state: ConnectionState::AwaitingHeaders,
            assembler: HeaderAssembler::new(),
            request: None,
        }
    }

    /// Where the handling stands.
    pub fn state(&self) -> (r: ConnectionState)
        ensures
            r == self@.state,
    {
        self.state
    }

    /// The request, once it is known.
    pub fn request(&self) -> (r: &Option<HttpRequest>)
        ensures
            match *r {
                Some(request) => self@.request == Some(request@),
                None => self@.request is None,
            },
    {
        &self.request
    }

    /// Takes the report of a read into `buf`.
    pub fn on_read(&mut self, buf: &[u8], outcome: ReadOutcome) -> (action: ConnectionAction)
        ensures
            (final(self)@, action@) == read_step(old(self)@, buf@, outcome),
    {
        if self.state != ConnectionState::AwaitingHeaders {
            self.state = ConnectionState::Closed;
            return ConnectionAction::Close;
        }
        let status = self.assembler.feed(buf, outcome);
        let block = match self.assembler.header() {
            Some(block) => block,
            None => {
                return match status {
                    AssemblerStatus::Reading => ConnectionAction::Read,
                    _ => {
                        self.state = ConnectionState::Closed;
                        ConnectionAction::Close
                    },
                };
            },
        };
        let request = match text_of_bytes(block) {
            Some(text) => {
                proof {
                    encode_utf8_decode_utf8(text@);
                }
                HttpRequest::from_string(text).ok()
            },
            None => None,
        };
        match request {
            Some(request) => {
                let query = FileQuery {
                    root_path: (*self.config.get_root_path()).to_owned(),
                    path: trim_matches(request.path.as_str(), '/'),
                    index: (*self.config.get_index()).clone(),
                };
                self.request = Some(request);
                self.state = ConnectionState::Parsed;
                ConnectionAction::Resolve(query)
            },
            None => {
                self.state = ConnectionState::Responding;
                ConnectionAction::Write(HttpResponse::quick_bad_request("Bad request!".to_owned()))
            },
        }
    }

    /// Takes the report of the look for the file.
    pub fn on_resolved(&mut self, outcome: FileOutcome) -> (action: ConnectionAction)
        ensures
            (final(self)@, action@) == resolve_step(old(self)@, outcome@),
    {
        if self.state != ConnectionState::Parsed {
            self.state = ConnectionState::Closed;
            return ConnectionAction::Close;
        }
        self.state = ConnectionState::Responding;
        ConnectionAction::Write(
            match outcome {
                FileOutcome::Found(content) => HttpResponse::success_with_content(content),
                FileOutcome::NotFound => HttpResponse::quick_not_found("File not found!".to_owned()),
                FileOutcome::IoError => HttpResponse::quick_server_error(
                    "File not found!".to_owned(),
                ),
            },
        )
    }

    /// Takes the report of the write of the response. A write that failed
    /// is not tried again.
    pub fn on_written(&mut self, complete: bool) -> (action: ConnectionAction)
        ensures
            (final(self)@, action@) == write_step(old(self)@),
    {
        self.state = ConnectionState::Closed;
        ConnectionAction::Close
    }
}

} // verus!
