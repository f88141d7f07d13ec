//! One request for a completion, from the first look at the connection to the answer.
//!
//! The application does what a [`DeltaAction`] says and reports back with a [`DeltaEvent`], until
//! the action is to finish. Which action follows on which event is decided here.

use crate::client::{RequestError, SendOutcome, WebSocketClient};
use crate::json;
use crate::message;
use crate::message::UNTITLED;
use vstd::prelude::*;

verus! {

/// The answer where the service sent nothing to insert.
pub const NO_RESPONSE: &'static str = "hello_ninetyfive_no_response";

/// How long an answer is awaited, in seconds from when the request was sent.
pub const ANSWER_TIMEOUT_SECS: u64 = 10;

/// What came from the socket while an answer was awaited.
#[derive(Debug)]
pub enum SocketEvent {
    Text(String),
    Close,
    /// The socket failed, for the reason given.
    Failed(String),
    /// The stream of messages ended.
    Ended,
    /// A message of another kind.
    Other,
    /// Nothing more is awaited: the time for the request is up.
    TimedOut,
}

/// The part of a reply that counts for a request: what it adds to the completion, and whether it
/// is the last. A reply counts where it bears the request's id and a value; it is the last unless
/// it says that it is not.
pub open spec fn reply_part(
    request_id: Seq<char>,
    r: Option<Seq<char>>,
    v: Option<Seq<char>>,
    flush: Option<bool>,
) -> Option<(Seq<char>, bool)> {
    if r == Some(request_id) && v is Some {
        Some((v->0, flush != Some(false)))
    } else {
        None
    }
}

/// The part of a text that counts for a request.
pub open spec fn text_part(request_id: Seq<char>, text: Seq<char>) -> Option<(Seq<char>, bool)> {
    reply_part(
        request_id,
        json::json_str_at(text, "r"@),
        json::json_str_at(text, "v"@),
        json::json_bool_at(text, "flush"@),
    )
}

/// The answer that a completion gives: itself, or a placeholder where it is empty.
pub open spec fn answer(completion: Seq<char>) -> Seq<char> {
    if completion.len() == 0 {
        NO_RESPONSE@
    } else {
        completion
    }
}

/// The view of an optional text.
pub open spec fn opt_view(text: Option<String>) -> Option<Seq<char>> {
    match text {
        Some(text) => Some(text@),
        None => None,
    }
}

/// A completion that is being put together from the replies to one request.
#[derive(Debug)]
pub struct CompletionExchange {
    pub request_id: String,
    pub completion: String,
}

impl CompletionExchange {
    /// Nothing has come back yet.
    pub fn new(request_id: String) -> (exchange: Self)
        ensures
            exchange.request_id == request_id,
            exchange.completion@.len() == 0,
    {
        CompletionExchange { request_id, completion: String::new() }
    }

    /// Takes in a reply: its id, its value and whether it is to be flushed, each where the reply
    /// has one. Tells whether the completion is whole.
    pub fn apply_reply(&mut self, r: Option<String>, v: Option<String>, flush: Option<bool>) -> (whole: bool)
        ensures
            final(self).request_id == old(self).request_id,
            match reply_part(old(self).request_id@, opt_view(r), opt_view(v), flush) {
                Some((value, last)) => final(self).completion@ == old(self).completion@ + value && whole == last,
                None => final(self).completion == old(self).completion && !whole,
            },
            match (r, v) {
                (Some(r), Some(v)) => if r@ == old(self).request_id@ {
                    final(self).completion@ == old(self).completion@ + v@ && whole == (flush != Some(false))
                } else {
                    final(self).completion@ == old(self).completion@ && !whole
                },
                _ => final(self).completion@ == old(self).completion@ && !whole,
            },
    {
        if let Some(response_id) = r {
            if response_id == self.request_id {
                if let Some(value) = v {
                    self.completion.append(value.as_str());
                    return flush.unwrap_or(true);
                }
            }
        }
        false
    }

    /// Takes in a text from the socket. Tells whether the completion is whole.
    pub fn receive_text(&mut self, text: &str) -> (whole: bool)
        ensures
            final(self).request_id == old(self).request_id,
            match text_part(old(self).request_id@, text@) {
                Some((value, last)) => final(self).completion@ == old(self).completion@ + value && whole == last,
                None => final(self).completion == old(self).completion && !whole,
            },
            match json::json_str_at(text@, "v"@) {
                Some(v) => if json::json_str_at(text@, "r"@) == Some(old(self).request_id@) {
                    &&& final(self).completion@ == old(self).completion@ + v
                    &&& whole == (json::json_bool_at(text@, "flush"@) != Some(false))
                } else {
                    final(self).completion@ == old(self).completion@ && !whole
                },
                None => final(self).completion@ == old(self).completion@ && !whole,
            },
    {
        let r = json::json_str(text, "r");
        let v = json::json_str(text, "v");
        let flush = json::json_bool(text, "flush");
        self.apply_reply(r, v, flush)
    }

    /// The answer to the request.
    pub fn finish(self) -> (result: String)
        ensures
            result@ == answer(self.completion@),
            self.completion@.len() > 0 ==> result@ == self.completion@,
            self.completion@.len() == 0 ==> result@ == "hello_ninetyfive_no_response"@,
    {
        if self.completion.as_str().is_empty() {
            NO_RESPONSE.to_owned()
        } else {
            self.completion
        }
    }
}

/// How far a request has come.
#[derive(Debug)]
pub enum DeltaPhase {
    /// A connection is being looked after; this is the content to send first.
    Connecting { file_content: Option<String> },
    /// The content of the file is being sent.
    SendingFile,
    /// An id for the request is being drawn.
    Naming,
    /// The request is being sent.
    SendingRequest { request_id: String },
    /// The answer is awaited.
    Receiving { exchange: CompletionExchange },
    /// The request is over.
    Finished,
}

/// What happened.
#[derive(Debug)]
pub enum DeltaEvent {
    /// How the look after the connection ended.
    Connection(Result<(), RequestError>),
    /// How sending the content of the file ended.
    FileContentSent(Result<(), RequestError>),
    /// A fresh id.
    RequestId(String),
    /// How sending the request ended.
    RequestSent(SendOutcome),
    /// What came from the socket.
    Socket(SocketEvent),
}

/// What is to be done.
#[derive(Debug)]
pub enum DeltaAction {
    /// See to it that there is a connection.
    EnsureConnection,
    /// Send the content of a file.
    SendFileContent { path: String, content: String },
    /// Draw an id for the request.
    DrawRequestId,
    /// Send this text.
    SendRequest(String),
    /// Wait for the next event of the socket, or for the time to be up.
    Receive,
    /// Hand the result to whoever asked.
    Finish(Result<String, RequestError>),
}

/// A request for a completion.
#[derive(Debug)]
pub struct DeltaRequest {
    pub pos: usize,
    pub repo: String,
    pub phase: DeltaPhase,
}

/// Whether an event is one that a request in this phase waits for.
pub open spec fn expects(phase: DeltaPhase, event: DeltaEvent) -> bool {
    match phase {
        DeltaPhase::Connecting { .. } => event is Connection,
        DeltaPhase::SendingFile => event is FileContentSent,
        DeltaPhase::Naming => event is RequestId,
        DeltaPhase::SendingRequest { .. } => event is RequestSent,
        DeltaPhase::Receiving { .. } => event is Socket,
        DeltaPhase::Finished => false,
    }
}

/// Whether the request is over, with this error.
pub open spec fn fails_with(phase: DeltaPhase, action: DeltaAction, error: RequestError) -> bool {
    phase is Finished && action == DeltaAction::Finish(Err(error))
}

/// Whether the request is over, with this answer.
pub open spec fn answers(phase: DeltaPhase, action: DeltaAction, text: Seq<char>) -> bool {
    &&& phase is Finished
    &&& action matches DeltaAction::Finish(Ok(result))
    &&& result@ == text
}

/// What an event of the socket makes of an exchange that waits for it.
pub open spec fn receives(
    exchange: CompletionExchange,
    event: SocketEvent,
    phase: DeltaPhase,
    action: DeltaAction,
) -> bool {
    match event {
        SocketEvent::Text(text) => match text_part(exchange.request_id@, text@) {
            Some((value, last)) => if last {
                answers(phase, action, answer(exchange.completion@ + value))
            } else {
                &&& action is Receive
                &&& phase matches DeltaPhase::Receiving { exchange: after }
                &&& after.request_id == exchange.request_id
                &&& after.completion@ == exchange.completion@ + value
            },
            None => action is Receive && phase == (DeltaPhase::Receiving { exchange }),
        },
        SocketEvent::Other => action is Receive && phase == (DeltaPhase::Receiving { exchange }),
        SocketEvent::Close => fails_with(phase, action, RequestError::ClosedByServer),
        SocketEvent::Failed(reason) => fails_with(phase, action, RequestError::Transport(reason)),
        SocketEvent::Ended => fails_with(phase, action, RequestError::ConnectionEnded),
        SocketEvent::TimedOut => fails_with(phase, action, RequestError::TimedOut),
    }
}

/// What an event that a request waits for makes of it, and what is to be done then.
pub open spec fn steps(before: DeltaRequest, event: DeltaEvent, after: DeltaRequest, action: DeltaAction) -> bool {
    &&& after.pos == before.pos
    &&& after.repo == before.repo
    &&& match (before.phase, event) {
        (DeltaPhase::Connecting { file_content }, DeltaEvent::Connection(outcome)) => match outcome {
            Err(error) => fails_with(after.phase, action, error),
            Ok(_) => match file_content {
                None => answers(after.phase, action, Seq::empty()),
                Some(content) => {
                    &&& after.phase is SendingFile
                    &&& action matches DeltaAction::SendFileContent { path, content: sent }
                    &&& path@ == UNTITLED@
                    &&& sent == content
                },
            },
        },
        (DeltaPhase::SendingFile, DeltaEvent::FileContentSent(outcome)) => match outcome {
            Err(error) => fails_with(after.phase, action, error),
            Ok(_) => after.phase is Naming && action is DrawRequestId,
        },
        (DeltaPhase::Naming, DeltaEvent::RequestId(request_id)) => {
            &&& after.phase == (DeltaPhase::SendingRequest { request_id })
            &&& action matches DeltaAction::SendRequest(json)
            &&& json@ == json::json_text(
                message::delta_request_members("requestId"@, request_id@, before.repo@, before.pos as nat),
            )
            &&& json::json_str_at(json@, "requestId"@) == Some(request_id@)
        },
        (DeltaPhase::SendingRequest { request_id }, DeltaEvent::RequestSent(outcome)) => match outcome {
            SendOutcome::NoConnection => fails_with(after.phase, action, RequestError::NoConnection),
            SendOutcome::Failed(reason) => fails_with(after.phase, action, RequestError::Transport(reason)),
            SendOutcome::Sent => {
                &&& action is Receive
                &&& after.phase matches DeltaPhase::Receiving { exchange }
                &&& exchange.request_id == request_id
                &&& exchange.completion@.len() == 0
            },
        },
        (DeltaPhase::Receiving { exchange }, DeltaEvent::Socket(event)) => receives(
            exchange,
            event,
            after.phase,
            action,
        ),
        _ => false,
    }
}

/// Whether an event shows that the connection is of no more use. A request that merely ran out of
/// time leaves the connection in place.
pub open spec fn ends_connection(event: DeltaEvent) -> bool {
    match event {
        DeltaEvent::RequestSent(outcome) => outcome is Failed,
        DeltaEvent::Socket(event) => event is Close || event is Failed || event is Ended,
        _ => false,
    }
}

/// What an event leaves of the client's connection.
pub open spec fn connection_after<C>(connection: Option<C>, event: DeltaEvent) -> Option<C> {
    if ends_connection(event) {
        None
    } else {
        connection
    }
}

impl DeltaRequest {
    /// Takes in an event that the request waits for, gives up the client's connection where it is
    /// of no more use, and says what is to be done next.
    pub fn step<C>(&mut self, client: &mut WebSocketClient<C>, event: DeltaEvent) -> (action: DeltaAction)
        requires
            expects(old(self).phase, event),
        ensures
            steps(*old(self), event, *final(self), action),
            final(client).api_url == old(client).api_url,
            final(client).connection == connection_after(old(client).connection, event),
    {
        let mut phase = DeltaPhase::Finished;
        core::mem::swap(&mut phase, &mut self.phase);
        match (phase, event) {
            (DeltaPhase::Connecting { file_content }, DeltaEvent::Connection(outcome)) => match outcome {
                Err(error) => DeltaAction::Finish(Err(error)),
                Ok(_) => match file_content {
                    None => DeltaAction::Finish(Ok(String::new())),
                    Some(content) => {
                        self.phase = DeltaPhase::SendingFile;
                        DeltaAction::SendFileContent { path: UNTITLED.to_owned(), content }
                    },
                },
            },
            (DeltaPhase::SendingFile, DeltaEvent::FileContentSent(outcome)) => match outcome {
                Err(error) => DeltaAction::Finish(Err(error)),
                Ok(_) => {
                    self.phase = DeltaPhase::Naming;
                    DeltaAction::DrawRequestId
                },
            },
            (DeltaPhase::Naming, DeltaEvent::RequestId(request_id)) => {
                let json = message::client_request_json(request_id.as_str(), self.repo.as_str(), self.pos);
                self.phase = DeltaPhase::SendingRequest { request_id };
                DeltaAction::SendRequest(json)
            },
            (DeltaPhase::SendingRequest { request_id }, DeltaEvent::RequestSent(outcome)) => {
                match client.sent(outcome) {
                    Err(error) => DeltaAction::Finish(Err(error)),
                    Ok(_) => {
                        self.phase = DeltaPhase::Receiving { exchange: CompletionExchange::new(request_id) };
                        DeltaAction::Receive
                    },
                }
            },
            (DeltaPhase::Receiving { exchange }, DeltaEvent::Socket(event)) => self.receive(exchange, client, event),
            _ => DeltaAction::Finish(Ok(String::new())),
        }
    }

    /// Takes in an event of the socket while the answer is awaited.
    fn receive<C>(
        &mut self,
        exchange: CompletionExchange,
        client: &mut WebSocketClient<C>,
        event: SocketEvent,
    ) -> (action: DeltaAction)
        requires
            old(self).phase is Finished,
        ensures
            final(self).pos == old(self).pos,
            final(self).repo == old(self).repo,
            receives(exchange, event, final(self).phase, action),
            final(client).api_url == old(client).api_url,
            final(client).connection == connection_after(old(client).connection, DeltaEvent::Socket(event)),
    {
        match event {
            SocketEvent::Text(text) => {
                let mut exchange = exchange;
                if exchange.receive_text(text.as_str()) {
                    DeltaAction::Finish(Ok(exchange.finish()))
                } else {
                    self.phase = DeltaPhase::Receiving { exchange };
                    DeltaAction::Receive
                }
            },
            SocketEvent::Other => {
                self.phase = DeltaPhase::Receiving { exchange };
                DeltaAction::Receive
            },
            SocketEvent::Close => {
                client.connection = None;
                DeltaAction::Finish(Err(RequestError::ClosedByServer))
            },
            SocketEvent::Failed(reason) => {
                client.connection = None;
                DeltaAction::Finish(Err(RequestError::Transport(reason)))
            },
            SocketEvent::Ended => {
                client.connection = None;
                DeltaAction::Finish(Err(RequestError::ConnectionEnded))
            },
            SocketEvent::TimedOut => DeltaAction::Finish(Err(RequestError::TimedOut)),
        }
    }
}

impl<C> WebSocketClient<C> {
    /// A request for a completion at the offset `pos` of a file that holds `file_content`. It
    /// starts with a look after the connection. The path of the file plays no part: every content
    /// goes under the same one.
    pub fn send_delta_completion_request(
        &self,
        pos: usize,
        repo: &str,
        file_path: Option<&str>,
        file_content: Option<String>,
    ) -> (started: (DeltaRequest, DeltaAction))
        ensures
            started.0.pos == pos,
            started.0.repo@ == repo@,
            started.0.phase == (DeltaPhase::Connecting { file_content }),
            started.1 is EnsureConnection,
    {
        let request = DeltaRequest { pos, repo: repo.to_owned(), phase: DeltaPhase::Connecting { file_content } };
        (request, DeltaAction::EnsureConnection)
    }
}

} // verus!
