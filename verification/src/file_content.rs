//! Sending the content of a file, from the first look at the connection to how it ended.
//!
//! The application does what a [`FileAction`] says and reports back with a [`FileEvent`], until the
//! action is to finish. From when it has told of the connection on, the client is this request's own.

use crate::client::{RequestError, SendOutcome, WebSocketClient};
use crate::json;
use crate::json::JsonValue;
use crate::message;
use vstd::prelude::*;

verus! {

/// How far the request has come.
#[derive(Debug)]
pub enum FileRequest {
    /// A connection is being looked after; this is the text to send then.
    Connecting { json: String },
    /// The text is being sent.
    Sending,
    /// The request is over.
    Finished,
}

/// What happened.
#[derive(Debug)]
pub enum FileEvent {
    /// How the look after the connection ended.
    Connection(Result<(), RequestError>),
    /// The text was sent.
    Sent,
    /// The connection failed, for the reason given.
    Failed(String),
}

/// What is to be done.
#[derive(Debug)]
pub enum FileAction {
    /// See to it that there is a connection.
    EnsureConnection,
    /// Hand this text to the connection.
    Send(String),
    /// Hand the result to whoever asked.
    Finish(Result<(), RequestError>),
}

/// Whether a text tells the service what the file at `path` holds.
pub open spec fn carries(json: Seq<char>, path: Seq<char>, content: Seq<char>) -> bool {
    &&& json == json::json_text(message::file_content_members(path, content))
    &&& json::json_str_at(json, "type"@) == Some("file-content"@)
    &&& json::json_str_at(json, "path"@) == Some(path)
    &&& json::json_str_at(json, "text"@) == Some(content)
}

/// Whether a request is at its start, with this content to send.
pub open spec fn starts(request: FileRequest, path: Seq<char>, content: Seq<char>) -> bool {
    &&& request matches FileRequest::Connecting { json }
    &&& carries(json@, path, content)
}

/// Whether an event is one that the request waits for.
pub open spec fn expects(request: FileRequest, event: FileEvent) -> bool {
    match request {
        FileRequest::Connecting { .. } => event is Connection,
        FileRequest::Sending => event is Sent || event is Failed,
        FileRequest::Finished => false,
    }
}

/// What an event that the request waits for makes of it, and what is to be done then. Nothing is
/// sent where there is no connection to send it over.
pub open spec fn steps<C>(
    before: FileRequest,
    connection: Option<C>,
    event: FileEvent,
    after: FileRequest,
    action: FileAction,
) -> bool {
    match (before, event) {
        (FileRequest::Connecting { json }, FileEvent::Connection(Ok(_))) => if connection is Some {
            after is Sending && action == FileAction::Send(json)
        } else {
            after is Finished && action == FileAction::Finish(Err(RequestError::NoConnection))
        },
        (FileRequest::Connecting { .. }, FileEvent::Connection(Err(error))) => {
            after is Finished && action == FileAction::Finish(Err(error))
        },
        (FileRequest::Sending, FileEvent::Sent) => after is Finished && action == FileAction::Finish(Ok(())),
        (FileRequest::Sending, FileEvent::Failed(reason)) => {
            after is Finished && action == FileAction::Finish(Err(RequestError::Transport(reason)))
        },
        _ => false,
    }
}

/// What an event leaves of the client's connection: one that failed is given up, so that the next
/// request makes a new one.
pub open spec fn connection_after<C>(connection: Option<C>, event: FileEvent) -> Option<C> {
    if event is Failed {
        None
    } else {
        connection
    }
}

impl FileRequest {
    /// Takes in an event that the request waits for, gives up the client's connection where it
    /// failed, and says what is to be done next.
    pub fn step<C>(&mut self, client: &mut WebSocketClient<C>, event: FileEvent) -> (action: FileAction)
        requires
            expects(*old(self), event),
        ensures
            steps(*old(self), old(client).connection, event, *final(self), action),
            final(client).api_url == old(client).api_url,
            final(client).connection == connection_after(old(client).connection, event),
    {
        let mut before = FileRequest::Finished;
        core::mem::swap(&mut before, self);
        match (before, event) {
            (FileRequest::Connecting { json }, FileEvent::Connection(Ok(_))) => {
                if client.ensure_connection() {
                    FileAction::Finish(Err(RequestError::NoConnection))
                } else {
                    *self = FileRequest::Sending;
                    FileAction::Send(json)
                }
            },
            (_, FileEvent::Connection(Err(error))) => FileAction::Finish(Err(error)),
            (_, FileEvent::Failed(reason)) => FileAction::Finish(client.sent(SendOutcome::Failed(reason))),
            (_, _) => FileAction::Finish(client.sent(SendOutcome::Sent)),
        }
    }
}

impl<C> WebSocketClient<C> {
    /// A request that tells the service what the file at `path` holds. It starts with a look after
    /// the connection.
    pub fn send_file_content(&self, path: &str, content: &str) -> (started: (FileRequest, FileAction))
        ensures
            starts(started.0, path@, content@),
            started.1 is EnsureConnection,
    {
        let json = message::file_content_json(path, content);
        (FileRequest::Connecting { json }, FileAction::EnsureConnection)
    }
}

/// A request from its start on: the states that it and the client's connection went through, the
/// events that it took in, and the action that followed on each of them.
pub open spec fn is_run<C>(
    path: Seq<char>,
    content: Seq<char>,
    requests: Seq<FileRequest>,
    connections: Seq<Option<C>>,
    events: Seq<FileEvent>,
    actions: Seq<FileAction>,
) -> bool {
    &&& requests.len() == events.len() + 1
    &&& connections.len() == events.len() + 1
    &&& actions.len() == events.len()
    &&& starts(requests[0], path, content)
    &&& forall|i: int|
        #![trigger events[i]]
        0 <= i < events.len() ==> {
            &&& steps(requests[i], connections[i], events[i], requests[i + 1], actions[i])
            &&& connections[i + 1] == connection_after(connections[i], events[i])
        }
}

/// Whether this is all that was handed to the connection: one text with the content of a file.
pub open spec fn sends_once(actions: Seq<FileAction>, path: Seq<char>, content: Seq<char>) -> bool {
    &&& actions[0] matches FileAction::Send(json)
    &&& carries(json@, path, content)
    &&& forall|i: int| 0 < i < actions.len() ==> !(#[trigger] actions[i] is Send)
}

/// Where no connection can be made, the error is the result and nothing is sent; nor is anything
/// where the connection was lost meanwhile. Otherwise exactly one text is sent, with the path and
/// the content as they were given, and all is well exactly if the connection is kept.
pub proof fn law_content_is_sent_once<C>(
    path: Seq<char>,
    content: Seq<char>,
    requests: Seq<FileRequest>,
    connections: Seq<Option<C>>,
    events: Seq<FileEvent>,
    actions: Seq<FileAction>,
)
    requires
        is_run(path, content, requests, connections, events, actions),
        events.len() > 0,
    ensures
        events[0] matches FileEvent::Connection(ready) && match ready {
            Err(error) => {
                &&& actions == seq![FileAction::Finish(Err(error))]
                &&& connections.last() == connections[0]
            },
            Ok(_) => if connections[0] is None {
                &&& actions == seq![FileAction::Finish(Err(RequestError::NoConnection))]
                &&& connections.last() is None
            } else {
                &&& sends_once(actions, path, content)
                &&& actions.len() <= 2
                &&& actions.len() == 2 ==> {
                    &&& actions[1] matches FileAction::Finish(result)
                    &&& result is Ok <==> connections.last() is Some
                    &&& result is Ok ==> events[1] is Sent && connections.last() == connections[0]
                    &&& result matches Err(error) ==> error is Transport && events[1] == FileEvent::Failed(
                        error->Transport_0,
                    )
                }
            },
        },
{
    assert(steps(requests[0], connections[0], events[0], requests[1], actions[0]));
    if events.len() > 1 {
        assert(steps(requests[1], connections[1], events[1], requests[2], actions[1]));
        if events.len() > 2 {
            assert(steps(requests[2], connections[2], events[2], requests[3], actions[2]));
        }
    }
    if events[0]->Connection_0 is Err || connections[0] is None {
        assert(actions =~= seq![actions[0]]);
    }
}

/// What is sent of a file is its path and its content in full, whatever they hold: the text is made of
/// them, and whoever reads it finds them.
pub proof fn law_content_is_sent_in_full<C>(
    path: Seq<char>,
    content: Seq<char>,
    requests: Seq<FileRequest>,
    connections: Seq<Option<C>>,
    events: Seq<FileEvent>,
    actions: Seq<FileAction>,
    i: int,
)
    requires
        is_run(path, content, requests, connections, events, actions),
        0 <= i < actions.len(),
        actions[i] is Send,
    ensures
        i == 0,
        events[0] matches FileEvent::Connection(ready) && ready is Ok,
        connections[0] is Some,
        actions[i]->Send_0@ == json::json_text(
            seq![
                ("type"@, JsonValue::Text("file-content"@)),
                ("path"@, JsonValue::Text(path)),
                ("text"@, JsonValue::Text(content)),
            ],
        ),
        json::json_str_at(actions[i]->Send_0@, "type"@) == Some("file-content"@),
        json::json_str_at(actions[i]->Send_0@, "path"@) == Some(path),
        json::json_str_at(actions[i]->Send_0@, "text"@) == Some(content),
{
    assert(steps(requests[0], connections[0], events[0], requests[1], actions[0]));
    assert(steps(requests[i], connections[i], events[i], requests[i + 1], actions[i]));
    if i > 0 {
        assert(steps(requests[i - 1], connections[i - 1], events[i - 1], requests[i], actions[i - 1]));
    }
}

/// A connection is given up exactly where it failed.
pub proof fn law_only_a_failed_connection_is_given_up<C>(connection: Option<C>, event: FileEvent)
    ensures
        connection_after(connection, event) == match event {
            FileEvent::Failed(_) => None,
            _ => connection,
        },
{
}

/// A request takes in every outcome of what it asked for last, and nothing once it is over.
pub proof fn law_every_outcome_is_taken_in(request: FileRequest, event: FileEvent)
    ensures
        expects(request, event) <==> match event {
            FileEvent::Connection(_) => request is Connecting,
            FileEvent::Sent | FileEvent::Failed(_) => request is Sending,
        },
{
}

} // verus!
