//! The messages that travel between the editor and the service.

use crate::json;
use crate::json::{JsonScalar, JsonValue};
use vstd::prelude::*;

verus! {

/// The path that stands for a file that has none of its own.
pub const UNTITLED: &'static str = "Untitled-1";

/// The name of a repository that is not known.
pub const UNKNOWN_REPO: &'static str = "unknown";

/// A message that the agent has for the server.
#[derive(Debug)]
pub enum WebSocketMessage {
    /// What the file at `path` holds at the moment.
    FileContent { path: String, text: String },
    /// Asks for a completion at the offset `pos`, counted in bytes.
    DeltaCompletionRequest { request_id: String, repo: String, pos: usize },
}

/// A message of the server.
#[derive(Debug)]
pub enum NinetyFiveMessage {
    SubscriptionInfo { is_paid: bool, name: String },
    Response { r: String, v: String, end: Option<bool>, flush: Option<bool> },
    /// Any message of a kind that is not known here.
    Unknown,
}

/// The members of a message that carries the content of a file.
pub open spec fn file_content_members(path: Seq<char>, text: Seq<char>) -> Seq<(Seq<char>, JsonValue)> {
    seq![
        ("type"@, JsonValue::Text("file-content"@)),
        ("path"@, JsonValue::Text(path)),
        ("text"@, JsonValue::Text(text)),
    ]
}

/// The members of a message that asks for a completion. The two ends that send one do not agree
/// on the key under which the request's id goes, so that is a parameter.
pub open spec fn delta_request_members(
    id_key: Seq<char>,
    request_id: Seq<char>,
    repo: Seq<char>,
    pos: nat,
) -> Seq<(Seq<char>, JsonValue)> {
    seq![
        ("type"@, JsonValue::Text("delta-completion-request"@)),
        (id_key, JsonValue::Text(request_id)),
        ("repo"@, JsonValue::Text(repo)),
        ("pos"@, JsonValue::Number(pos)),
    ]
}

/// The keys of the messages are all different.
proof fn lemma_keys_differ()
    ensures
        "type"@ != "path"@,
        "type"@ != "text"@,
        "path"@ != "text"@,
        "type"@ != "request_id"@,
        "type"@ != "requestId"@,
        "type"@ != "repo"@,
        "type"@ != "pos"@,
        "request_id"@ != "repo"@,
        "requestId"@ != "repo"@,
        "request_id"@ != "pos"@,
        "requestId"@ != "pos"@,
        "repo"@ != "pos"@,
{
    reveal_strlit("type");
    reveal_strlit("path");
    reveal_strlit("text");
    reveal_strlit("request_id");
    reveal_strlit("requestId");
    reveal_strlit("repo");
    reveal_strlit("pos");
    assert("type"@[0] == 't' && "type"@[1] == 'y');
    assert("path"@[0] == 'p');
    assert("repo"@.len() == 4 && "request_id"@.len() == 10 && "requestId"@.len() == 9);
    assert("text"@[0] == 't' && "text"@[1] == 'e');
}

/// The text of a message that carries the content of a file. Whoever reads it finds the type,
/// the path and the content as they were given.
pub fn file_content_json(path: &str, text: &str) -> (json: String)
    ensures
        json@ == json::json_text(file_content_members(path@, text@)),
        json@ == json::json_text(
            seq![
                ("type"@, JsonValue::Text("file-content"@)),
                ("path"@, JsonValue::Text(path@)),
                ("text"@, JsonValue::Text(text@)),
            ],
        ),
        json::json_str_at(json@, "type"@) == Some("file-content"@),
        json::json_str_at(json@, "path"@) == Some(path@),
        json::json_str_at(json@, "text"@) == Some(text@),
{
    proof {
        lemma_keys_differ();
    }
    let mut object = json::json_object();
    json::json_put(&mut object, "type", JsonScalar::Text("file-content".to_owned()));
    json::json_put(&mut object, "path", JsonScalar::Text(path.to_owned()));
    json::json_put(&mut object, "text", JsonScalar::Text(text.to_owned()));
    let ghost members = json::json_members(object);
    assert(members == file_content_members(path@, text@));
    let json = json::json_to_string(object);
    assert(members[0].1 is Text && members[1].1 is Text && members[2].1 is Text);
    json
}

/// The text of a message that asks for a completion, with the request's id under `id_key`.
/// Whoever reads it finds the type, the id and the repository as they were given.
fn delta_request_json(id_key: &str, request_id: &str, repo: &str, pos: usize) -> (json: String)
    requires
        id_key@ == "request_id"@ || id_key@ == "requestId"@,
    ensures
        json@ == json::json_text(delta_request_members(id_key@, request_id@, repo@, pos as nat)),
        json@ == json::json_text(
            seq![
                ("type"@, JsonValue::Text("delta-completion-request"@)),
                (id_key@, JsonValue::Text(request_id@)),
                ("repo"@, JsonValue::Text(repo@)),
                ("pos"@, JsonValue::Number(pos as nat)),
            ],
        ),
        json::json_str_at(json@, "type"@) == Some("delta-completion-request"@),
        json::json_str_at(json@, id_key@) == Some(request_id@),
        json::json_str_at(json@, "repo"@) == Some(repo@),
{
    proof {
        lemma_keys_differ();
    }
    let mut object = json::json_object();
    json::json_put(&mut object, "type", JsonScalar::Text("delta-completion-request".to_owned()));
    json::json_put(&mut object, id_key, JsonScalar::Text(request_id.to_owned()));
    json::json_put(&mut object, "repo", JsonScalar::Text(repo.to_owned()));
    json::json_put(&mut object, "pos", JsonScalar::Number(pos));
    let ghost members = json::json_members(object);
    assert(members == delta_request_members(id_key@, request_id@, repo@, pos as nat));
    let json = json::json_to_string(object);
    assert(members[0].1 is Text && members[1].1 is Text && members[2].1 is Text);
    json
}

/// The text by which the completion client asks for a completion.
pub fn client_request_json(request_id: &str, repo: &str, pos: usize) -> (json: String)
    ensures
        json@ == json::json_text(delta_request_members("requestId"@, request_id@, repo@, pos as nat)),
        json@ == json::json_text(
            seq![
                ("type"@, JsonValue::Text("delta-completion-request"@)),
                ("requestId"@, JsonValue::Text(request_id@)),
                ("repo"@, JsonValue::Text(repo@)),
                ("pos"@, JsonValue::Number(pos as nat)),
            ],
        ),
        json::json_str_at(json@, "type"@) == Some("delta-completion-request"@),
        json::json_str_at(json@, "requestId"@) == Some(request_id@),
        json::json_str_at(json@, "repo"@) == Some(repo@),
{
    delta_request_json("requestId", request_id, repo, pos)
}

impl WebSocketMessage {
    /// The members that the message is sent with.
    pub open spec fn members(&self) -> Seq<(Seq<char>, JsonValue)> {
        match self {
            WebSocketMessage::FileContent { path, text } => file_content_members(path@, text@),
            WebSocketMessage::DeltaCompletionRequest { request_id, repo, pos } =>
                delta_request_members("request_id"@, request_id@, repo@, *pos as nat),
        }
    }

    /// Whether a text, read as JSON, has the type of the message and its texts.
    pub open spec fn reads_back(&self, json: Seq<char>) -> bool {
        match self {
            WebSocketMessage::FileContent { path, text } => {
                &&& json::json_str_at(json, "type"@) == Some("file-content"@)
                &&& json::json_str_at(json, "path"@) == Some(path@)
                &&& json::json_str_at(json, "text"@) == Some(text@)
            },
            WebSocketMessage::DeltaCompletionRequest { request_id, repo, .. } => {
                &&& json::json_str_at(json, "type"@) == Some("delta-completion-request"@)
                &&& json::json_str_at(json, "request_id"@) == Some(request_id@)
                &&& json::json_str_at(json, "repo"@) == Some(repo@)
            },
        }
    }

    /// The text that goes over the socket. Whoever reads it finds the type and the texts of the
    /// message as they were given.
    pub fn to_json(&self) -> (json: String)
        ensures
            json@ == json::json_text(self.members()),
            self.reads_back(json@),
    {
        match self {
            WebSocketMessage::FileContent { path, text } => file_content_json(path.as_str(), text.as_str()),
            WebSocketMessage::DeltaCompletionRequest { request_id, repo, pos } =>
                delta_request_json("request_id", request_id.as_str(), repo.as_str(), *pos),
        }
    }
}

/// A request tells the offset as it was given, however large it is, and its id and its repository
/// in full, each under its key.
pub proof fn law_request_tells_the_offset(id_key: Seq<char>, request_id: Seq<char>, repo: Seq<char>, pos: nat)
    ensures
        ({
            let members = delta_request_members(id_key, request_id, repo, pos);
            &&& members.len() == 4
            &&& members[0] == ("type"@, JsonValue::Text("delta-completion-request"@))
            &&& members[1] == (id_key, JsonValue::Text(request_id))
            &&& members[2] == ("repo"@, JsonValue::Text(repo))
            &&& members[3] == ("pos"@, JsonValue::Number(pos))
        }),
{
}

/// Two requests are made of the same members only where they ask for the same: at the same offset of
/// the same repository, under the same id.
pub proof fn law_requests_are_told_apart(
    id_key: Seq<char>,
    request_id: Seq<char>,
    repo: Seq<char>,
    pos: nat,
    other_id: Seq<char>,
    other_repo: Seq<char>,
    other_pos: nat,
)
    requires
        delta_request_members(id_key, request_id, repo, pos) == delta_request_members(
            id_key,
            other_id,
            other_repo,
            other_pos,
        ),
    ensures
        pos == other_pos,
        request_id == other_id,
        repo == other_repo,
{
    law_request_tells_the_offset(id_key, request_id, repo, pos);
    law_request_tells_the_offset(id_key, other_id, other_repo, other_pos);
}

/// A message with the content of a file tells the path and the content in full.
pub proof fn law_content_is_told_in_full(path: Seq<char>, text: Seq<char>)
    ensures
        ({
            let members = file_content_members(path, text);
            &&& members.len() == 3
            &&& members[0] == ("type"@, JsonValue::Text("file-content"@))
            &&& members[1] == ("path"@, JsonValue::Text(path))
            &&& members[2] == ("text"@, JsonValue::Text(text))
        }),
{
}

/// What the agent sends are these two kinds of message, each with what it was made with; whoever
/// reads one finds its type and its texts.
pub proof fn law_messages_are_sent_in_full(message: WebSocketMessage, json: Seq<char>)
    requires
        json == json::json_text(message.members()),
        message.reads_back(json),
    ensures
        match message {
            WebSocketMessage::FileContent { path, text } => {
                &&& json == json::json_text(
                    seq![
                        ("type"@, JsonValue::Text("file-content"@)),
                        ("path"@, JsonValue::Text(path@)),
                        ("text"@, JsonValue::Text(text@)),
                    ],
                )
                &&& json::json_str_at(json, "type"@) == Some("file-content"@)
                &&& json::json_str_at(json, "path"@) == Some(path@)
                &&& json::json_str_at(json, "text"@) == Some(text@)
            },
            WebSocketMessage::DeltaCompletionRequest { request_id, repo, pos } => {
                &&& json == json::json_text(
                    seq![
                        ("type"@, JsonValue::Text("delta-completion-request"@)),
                        ("request_id"@, JsonValue::Text(request_id@)),
                        ("repo"@, JsonValue::Text(repo@)),
                        ("pos"@, JsonValue::Number(pos as nat)),
                    ],
                )
                &&& json::json_str_at(json, "type"@) == Some("delta-completion-request"@)
                &&& json::json_str_at(json, "request_id"@) == Some(request_id@)
                &&& json::json_str_at(json, "repo"@) == Some(repo@)
            },
        },
{
}

} // verus!
