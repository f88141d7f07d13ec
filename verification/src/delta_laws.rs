//! What holds of a request for a completion as a whole, whatever the network does.

use crate::client;
use crate::client::{RequestError, SendOutcome, WebSocketClient};
use crate::delta;
use crate::delta::{DeltaAction, DeltaEvent, DeltaPhase, DeltaRequest, SocketEvent};
use crate::json;
use crate::json::JsonValue;
use vstd::prelude::*;

verus! {

/// A request from its start on: the states that it went through, the events that it took in, and
/// the action that followed on each of them.
pub open spec fn is_run(states: Seq<DeltaRequest>, events: Seq<DeltaEvent>, actions: Seq<DeltaAction>) -> bool {
    &&& states.len() == events.len() + 1
    &&& actions.len() == events.len()
    &&& states[0].phase is Connecting
    &&& forall|i: int|
        #![trigger events[i]]
        0 <= i < events.len() ==> delta::steps(states[i], events[i], states[i + 1], actions[i])
}

/// What an event adds to the completion of a request.
pub open spec fn added(request_id: Seq<char>, event: DeltaEvent) -> Seq<char> {
    match event {
        DeltaEvent::Socket(SocketEvent::Text(text)) => if json::json_str_at(text@, "r"@) == Some(request_id) {
            match json::json_str_at(text@, "v"@) {
                Some(value) => value,
                None => Seq::empty(),
            }
        } else {
            Seq::empty()
        },
        _ => Seq::empty(),
    }
}

/// What the events add to the completion of a request, one after the other.
pub open spec fn collected(request_id: Seq<char>, events: Seq<DeltaEvent>) -> Seq<char>
    decreases events.len(),
{
    if events.len() == 0 {
        Seq::empty()
    } else {
        collected(request_id, events.drop_last()) + added(request_id, events.last())
    }
}

/// Whether an event is the last reply to a request.
pub open spec fn is_last_reply(request_id: Seq<char>, event: DeltaEvent) -> bool {
    &&& event matches DeltaEvent::Socket(SocketEvent::Text(text))
    &&& json::json_str_at(text@, "r"@) == Some(request_id)
    &&& json::json_str_at(text@, "v"@) is Some
    &&& json::json_bool_at(text@, "flush"@) != Some(false)
}

/// The phase that a request is in after so many events, unless it is over.
spec fn phase_after(count: int, phase: DeltaPhase) -> bool {
    if count == 0 {
        phase is Connecting
    } else if count == 1 {
        phase is SendingFile
    } else if count == 2 {
        phase is Naming
    } else if count == 3 {
        phase is SendingRequest
    } else {
        phase is Receiving
    }
}

/// A request goes through its phases in order, and once it is over it takes in no more events.
proof fn lemma_phases(states: Seq<DeltaRequest>, events: Seq<DeltaEvent>, actions: Seq<DeltaAction>, i: int)
    requires
        is_run(states, events, actions),
        0 <= i <= events.len(),
    ensures
        phase_after(i, states[i].phase) || (states[i].phase is Finished && i == events.len()),
        i < events.len() ==> phase_after(i, states[i].phase),
    decreases i,
{
    if i > 0 {
        lemma_phases(states, events, actions, i - 1);
        assert(delta::steps(states[i - 1], events[i - 1], states[i], actions[i - 1]));
    }
    if i < events.len() {
        assert(delta::steps(states[i], events[i], states[i + 1], actions[i]));
    }
}

/// A request is over exactly when the action is to finish, and nothing follows on that.
pub proof fn law_finish_is_final(
    states: Seq<DeltaRequest>,
    events: Seq<DeltaEvent>,
    actions: Seq<DeltaAction>,
    i: int,
)
    requires
        is_run(states, events, actions),
        0 <= i < actions.len(),
    ensures
        actions[i] is Finish <==> states[i + 1].phase is Finished,
        actions[i] is Finish ==> i == actions.len() - 1,
{
    assert(delta::steps(states[i], events[i], states[i + 1], actions[i]));
    lemma_phases(states, events, actions, i + 1);
}

/// The service is asked for a completion only once the content of the file has been sent to it.
pub proof fn law_content_goes_first(
    states: Seq<DeltaRequest>,
    events: Seq<DeltaEvent>,
    actions: Seq<DeltaAction>,
    i: int,
)
    requires
        is_run(states, events, actions),
        0 <= i < actions.len(),
        actions[i] is SendRequest,
    ensures
        exists|j: int, k: int|
            {
                &&& 0 <= j < k < i
                &&& #[trigger] actions[j] matches DeltaAction::SendFileContent { content, .. }
                &&& states[0].phase == (DeltaPhase::Connecting { file_content: Some(content) })
                &&& #[trigger] events[k] matches DeltaEvent::FileContentSent(outcome)
                &&& outcome is Ok
            },
{
    lemma_phases(states, events, actions, i);
    assert(delta::steps(states[i], events[i], states[i + 1], actions[i]));
    lemma_phases(states, events, actions, 0);
    lemma_phases(states, events, actions, 1);
    lemma_phases(states, events, actions, 2);
    assert(delta::steps(states[0], events[0], states[1], actions[0]));
    assert(delta::steps(states[1], events[1], states[2], actions[1]));
    assert(actions[0] is SendFileContent);
    assert(events[1] is FileContentSent);
}

/// The request that the service reads carries the id by which its replies are told apart.
pub proof fn law_request_carries_its_id(
    states: Seq<DeltaRequest>,
    events: Seq<DeltaEvent>,
    actions: Seq<DeltaAction>,
    i: int,
)
    requires
        is_run(states, events, actions),
        0 <= i < actions.len(),
        actions[i] is SendRequest,
    ensures
        events[2] is RequestId,
        json::json_str_at(actions[i]->SendRequest_0@, "requestId"@) == Some(events[2]->RequestId_0@),
        states.last().phase matches DeltaPhase::Receiving { exchange } ==> exchange.request_id
            == events[2]->RequestId_0,
{
    lemma_phases(states, events, actions, i);
    assert(delta::steps(states[i], events[i], states[i + 1], actions[i]));
    if states.last().phase is Receiving {
        lemma_phases(states, events, actions, events.len() as int);
        lemma_receiving(states, events, actions, events.len() as int);
    }
}

/// Without a content to send, nothing is sent: the request ends with its first event, in an empty
/// answer if there is a connection.
pub proof fn law_nothing_without_content(
    states: Seq<DeltaRequest>,
    events: Seq<DeltaEvent>,
    actions: Seq<DeltaAction>,
)
    requires
        is_run(states, events, actions),
        states[0].phase == (DeltaPhase::Connecting { file_content: None }),
    ensures
        events.len() <= 1,
        actions.len() == 1 ==> {
            &&& actions[0] matches DeltaAction::Finish(result)
            &&& events[0] matches DeltaEvent::Connection(outcome)
            &&& match outcome {
                Ok(_) => result matches Ok(text) && text@.len() == 0,
                Err(error) => result == Err::<String, _>(error),
            }
        },
{
    if events.len() >= 1 {
        assert(delta::steps(states[0], events[0], states[1], actions[0]));
        lemma_phases(states, events, actions, 1);
    }
}

/// A reply to another request changes nothing.
pub proof fn law_foreign_replies_are_ignored(
    before: DeltaRequest,
    text: String,
    after: DeltaRequest,
    action: DeltaAction,
)
    requires
        before.phase matches DeltaPhase::Receiving { exchange } && json::json_str_at(text@, "r"@) != Some(
            exchange.request_id@,
        ),
        delta::steps(before, DeltaEvent::Socket(SocketEvent::Text(text)), after, action),
    ensures
        after == before,
        action is Receive,
{
}

/// A connection that failed, was closed or ended is made anew before the next request. One that
/// merely took too long to answer is used again.
pub proof fn law_broken_connections_are_replaced<C>(
    before: WebSocketClient<C>,
    event: DeltaEvent,
    after: WebSocketClient<C>,
)
    requires
        after.connection == delta::connection_after(before.connection, event),
    ensures
        delta::ends_connection(event) ==> client::needs_connection(after),
        event == DeltaEvent::Socket(SocketEvent::TimedOut) ==> after.connection == before.connection,
{
}

/// Before the request has been sent, no event adds anything.
proof fn lemma_nothing_collected(request_id: Seq<char>, events: Seq<DeltaEvent>)
    requires
        forall|i: int| 0 <= i < events.len() ==> !(#[trigger] events[i] is Socket),
    ensures
        collected(request_id, events).len() == 0,
    decreases events.len(),
{
    if events.len() > 0 {
        assert(!(events[events.len() - 1] is Socket));
        lemma_nothing_collected(request_id, events.drop_last());
    }
}

/// While the answer is awaited, the completion is what the events so far have added, and none of
/// them was the last reply.
proof fn lemma_receiving(states: Seq<DeltaRequest>, events: Seq<DeltaEvent>, actions: Seq<DeltaAction>, i: int)
    requires
        is_run(states, events, actions),
        4 <= i <= events.len(),
        states[i].phase is Receiving,
    ensures
        events[2] is RequestId,
        states[i].phase->exchange.request_id == events[2]->RequestId_0,
        states[i].phase->exchange.completion@ == collected(events[2]->RequestId_0@, events.take(i)),
        forall|k: int| 0 <= k < i ==> !is_last_reply(events[2]->RequestId_0@, #[trigger] events[k]),
    decreases i,
{
    lemma_phases(states, events, actions, i - 1);
    assert(delta::steps(states[i - 1], events[i - 1], states[i], actions[i - 1]));
    if i == 4 {
        lemma_phases(states, events, actions, 0);
        lemma_phases(states, events, actions, 1);
        lemma_phases(states, events, actions, 2);
        assert(delta::steps(states[0], events[0], states[1], actions[0]));
        assert(delta::steps(states[1], events[1], states[2], actions[1]));
        assert(delta::steps(states[2], events[2], states[3], actions[2]));
        let id = events[2]->RequestId_0@;
        lemma_nothing_collected(id, events.take(4));
        assert(states[4].phase->exchange.completion@ == collected(id, events.take(4)));
    } else {
        lemma_receiving(states, events, actions, i - 1);
        let id = events[2]->RequestId_0@;
        assert(events.take(i).drop_last() == events.take(i - 1));
        assert(events.take(i).last() == events[i - 1]);
        assert(collected(id, events.take(i)) == collected(id, events.take(i - 1)) + added(id, events[i - 1]));
        assert(states[i].phase->exchange.completion@ == collected(id, events.take(i)));
    }
}

/// An answer to a request that was sent is the values of all replies to it, put together in the
/// order in which they came, or the placeholder where these are empty. It is given with the first
/// reply that does not announce another one.
pub proof fn law_answer_is_the_replies(
    states: Seq<DeltaRequest>,
    events: Seq<DeltaEvent>,
    actions: Seq<DeltaAction>,
    text: String,
)
    requires
        is_run(states, events, actions),
        events.len() > 1,
        actions.last() == DeltaAction::Finish(Ok(text)),
    ensures
        events[2] is RequestId,
        text@ == delta::answer(collected(events[2]->RequestId_0@, events)),
        collected(events[2]->RequestId_0@, events).len() > 0 ==> text@ == collected(events[2]->RequestId_0@, events),
        collected(events[2]->RequestId_0@, events).len() == 0 ==> text@ == "hello_ninetyfive_no_response"@,
        is_last_reply(events[2]->RequestId_0@, events.last()),
        forall|k: int| 0 <= k < events.len() - 1 ==> !is_last_reply(events[2]->RequestId_0@, #[trigger] events[k]),
{
    let n = events.len() as int;
    lemma_phases(states, events, actions, n - 1);
    assert(delta::steps(states[n - 1], events[n - 1], states[n], actions[n - 1]));
    lemma_receiving(states, events, actions, n - 1);
    let id = events[2]->RequestId_0@;
    assert(events.drop_last() == events.take(n - 1));
    assert(collected(id, events) == collected(id, events.take(n - 1)) + added(id, events[n - 1]));
}

/// A reply to the request that an answer is awaited for adds the whole of its value to what came
/// before. Unless it announces another one, it completes the answer, which is all that came, or a
/// stand-in where that is empty.
pub proof fn law_reply_adds_its_whole_value(
    before: DeltaRequest,
    text: String,
    value: Seq<char>,
    after: DeltaRequest,
    action: DeltaAction,
)
    requires
        before.phase is Receiving,
        json::json_str_at(text@, "r"@) == Some(before.phase->exchange.request_id@),
        json::json_str_at(text@, "v"@) == Some(value),
        delta::steps(before, DeltaEvent::Socket(SocketEvent::Text(text)), after, action),
    ensures
        json::json_bool_at(text@, "flush"@) == Some(false) ==> {
            &&& action is Receive
            &&& after.phase is Receiving
            &&& after.phase->exchange.request_id@ == before.phase->exchange.request_id@
            &&& after.phase->exchange.completion@ == before.phase->exchange.completion@ + value
        },
        json::json_bool_at(text@, "flush"@) != Some(false) ==> {
            let whole = before.phase->exchange.completion@ + value;
            &&& after.phase is Finished
            &&& action matches DeltaAction::Finish(Ok(result))
            &&& whole.len() > 0 ==> result@ == whole
            &&& whole.len() == 0 ==> result@ == "hello_ninetyfive_no_response"@
        },
        after.pos == before.pos,
        after.repo == before.repo,
{
}

/// A single reply that is the last gives its value as the answer.
pub proof fn law_a_single_reply_is_the_answer(
    before: DeltaRequest,
    text: String,
    value: Seq<char>,
    after: DeltaRequest,
    action: DeltaAction,
)
    requires
        before.phase is Receiving,
        before.phase->exchange.completion@.len() == 0,
        json::json_str_at(text@, "r"@) == Some(before.phase->exchange.request_id@),
        json::json_str_at(text@, "v"@) == Some(value),
        json::json_bool_at(text@, "flush"@) != Some(false),
        value.len() > 0,
        delta::steps(before, DeltaEvent::Socket(SocketEvent::Text(text)), after, action),
    ensures
        action matches DeltaAction::Finish(Ok(result)) && result@ == value,
{
    assert(before.phase->exchange.completion@ + value == value);
}

/// A text that is no reply to the request, or has no value, changes nothing, and neither does a
/// message of another kind.
pub proof fn law_what_is_no_reply_changes_nothing(
    before: DeltaRequest,
    event: SocketEvent,
    after: DeltaRequest,
    action: DeltaAction,
)
    requires
        before.phase is Receiving,
        delta::steps(before, DeltaEvent::Socket(event), after, action),
        event matches SocketEvent::Text(text) ==> json::json_str_at(text@, "v"@) is None || json::json_str_at(
            text@,
            "r"@,
        ) != Some(before.phase->exchange.request_id@),
        event is Text || event is Other,
    ensures
        after == before,
        action is Receive,
{
}

/// An answer that does not come is an error, which says why.
pub proof fn law_a_missing_answer_is_an_error(
    before: DeltaRequest,
    event: SocketEvent,
    after: DeltaRequest,
    action: DeltaAction,
)
    requires
        before.phase is Receiving,
        delta::steps(before, DeltaEvent::Socket(event), after, action),
        !(event is Text),
        !(event is Other),
    ensures
        after.phase is Finished,
        action matches DeltaAction::Finish(Err(error)) && match event {
            SocketEvent::Close => error is ClosedByServer,
            SocketEvent::Failed(reason) => error == RequestError::Transport(reason),
            SocketEvent::Ended => error is ConnectionEnded,
            _ => event is TimedOut && error is TimedOut,
        },
{
}

/// A connection is given up exactly where sending or the socket failed, or where the socket was
/// closed or ended.
pub proof fn law_only_broken_connections_are_given_up<C>(connection: Option<C>, event: DeltaEvent)
    ensures
        delta::connection_after(connection, event) == match event {
            DeltaEvent::RequestSent(SendOutcome::Failed(_)) => None,
            DeltaEvent::Socket(SocketEvent::Close) => None,
            DeltaEvent::Socket(SocketEvent::Failed(_)) => None,
            DeltaEvent::Socket(SocketEvent::Ended) => None,
            _ => connection,
        },
{
}

/// What a request does up to when its answer is awaited follows from what was asked for and from how
/// each step went. The content is sent as it was given. The request that is sent then has the id that
/// was drawn for it, and the repository and the offset that were asked for. Whatever fails ends the
/// request, with the error as it came.
pub proof fn law_course_of_a_request(
    states: Seq<DeltaRequest>,
    events: Seq<DeltaEvent>,
    actions: Seq<DeltaAction>,
    pos: usize,
    repo: Seq<char>,
    content: Option<String>,
)
    requires
        is_run(states, events, actions),
        states[0].pos == pos,
        states[0].repo@ == repo,
        states[0].phase == (DeltaPhase::Connecting { file_content: content }),
    ensures
        events.len() > 0 ==> {
            &&& events[0] matches DeltaEvent::Connection(ready)
            &&& match (ready, content) {
                (Err(error), _) => actions[0] == DeltaAction::Finish(Err(error)),
                (Ok(_), None) => actions[0] matches DeltaAction::Finish(Ok(result)) && result@.len() == 0,
                (Ok(_), Some(content)) => actions[0] matches DeltaAction::SendFileContent { path, content: sent }
                    && path@ == "Untitled-1"@ && sent@ == content@,
            }
        },
        events.len() > 1 ==> {
            &&& actions[0] is SendFileContent
            &&& events[1] matches DeltaEvent::FileContentSent(sent)
            &&& match sent {
                Err(error) => actions[1] == DeltaAction::Finish(Err(error)),
                Ok(_) => actions[1] is DrawRequestId,
            }
        },
        events.len() > 2 ==> {
            &&& actions[1] is DrawRequestId
            &&& events[2] matches DeltaEvent::RequestId(request_id)
            &&& actions[2] matches DeltaAction::SendRequest(json)
            &&& json@ == json::json_text(
                seq![
                    ("type"@, JsonValue::Text("delta-completion-request"@)),
                    ("requestId"@, JsonValue::Text(request_id@)),
                    ("repo"@, JsonValue::Text(repo)),
                    ("pos"@, JsonValue::Number(pos as nat)),
                ],
            )
        },
        events.len() > 3 ==> {
            &&& events[3] matches DeltaEvent::RequestSent(sent)
            &&& match sent {
                SendOutcome::Sent => actions[3] is Receive,
                SendOutcome::NoConnection => actions[3] == DeltaAction::Finish(Err(RequestError::NoConnection)),
                SendOutcome::Failed(reason) => actions[3] == DeltaAction::Finish(
                    Err(RequestError::Transport(reason)),
                ),
            }
        },
        events.len() > 4 ==> actions[3] is Receive,
        forall|i: int| 4 <= i < events.len() ==> #[trigger] events[i] is Socket,
        forall|i: int| #![trigger actions[i]] 0 <= i < actions.len() && actions[i] is Finish ==> i == actions.len() - 1,
{
    assert forall|i: int| 0 <= i < events.len() implies delta::steps(
        states[i],
        #[trigger] events[i],
        states[i + 1],
        actions[i],
    ) && phase_after(i, states[i].phase) by {
        lemma_phases(states, events, actions, i);
    }
    assert forall|i: int| #![trigger actions[i]] 0 <= i < actions.len() && actions[i] is Finish implies i
        == actions.len() - 1 by {
        law_finish_is_final(states, events, actions, i);
    }
    if events.len() > 0 {
        assert(delta::steps(states[0], events[0], states[1], actions[0]));
    }
    if events.len() > 1 {
        assert(delta::steps(states[1], events[1], states[2], actions[1]));
    }
    if events.len() > 2 {
        assert(delta::steps(states[2], events[2], states[3], actions[2]));
    }
    if events.len() > 3 {
        assert(delta::steps(states[3], events[3], states[4], actions[3]));
    }
    if events.len() > 4 {
        assert(delta::steps(states[4], events[4], states[5], actions[4]));
    }
}

/// A request waits for the outcome of what it asked for last, whatever that outcome is, and for nothing
/// else; once it is over it waits for nothing.
pub proof fn law_every_outcome_is_awaited(phase: DeltaPhase, event: DeltaEvent)
    ensures
        delta::expects(phase, event) <==> match phase {
            DeltaPhase::Connecting { .. } => event is Connection,
            DeltaPhase::SendingFile => event is FileContentSent,
            DeltaPhase::Naming => event is RequestId,
            DeltaPhase::SendingRequest { .. } => event is RequestSent,
            DeltaPhase::Receiving { .. } => event is Socket,
            DeltaPhase::Finished => false,
        },
{
}

/// An answer is awaited for ten seconds.
pub proof fn law_answers_are_awaited_for_ten_seconds()
    ensures
        delta::ANSWER_TIMEOUT_SECS == 10,
{
}

/// An optional text is looked at in full.
pub proof fn law_optional_texts_are_seen_in_full(text: Option<String>)
    ensures
        delta::opt_view(text) is Some <==> text is Some,
        text matches Some(text) ==> delta::opt_view(Some(text)) == Some(text@),
{
}

} // verus!
