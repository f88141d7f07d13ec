//! The task that sends the agent's messages, one after the other.

use crate::json;
use crate::json::JsonValue;
use crate::message::WebSocketMessage;
use vstd::prelude::*;

verus! {

/// What the task is at.
#[derive(Debug)]
pub enum OutgoingPhase {
    /// It waits for a message to send.
    Waiting,
    /// It is sending one.
    Sending,
    /// It is over.
    Ended,
}

/// What happened.
#[derive(Debug)]
pub enum OutgoingEvent {
    /// There is a message to send.
    Queued(WebSocketMessage),
    /// There will be no more messages.
    Closed,
    /// The message was sent.
    Sent,
    /// The message could not be sent, for the reason given.
    Failed(String),
}

/// What is to be done.
#[derive(Debug)]
pub enum OutgoingStep {
    /// Wait for the next message.
    Next,
    /// Send this text, as a frame of its own.
    Send(String),
    /// Stop; all went well.
    Finish,
    /// Stop, with an error for the reason given.
    Fail(String),
}

/// Whether an event is one that the task waits for.
pub open spec fn expects(phase: OutgoingPhase, event: OutgoingEvent) -> bool {
    match phase {
        OutgoingPhase::Waiting => event is Queued || event is Closed,
        OutgoingPhase::Sending => event is Sent || event is Failed,
        OutgoingPhase::Ended => false,
    }
}

/// Whether a text is the one that a message is sent as.
pub open spec fn carries(text: Seq<char>, message: WebSocketMessage) -> bool {
    text == json::json_text(message.members()) && message.reads_back(text)
}

/// What an event that the task waits for makes of it, and what is to be done then.
pub open spec fn steps(before: OutgoingPhase, event: OutgoingEvent, after: OutgoingPhase, step: OutgoingStep) -> bool {
    &&& expects(before, event)
    &&& match event {
        OutgoingEvent::Queued(message) => {
            &&& after is Sending
            &&& step matches OutgoingStep::Send(text)
            &&& carries(text@, message)
        },
        OutgoingEvent::Closed => after is Ended && step is Finish,
        OutgoingEvent::Sent => after is Waiting && step is Next,
        OutgoingEvent::Failed(reason) => after is Ended && step == OutgoingStep::Fail(reason),
    }
}

/// The task from its start on: the phases that it went through, the events that it took in, and
/// the step that followed on each of them.
pub open spec fn is_run(
    phases: Seq<OutgoingPhase>,
    events: Seq<OutgoingEvent>,
    followed: Seq<OutgoingStep>,
) -> bool {
    &&& phases.len() == events.len() + 1
    &&& followed.len() == events.len()
    &&& phases[0] is Waiting
    &&& forall|i: int|
        #![trigger events[i]]
        0 <= i < events.len() ==> steps(phases[i], events[i], phases[i + 1], followed[i])
}

/// The messages that were there to send, in order.
pub open spec fn queued(events: Seq<OutgoingEvent>) -> Seq<WebSocketMessage>
    decreases events.len(),
{
    if events.len() == 0 {
        Seq::empty()
    } else {
        match events.last() {
            OutgoingEvent::Queued(message) => queued(events.drop_last()).push(message),
            _ => queued(events.drop_last()),
        }
    }
}

/// The texts that were handed to the socket, in order.
pub open spec fn handed_over(followed: Seq<OutgoingStep>) -> Seq<Seq<char>>
    decreases followed.len(),
{
    if followed.len() == 0 {
        Seq::empty()
    } else {
        match followed.last() {
            OutgoingStep::Send(text) => handed_over(followed.drop_last()).push(text@),
            _ => handed_over(followed.drop_last()),
        }
    }
}

/// How many messages the socket took.
pub open spec fn count_sent(events: Seq<OutgoingEvent>) -> nat
    decreases events.len(),
{
    if events.len() == 0 {
        0
    } else {
        count_sent(events.drop_last()) + if events.last() is Sent {
            1nat
        } else {
            0
        }
    }
}

/// The beginning of a run is a run.
proof fn lemma_shorter_run(phases: Seq<OutgoingPhase>, events: Seq<OutgoingEvent>, followed: Seq<OutgoingStep>)
    requires
        is_run(phases, events, followed),
        events.len() > 0,
    ensures
        is_run(phases.drop_last(), events.drop_last(), followed.drop_last()),
{
    assert forall|i: int|
        #![trigger events.drop_last()[i]]
        0 <= i < events.drop_last().len() implies steps(
        phases.drop_last()[i],
        events.drop_last()[i],
        phases.drop_last()[i + 1],
        followed.drop_last()[i],
    ) by {
        assert(steps(phases[i], events[i], phases[i + 1], followed[i]));
    }
}

/// Each message that was there to send is handed to the socket as one text, in order and none
/// twice.
pub proof fn law_each_message_is_handed_over_once(
    phases: Seq<OutgoingPhase>,
    events: Seq<OutgoingEvent>,
    followed: Seq<OutgoingStep>,
)
    requires
        is_run(phases, events, followed),
    ensures
        handed_over(followed).len() == queued(events).len(),
        forall|i: int|
            #![trigger handed_over(followed)[i]]
            0 <= i < queued(events).len() ==> carries(handed_over(followed)[i], queued(events)[i]),
    decreases events.len(),
{
    if events.len() > 0 {
        let last = events.len() - 1;
        lemma_shorter_run(phases, events, followed);
        law_each_message_is_handed_over_once(phases.drop_last(), events.drop_last(), followed.drop_last());
        assert(steps(phases[last], events[last], phases[last + 1], followed[last]));
        assert forall|i: int|
            #![trigger handed_over(followed)[i]]
            0 <= i < queued(events).len() implies carries(handed_over(followed)[i], queued(events)[i]) by {
            if i < queued(events.drop_last()).len() {
                assert(handed_over(followed)[i] == handed_over(followed.drop_last())[i]);
            }
        }
    }
}

/// All messages but the one that is being sent, or could not be sent, were taken by the socket. The
/// task stops at the first message that cannot be sent, with the reason for it, and tries none
/// after that; it stops well only where there are no more messages, and then all were taken.
pub proof fn law_sending_stops_at_the_first_failure(
    phases: Seq<OutgoingPhase>,
    events: Seq<OutgoingEvent>,
    followed: Seq<OutgoingStep>,
)
    requires
        is_run(phases, events, followed),
    ensures
        forall|i: int|
            #![trigger followed[i]]
            0 <= i < followed.len() && (followed[i] is Fail || followed[i] is Finish) ==> i == followed.len() - 1,
        followed.len() > 0 ==> match followed.last() {
            OutgoingStep::Next => count_sent(events) == queued(events).len(),
            OutgoingStep::Send(_) => count_sent(events) + 1 == queued(events).len(),
            OutgoingStep::Finish => events.last() is Closed && count_sent(events) == queued(events).len(),
            OutgoingStep::Fail(reason) => {
                &&& events.last() == OutgoingEvent::Failed(reason)
                &&& count_sent(events) + 1 == queued(events).len()
            },
        },
        phases.last() is Waiting ==> count_sent(events) == queued(events).len(),
        phases.last() is Sending ==> count_sent(events) + 1 == queued(events).len(),
    decreases events.len(),
{
    if events.len() > 0 {
        let last = events.len() - 1;
        lemma_shorter_run(phases, events, followed);
        law_sending_stops_at_the_first_failure(phases.drop_last(), events.drop_last(), followed.drop_last());
        assert(steps(phases[last], events[last], phases[last + 1], followed[last]));
        assert(phases.drop_last().last() == phases[last]);
        assert forall|i: int|
            #![trigger followed[i]]
            0 <= i < followed.len() && (followed[i] is Fail || followed[i] is Finish) implies i == followed.len()
            - 1 by {
            assert(steps(phases[i], events[i], phases[i + 1], followed[i]));
            if i < last {
                assert(steps(phases[i + 1], events[i + 1], phases[i + 2], followed[i + 1]));
            }
        }
    }
}

/// What is handed to the socket for a message is its text, with all that the message says; after each
/// text the task waits until it was taken, and it ends with the first that was not.
pub proof fn law_each_text_is_the_whole_message(
    phases: Seq<OutgoingPhase>,
    events: Seq<OutgoingEvent>,
    followed: Seq<OutgoingStep>,
    i: int,
)
    requires
        is_run(phases, events, followed),
        0 <= i < events.len(),
    ensures
        followed[i] is Send <==> events[i] is Queued,
        followed[i] is Next <==> events[i] is Sent,
        followed[i] is Finish <==> events[i] is Closed,
        forall|reason: String|
            followed[i] == OutgoingStep::Fail(reason) <==> events[i] == OutgoingEvent::Failed(reason),
        events[i] is Sent || events[i] is Failed <==> i > 0 && followed[i - 1] is Send,
        events[i] is Closed || events[i] is Failed ==> i == events.len() - 1,
        events[i] matches OutgoingEvent::Queued(message) ==> match message {
            WebSocketMessage::FileContent { path, text } => followed[i]->Send_0@ == json::json_text(
                seq![
                    ("type"@, JsonValue::Text("file-content"@)),
                    ("path"@, JsonValue::Text(path@)),
                    ("text"@, JsonValue::Text(text@)),
                ],
            ) && json::json_str_at(followed[i]->Send_0@, "path"@) == Some(path@) && json::json_str_at(
                followed[i]->Send_0@,
                "text"@,
            ) == Some(text@),
            WebSocketMessage::DeltaCompletionRequest { request_id, repo, pos } => followed[i]->Send_0@
                == json::json_text(
                seq![
                    ("type"@, JsonValue::Text("delta-completion-request"@)),
                    ("request_id"@, JsonValue::Text(request_id@)),
                    ("repo"@, JsonValue::Text(repo@)),
                    ("pos"@, JsonValue::Number(pos as nat)),
                ],
            ) && json::json_str_at(followed[i]->Send_0@, "request_id"@) == Some(request_id@) && json::json_str_at(
                followed[i]->Send_0@,
                "repo"@,
            ) == Some(repo@),
        },
{
    assert(steps(phases[i], events[i], phases[i + 1], followed[i]));
    if i > 0 {
        assert(steps(phases[i - 1], events[i - 1], phases[i], followed[i - 1]));
    }
    if i < events.len() - 1 {
        assert(steps(phases[i + 1], events[i + 1], phases[i + 2], followed[i + 1]));
    }
}

/// The task takes in every message while it waits for one, and every outcome of sending one.
pub proof fn law_every_message_is_taken_in(phase: OutgoingPhase, event: OutgoingEvent)
    ensures
        expects(phase, event) <==> match phase {
            OutgoingPhase::Waiting => event is Queued || event is Closed,
            OutgoingPhase::Sending => event is Sent || event is Failed,
            OutgoingPhase::Ended => false,
        },
{
}

} // verus!
