//! The task that reads the server's messages, one after the other.

use crate::message::NinetyFiveMessage;
use vstd::prelude::*;

verus! {

/// What a failure of the socket is introduced with.
pub const WEBSOCKET_ERROR: &'static str = "WebSocket error";

/// What the task is at.
#[derive(Debug)]
pub enum IncomingPhase {
    /// It waits for what comes from the socket.
    Reading,
    /// It hands a message to the service.
    Delivering,
    /// It is over.
    Ended,
}

/// What happened.
#[derive(Debug)]
pub enum IncomingEvent {
    /// A text came that reads as a message.
    Message(NinetyFiveMessage),
    /// A text came that does not.
    Unreadable,
    Close,
    /// The socket failed, for the reason given.
    Failed(String),
    /// The stream of messages ended.
    Ended,
    Ping,
    Pong,
    Binary,
    Frame,
    /// The service took the message.
    Delivered,
    /// The service is gone, for the reason given.
    Released(String),
}

/// What is to be done.
#[derive(Debug)]
pub enum IncomingStep {
    /// Wait for what comes next.
    Next,
    /// Hand this message to the service.
    Deliver(NinetyFiveMessage),
    /// Stop; all went well.
    Finish,
    /// Stop, with this error.
    Fail(IncomingError),
}

/// Why reading failed.
#[derive(Debug)]
pub enum IncomingError {
    /// The socket failed, for the reason given.
    WebSocket(String),
    /// There was no service any more that could have taken a message, for the reason given.
    Released(String),
}

impl IncomingError {
    /// What the reason is introduced with, if it is with anything.
    pub fn context(&self) -> (context: Option<&'static str>)
        ensures
            context == match self {
                IncomingError::WebSocket(_) => Some(WEBSOCKET_ERROR),
                IncomingError::Released(_) => None,
            },
    {
        match self {
            IncomingError::WebSocket(_) => Some(WEBSOCKET_ERROR),
            IncomingError::Released(_) => None,
        }
    }

    /// The reason.
    pub fn reason(self) -> (reason: String)
        ensures
            reason == match self {
                IncomingError::WebSocket(reason) => reason,
                IncomingError::Released(reason) => reason,
            },
    {
        match self {
            IncomingError::WebSocket(reason) => reason,
            IncomingError::Released(reason) => reason,
        }
    }
}

/// Whether an event is one that the task waits for.
pub open spec fn expects(phase: IncomingPhase, event: IncomingEvent) -> bool {
    match phase {
        IncomingPhase::Reading => !(event is Delivered) && !(event is Released),
        IncomingPhase::Delivering => event is Delivered || event is Released,
        IncomingPhase::Ended => false,
    }
}

/// What an event that the task waits for makes of it, and what is to be done then.
pub open spec fn steps(before: IncomingPhase, event: IncomingEvent, after: IncomingPhase, step: IncomingStep) -> bool {
    &&& expects(before, event)
    &&& match event {
        IncomingEvent::Message(message) => after is Delivering && step == IncomingStep::Deliver(message),
        IncomingEvent::Unreadable
        | IncomingEvent::Ping
        | IncomingEvent::Pong
        | IncomingEvent::Binary
        | IncomingEvent::Frame
        | IncomingEvent::Delivered => after is Reading && step is Next,
        IncomingEvent::Close | IncomingEvent::Ended => after is Ended && step is Finish,
        IncomingEvent::Failed(reason) => after is Ended && step == IncomingStep::Fail(IncomingError::WebSocket(reason)),
        IncomingEvent::Released(reason) => after is Ended && step == IncomingStep::Fail(
            IncomingError::Released(reason),
        ),
    }
}

/// The task from its start on: the phases that it went through, the events that it took in, and
/// the step that followed on each of them.
pub open spec fn is_run(
    phases: Seq<IncomingPhase>,
    events: Seq<IncomingEvent>,
    followed: Seq<IncomingStep>,
) -> bool {
    &&& phases.len() == events.len() + 1
    &&& followed.len() == events.len()
    &&& phases[0] is Reading
    &&& forall|i: int|
        #![trigger events[i]]
        0 <= i < events.len() ==> steps(phases[i], events[i], phases[i + 1], followed[i])
}

/// The messages that came, in order.
pub open spec fn came(events: Seq<IncomingEvent>) -> Seq<NinetyFiveMessage>
    decreases events.len(),
{
    if events.len() == 0 {
        Seq::empty()
    } else {
        match events.last() {
            IncomingEvent::Message(message) => came(events.drop_last()).push(message),
            _ => came(events.drop_last()),
        }
    }
}

/// The messages that were handed to the service, in order.
pub open spec fn handed_on(followed: Seq<IncomingStep>) -> Seq<NinetyFiveMessage>
    decreases followed.len(),
{
    if followed.len() == 0 {
        Seq::empty()
    } else {
        match followed.last() {
            IncomingStep::Deliver(message) => handed_on(followed.drop_last()).push(message),
            _ => handed_on(followed.drop_last()),
        }
    }
}

/// Whether an event is the end of reading.
pub open spec fn ends_reading(event: IncomingEvent) -> bool {
    event is Close || event is Ended || event is Failed || event is Released
}

/// Each message that came is handed to the service, in order and none twice.
pub proof fn law_each_message_is_handed_on_once(
    phases: Seq<IncomingPhase>,
    events: Seq<IncomingEvent>,
    followed: Seq<IncomingStep>,
)
    requires
        is_run(phases, events, followed),
    ensures
        handed_on(followed) == came(events),
    decreases events.len(),
{
    if events.len() > 0 {
        let last = events.len() - 1;
        assert forall|i: int|
            #![trigger events.drop_last()[i]]
            0 <= i < events.drop_last().len() implies steps(
            phases.drop_last()[i],
            events.drop_last()[i],
            phases.drop_last()[i + 1],
            followed.drop_last()[i],
        ) by {
            assert(steps(phases[i], events[i], phases[i + 1], followed[i]));
        }
        law_each_message_is_handed_on_once(phases.drop_last(), events.drop_last(), followed.drop_last());
        assert(steps(phases[last], events[last], phases[last + 1], followed[last]));
    }
}

/// Nothing is taken in after the socket was closed, ended or failed, nor after the service was found
/// gone. Reading fails exactly on such a failure, with the reason for it; it stops well exactly where
/// the socket was closed or ended; and as long as neither happens it goes on.
pub proof fn law_reading_stops_at_the_first_end(
    phases: Seq<IncomingPhase>,
    events: Seq<IncomingEvent>,
    followed: Seq<IncomingStep>,
    i: int,
)
    requires
        is_run(phases, events, followed),
        0 <= i < events.len(),
    ensures
        ends_reading(events[i]) ==> i == events.len() - 1,
        followed[i] is Finish <==> (events[i] is Close || events[i] is Ended),
        forall|reason: String|
            followed[i] == IncomingStep::Fail(IncomingError::WebSocket(reason)) <==> events[i]
                == IncomingEvent::Failed(reason),
        forall|reason: String|
            followed[i] == IncomingStep::Fail(IncomingError::Released(reason)) <==> events[i]
                == IncomingEvent::Released(reason),
        phases[i + 1] is Ended <==> ends_reading(events[i]),
        phases[i + 1] is Ended <==> followed[i] is Finish || followed[i] is Fail,
        followed[i] is Finish || followed[i] is Fail ==> i == events.len() - 1,
{
    assert(steps(phases[i], events[i], phases[i + 1], followed[i]));
    if i < events.len() - 1 {
        assert(steps(phases[i + 1], events[i + 1], phases[i + 2], followed[i + 1]));
    }
}

/// Every message that comes is handed to the service as it came, and nothing else is; what is neither
/// a message nor an end is passed over.
pub proof fn law_messages_and_nothing_else_are_handed_on(
    phases: Seq<IncomingPhase>,
    events: Seq<IncomingEvent>,
    followed: Seq<IncomingStep>,
    i: int,
)
    requires
        is_run(phases, events, followed),
        0 <= i < events.len(),
    ensures
        forall|message: NinetyFiveMessage|
            followed[i] == IncomingStep::Deliver(message) <==> events[i] == IncomingEvent::Message(message),
        followed[i] is Next <==> (events[i] is Unreadable || events[i] is Ping || events[i] is Pong || events[i] is Binary
            || events[i] is Frame || events[i] is Delivered),
        followed[i] is Fail <==> (events[i] is Failed || events[i] is Released),
        events[i] is Delivered || events[i] is Released <==> i > 0 && followed[i - 1] is Deliver,
{
    assert(steps(phases[i], events[i], phases[i + 1], followed[i]));
    if i > 0 {
        assert(steps(phases[i - 1], events[i - 1], phases[i], followed[i - 1]));
    }
}

/// The task takes in whatever comes from the socket while it reads, and every outcome of handing a
/// message on.
pub proof fn law_whatever_comes_is_taken_in(phase: IncomingPhase, event: IncomingEvent)
    ensures
        expects(phase, event) <==> match event {
            IncomingEvent::Delivered | IncomingEvent::Released(_) => phase is Delivering,
            _ => phase is Reading,
        },
{
}

} // verus!
