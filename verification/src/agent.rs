//! The agent: what is remembered of the completions that were asked for, and what is to be sent.

use crate::anchor::Anchor;
use crate::incoming;
use crate::incoming::{IncomingError, IncomingEvent, IncomingPhase, IncomingStep};
use crate::message::{NinetyFiveMessage, WebSocketMessage, UNKNOWN_REPO, UNTITLED};
use crate::outgoing;
use crate::outgoing::{OutgoingEvent, OutgoingPhase, OutgoingStep};
use async_tungstenite::tungstenite::http::Request;
use postage::watch::{Receiver, Sender};
use std::collections::BTreeMap;
use vstd::prelude::*;

verus! {

/// How many states are remembered at most.
pub const MAX_STATES: usize = 1000;

/// How many characters an id has.
pub const REQUEST_ID_LEN: usize = 6;

/// The characters that an id is made of.
pub const REQUEST_ID_CHARS: &'static str = "abcdefghijklmnopqrstuvwxyz0123456789";

/// The id that is made of the characters with these indices.
pub open spec fn id_of_indices(indices: Seq<usize>) -> Seq<char> {
    indices.map_values(|index: usize| REQUEST_ID_CHARS@[index as int])
}

/// Whether each index stands for a character.
pub open spec fn in_alphabet(indices: Seq<usize>) -> bool {
    forall|i: int| 0 <= i < indices.len() ==> (#[trigger] indices[i]) < REQUEST_ID_CHARS@.len()
}

/// Whether a text could be an id of a request.
pub open spec fn is_request_id(id: Seq<char>) -> bool {
    exists|indices: Seq<usize>|
        indices.len() == REQUEST_ID_LEN && in_alphabet(indices) && id == #[trigger] id_of_indices(indices)
}

/// `rand::Rng::gen_range` on `rand::thread_rng()`: some number below `len`, by chance. It panics
/// on an empty range.
#[verifier::external_body]
fn random_below(len: usize) -> (index: usize)
    requires
        len > 0,
    ensures
        index < len,
{
    rand::Rng::gen_range(&mut rand::thread_rng(), 0..len)
}

/// The id that is made of the characters with these indices.
pub fn request_id_of(indices: &Vec<usize>) -> (id: String)
    requires
        in_alphabet(indices@),
    ensures
        id@ == id_of_indices(indices@),
        id@.len() == indices@.len(),
        forall|i: int|
            0 <= i < indices@.len() ==> #[trigger] id@[i] == "abcdefghijklmnopqrstuvwxyz0123456789"@[indices@[i]
                as int],
{
    let mut id = String::new();
    let mut i: usize = 0;
    while i < indices.len()
        invariant
            i <= indices.len(),
            in_alphabet(indices@),
            id@ == id_of_indices(indices@.take(i as int)),
        decreases indices.len() - i,
    {
        let index: usize = indices[i];
        proof {
            reveal_strlit("abcdefghijklmnopqrstuvwxyz0123456789");
        }
        let ghost before = id@;
        id.append(REQUEST_ID_CHARS.substring_char(index, index + 1));
        assert(id@ == before.push(REQUEST_ID_CHARS@[index as int]));
        assert(indices@.take(i + 1) == indices@.take(i as int).push(index));
        assert(id@ == id_of_indices(indices@.take(i + 1)));
        i += 1;
    }
    assert(indices@.take(i as int) == indices@);
    id
}

/// A fresh id for a request, drawn by chance.
pub fn generate_request_id() -> (id: String)
    ensures
        is_request_id(id@),
        id@.len() == 6,
{
    proof {
        reveal_strlit("abcdefghijklmnopqrstuvwxyz0123456789");
    }
    let len: usize = REQUEST_ID_CHARS.unicode_len();
    let mut indices: Vec<usize> = Vec::new();
    let mut i: usize = 0;
    while i < REQUEST_ID_LEN
        invariant
            i <= REQUEST_ID_LEN,
            indices@.len() == i,
            len == REQUEST_ID_CHARS@.len(),
            len > 0,
            in_alphabet(indices@),
        decreases REQUEST_ID_LEN - i,
    {
        indices.push(random_below(len));
        i += 1;
    }
    let id = request_id_of(&indices);
    assert(id@ == id_of_indices(indices@));
    id
}

/// The sending end of a channel that holds the latest value.
#[verifier::external_type_specification]
#[verifier::external_body]
#[verifier::reject_recursive_types(T)]
pub struct ExWatchSender<T>(postage::watch::Sender<T>);

/// The receiving end of a channel that holds the latest value.
#[verifier::external_type_specification]
#[verifier::external_body]
#[verifier::reject_recursive_types(T)]
pub struct ExWatchReceiver<T>(postage::watch::Receiver<T>);

/// Whether these are two ends of the same channel, so that what is sent at the one can be received
/// at the other.
pub uninterp spec fn same_channel(sender: postage::watch::Sender<()>, receiver: postage::watch::Receiver<()>) -> bool;

/// `postage::watch::channel`: the two ends of a fresh channel.
#[verifier::external_body]
fn watch_channel() -> (ends: (Sender<()>, Receiver<()>))
    ensures
        same_channel(ends.0, ends.1),
{
    postage::watch::channel()
}

/// Whether the value that a channel was made with has been handed out at its receiving end, so that
/// only later ones are still to come.
pub uninterp spec fn first_value_taken(receiver: postage::watch::Receiver<()>) -> bool;

/// `postage::stream::Stream::try_recv` on the receiving end of a channel, which stays at that
/// channel: whether there was a value that it had not handed out yet. Either way the value that the
/// channel was made with is no longer to come. Whether there was another one depends on what was
/// sent meanwhile, so nothing is claimed of that.
#[verifier::external_body]
fn take_update(updates: &mut Receiver<()>) -> (found: bool)
    ensures
        first_value_taken(*final(updates)),
        forall|sender: Sender<()>|
            same_channel(sender, *old(updates)) ==> #[trigger] same_channel(sender, *final(updates)),
{
    postage::stream::Stream::try_recv(updates).is_ok()
}

/// The number of a completion that was asked for.
#[derive(Clone, Copy, Debug, PartialEq, Eq, PartialOrd, Ord, Structural)]
pub struct NinetyFiveCompletionStateId(pub usize);

impl Default for NinetyFiveCompletionStateId {
    fn default() -> (id: Self)
        ensures
            id.0 == 0,
    {
        NinetyFiveCompletionStateId(0)
    }
}

/// What is remembered of a completion that was asked for.
#[derive(Debug)]
pub struct NinetyFiveCompletionState {
    pub buffer_id: u64,
    pub prefix_anchor: Anchor,
    pub prefix_offset: usize,
    pub text: String,
    pub dedent: String,
    pub updates_tx: Sender<()>,
}

/// A completion that was asked for, for whoever asked.
#[derive(Debug)]
pub struct NinetyFiveCompletion {
    pub id: NinetyFiveCompletionStateId,
    pub updates: Receiver<()>,
}

/// The least key of a map of states, if it has any: the state that was made first.
fn oldest(states: &BTreeMap<usize, NinetyFiveCompletionState>) -> (id: Option<usize>)
    ensures
        id is None <==> states@.len() == 0,
        id matches Some(id) ==> {
            &&& states@.contains_key(id)
            &&& forall|other: usize| states@.contains_key(other) ==> id <= other
        },
{
    for key in keys: states.keys()
        invariant
            keys.index() == 0,
            keys.seq().unref().to_set() == states@.dom(),
            vstd::std_specs::btree::increasing_seq(keys.seq()),
    {
        let id: usize = *key;
        let ghost all = keys.seq();
        assert(*all[0] == id);
        assert(vstd::laws_cmp::obeys_cmp::<&usize>());
        assert forall|other: usize| states@.contains_key(other) implies id <= other by {
            assert(all.unref().to_set().contains(other));
            let j = choose|j: int| 0 <= j < all.unref().len() && all.unref()[j] == other;
            assert(*all[j] == other);
            if j > 0 {
                assert(vstd::std_specs::cmp::OrdSpec::cmp_spec(&all[0], &all[j]) is Less);
                assert(vstd::std_specs::cmp::OrdSpec::cmp_spec(&id, &other) is Less);
            }
        }
        return Some(id);
    }
    None
}

/// A request to open a socket.
#[verifier::external_type_specification]
#[verifier::external_body]
#[verifier::reject_recursive_types(T)]
pub struct ExRequest<T>(async_tungstenite::tungstenite::http::Request<T>);

/// Why tungstenite's `into_client_request` refuses a URL, in words, or `None` where it does not.
pub uninterp spec fn request_refusal(ws_url: Seq<char>) -> Option<Seq<char>>;

/// Where a request leads: its URI, written out.
pub uninterp spec fn request_uri(request: async_tungstenite::tungstenite::http::Request<()>) -> Seq<char>;

/// The URI that a URL is read as, written out.
pub uninterp spec fn uri_of(ws_url: Seq<char>) -> Seq<char>;

/// The host that a request names in its header `Host`.
pub uninterp spec fn request_host(request: async_tungstenite::tungstenite::http::Request<()>) -> Seq<char>;

/// The host of a URL, with its port where there is one.
pub uninterp spec fn host_of(ws_url: Seq<char>) -> Seq<char>;

/// Whether a request opens a socket to the service at `ws_url`.
pub open spec fn leads_to(request: Request<()>, ws_url: Seq<char>) -> bool {
    &&& request_refusal(ws_url) is None
    &&& request_uri(request) == uri_of(ws_url)
    &&& request_host(request) == host_of(ws_url)
}

/// tungstenite's `IntoClientRequest::into_client_request` on a text; the error becomes its text.
/// Whether there is an error, and which, depends on the text alone, and so do the URI and the host
/// of the request. The request also holds a key that is drawn by chance; nothing is claimed of it.
#[verifier::external_body]
fn client_request(ws_url: &str) -> (request: Result<Request<()>, String>)
    ensures
        match request {
            Ok(request) => {
                &&& request_refusal(ws_url@) is None
                &&& request_uri(request) == uri_of(ws_url@)
                &&& request_host(request) == host_of(ws_url@)
            },
            Err(reason) => request_refusal(ws_url@) == Some(reason@),
        },
{
    match async_tungstenite::tungstenite::client::IntoClientRequest::into_client_request(ws_url) {
        Ok(request) => Ok(request),
        Err(error) => Err(error.to_string()),
    }
}

/// What there is to tell of a message that came in.
#[derive(Debug)]
pub enum Notice {
    SubscriptionInfo,
    Response { r: String, v: String },
    Unhandled(NinetyFiveMessage),
}

/// What there is to tell of each kind of message.
pub open spec fn notice_of(message: NinetyFiveMessage) -> Notice {
    match message {
        NinetyFiveMessage::SubscriptionInfo { .. } => Notice::SubscriptionInfo,
        NinetyFiveMessage::Response { r, v, .. } => Notice::Response { r, v },
        NinetyFiveMessage::Unknown => Notice::Unhandled(NinetyFiveMessage::Unknown),
    }
}

/// The agent.
#[derive(Debug)]
pub struct NinetyFiveAgent {
    pub next_state_id: NinetyFiveCompletionStateId,
    /// The states, each under the number of its id.
    pub states: BTreeMap<usize, NinetyFiveCompletionState>,
    /// What is still to be sent, in order.
    pub outgoing: Vec<WebSocketMessage>,
    /// Whether the end of the agent has not been announced yet.
    pub open: bool,
}

/// Whether the state with the number `id` is remembered once `next` states have been made: those
/// made last are.
pub open spec fn is_remembered(next: int, id: int) -> bool {
    next - MAX_STATES <= id < next
}

/// The path that a content is sent under.
pub open spec fn path_or_untitled(path: Option<String>) -> Seq<char> {
    match path {
        Some(path) => path@,
        None => UNTITLED@,
    }
}

/// Whether a state is one that nothing has come in for yet.
pub open spec fn is_fresh_state(
    state: NinetyFiveCompletionState,
    buffer_id: u64,
    cursor_position: Anchor,
    cursor_offset: usize,
) -> bool {
    &&& state.buffer_id == buffer_id
    &&& state.prefix_anchor == cursor_position
    &&& state.prefix_offset == cursor_offset
    &&& state.text@.len() == 0
    &&& state.dedent@.len() == 0
}

/// Whether these are the two messages that a completion is asked for with: first what the file
/// holds, then the request.
pub open spec fn asks_for_completion(
    messages: Seq<WebSocketMessage>,
    path: Seq<char>,
    content: Seq<char>,
    request_id: Seq<char>,
    cursor_offset: usize,
) -> bool {
    &&& messages.len() == 2
    &&& messages[0] matches WebSocketMessage::FileContent { path: sent_path, text }
    &&& sent_path@ == path
    &&& text@ == content
    &&& messages[1] matches WebSocketMessage::DeltaCompletionRequest { request_id: sent_id, repo, pos }
    &&& sent_id@ == request_id
    &&& repo@ == UNKNOWN_REPO@
    &&& pos == cursor_offset
}

/// What asking for a completion makes of an agent.
pub open spec fn asks(
    before: NinetyFiveAgent,
    after: NinetyFiveAgent,
    id: NinetyFiveCompletionStateId,
    buffer_id: u64,
    path: Seq<char>,
    content: Seq<char>,
    cursor_position: Anchor,
    cursor_offset: usize,
    request_id: Seq<char>,
) -> bool {
    let sent = before.outgoing@.len() as int;
    &&& id == before.next_state_id
    &&& after.next_state_id.0 == before.next_state_id.0 + 1
    &&& after.open == before.open
    // What was to be sent still is, and the two messages follow on it.
    &&& after.outgoing@.len() == sent + 2
    &&& after.outgoing@.take(sent) == before.outgoing@
    &&& asks_for_completion(after.outgoing@.skip(sent), path, content, request_id, cursor_offset)
    // The new state is remembered, and of the others those that are not too old.
    &&& after.states@.contains_key(id.0)
    &&& is_fresh_state(after.states@[id.0], buffer_id, cursor_position, cursor_offset)
    &&& forall|other: usize|
        other != id.0 ==> (#[trigger] after.states@.contains_key(other) <==> (before.states@.contains_key(other)
            && is_remembered(after.next_state_id.0 as int, other as int)))
    &&& forall|other: usize|
        other != id.0 && #[trigger] after.states@.contains_key(other) ==> after.states@[other] == before.states@[other]
}

/// A set of all numbers of a range has as many elements as the range.
proof fn lemma_range_len(ids: Set<usize>, low: int, high: int)
    requires
        0 <= low <= high <= usize::MAX + 1,
        forall|id: usize| ids.contains(id) <==> low <= id < high,
    ensures
        ids.finite(),
        ids.len() == high - low,
    decreases high - low,
{
    if low == high {
        assert(ids =~= Set::empty());
    } else {
        let last = (high - 1) as usize;
        lemma_range_len(ids.remove(last), low, high - 1);
        assert(ids =~= ids.remove(last).insert(last));
    }
}

impl NinetyFiveAgent {
    /// The states that are remembered are those made last, with no gap between them.
    pub open spec fn wf(&self) -> bool {
        forall|id: usize| #[trigger]
            self.states@.contains_key(id) <==> is_remembered(self.next_state_id.0 as int, id as int)
    }

    /// An agent for the service at `ws_url`, and the request by which the socket is opened.
    pub fn new(ws_url: &str) -> (made: Result<(Self, Request<()>), String>)
        ensures
            match made {
                Ok((agent, request)) => {
                    &&& leads_to(request, ws_url@)
                    &&& agent.wf()
                    &&& agent.next_state_id.0 == 0
                    &&& agent.states@ == Map::<usize, NinetyFiveCompletionState>::empty()
                    &&& agent.outgoing@.len() == 0
                    &&& agent.open
                },
                Err(reason) => request_refusal(ws_url@) == Some(reason@),
            },
    {
        match client_request(ws_url) {
            Ok(request) => {
                let agent = NinetyFiveAgent {
                    next_state_id: NinetyFiveCompletionStateId::default(),
                    states: BTreeMap::new(),
                    outgoing: Vec::new(),
                    open: true,
                };
                Ok((agent, request))
            },
            Err(reason) => Err(reason),
        }
    }

    /// Asks for a completion under the id `request_id`: remembers a state for it, forgets the
    /// oldest state where there are too many, and puts the two messages up for sending.
    pub fn ask(
        &mut self,
        buffer_id: u64,
        path: Option<String>,
        content: String,
        cursor_position: Anchor,
        cursor_offset: usize,
        request_id: String,
    ) -> (completion: NinetyFiveCompletion)
        requires
            old(self).wf(),
            old(self).next_state_id.0 < usize::MAX,
        ensures
            final(self).wf(),
            asks(
                *old(self),
                *final(self),
                completion.id,
                buffer_id,
                path_or_untitled(path),
                content@,
                cursor_position,
                cursor_offset,
                request_id@,
            ),
            same_channel(final(self).states@[completion.id.0].updates_tx, completion.updates),
            first_value_taken(completion.updates),
    {
        let path = match path {
            Some(path) => path,
            None => UNTITLED.to_owned(),
        };
        let state_id = self.next_state_id;
        self.next_state_id = NinetyFiveCompletionStateId(state_id.0 + 1);
        let (updates_tx, mut updates_rx) = watch_channel();
        take_update(&mut updates_rx);
        let ghost before = self.states@;
        self.states.insert(
            state_id.0,
            NinetyFiveCompletionState {
                buffer_id,
                prefix_anchor: cursor_position,
                prefix_offset: cursor_offset,
                text: String::new(),
                dedent: String::new(),
                updates_tx,
            },
        );
        let ghost inserted = self.states@;
        let ghost next = state_id.0 as int;
        let ghost low = if next < MAX_STATES {
            0
        } else {
            next - MAX_STATES
        };
        proof {
            assert forall|id: usize| #[trigger] inserted.dom().contains(id) <==> low <= id < next + 1 by {
                assert(before.contains_key(id) <==> is_remembered(next, id as int));
            }
            lemma_range_len(inserted.dom(), low, next + 1);
        }
        if self.states.len() > MAX_STATES {
            if let Some(first) = oldest(&self.states) {
                proof {
                    assert(inserted.dom().contains(low as usize));
                    assert(inserted.dom().contains(first));
                    assert(first == low);
                }
                self.states.remove(&first);
                assert(self.states@ == inserted.remove(first));
            }
        }
        proof {
            assert forall|id: usize| #[trigger]
                self.states@.contains_key(id) <==> is_remembered(next + 1, id as int) by {
                assert(inserted.dom().contains(id) <==> low <= id < next + 1);
            }
            assert forall|other: usize| other != state_id.0 implies (#[trigger] self.states@.contains_key(other) <==> (
            before.contains_key(other) && is_remembered(next + 1, other as int))) by {
                assert(before.contains_key(other) <==> is_remembered(next, other as int));
            }
        }
        let ghost queued = self.outgoing@;
        self.outgoing.push(WebSocketMessage::FileContent { path, text: content });
        self.outgoing.push(
            WebSocketMessage::DeltaCompletionRequest { request_id, repo: UNKNOWN_REPO.to_owned(), pos: cursor_offset },
        );
        assert(self.outgoing@.take(queued.len() as int) == queued);
        NinetyFiveCompletion { id: state_id, updates: updates_rx }
    }

    /// Takes everything off the queue, in order, for the task that sends it.
    pub fn take_outgoing(&mut self) -> (messages: Vec<WebSocketMessage>)
        ensures
            messages@ == old(self).outgoing@,
            final(self).outgoing@.len() == 0,
            final(self).next_state_id == old(self).next_state_id,
            final(self).states == old(self).states,
            final(self).open == old(self).open,
    {
        let mut messages: Vec<WebSocketMessage> = Vec::new();
        core::mem::swap(&mut messages, &mut self.outgoing);
        messages
    }

    /// Takes in an event that the task that sends messages waits for, and says what it does next.
    pub fn handle_outgoing_messages(phase: &mut OutgoingPhase, event: OutgoingEvent) -> (step: OutgoingStep)
        requires
            outgoing::expects(*old(phase), event),
        ensures
            outgoing::steps(*old(phase), event, *final(phase), step),
    {
        match event {
            OutgoingEvent::Queued(message) => {
                *phase = OutgoingPhase::Sending;
                OutgoingStep::Send(message.to_json())
            },
            OutgoingEvent::Closed => {
                *phase = OutgoingPhase::Ended;
                OutgoingStep::Finish
            },
            OutgoingEvent::Sent => {
                *phase = OutgoingPhase::Waiting;
                OutgoingStep::Next
            },
            OutgoingEvent::Failed(reason) => {
                *phase = OutgoingPhase::Ended;
                OutgoingStep::Fail(reason)
            },
        }
    }

    /// Takes in an event that the task that reads messages waits for, and says what it does next.
    pub fn handle_incoming_messages(phase: &mut IncomingPhase, event: IncomingEvent) -> (step: IncomingStep)
        requires
            incoming::expects(*old(phase), event),
        ensures
            incoming::steps(*old(phase), event, *final(phase), step),
    {
        match event {
            IncomingEvent::Message(message) => {
                *phase = IncomingPhase::Delivering;
                IncomingStep::Deliver(message)
            },
            IncomingEvent::Close | IncomingEvent::Ended => {
                *phase = IncomingPhase::Ended;
                IncomingStep::Finish
            },
            IncomingEvent::Failed(reason) => {
                *phase = IncomingPhase::Ended;
                IncomingStep::Fail(IncomingError::WebSocket(reason))
            },
            IncomingEvent::Released(reason) => {
                *phase = IncomingPhase::Ended;
                IncomingStep::Fail(IncomingError::Released(reason))
            },
            IncomingEvent::Unreadable
            | IncomingEvent::Ping
            | IncomingEvent::Pong
            | IncomingEvent::Binary
            | IncomingEvent::Frame
            | IncomingEvent::Delivered => {
                *phase = IncomingPhase::Reading;
                IncomingStep::Next
            },
        }
    }

    /// Takes in a message of the server. None of them changes the agent so far; what there is to
    /// tell of it is handed back.
    pub fn handle_message(&mut self, message: NinetyFiveMessage) -> (notice: Notice)
        ensures
            *final(self) == *old(self),
            notice == notice_of(message),
    {
        match message {
            NinetyFiveMessage::SubscriptionInfo { .. } => Notice::SubscriptionInfo,
            NinetyFiveMessage::Response { r, v, .. } => Notice::Response { r, v },
            NinetyFiveMessage::Unknown => Notice::Unhandled(NinetyFiveMessage::Unknown),
        }
    }

    /// Whether the end of the agent is to be announced now, which is so only once.
    pub fn close(&mut self) -> (announce: bool)
        ensures
            announce == old(self).open,
            !final(self).open,
            final(self).next_state_id == old(self).next_state_id,
            final(self).states == old(self).states,
            final(self).outgoing == old(self).outgoing,
    {
        let announce = self.open;
        self.open = false;
        announce
    }
}

/// An agent remembers each completion that was asked for until it has asked for so many others
/// that the limit is reached, and never more than the limit.
pub proof fn law_latest_states_are_remembered(agent: NinetyFiveAgent)
    requires
        agent.wf(),
    ensures
        agent.states@.len() == if agent.next_state_id.0 < MAX_STATES {
            agent.next_state_id.0 as nat
        } else {
            MAX_STATES as nat
        },
        agent.states@.len() <= MAX_STATES,
        forall|id: usize|
            id < agent.next_state_id.0 && agent.next_state_id.0 - id <= MAX_STATES
                ==> #[trigger] agent.states@.contains_key(id),
{
    let next = agent.next_state_id.0 as int;
    let low = if next < MAX_STATES {
        0
    } else {
        next - MAX_STATES
    };
    assert forall|id: usize| agent.states@.dom().contains(id) <==> low <= id < next by {
        assert(agent.states@.contains_key(id) <==> is_remembered(next, id as int));
    }
    lemma_range_len(agent.states@.dom(), low, next);
}

/// Whether an agent comes from another one by asking for some completion, under this id.
pub open spec fn asks_somehow(
    before: NinetyFiveAgent,
    after: NinetyFiveAgent,
    id: NinetyFiveCompletionStateId,
) -> bool {
    exists|
        buffer_id: u64,
        path: Seq<char>,
        content: Seq<char>,
        cursor_position: Anchor,
        cursor_offset: usize,
        request_id: Seq<char>,
    | #[trigger]
        asks(before, after, id, buffer_id, path, content, cursor_position, cursor_offset, request_id)
}

/// Whether each agent of a sequence comes from the one before it by asking for a completion, under
/// these ids.
pub open spec fn asks_in_turn(agents: Seq<NinetyFiveAgent>, ids: Seq<NinetyFiveCompletionStateId>) -> bool {
    &&& agents.len() == ids.len() + 1
    &&& forall|i: int|
        #![trigger ids[i]]
        0 <= i < ids.len() ==> asks_somehow(agents[i], agents[i + 1], ids[i])
}

/// No two completions that an agent is asked for get the same id: the ids count up.
pub proof fn law_ids_count_up(agents: Seq<NinetyFiveAgent>, ids: Seq<NinetyFiveCompletionStateId>, i: int)
    requires
        asks_in_turn(agents, ids),
        0 <= i < ids.len(),
    ensures
        ids[i].0 == agents[0].next_state_id.0 + i,
        agents[i + 1].next_state_id.0 == agents[0].next_state_id.0 + i + 1,
    decreases i,
{
    if i > 0 {
        law_ids_count_up(agents, ids, i - 1);
    }
    assert(ids[i] == agents[i].next_state_id);
}

/// How a connection ended, whose two directions ended like this: with the error of the outgoing
/// side, or else with that of the incoming side, or else well.
pub fn connection_result<E>(outgoing: Result<(), E>, incoming: Result<(), E>) -> (result: Result<(), E>)
    ensures
        result == match outgoing {
            Err(error) => Err(error),
            Ok(_) => incoming,
        },
{
    match outgoing {
        Err(error) => Err(error),
        Ok(_) => incoming,
    }
}

/// Asking for a completion puts two messages behind those that were to be sent already, which stay as
/// they are. The first has the content of the file in full, under the file's own path, however long,
/// and only where it has none under a stand-in. The second asks for a completion at the cursor's offset,
/// under the id of the request.
pub proof fn law_asking_sends_the_file_and_the_request(
    before: NinetyFiveAgent,
    after: NinetyFiveAgent,
    id: NinetyFiveCompletionStateId,
    buffer_id: u64,
    path: Option<String>,
    content: Seq<char>,
    cursor_position: Anchor,
    cursor_offset: usize,
    request_id: Seq<char>,
)
    requires
        asks(
            before,
            after,
            id,
            buffer_id,
            path_or_untitled(path),
            content,
            cursor_position,
            cursor_offset,
            request_id,
        ),
    ensures
        after.outgoing@.len() == before.outgoing@.len() + 2,
        forall|i: int| 0 <= i < before.outgoing@.len() ==> #[trigger] after.outgoing@[i] == before.outgoing@[i],
        after.outgoing@[before.outgoing@.len() as int] matches WebSocketMessage::FileContent { path: sent, text }
            && text@ == content && match path {
            Some(path) => sent@ == path@,
            None => sent@ == "Untitled-1"@,
        },
        after.outgoing@[before.outgoing@.len() as int + 1] matches WebSocketMessage::DeltaCompletionRequest {
            request_id: sent,
            repo,
            pos,
        } && sent@ == request_id && repo@ == "unknown"@ && pos == cursor_offset,
{
    let sent = before.outgoing@.len() as int;
    assert forall|i: int| 0 <= i < sent implies #[trigger] after.outgoing@[i] == before.outgoing@[i] by {
        assert(after.outgoing@.take(sent)[i] == after.outgoing@[i]);
    }
    assert(after.outgoing@.skip(sent)[0] == after.outgoing@[sent]);
    assert(after.outgoing@.skip(sent)[1] == after.outgoing@[sent + 1]);
}

/// Asking for a completion remembers where it was asked for, under a fresh id. Of the others, those
/// that were asked for among the last thousand, this one counted, are remembered as they were.
pub proof fn law_asking_remembers_the_place(
    before: NinetyFiveAgent,
    after: NinetyFiveAgent,
    id: NinetyFiveCompletionStateId,
    buffer_id: u64,
    path: Seq<char>,
    content: Seq<char>,
    cursor_position: Anchor,
    cursor_offset: usize,
    request_id: Seq<char>,
)
    requires
        before.wf(),
        asks(before, after, id, buffer_id, path, content, cursor_position, cursor_offset, request_id),
    ensures
        !before.states@.contains_key(id.0),
        after.states@.contains_key(id.0),
        after.states@[id.0].buffer_id == buffer_id,
        after.states@[id.0].prefix_anchor == cursor_position,
        after.states@[id.0].prefix_offset == cursor_offset,
        after.states@[id.0].text@.len() == 0,
        after.states@[id.0].dedent@.len() == 0,
        after.next_state_id.0 == id.0 + 1,
        after.open == before.open,
        forall|other: usize|
            other < id.0 ==> (#[trigger] after.states@.contains_key(other) <==> id.0 - other < 1000),
        forall|other: usize|
            other < id.0 && #[trigger] after.states@.contains_key(other) ==> before.states@.contains_key(other)
                && after.states@[other] == before.states@[other],
        forall|other: usize| other > id.0 ==> !#[trigger] after.states@.contains_key(other),
{
    assert forall|other: usize| other < id.0 implies (#[trigger] after.states@.contains_key(other) <==> id.0 - other
        < 1000) by {
        assert(before.states@.contains_key(other) <==> is_remembered(id.0 as int, other as int));
    }
}

/// An id has as many characters as it has indices, each the one that its index stands for, and there
/// are thirty-six that an index can stand for.
pub proof fn law_ids_are_spelled_out(indices: Seq<usize>)
    ensures
        in_alphabet(indices) <==> forall|i: int| 0 <= i < indices.len() ==> (#[trigger] indices[i]) < 36,
        id_of_indices(indices).len() == indices.len(),
        forall|i: int|
            0 <= i < indices.len() ==> #[trigger] id_of_indices(indices)[i]
                == "abcdefghijklmnopqrstuvwxyz0123456789"@[indices[i] as int],
{
    reveal_strlit("abcdefghijklmnopqrstuvwxyz0123456789");
}

/// An id of a request has six characters, each a small letter or a digit.
pub proof fn law_ids_are_letters_and_digits(id: Seq<char>)
    requires
        is_request_id(id),
    ensures
        id.len() == 6,
        forall|i: int| 0 <= i < 6 ==> 'a' <= #[trigger] id[i] <= 'z' || '0' <= id[i] <= '9',
{
    let indices = choose|indices: Seq<usize>|
        indices.len() == REQUEST_ID_LEN && in_alphabet(indices) && id == #[trigger] id_of_indices(indices);
    reveal_strlit("abcdefghijklmnopqrstuvwxyz0123456789");
    assert forall|i: int| 0 <= i < 6 implies 'a' <= #[trigger] id[i] <= 'z' || '0' <= id[i] <= '9' by {
        let index = indices[i];
        assert(index < REQUEST_ID_CHARS@.len());
        assert(id[i] == REQUEST_ID_CHARS@[index as int]);
    }
}

/// A request that leads to a URL goes to what the URL is read as, and there is one only for a URL that
/// is not refused.
pub proof fn law_requests_go_where_the_url_says(request: Request<()>, ws_url: Seq<char>)
    requires
        leads_to(request, ws_url),
    ensures
        request_refusal(ws_url) is None,
        request_uri(request) == uri_of(ws_url),
        request_host(request) == host_of(ws_url),
{
}

/// All that a response says is told of, and each kind of message is told from the others.
pub proof fn law_responses_are_told_of_in_full(message: NinetyFiveMessage)
    ensures
        match message {
            NinetyFiveMessage::SubscriptionInfo { .. } => notice_of(message) is SubscriptionInfo,
            NinetyFiveMessage::Response { r, v, .. } => notice_of(message) matches Notice::Response {
                r: told_r,
                v: told_v,
            } && told_r@ == r@ && told_v@ == v@,
            NinetyFiveMessage::Unknown => notice_of(message) matches Notice::Unhandled(told) && told is Unknown,
        },
{
}

} // verus!
