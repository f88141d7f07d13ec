//! The life of the completion service in the editor: when it is started and stopped, and what it
//! does while it is connected.

use crate::agent;
use crate::agent::{generate_request_id, NinetyFiveAgent, NinetyFiveCompletion, Notice};
use crate::anchor::Anchor;
use crate::client::NINETYFIVE_API_URL;
use crate::message::NinetyFiveMessage;
use async_tungstenite::tungstenite::http::Request;
use vstd::prelude::*;

verus! {

/// The service, as the editor sees it.
#[derive(Debug)]
pub enum NinetyFive {
    Starting,
    FailedConnection { error: String },
    Connected(NinetyFiveAgent),
    Error { error: String },
}

/// Whether there is an agent whose end has not been announced yet.
pub open spec fn ends_open_agent(ninetyfive: NinetyFive) -> bool {
    ninetyfive matches NinetyFive::Connected(agent) && agent.open
}

/// What connecting to the service at `ws_url` makes of it: where it was starting there is a fresh
/// agent, and a request that opens its socket, unless the URL is refused; otherwise nothing changes.
pub open spec fn connects(
    before: NinetyFive,
    after: NinetyFive,
    opened: Result<Option<Request<()>>, String>,
    ws_url: Seq<char>,
) -> bool {
    if before is Starting {
        match opened {
            Ok(request) => {
                &&& request matches Some(request)
                &&& agent::leads_to(request, ws_url)
                &&& after matches NinetyFive::Connected(agent)
                &&& agent.next_state_id.0 == 0
                &&& agent.states@ == Map::<usize, agent::NinetyFiveCompletionState>::empty()
                &&& agent.outgoing@.len() == 0
                &&& agent.open
            },
            Err(reason) => {
                &&& agent::request_refusal(ws_url) == Some(reason@)
                &&& after is Starting
            },
        }
    } else {
        &&& after == before
        &&& opened == Ok::<_, String>(None::<Request<()>>)
    }
}

impl NinetyFive {
    /// What holds of the agent, where there is one.
    pub open spec fn wf(&self) -> bool {
        self matches NinetyFive::Connected(agent) ==> agent.wf()
    }

    /// Whether a task that connects to the service is to be started. Once it runs it goes on with
    /// [`NinetyFive::connect_to_service`].
    pub fn start(&self) -> (wanted: bool)
        ensures
            wanted == (self is Starting),
    {
        matches!(self, NinetyFive::Starting)
    }

    /// Connects a service that is still starting: puts an agent in place and gives the request by
    /// which its socket is opened. Where the URL is refused the service goes on starting. A
    /// service that was stopped and connected meanwhile, or that failed, is left alone.
    pub fn connect(&mut self, ws_url: &str) -> (opened: Result<Option<Request<()>>, String>)
        requires
            old(self).wf(),
        ensures
            final(self).wf(),
            connects(*old(self), *final(self), opened, ws_url@),
    {
        if self.start() {
            match NinetyFiveAgent::new(ws_url) {
                Ok((agent, request)) => {
                    *self = NinetyFive::Connected(agent);
                    Ok(Some(request))
                },
                Err(reason) => Err(reason),
            }
        } else {
            Ok(None)
        }
    }

    /// Connects a service that is still starting, as [`NinetyFive::connect`] does, to where it
    /// listens.
    pub fn connect_to_service(&mut self) -> (opened: Result<Option<Request<()>>, String>)
        requires
            old(self).wf(),
        ensures
            final(self).wf(),
            connects(*old(self), *final(self), opened, NINETYFIVE_API_URL@),
    {
        self.connect(NINETYFIVE_API_URL)
    }

    /// Stops the service, which can be started again. Tells whether the end of its agent is to be
    /// announced.
    pub fn stop(&mut self) -> (announce: bool)
        ensures
            *final(self) is Starting,
            announce == ends_open_agent(*old(self)),
            announce == (*old(self) matches NinetyFive::Connected(agent) && agent.open),
    {
        let announce = match self {
            NinetyFive::Connected(agent) => agent.close(),
            _ => false,
        };
        *self = NinetyFive::Starting;
        announce
    }

    /// Whether completions can be asked for.
    pub fn is_enabled(&self) -> (enabled: bool)
        ensures
            enabled == (self is Connected),
    {
        matches!(self, NinetyFive::Connected(_))
    }

    /// Asks for a completion at the cursor, if the service is connected. The path is that of the
    /// buffer's file, where it has one on this machine.
    pub fn complete(
        &mut self,
        buffer_id: u64,
        path: Option<String>,
        content: String,
        cursor_position: Anchor,
        cursor_offset: usize,
    ) -> (completion: Option<NinetyFiveCompletion>)
        requires
            old(self).wf(),
            *old(self) matches NinetyFive::Connected(agent) ==> agent.next_state_id.0 < usize::MAX,
        ensures
            final(self).wf(),
            completion is Some <==> *old(self) is Connected,
            *old(self) !is Connected ==> *final(self) == *old(self),
            *old(self) matches NinetyFive::Connected(before) ==> {
                &&& *final(self) matches NinetyFive::Connected(after)
                &&& agent::same_channel(after.states@[completion->0.id.0].updates_tx, completion->0.updates)
                &&& agent::first_value_taken(completion->0.updates)
                &&& exists|request_id: Seq<char>|
                    {
                        &&& #[trigger] agent::is_request_id(request_id)
                        &&& agent::asks(
                            before,
                            after,
                            completion->0.id,
                            buffer_id,
                            agent::path_or_untitled(path),
                            content@,
                            cursor_position,
                            cursor_offset,
                            request_id,
                        )
                    }
            },
    {
        match self {
            NinetyFive::Connected(agent) => {
                let request_id = generate_request_id();
                Some(agent.ask(buffer_id, path, content, cursor_position, cursor_offset, request_id))
            },
            _ => None,
        }
    }

    /// The completion to show at the cursor. There is none so far.
    pub fn completion(&self, buffer_id: u64, cursor_position: Anchor) -> (text: Option<&str>)
        ensures
            text is None,
    {
        None
    }

    /// Takes in a message of the server, if the service is connected. None of them changes the
    /// service so far; what there is to tell of it is handed back.
    pub fn handle_message(&mut self, message: NinetyFiveMessage) -> (notice: Option<Notice>)
        ensures
            *final(self) == *old(self),
            notice == if *old(self) is Connected {
                Some(agent::notice_of(message))
            } else {
                None
            },
    {
        match self {
            NinetyFive::Connected(agent) => Some(agent.handle_message(message)),
            _ => None,
        }
    }
}

/// A source of completions that the user can choose in the settings.
#[derive(Clone, Copy, Debug, PartialEq, Eq, Structural)]
pub enum EditPredictionProvider {
    NinetyFive,
    /// Any other one; the number tells them apart.
    Other(u32),
}

/// Follows which source of completions is chosen.
#[derive(Debug)]
pub struct SettingsObserver {
    pub provider: EditPredictionProvider,
}

/// What a change of the settings makes of the service: another source stops it.
pub open spec fn after_settings(
    ninetyfive: NinetyFive,
    provider: EditPredictionProvider,
    new_provider: EditPredictionProvider,
) -> NinetyFive {
    if new_provider != provider && new_provider !is NinetyFive {
        NinetyFive::Starting
    } else {
        ninetyfive
    }
}

/// Whether a change of the settings starts the service: it does where the service is chosen anew
/// and not running yet.
pub open spec fn starts_on_settings(
    ninetyfive: NinetyFive,
    provider: EditPredictionProvider,
    new_provider: EditPredictionProvider,
) -> bool {
    new_provider != provider && new_provider is NinetyFive && ninetyfive is Starting
}

/// The service as it is when the editor comes up with `provider` chosen, what follows the
/// settings from then on, and whether to start the service at once.
pub fn init(provider: EditPredictionProvider) -> (made: (NinetyFive, SettingsObserver, bool))
    ensures
        made.0 is Starting,
        made.1.provider == provider,
        made.2 == (provider is NinetyFive),
{
    let ninetyfive = NinetyFive::Starting;
    let start = if provider == EditPredictionProvider::NinetyFive {
        ninetyfive.start()
    } else {
        false
    };
    (ninetyfive, SettingsObserver { provider }, start)
}

impl SettingsObserver {
    /// Takes in a change of the settings and stops the service where another source was chosen.
    /// Tells whether to start the service, and whether the end of its agent is to be announced.
    pub fn settings_changed(&mut self, ninetyfive: &mut NinetyFive, new_provider: EditPredictionProvider) -> (done: (
        bool,
        bool,
    ))
        ensures
            final(self).provider == new_provider,
            *final(ninetyfive) == after_settings(*old(ninetyfive), old(self).provider, new_provider),
            done.0 == starts_on_settings(*old(ninetyfive), old(self).provider, new_provider),
            done.1 == (new_provider != old(self).provider && new_provider !is NinetyFive && ends_open_agent(
                *old(ninetyfive),
            )),
    {
        if new_provider != self.provider {
            self.provider = new_provider;
            if self.provider == EditPredictionProvider::NinetyFive {
                (ninetyfive.start(), false)
            } else {
                (false, ninetyfive.stop())
            }
        } else {
            (false, false)
        }
    }
}

/// Choosing another source of completions and then this one again restarts the service, whatever
/// had become of it.
pub proof fn law_choosing_anew_restarts(ninetyfive: NinetyFive, other: EditPredictionProvider)
    requires
        other !is NinetyFive,
    ensures
        after_settings(ninetyfive, EditPredictionProvider::NinetyFive, other) is Starting,
        starts_on_settings(
            after_settings(ninetyfive, EditPredictionProvider::NinetyFive, other),
            other,
            EditPredictionProvider::NinetyFive,
        ),
{
}

/// A change of the settings that keeps the source of completions changes nothing.
pub proof fn law_other_settings_do_not_matter(ninetyfive: NinetyFive, provider: EditPredictionProvider)
    ensures
        after_settings(ninetyfive, provider, provider) == ninetyfive,
        !starts_on_settings(ninetyfive, provider, provider),
{
}

/// Connecting puts a fresh agent in place of a service that is starting and opens its socket at the
/// given URL, unless that is refused, for the reason told; then the service goes on starting. A service
/// in any other state is left as it is, and no socket is opened.
pub proof fn law_only_a_starting_service_connects(
    before: NinetyFive,
    after: NinetyFive,
    opened: Result<Option<Request<()>>, String>,
    ws_url: Seq<char>,
)
    requires
        connects(before, after, opened, ws_url),
    ensures
        !(before is Starting) ==> after == before && opened is Ok && opened->Ok_0 is None,
        before is Starting ==> {
            &&& opened is Ok <==> agent::request_refusal(ws_url) is None
            &&& opened matches Err(reason) ==> agent::request_refusal(ws_url) == Some(reason@) && after is Starting
            &&& opened matches Ok(request) ==> {
                &&& request is Some
                &&& agent::request_uri(request->0) == agent::uri_of(ws_url)
                &&& agent::request_host(request->0) == agent::host_of(ws_url)
                &&& after matches NinetyFive::Connected(agent)
                &&& agent.next_state_id.0 == 0
                &&& forall|id: usize| !#[trigger] agent.states@.contains_key(id)
                &&& agent.outgoing@.len() == 0
                &&& agent.open
            }
        },
{
}

/// A service whose source is not chosen any more is stopped, whatever it was at; in all other cases the
/// settings leave it as it is. It is started exactly where its source is chosen anew while it is not
/// running.
pub proof fn law_settings_decide_whether_it_runs(
    ninetyfive: NinetyFive,
    provider: EditPredictionProvider,
    new_provider: EditPredictionProvider,
)
    ensures
        new_provider == provider || new_provider == EditPredictionProvider::NinetyFive ==> after_settings(
            ninetyfive,
            provider,
            new_provider,
        ) == ninetyfive,
        new_provider != provider && new_provider != EditPredictionProvider::NinetyFive ==> after_settings(
            ninetyfive,
            provider,
            new_provider,
        ) is Starting,
        starts_on_settings(ninetyfive, provider, new_provider) <==> provider != EditPredictionProvider::NinetyFive
            && new_provider == EditPredictionProvider::NinetyFive && ninetyfive is Starting,
{
}

/// The end of an agent is announced exactly if there is one whose end has not been announced.
pub proof fn law_only_an_open_agent_is_announced(ninetyfive: NinetyFive)
    ensures
        ends_open_agent(ninetyfive) <==> match ninetyfive {
            NinetyFive::Connected(agent) => agent.open,
            _ => false,
        },
{
}

} // verus!
