//! The connection to the completion service.
//!
//! The socket itself is opened, written and read by the application. What stands here is what the
//! client decides: where to connect to, when a connection is to be made, which connection is kept,
//! and what is sent.

use vstd::prelude::*;

verus! {

/// Where the service listens.
pub const NINETYFIVE_API_URL: &'static str = "wss://api.ninetyfive.gg";

/// The port of a service whose URL names none.
pub const DEFAULT_PORT: u16 = 443;

/// Why a request to the service failed.
#[derive(Debug)]
pub enum RequestError {
    /// The URL of the service cannot be read, for the reason given.
    InvalidUrl(String),
    /// The URL of the service has no host.
    InvalidHost,
    /// The network or the socket failed, for the reason given.
    Transport(String),
    NoConnection,
    ClosedByServer,
    ConnectionEnded,
    TimedOut,
}

impl RequestError {
    /// What the error is called.
    pub open spec fn text(&self) -> Seq<char> {
        match self {
            RequestError::InvalidUrl(reason) => reason@,
            RequestError::InvalidHost => "Invalid host in URL"@,
            RequestError::Transport(reason) => reason@,
            RequestError::NoConnection => "No websocket connection available"@,
            RequestError::ClosedByServer => "Connection closed by server"@,
            RequestError::ConnectionEnded => "Connection ended"@,
            RequestError::TimedOut => "Request timed out"@,
        }
    }

    /// The error in words.
    pub fn message(&self) -> (message: String)
        ensures
            message@ == self.text(),
    {
        match self {
            RequestError::InvalidUrl(reason) => reason.clone(),
            RequestError::InvalidHost => "Invalid host in URL".to_owned(),
            RequestError::Transport(reason) => reason.clone(),
            RequestError::NoConnection => "No websocket connection available".to_owned(),
            RequestError::ClosedByServer => "Connection closed by server".to_owned(),
            RequestError::ConnectionEnded => "Connection ended".to_owned(),
            RequestError::TimedOut => "Request timed out".to_owned(),
        }
    }
}

/// Why `url::Url::parse` refuses a text, in words, or `None` where it reads it as a URL.
pub uninterp spec fn url_refusal(url: Seq<char>) -> Option<Seq<char>>;

/// What `url::Url::host_str` returns for the URL that a text is read as.
pub uninterp spec fn url_host(url: Seq<char>) -> Option<Seq<char>>;

/// What `url::Url::port` returns for the URL that a text is read as.
pub uninterp spec fn url_port(url: Seq<char>) -> Option<u16>;

/// The parts of a URL that say where to connect to.
#[derive(Debug)]
pub struct UrlParts {
    pub host: Option<String>,
    /// `None` where the URL names no port, or the one that its scheme implies.
    pub port: Option<u16>,
}

/// `url::Url::parse`, then `host_str` and `port` of what it returns; the error becomes its text.
/// Each of them depends on the text alone.
#[verifier::external_body]
fn parse_url(url: &str) -> (parsed: Result<UrlParts, String>)
    ensures
        match parsed {
            Ok(parts) => {
                &&& url_refusal(url@) is None
                &&& url_port(url@) == parts.port
                &&& match parts.host {
                    Some(host) => url_host(url@) == Some(host@),
                    None => url_host(url@) is None,
                }
            },
            Err(reason) => url_refusal(url@) == Some(reason@),
        },
{
    match url::Url::parse(url) {
        Ok(url) => Ok(UrlParts { host: url.host_str().map(|host| host.to_string()), port: url.port() }),
        Err(reason) => Err(reason.to_string()),
    }
}

/// Where to connect to.
#[derive(Debug)]
pub struct Endpoint {
    pub host: String,
    pub port: u16,
}

/// Where the parts of a URL lead: to its host, and to its port or else the default one.
pub fn endpoint_of(parsed: Result<UrlParts, String>) -> (endpoint: Result<Endpoint, RequestError>)
    ensures
        match parsed {
            Err(reason) => endpoint == Err::<Endpoint, _>(RequestError::InvalidUrl(reason)),
            Ok(UrlParts { host: None, .. }) => endpoint == Err::<Endpoint, _>(RequestError::InvalidHost),
            Ok(UrlParts { host: Some(host), port }) => endpoint == Ok::<_, RequestError>(
                Endpoint {
                    host,
                    port: match port {
                        Some(port) => port,
                        None => DEFAULT_PORT,
                    },
                },
            ),
        },
{
    match parsed {
        Err(reason) => Err(RequestError::InvalidUrl(reason)),
        Ok(parts) => match parts.host {
            None => Err(RequestError::InvalidHost),
            Some(host) => Ok(Endpoint { host, port: parts.port.unwrap_or(DEFAULT_PORT) }),
        },
    }
}

/// How an attempt to send something ended.
#[derive(Debug)]
pub enum SendOutcome {
    /// There was no connection to send it over.
    NoConnection,
    Sent,
    /// The connection failed, for the reason given.
    Failed(String),
}

/// The client of the service: its URL, and the connection, of the application's type `C`, while
/// there is one.
#[derive(Debug)]
pub struct WebSocketClient<C> {
    pub api_url: String,
    pub connection: Option<C>,
}

/// Whether a client has to be connected before it can send anything.
pub open spec fn needs_connection<C>(client: WebSocketClient<C>) -> bool {
    client.connection is None
}

impl<C> WebSocketClient<C> {
    /// A client that is not connected yet.
    pub fn new(api_url: String) -> (client: Self)
        ensures
            client.api_url == api_url,
            client.connection is None,
    {
        WebSocketClient { api_url, connection: None }
    }

    /// A client of the service where it listens, not connected yet.
    pub fn for_service() -> (client: Self)
        ensures
            client.api_url@ == NINETYFIVE_API_URL@,
            client.connection is None,
    {
        WebSocketClient::new(NINETYFIVE_API_URL.to_owned())
    }

    /// Where the socket is to be opened.
    pub fn create_connection(&self) -> (endpoint: Result<Endpoint, RequestError>)
        ensures
            match endpoint {
                Ok(endpoint) => {
                    &&& url_refusal(self.api_url@) is None
                    &&& url_host(self.api_url@) == Some(endpoint.host@)
                    &&& endpoint.port == match url_port(self.api_url@) {
                        Some(port) => port,
                        None => DEFAULT_PORT,
                    }
                },
                Err(RequestError::InvalidUrl(reason)) => url_refusal(self.api_url@) == Some(reason@),
                Err(error) => {
                    &&& error is InvalidHost
                    &&& url_refusal(self.api_url@) is None
                    &&& url_host(self.api_url@) is None
                },
            },
    {
        endpoint_of(parse_url(self.api_url.as_str()))
    }

    /// Whether a connection has to be made before anything can be sent.
    pub fn ensure_connection(&self) -> (missing: bool)
        ensures
            missing == needs_connection(*self),
            missing == (self.connection is None),
    {
        self.connection.is_none()
    }

    /// Takes in how the attempt to make a missing connection ended: a connection is kept, an
    /// error is handed on and leaves the client as it is.
    pub fn connection_made(&mut self, outcome: Result<C, RequestError>) -> (ready: Result<(), RequestError>)
        ensures
            final(self).api_url == old(self).api_url,
            match outcome {
                Ok(connection) => ready is Ok && final(self).connection == Some(connection),
                Err(error) => ready == Err::<(), _>(error) && final(self).connection == old(self).connection,
            },
    {
        match outcome {
            Ok(connection) => {
                self.connection = Some(connection);
                Ok(())
            },
            Err(error) => Err(error),
        }
    }

    /// Takes in how an attempt to connect anew ended. Whatever connection there was is gone: the
    /// new one takes its place, or none does.
    pub fn reconnect_if_needed(&mut self, outcome: Result<C, RequestError>) -> (ready: Result<(), RequestError>)
        ensures
            final(self).api_url == old(self).api_url,
            match outcome {
                Ok(connection) => ready is Ok && final(self).connection == Some(connection),
                Err(error) => ready == Err::<(), _>(error) && final(self).connection is None,
            },
    {
        match outcome {
            Ok(connection) => {
                self.connection = Some(connection);
                Ok(())
            },
            Err(error) => {
                self.connection = None;
                Err(error)
            },
        }
    }

    /// Takes in how sending ended. A connection that failed is given up, so that the next request
    /// makes a new one.
    pub fn sent(&mut self, outcome: SendOutcome) -> (result: Result<(), RequestError>)
        ensures
            final(self).api_url == old(self).api_url,
            match outcome {
                SendOutcome::Sent => {
                    &&& result == Ok::<(), RequestError>(())
                    &&& final(self).connection == old(self).connection
                },
                SendOutcome::Failed(reason) => {
                    &&& result == Err::<(), _>(RequestError::Transport(reason))
                    &&& final(self).connection is None
                },
                SendOutcome::NoConnection => {
                    &&& result == Err::<(), _>(RequestError::NoConnection)
                    &&& final(self).connection == old(self).connection
                },
            },
    {
        match outcome {
            SendOutcome::Sent => Ok(()),
            SendOutcome::Failed(reason) => {
                self.connection = None;
                Err(RequestError::Transport(reason))
            },
            SendOutcome::NoConnection => Err(RequestError::NoConnection),
        }
    }
}

/// An error that the network or the URL gave is told as it came; the others have fixed words.
pub proof fn law_errors_say_why(error: RequestError)
    ensures
        match error {
            RequestError::InvalidUrl(reason) => error.text() == reason@,
            RequestError::Transport(reason) => error.text() == reason@,
            RequestError::InvalidHost => error.text() == "Invalid host in URL"@,
            RequestError::NoConnection => error.text() == "No websocket connection available"@,
            RequestError::ClosedByServer => error.text() == "Connection closed by server"@,
            RequestError::ConnectionEnded => error.text() == "Connection ended"@,
            RequestError::TimedOut => error.text() == "Request timed out"@,
        },
{
}

/// A client needs a connection exactly while it has none, whatever its URL.
pub proof fn law_only_a_missing_connection_is_made<C>(client: WebSocketClient<C>)
    ensures
        needs_connection(client) <==> client.connection is None,
{
}

} // verus!
