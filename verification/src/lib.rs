//! The client side of the NinetyFive code completion service.
//!
//! The service is started and stopped with the editor's settings ([`ninetyfive`]). While it is
//! connected, an [`agent`] remembers the completions that were asked for; one task sends what it has
//! to say ([`outgoing`]) and another reads what comes back ([`incoming`]). The completion [`client`]
//! looks after a socket of its own, over which it sends what a file holds ([`file_content`]) and
//! carries one request at a time through to its answer ([`delta`]). The [`provider`] decides what the editor shows meanwhile, and keeps a
//! completion in step with what the user types ([`interpolate`]).
//!
//! Sockets, buffers and settings are the application's business: it hands in plain values and
//! carries out what comes back.

pub mod agent;
pub mod anchor;
pub mod client;
pub mod clock_id;
pub mod delta;
pub mod delta_laws;
pub mod file_content;
pub mod incoming;
pub mod interpolate;
pub mod json;
pub mod message;
pub mod ninetyfive;
pub mod outgoing;
pub mod provider;
pub mod text;
