//! The daemon's server side: its configuration and the decision whether it
//! is meant to run at all. Binding sockets, accepting streams and spawning
//! tasks live with the I/O runtime around the library.

use vstd::prelude::*;
use vstd::string::StringExecFns;

use crate::config::channel::ChannelConfiguration;
use crate::config::connection::ConnectionConfiguration;
use crate::config::session::{KeyTypes, SessionConfiguration};

verus! {

/// The long-running daemon.
pub struct Server {}

/// One client allowed to connect, by address and named public key.
pub struct Client {
    /// The client's IPv6 address, in network byte order.
    pub addr: u128,
    /// What kind of key the client authenticates with.
    pub key_type: KeyTypes,
    /// The name of the key in the certificate directory.
    pub key_name: String,
}

/// The daemon's configuration.
pub struct ServerConfiguration {
    /// What executable to run for each session.
    pub execute: String,
    /// Connection-related settings.
    pub connection_settings: ConnectionConfiguration,
    /// Session-related settings.
    pub session_settings: SessionConfiguration,
    /// Channel-related settings.
    pub channel_settings: ChannelConfiguration,
    /// The clients allowed to connect. Without any, the server refuses to
    /// run.
    pub clients: Option<Vec<Client>>,
}

impl ServerConfiguration {
    /// The decision the loader makes once the file is parsed: a server with
    /// no configured clients is not meant to run.
    pub fn into_running(self) -> (r: Option<ServerConfiguration>)
        ensures
            r is Some <==> self.clients is Some,
    {
        if self.clients.is_some() {
            Some(self)
        } else {
            None
        }
    }
}

/// The default executable a session runs.
pub fn default_exec() -> (r: String)
    ensures
        r@ == "/bin/sh"@,
{
    String::from_str("/bin/sh")
}

} // verus!
