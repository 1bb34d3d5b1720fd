//! Messages exchanged between the user-facing tool and the daemon over the
//! local IPC socket. Addresses are IPv6 values in network byte order carried
//! as `u128`; socket locations are carried as path strings.

use vstd::prelude::*;

verus! {

/// Which way a channel carries data, seen from the daemon.
#[derive(Clone, Copy, Debug, PartialEq, Eq, Structural)]
pub enum ChannelDirection {
    /// Into the daemon.
    I,
    /// Out of the daemon.
    O,
}

/// Whether a channel's records carry a per-channel sequence number.
#[derive(Clone, Copy, Debug, PartialEq, Eq, Structural)]
pub enum ChannelType {
    /// Interactive: no sequence number inside the plaintext.
    Unbuffered,
    /// Sequenced: each record carries a `u64` sequence number.
    Buffered,
}

/// Sent from the tool to the daemon to start a session.
pub struct SessionRequest {
    remote_host: u128,
    port: u16,
    execute: String,
}

impl SessionRequest {
    /// The IPv6 address to connect to.
    pub closed spec fn remote_host_view(&self) -> u128 {
        self.remote_host
    }

    /// The port to connect to.
    pub closed spec fn port_view(&self) -> u16 {
        self.port
    }

    /// The path of the program to run on the other end.
    pub closed spec fn execute_view(&self) -> Seq<char> {
        self.execute@
    }

    /// Builds a session request.
    pub fn new(remote_host: u128, port: u16, execute: String) -> (r: Self)
        ensures
            r.remote_host_view() == remote_host,
            r.port_view() == port,
            r.execute_view() == execute@,
    {
        SessionRequest { remote_host, port, execute }
    }
}

/// Sent from the daemon to the tool: where the new session's sockets are.
pub struct SessionAcknowledge {
    /// The session's identifier.
    pub id: u16,
    /// Path of the session control socket.
    pub socket_path: String,
    /// Path of the socket carrying standard input.
    pub stdin_path: String,
    /// Path of the socket carrying standard output.
    pub stdout_path: String,
    /// Path of the socket carrying standard error.
    pub stderr_path: String,
}

impl SessionAcknowledge {
    /// Builds a session acknowledgement.
    pub fn new(
        id: u16,
        socket_path: String,
        stdin_path: String,
        stdout_path: String,
        stderr_path: String,
    ) -> (r: Self)
        ensures
            r.id == id,
            r.socket_path@ == socket_path@,
            r.stdin_path@ == stdin_path@,
            r.stdout_path@ == stdout_path@,
            r.stderr_path@ == stderr_path@,
    {
        SessionAcknowledge { id, socket_path, stdin_path, stdout_path, stderr_path }
    }
}

/// Sent from the tool to the daemon to create a new channel.
pub struct ChannelRequest {
    direction: ChannelDirection,
    channel_type: ChannelType,
}

impl ChannelRequest {
    /// The requested direction.
    pub closed spec fn direction_view(&self) -> ChannelDirection {
        self.direction
    }

    /// The requested channel type.
    pub closed spec fn channel_type_view(&self) -> ChannelType {
        self.channel_type
    }

    /// Builds a channel request.
    pub fn new(direction: ChannelDirection, channel_type: ChannelType) -> (r: Self)
        ensures
            r.direction_view() == direction,
            r.channel_type_view() == channel_type,
    {
        ChannelRequest { direction, channel_type }
    }
}

/// Sent from the daemon to the tool: where the new channel's socket is.
pub struct ChannelAcknowledge {
    id: u16,
    socket_path: String,
}

impl ChannelAcknowledge {
    /// The channel's identifier.
    pub closed spec fn id_view(&self) -> u16 {
        self.id
    }

    /// Path of the channel's socket.
    pub closed spec fn socket_path_view(&self) -> Seq<char> {
        self.socket_path@
    }

    /// Builds a channel acknowledgement.
    pub fn new(id: u16, socket_path: String) -> (r: Self)
        ensures
            r.id_view() == id,
            r.socket_path_view() == socket_path@,
    {
        ChannelAcknowledge { id, socket_path }
    }
}

} // verus!
