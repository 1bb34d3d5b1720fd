//! Transport-level control packets: connection management actions with an
//! optional data payload, encoded as one action byte of flags.

use vstd::prelude::*;

verus! {

/// Flag bit: the packet begins a new key exchange.
pub const ACTION_KEX_INIT: u8 = 0x01;

/// Flag bit: the packet answers a key-exchange initiation.
pub const ACTION_KEX_ACKN: u8 = 0x02;

/// Flag bit: the packet terminates the connection.
pub const ACTION_CLOSE: u8 = 0x80;

/// One control packet: which action it performs and any data it carries.
pub struct Control {
    action: u8,
    data: Vec<u8>,
}

impl Control {
    /// The packet's action flags.
    pub closed spec fn action_view(&self) -> u8 {
        self.action
    }

    /// The packet's payload.
    pub closed spec fn data_view(&self) -> Seq<u8> {
        self.data@
    }

    /// Reports the packet's action flags.
    pub fn action(&self) -> (r: u8)
        ensures
            r == self.action_view(),
    {
        self.action
    }

    /// Builds an empty control packet: no action, no data.
    pub fn new() -> (r: Self)
        ensures
            r.action_view() == 0,
            r.data_view() == Seq::<u8>::empty(),
    {
        Control { action: 0, data: Vec::new() }
    }

    /// Turns this packet into a key-exchange initiation packet.
    pub fn client_kex_init(&mut self)
        ensures
            final(self).action_view() == ACTION_KEX_INIT,
            final(self).data_view() == Seq::<u8>::empty(),
    {
        self.action = ACTION_KEX_INIT;
        self.data = Vec::new();
    }
}

} // verus!
