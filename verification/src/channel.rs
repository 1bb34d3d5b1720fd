//! Channels module: the per-session registry of logical channels and the
//! plaintext multiplexing they use. Each record's plaintext starts with a
//! 2-byte little-endian channel identifier, followed by a `u64` sequence
//! number when the channel is buffered, then the payload. The prefixing
//! happens above the record layer: it is part of the plaintext the records
//! carry. Identifiers 0, 1 and 2 are reserved for the remote process's
//! standard input, output and error.

use std::collections::HashMap;
use vstd::prelude::*;

use crate::ipc::{ChannelDirection, ChannelType};

verus! {

broadcast use vstd::std_specs::hash::group_hash_axioms;

/// Identifier of the channel carrying the remote process's standard input.
pub const STDIN_CHANNEL: u16 = 0;

/// Identifier of the channel carrying the remote process's standard output.
pub const STDOUT_CHANNEL: u16 = 1;

/// Identifier of the channel carrying the remote process's standard error.
pub const STDERR_CHANNEL: u16 = 2;

/// Errors of the channel multiplexing layer.
#[derive(Clone, Copy, Debug, PartialEq, Eq, Structural)]
pub enum ChannelError {
    /// The plaintext is too short for the channel prefix it must carry.
    Truncated,
    /// The plaintext names a channel the session does not have.
    UnknownChannel,
}

/// What one channel is: its direction and whether it is sequenced.
#[derive(Clone, Copy, Debug, PartialEq, Eq, Structural)]
pub struct ChannelDescriptor {
    /// Which way the channel carries data.
    pub direction: ChannelDirection,
    /// Whether records on the channel carry a sequence number.
    pub channel_type: ChannelType,
}

/// The multiplexed plaintext for a channel: identifier, sequence number when
/// the channel is buffered, then the payload.
pub open spec fn spec_mux_encode(id: u16, seq_no: Option<u64>, payload: Seq<u8>) -> Seq<u8> {
    vstd::bytes::spec_u16_to_le_bytes(id) + (match seq_no {
        Some(n) => vstd::bytes::spec_u64_to_le_bytes(n),
        None => Seq::<u8>::empty(),
    }) + payload
}

/// What demultiplexing yields for a plaintext, given whether its channel is
/// buffered: identifier, sequence number if buffered, payload; or nothing if
/// the plaintext is too short for its prefix.
pub open spec fn spec_mux_decode(buffered: bool, bytes: Seq<u8>) -> Option<
    (u16, Option<u64>, Seq<u8>),
> {
    if bytes.len() < 2 {
        None
    } else {
        let id = vstd::bytes::spec_u16_from_le_bytes(bytes.subrange(0, 2));
        if buffered {
            if bytes.len() < 10 {
                None
            } else {
                Some(
                    (
                        id,
                        Some(vstd::bytes::spec_u64_from_le_bytes(bytes.subrange(2, 10))),
                        bytes.skip(10),
                    ),
                )
            }
        } else {
            Some((id, None, bytes.skip(2)))
        }
    }
}

/// Builds the multiplexed plaintext for a channel.
pub fn mux_encode(id: u16, seq_no: Option<u64>, payload: &[u8]) -> (r: Vec<u8>)
    ensures
        r@ == spec_mux_encode(id, seq_no, payload@),
{
    let mut r = vstd::bytes::u16_to_le_bytes(id);
    match seq_no {
        Some(n) => {
            let seq_bytes = vstd::bytes::u64_to_le_bytes(n);
            crate::bytes::extend_bytes(&mut r, seq_bytes.as_slice());
        },
        None => (),
    }
    crate::bytes::extend_bytes(&mut r, payload);
    proof {
        assert(r@ =~= spec_mux_encode(id, seq_no, payload@));
    }
    r
}

/// Splits a multiplexed plaintext, given whether its channel is buffered.
pub fn mux_decode(buffered: bool, bytes: &[u8]) -> (r: Result<
    (u16, Option<u64>, Vec<u8>),
    ChannelError,
>)
    ensures
        r is Ok <==> spec_mux_decode(buffered, bytes@) is Some,
        r matches Ok(parts) ==> spec_mux_decode(buffered, bytes@) == Some(
            (parts.0, parts.1, parts.2@),
        ),
        r matches Err(e) ==> e == ChannelError::Truncated,
{
    if bytes.len() < 2 {
        return Err(ChannelError::Truncated);
    }
    let id = vstd::bytes::u16_from_le_bytes(vstd::slice::slice_subrange(bytes, 0, 2));
    if buffered {
        if bytes.len() < 10 {
            return Err(ChannelError::Truncated);
        }
        let seq_no = vstd::bytes::u64_from_le_bytes(vstd::slice::slice_subrange(bytes, 2, 10));
        let payload = crate::bytes::copy_bytes(
            vstd::slice::slice_subrange(bytes, 10, bytes.len()),
        );
        proof {
            assert(payload@ =~= bytes@.skip(10));
        }
        Ok((id, Some(seq_no), payload))
    } else {
        let payload = crate::bytes::copy_bytes(vstd::slice::slice_subrange(bytes, 2, bytes.len()));
        proof {
            assert(payload@ =~= bytes@.skip(2));
        }
        Ok((id, None, payload))
    }
}

/// Multiplexing round trip: a plaintext built for a channel splits back into
/// exactly the identifier, sequence number and payload it was built from,
/// when read with the channel's own type.
pub proof fn lemma_mux_round_trip(id: u16, seq_no: Option<u64>, payload: Seq<u8>)
    ensures
        spec_mux_decode(seq_no is Some, spec_mux_encode(id, seq_no, payload)) == Some(
            (id, seq_no, payload),
        ),
{
    vstd::bytes::lemma_auto_spec_u16_to_from_le_bytes();
    vstd::bytes::lemma_auto_spec_u64_to_from_le_bytes();
    let enc = spec_mux_encode(id, seq_no, payload);
    match seq_no {
        Some(n) => {
            assert(enc.subrange(0, 2) =~= vstd::bytes::spec_u16_to_le_bytes(id));
            assert(enc.subrange(2, 10) =~= vstd::bytes::spec_u64_to_le_bytes(n));
            assert(enc.skip(10) =~= payload);
        },
        None => {
            assert(enc.subrange(0, 2) =~= vstd::bytes::spec_u16_to_le_bytes(id));
            assert(enc.skip(2) =~= payload);
        },
    }
}

/// The per-session registry: a map from channel identifier to descriptor,
/// sharing one connection. Channels 0, 1 and 2 exist from the start.
pub struct Session {
    channels: HashMap<u16, ChannelDescriptor>,
}

/// The three pre-created standard channels, as a map.
pub open spec fn spec_initial_channels() -> Map<u16, ChannelDescriptor> {
    Map::<u16, ChannelDescriptor>::empty().insert(
        STDIN_CHANNEL,
        ChannelDescriptor { direction: ChannelDirection::O, channel_type: ChannelType::Unbuffered },
    ).insert(
        STDOUT_CHANNEL,
        ChannelDescriptor { direction: ChannelDirection::I, channel_type: ChannelType::Unbuffered },
    ).insert(
        STDERR_CHANNEL,
        ChannelDescriptor { direction: ChannelDirection::I, channel_type: ChannelType::Unbuffered },
    )
}

impl Session {
    /// The registry's contents.
    pub closed spec fn channels_view(&self) -> Map<u16, ChannelDescriptor> {
        self.channels@
    }

    /// Builds a session with exactly the three standard channels: standard
    /// input outbound, standard output and error inbound, all interactive.
    pub fn new() -> (r: Self)
        ensures
            r.channels_view() == spec_initial_channels(),
    {
        let mut channels: HashMap<u16, ChannelDescriptor> = HashMap::new();
        channels.insert(
            STDIN_CHANNEL,
            ChannelDescriptor {
                direction: ChannelDirection::O,
                channel_type: ChannelType::Unbuffered,
            },
        );
        channels.insert(
            STDOUT_CHANNEL,
            ChannelDescriptor {
                direction: ChannelDirection::I,
                channel_type: ChannelType::Unbuffered,
            },
        );
        channels.insert(
            STDERR_CHANNEL,
            ChannelDescriptor {
                direction: ChannelDirection::I,
                channel_type: ChannelType::Unbuffered,
            },
        );
        Session { channels }
    }

    /// Looks one channel up.
    pub fn channel(&self, id: u16) -> (r: Option<&ChannelDescriptor>)
        ensures
            r is Some <==> self.channels_view().contains_key(id),
            r matches Some(d) ==> *d == self.channels_view()[id],
    {
        self.channels.get(&id)
    }

    /// Registers one additional channel; identifiers 0, 1 and 2 are
    /// reserved for the standard channels.
    pub fn add_channel(&mut self, id: u16, descriptor: ChannelDescriptor)
        requires
            id >= 3,
        ensures
            final(self).channels_view() == old(self).channels_view().insert(id, descriptor),
    {
        self.channels.insert(id, descriptor);
    }

    /// Builds the plaintext for a payload on one channel: the sequence
    /// number is included exactly when the channel is buffered.
    pub fn mux(&self, id: u16, seq_no: u64, payload: &[u8]) -> (r: Result<Vec<u8>, ChannelError>)
        ensures
            r is Ok <==> self.channels_view().contains_key(id),
            r matches Ok(bytes) ==> bytes@ == spec_mux_encode(
                id,
                if self.channels_view()[id].channel_type is Buffered {
                    Some(seq_no)
                } else {
                    None
                },
                payload@,
            ),
            r matches Err(e) ==> e == ChannelError::UnknownChannel,
    {
        let descriptor = match self.channels.get(&id) {
            Some(d) => d,
            None => {
                return Err(ChannelError::UnknownChannel);
            },
        };
        match descriptor.channel_type {
            ChannelType::Buffered => Ok(mux_encode(id, Some(seq_no), payload)),
            ChannelType::Unbuffered => Ok(mux_encode(id, None, payload)),
        }
    }

    /// Splits one received plaintext: reads the channel identifier, checks
    /// the channel exists, and reads the sequence number exactly when that
    /// channel is buffered. Succeeds exactly when the prefix is complete and
    /// names a registered channel.
    pub fn demux(&self, bytes: &[u8]) -> (r: Result<(u16, Option<u64>, Vec<u8>), ChannelError>)
        ensures
            bytes@.len() < 2 ==> r == Err::<(u16, Option<u64>, Vec<u8>), ChannelError>(
                ChannelError::Truncated,
            ),
            bytes@.len() >= 2 ==> {
                let id = vstd::bytes::spec_u16_from_le_bytes(bytes@.subrange(0, 2));
                if !self.channels_view().contains_key(id) {
                    r == Err::<(u16, Option<u64>, Vec<u8>), ChannelError>(
                        ChannelError::UnknownChannel,
                    )
                } else if spec_mux_decode(
                    self.channels_view()[id].channel_type is Buffered,
                    bytes@,
                ) is Some {
                    r is Ok
                } else {
                    r == Err::<(u16, Option<u64>, Vec<u8>), ChannelError>(ChannelError::Truncated)
                }
            },
            r matches Ok(parts) ==> {
                &&& self.channels_view().contains_key(parts.0)
                &&& spec_mux_decode(
                    self.channels_view()[parts.0].channel_type is Buffered,
                    bytes@,
                ) == Some((parts.0, parts.1, parts.2@))
            },
    {
        if bytes.len() < 2 {
            return Err(ChannelError::Truncated);
        }
        let id = vstd::bytes::u16_from_le_bytes(vstd::slice::slice_subrange(bytes, 0, 2));
        let descriptor = match self.channels.get(&id) {
            Some(d) => d,
            None => {
                return Err(ChannelError::UnknownChannel);
            },
        };
        let buffered = match descriptor.channel_type {
            ChannelType::Buffered => true,
            ChannelType::Unbuffered => false,
        };
        match mux_decode(buffered, bytes) {
            Ok(parts) => Ok(parts),
            Err(e) => Err(e),
        }
    }
}

/// The channel-forwarding implementation using LZ4-compressed payloads.
pub struct Lz4FlexChannel;

/// Types of channel implementation the transport can be configured with.
pub enum Implementation {
    Lz4Flex,
}

/// Settings for the channel layer.
pub struct ChannelConfig {
    /// Which implementation to use.
    pub implementation: Implementation,
    /// How many milliseconds to wait between checking the sockets for new
    /// data.
    pub poll_interval: u16,
}

impl ChannelConfig {
    /// Builds a configuration from explicit choices.
    pub fn new(implementation: Implementation, poll_interval: u16) -> Self {
        ChannelConfig { implementation, poll_interval }
    }
}

impl Default for ChannelConfig {
    /// The default channel configuration.
    fn default() -> Self {
        ChannelConfig {
            implementation: default_implementation(),
            poll_interval: default_poll_interval(),
        }
    }
}

fn default_poll_interval() -> (r: u16)
    ensures
        r == 250,
{
    250
}

fn default_implementation() -> Implementation {
    Implementation::Lz4Flex
}

/// Full-pipeline round trip: a payload multiplexed for a registered channel,
/// carried through the record layer under matched keys and counters, and
/// demultiplexed by the peer's registry with the same channels, comes back as
/// exactly the channel, sequence number and payload it left with.
pub fn channel_record_round_trip(
    local: &Session,
    remote: &Session,
    id: u16,
    seq_no: u64,
    payload: &[u8],
    key: Vec<u8>,
    counter: u128,
) -> (r: (u16, Option<u64>, Vec<u8>))
    requires
        local.channels_view() == remote.channels_view(),
        local.channels_view().contains_key(id),
        key@.len() == crate::crypto::KEY_LEN,
        counter < crate::crypto::NONCE_LIMIT - 1,
        payload@.len() + 10 <= crate::record::MAX_PAYLOAD_LEN,
    ensures
        r.0 == id,
        r.1 == (if local.channels_view()[id].channel_type is Buffered {
            Some(seq_no)
        } else {
            None::<u64>
        }),
        r.2@ == payload@,
{
    let plaintext = match local.mux(id, seq_no, payload) {
        Ok(p) => p,
        Err(_) => unreached(),
    };
    proof {
        let buffered = local.channels_view()[id].channel_type is Buffered;
        lemma_mux_round_trip(
            id,
            if buffered {
                Some(seq_no)
            } else {
                None::<u64>
            },
            payload@,
        );
        vstd::bytes::lemma_auto_spec_u16_to_from_le_bytes();
        vstd::bytes::lemma_auto_spec_u64_to_from_le_bytes();
        assert(plaintext@.len() <= payload@.len() + 10);
    }
    let delivered = crate::record::record_round_trip(key, counter, plaintext);
    proof {
        assert(delivered@.subrange(0, 2) =~= vstd::bytes::spec_u16_to_le_bytes(id));
    }
    match remote.demux(delivered.as_slice()) {
        Ok(parts) => parts,
        Err(_) => unreached(),
    }
}

} // verus!
