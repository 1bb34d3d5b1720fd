//! Channel-registry and multiplexing tests.

use qsh::channel::{
    mux_decode, mux_encode, ChannelDescriptor, ChannelError, Session, STDERR_CHANNEL,
    STDIN_CHANNEL, STDOUT_CHANNEL,
};
use qsh::ipc::{ChannelDirection, ChannelType};

#[test]
fn standard_channels_exist_from_the_start() {
    let session = Session::new();
    let stdin = session.channel(STDIN_CHANNEL).unwrap();
    assert_eq!(stdin.direction, ChannelDirection::O);
    assert_eq!(stdin.channel_type, ChannelType::Unbuffered);
    let stdout = session.channel(STDOUT_CHANNEL).unwrap();
    assert_eq!(stdout.direction, ChannelDirection::I);
    let stderr = session.channel(STDERR_CHANNEL).unwrap();
    assert_eq!(stderr.direction, ChannelDirection::I);
    assert!(session.channel(3).is_none());
}

#[test]
fn unbuffered_mux_round_trip() {
    let session = Session::new();
    let plaintext = session.mux(STDOUT_CHANNEL, 99, b"terminal bytes").unwrap();
    // An unbuffered channel carries no sequence number: 2-byte id prefix.
    assert_eq!(plaintext.len(), 2 + 14);
    assert_eq!(&plaintext[..2], &[1, 0]);
    let (id, seq_no, payload) = session.demux(&plaintext).unwrap();
    assert_eq!(id, STDOUT_CHANNEL);
    assert_eq!(seq_no, None);
    assert_eq!(payload, b"terminal bytes".to_vec());
}

#[test]
fn buffered_mux_round_trip() {
    let mut session = Session::new();
    session.add_channel(
        7,
        ChannelDescriptor {
            direction: ChannelDirection::O,
            channel_type: ChannelType::Buffered,
        },
    );
    let plaintext = session.mux(7, 41, b"sequenced").unwrap();
    // A buffered channel carries a u64 sequence number after the id.
    assert_eq!(plaintext.len(), 2 + 8 + 9);
    let (id, seq_no, payload) = session.demux(&plaintext).unwrap();
    assert_eq!(id, 7);
    assert_eq!(seq_no, Some(41));
    assert_eq!(payload, b"sequenced".to_vec());
}

#[test]
fn unknown_and_truncated_plaintexts_are_rejected() {
    let session = Session::new();
    assert_eq!(session.mux(9, 0, b"x"), Err(ChannelError::UnknownChannel));
    assert_eq!(session.demux(&[5]), Err(ChannelError::Truncated));
    // Channel 9 is not registered.
    let stray = mux_encode(9, None, b"payload");
    assert_eq!(session.demux(&stray), Err(ChannelError::UnknownChannel));
    // A buffered plaintext that is too short for its sequence number.
    assert_eq!(mux_decode(true, &[7, 0, 1, 2]), Err(ChannelError::Truncated));
}

#[test]
fn mux_encode_layout_is_little_endian() {
    let bytes = mux_encode(0x0102, Some(0x0304), b"z");
    assert_eq!(bytes, vec![0x02, 0x01, 0x04, 0x03, 0, 0, 0, 0, 0, 0, b'z']);
    let (id, seq_no, payload) = mux_decode(true, &bytes).unwrap();
    assert_eq!((id, seq_no), (0x0102, Some(0x0304)));
    assert_eq!(payload, b"z".to_vec());
}

#[test]
fn full_pipeline_round_trip_on_values() {
    let mut local = Session::new();
    let mut remote = Session::new();
    let descriptor = ChannelDescriptor {
        direction: ChannelDirection::O,
        channel_type: ChannelType::Buffered,
    };
    local.add_channel(5, descriptor);
    remote.add_channel(5, descriptor);
    let (id, seq_no, payload) = qsh::channel::channel_record_round_trip(
        &local,
        &remote,
        5,
        8,
        b"multiplexed and sealed",
        vec![4u8; 32],
        3,
    );
    assert_eq!(id, 5);
    assert_eq!(seq_no, Some(8));
    assert_eq!(payload, b"multiplexed and sealed".to_vec());
}
