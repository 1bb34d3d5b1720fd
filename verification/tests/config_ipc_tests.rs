//! Configuration defaults, IPC message and control-packet tests.

use qsh::config::channel::ChannelConfiguration;
use qsh::config::connection::ConnectionConfiguration as DaemonConnectionConfiguration;
use qsh::config::session::{KeyTypes, SessionConfiguration as DaemonSessionConfiguration};
use qsh::configuration::{General, QshConfiguration};
use qsh::connection::ConnectionConfiguration;
use qsh::control::{Control, ACTION_KEX_INIT};
use qsh::ipc::{
    ChannelAcknowledge, ChannelDirection, ChannelRequest, ChannelType, SessionAcknowledge,
    SessionRequest,
};
use qsh::server::{default_exec, Client, ServerConfiguration};

#[test]
fn connection_defaults_bind_loopback() {
    let config = ConnectionConfiguration::default();
    // ::1 in network byte order is the integer 1.
    assert_eq!(config.addr, 1u128);
    assert_eq!(config.port, 54321);
    let daemon_config = DaemonConnectionConfiguration::default();
    assert_eq!(daemon_config.addr, 1u128);
    assert_eq!(daemon_config.port, 54321);
}

#[test]
fn general_defaults_match_the_documented_values() {
    let general = General::default();
    assert!(!general.log);
    assert_eq!(general.config_update_interval, 30);
    assert_eq!(general.listen_address, 1u128);
    assert_eq!(general.listen_port, 54321);
    let _ = QshConfiguration::default();
    let _ = ChannelConfiguration::default();
    let _ = DaemonSessionConfiguration::default();
}

#[test]
fn default_executable_is_a_shell() {
    assert_eq!(default_exec(), "/bin/sh".to_string());
}

#[test]
fn server_without_clients_does_not_run() {
    let idle = ServerConfiguration {
        execute: default_exec(),
        connection_settings: DaemonConnectionConfiguration::default(),
        session_settings: DaemonSessionConfiguration::default(),
        channel_settings: ChannelConfiguration::default(),
        clients: None,
    };
    assert!(idle.into_running().is_none());
    let configured = ServerConfiguration {
        execute: default_exec(),
        connection_settings: DaemonConnectionConfiguration::default(),
        session_settings: DaemonSessionConfiguration::default(),
        channel_settings: ChannelConfiguration::default(),
        clients: Some(vec![Client {
            addr: 1,
            key_type: KeyTypes::Fips204,
            key_name: "peer".to_string(),
        }]),
    };
    assert!(configured.into_running().is_some());
}

#[test]
fn ipc_constructors_keep_their_fields() {
    let ack = SessionAcknowledge::new(
        4,
        "/run/qshd/s4".to_string(),
        "/run/qshd/s4-in".to_string(),
        "/run/qshd/s4-out".to_string(),
        "/run/qshd/s4-err".to_string(),
    );
    assert_eq!(ack.id, 4);
    assert_eq!(ack.socket_path, "/run/qshd/s4");
    assert_eq!(ack.stdin_path, "/run/qshd/s4-in");
    assert_eq!(ack.stdout_path, "/run/qshd/s4-out");
    assert_eq!(ack.stderr_path, "/run/qshd/s4-err");
    let _ = SessionRequest::new(1, 54321, "/bin/sh".to_string());
    let _ = ChannelRequest::new(ChannelDirection::I, ChannelType::Buffered);
    let _ = ChannelAcknowledge::new(3, "/run/qshd/c3".to_string());
}

#[test]
fn control_packet_actions() {
    let mut packet = Control::new();
    assert_eq!(packet.action(), 0);
    packet.client_kex_init();
    assert_eq!(packet.action(), ACTION_KEX_INIT);
}
