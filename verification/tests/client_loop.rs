use httpstun::client::ClientAction;
use httpstun::client::ClientEvent;
use httpstun::client::RECONNECT_DELAY_SECS;
use httpstun::client::client_step;
use httpstun::console::Command;
use httpstun::console::parse_command;
use httpstun::console::password_long_enough;

#[test]
fn server_binary_frames_go_to_the_interface() {
    let a = client_step(ClientEvent::ServerBinary(vec![1, 2, 3]));
    assert!(matches!(a, ClientAction::WriteTun(b) if b == vec![1, 2, 3]));
}

#[test]
fn server_pings_are_answered() {
    let a = client_step(ClientEvent::ServerPing(vec![7]));
    assert!(matches!(a, ClientAction::SendPong(p) if p == vec![7]));
}

#[test]
fn close_and_stream_end_retry_cleanly() {
    assert!(matches!(client_step(ClientEvent::ServerClose), ClientAction::RetryGracefully));
    assert!(matches!(client_step(ClientEvent::StreamEnded), ClientAction::RetryGracefully));
}

#[test]
fn failures_retry_as_errors() {
    assert!(matches!(client_step(ClientEvent::TransportFailed), ClientAction::RetryAfterError));
    assert!(matches!(client_step(ClientEvent::TunFailed), ClientAction::RetryAfterError));
}

#[test]
fn local_packets_are_sent_as_binary_frames() {
    let a = client_step(ClientEvent::TunPacket(vec![0x45, 0]));
    assert!(matches!(a, ClientAction::SendBinary(b) if b == vec![0x45, 0]));
}

#[test]
fn other_server_frames_are_ignored() {
    assert!(matches!(client_step(ClientEvent::ServerPong(vec![])), ClientAction::Ignore));
    assert!(matches!(client_step(ClientEvent::ServerText(vec![b'x'])), ClientAction::Ignore));
}

#[test]
fn reconnect_delay_is_five_seconds() {
    assert_eq!(RECONNECT_DELAY_SECS, 5);
}

#[test]
fn console_words_dispatch_to_their_commands() {
    assert_eq!(parse_command(&"add_client".to_string()), Command::AddClient);
    assert_eq!(parse_command(&"remove_client".to_string()), Command::RemoveClient);
    assert_eq!(parse_command(&"list_clients".to_string()), Command::ListClients);
    assert_eq!(parse_command(&"shutdown".to_string()), Command::Shutdown);
    assert_eq!(parse_command(&"restart".to_string()), Command::Restart);
    assert_eq!(parse_command(&"reboot".to_string()), Command::Unknown);
    assert_eq!(parse_command(&"".to_string()), Command::Unknown);
}

#[test]
fn short_passwords_are_refused() {
    assert!(!password_long_enough(&"1234567".to_string()));
    assert!(password_long_enough(&"12345678".to_string()));
}
