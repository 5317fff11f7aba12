use relayport_rs::address::AddressFamily;
use relayport_rs::error::{ChannelError, IoErrorKind, IoFailure};
use relayport_rs::relay::command_result;
use relayport_rs::{RelayCommand, RelayPortError, SocketAddress};

#[test]
fn io_failures_become_io_errors() {
    let f = IoFailure {
        kind: IoErrorKind::TimedOut,
        message: String::from("timed out"),
    };
    assert!(!f.is_connection_reset());
    assert_eq!(RelayPortError::from(f.clone()), RelayPortError::IoError(f));
    let reset = IoFailure {
        kind: IoErrorKind::ConnectionReset,
        message: String::from("reset"),
    };
    assert!(reset.is_connection_reset());
}

#[test]
fn channel_failures_become_internal_errors() {
    assert_eq!(
        RelayPortError::from(ChannelError::Lagged(4)),
        RelayPortError::InternalCommunicationError(ChannelError::Lagged(4))
    );
}

#[test]
fn command_results() {
    assert_eq!(command_result(Ok(RelayCommand::Shutdown)), Ok(()));
    assert_eq!(
        command_result(Err(ChannelError::Closed)),
        Err(RelayPortError::InternalCommunicationError(ChannelError::Closed))
    );
}

#[test]
fn address_families_and_ports() {
    let a = SocketAddress::V4 { ip: 0x7f00_0001, port: 80 };
    let b = SocketAddress::V6 { ip: 1, port: 443, flowinfo: 0, scope_id: 0 };
    assert!(a.is_ipv4() && !a.is_ipv6());
    assert!(b.is_ipv6() && !b.is_ipv4());
    assert_eq!(a.port(), 80);
    assert_eq!(b.port(), 443);
    assert_eq!(a.family(), AddressFamily::Ipv4);
    assert_eq!(b.family(), AddressFamily::Ipv6);
}

#[test]
fn error_descriptions() {
    let f = IoFailure {
        kind: IoErrorKind::ConnectionRefused,
        message: String::from("connection refused"),
    };
    assert_eq!(RelayPortError::IoError(f).description(), "io error: connection refused");
    assert_eq!(
        RelayPortError::ParseAddrError(String::from("invalid socket address syntax")).description(),
        "unable to parse address: invalid socket address syntax"
    );
    assert_eq!(
        RelayPortError::Unknown(String::from("task panicked")).description(),
        "unknown error: task panicked"
    );
    assert_eq!(
        RelayPortError::InternalCommunicationError(ChannelError::Closed).description(),
        "internal communication error: channel closed"
    );
    assert_eq!(
        RelayPortError::InternalCommunicationError(ChannelError::Lagged(0)).description(),
        "internal communication error: channel lagged by 0"
    );
    assert_eq!(
        RelayPortError::InternalCommunicationError(ChannelError::Lagged(1024)).description(),
        "internal communication error: channel lagged by 1024"
    );
    assert_eq!(
        RelayPortError::InternalCommunicationError(ChannelError::Lagged(u64::MAX)).description(),
        "internal communication error: channel lagged by 18446744073709551615"
    );
}
