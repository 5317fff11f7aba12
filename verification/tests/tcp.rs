use relayport_rs::error::{ChannelError, IoErrorKind, IoFailure};
use relayport_rs::relay::tcp::{
    join_outcome, listener_step, peer_connect_plan, peer_socket_builder, task_outcome,
    transfer_outcome, ConnectPlan, CopyStep, ListenerEvent, ListenerStep, ReadOutcome, SocketPlan,
    StreamCopy, LISTEN_BACKLOG, MTU,
};
use relayport_rs::address::AddressFamily;
use relayport_rs::{RelayCommand, RelayPortError, RelayTcpSocket, SocketAddress};

fn failure(kind: IoErrorKind) -> IoFailure {
    IoFailure {
        kind,
        message: String::from("socket failure"),
    }
}

#[test]
fn set_tcp_builder_options() {
    let mut builder = RelayTcpSocket::build();
    assert_eq!(
        builder.so_reuseaddr(),
        false,
        "initial state of tcp:SO_REUSEADDR is False"
    );
    assert_eq!(
        builder.tcp_nodelay(),
        false,
        "initial state of tcp:TCP_NODELAY is False"
    );

    let builder = builder.set_so_reuseaddr(true).set_tcp_nodelay(true);
    assert_eq!(
        builder.so_reuseaddr(),
        true,
        "state of tcp:SO_REUSEADDR is True"
    );
    assert_eq!(
        builder.tcp_nodelay(),
        true,
        "state of tcp:TCP_NODELAY is True"
    );
}

#[test]
fn tcp_setting_one_option_keeps_the_other() {
    let mut builder = RelayTcpSocket::build();
    builder.set_tcp_nodelay(true);
    builder.set_so_reuseaddr(true);
    builder.set_tcp_nodelay(false);
    assert!(builder.so_reuseaddr());
    assert!(!builder.tcp_nodelay());
}

#[test]
fn tcp_socket_plan_follows_options_and_family() {
    let mut builder = RelayTcpSocket::build();
    let v4 = SocketAddress::V4 { ip: 0x7f00_0001, port: 8080 };
    let v6 = SocketAddress::V6 { ip: 1, port: 443, flowinfo: 0, scope_id: 0 };
    assert_eq!(
        builder.socket_plan(&v4),
        SocketPlan { family: AddressFamily::Ipv4, set_reuseaddr: false, set_nodelay: false }
    );
    builder.set_so_reuseaddr(true);
    assert_eq!(
        builder.socket_plan(&v6),
        SocketPlan { family: AddressFamily::Ipv6, set_reuseaddr: true, set_nodelay: false }
    );
    builder.set_tcp_nodelay(true);
    assert_eq!(
        builder.socket_plan(&v4),
        SocketPlan { family: AddressFamily::Ipv4, set_reuseaddr: true, set_nodelay: true }
    );
}

#[test]
fn tcp_copy_writes_what_it_reads_and_counts_it() {
    let mut copy = StreamCopy::new();
    assert_eq!(copy.relayed(), 0);
    assert!(!copy.writing());
    let chunk = vec![56u8; 100];
    match copy.after_read(ReadOutcome::Data(chunk.clone())) {
        CopyStep::Write(out) => assert_eq!(out, chunk),
        other => panic!("unexpected step {:?}", other),
    }
    assert!(copy.writing());
    assert_eq!(copy.relayed(), 0);
    assert_eq!(copy.after_write(Ok(())), CopyStep::Read);
    assert_eq!(copy.relayed(), 100);
    assert!(!copy.writing());
    match copy.after_read(ReadOutcome::Data(vec![57u8; MTU])) {
        CopyStep::Write(out) => assert_eq!(out, vec![57u8; MTU]),
        other => panic!("unexpected step {:?}", other),
    }
    assert_eq!(copy.after_write(Ok(())), CopyStep::Read);
    assert_eq!(copy.relayed(), 100 + MTU);
    assert_eq!(
        copy.after_command(Ok(RelayCommand::Shutdown)),
        CopyStep::Finish(Ok(100 + MTU))
    );
}

#[test]
fn tcp_copy_treats_connection_reset_as_empty_read() {
    let mut copy = StreamCopy::new();
    let step = copy.after_read(ReadOutcome::Failed(failure(IoErrorKind::ConnectionReset)));
    assert_eq!(step, CopyStep::Write(Vec::new()));
    assert_eq!(copy.after_write(Ok(())), CopyStep::Read);
    assert_eq!(copy.relayed(), 0);
}

#[test]
fn tcp_copy_end_of_stream_writes_nothing_and_goes_on() {
    let mut copy = StreamCopy::new();
    assert_eq!(copy.after_read(ReadOutcome::Data(Vec::new())), CopyStep::Write(Vec::new()));
    assert_eq!(copy.after_write(Ok(())), CopyStep::Read);
    assert_eq!(copy.relayed(), 0);
}

#[test]
fn tcp_copy_read_failure_ends_with_io_error() {
    let mut copy = StreamCopy::new();
    let f = failure(IoErrorKind::BrokenPipe);
    assert_eq!(
        copy.after_read(ReadOutcome::Failed(f.clone())),
        CopyStep::Finish(Err(RelayPortError::IoError(f)))
    );
    assert!(!copy.writing());
}

#[test]
fn tcp_copy_write_failure_ends_with_io_error_and_counts_nothing() {
    let mut copy = StreamCopy::new();
    let _ = copy.after_read(ReadOutcome::Data(vec![1, 2, 3]));
    let f = failure(IoErrorKind::ConnectionAborted);
    assert_eq!(
        copy.after_write(Err(f.clone())),
        CopyStep::Finish(Err(RelayPortError::IoError(f)))
    );
    assert_eq!(copy.relayed(), 0);
}

#[test]
fn tcp_copy_channel_failure_ends_with_internal_error() {
    let copy = StreamCopy::new();
    assert_eq!(
        copy.after_command(Err(ChannelError::Lagged(3))),
        CopyStep::Finish(Err(RelayPortError::InternalCommunicationError(ChannelError::Lagged(3))))
    );
    assert_eq!(
        copy.after_command(Err(ChannelError::Closed)),
        CopyStep::Finish(Err(RelayPortError::InternalCommunicationError(ChannelError::Closed)))
    );
}

#[test]
fn tcp_listener_steps() {
    assert_eq!(listener_step(ListenerEvent::Accepted), ListenerStep::Spawn);
    assert_eq!(listener_step(ListenerEvent::ConnectionEnded(Ok(()))), ListenerStep::Accept);
    let refused = RelayPortError::IoError(failure(IoErrorKind::ConnectionRefused));
    assert_eq!(
        listener_step(ListenerEvent::ConnectionEnded(Err(refused.clone()))),
        ListenerStep::Finish(Err(refused))
    );
    assert_eq!(
        listener_step(ListenerEvent::Command(Ok(RelayCommand::Shutdown))),
        ListenerStep::Finish(Ok(()))
    );
    assert_eq!(
        listener_step(ListenerEvent::Command(Err(ChannelError::Closed))),
        ListenerStep::Finish(Err(RelayPortError::InternalCommunicationError(ChannelError::Closed)))
    );
    let f = failure(IoErrorKind::Other);
    assert_eq!(
        listener_step(ListenerEvent::AcceptFailed(f.clone())),
        ListenerStep::Finish(Err(RelayPortError::IoError(f)))
    );
}

#[test]
fn tcp_peer_connections_use_both_options_and_no_local_bind() {
    let b = peer_socket_builder();
    assert!(b.so_reuseaddr() && b.tcp_nodelay());
    let peer = SocketAddress::V4 { ip: 0x7f00_0001, port: 80 };
    assert_eq!(
        peer_connect_plan(peer),
        ConnectPlan {
            socket: SocketPlan { family: AddressFamily::Ipv4, set_reuseaddr: true, set_nodelay: true },
            bind: None,
            target: peer,
        }
    );
    let local = SocketAddress::V4 { ip: 0x7f00_0001, port: 5000 };
    assert_eq!(
        RelayTcpSocket::build().connect_plan(peer, Some(local)),
        ConnectPlan {
            socket: SocketPlan { family: AddressFamily::Ipv4, set_reuseaddr: false, set_nodelay: false },
            bind: Some(local),
            target: peer,
        }
    );
    assert_eq!(LISTEN_BACKLOG, 1024);
}

#[test]
fn tcp_task_outcome_keeps_task_result() {
    let refused = RelayPortError::IoError(failure(IoErrorKind::ConnectionRefused));
    assert_eq!(task_outcome(Ok(Ok(()))), Ok(()));
    assert_eq!(task_outcome(Ok(Err(refused.clone()))), Err(refused));
    assert_eq!(
        task_outcome(Err(String::from("task panicked"))),
        Err(RelayPortError::Unknown(String::from("task panicked")))
    );
}

#[test]
fn tcp_transfer_outcome_reports_first_failure() {
    let a = RelayPortError::Unknown(String::from("a"));
    let b = RelayPortError::Unknown(String::from("b"));
    assert_eq!(transfer_outcome(Ok(10), Ok(20)), Ok(()));
    assert_eq!(transfer_outcome(Err(a.clone()), Err(b.clone())), Err(a.clone()));
    assert_eq!(transfer_outcome(Ok(1), Err(b.clone())), Err(b));
    assert_eq!(transfer_outcome(Err(a.clone()), Ok(1)), Err(a));
}

#[test]
fn tcp_join_outcome_ignores_task_result() {
    assert_eq!(join_outcome(Ok(Ok(()))), Ok(()));
    assert_eq!(
        join_outcome(Ok(Err(RelayPortError::Unknown(String::from("x"))))),
        Ok(())
    );
    assert_eq!(
        join_outcome(Err(String::from("task panicked"))),
        Err(RelayPortError::Unknown(String::from("task panicked")))
    );
}
