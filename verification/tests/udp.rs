use relayport_rs::address::AddressFamily;
use relayport_rs::error::{ChannelError, IoErrorKind, IoFailure};
use relayport_rs::relay::connections::{ConnectionTable, Connections, Route};
use relayport_rs::relay::udp::{
    client_bind_address, client_link_plan, link_pair, on_datagram, remote_link_plan, serve_step,
    DatagramForward, ForwardStep, LinkPlan, ServeEvent, ServeStep, UdpLinkPlan, UdpSocketPlan,
    MAX_PKT_SIZE, UDP_TTL_MS,
};
use relayport_rs::{RelayCommand, RelayPortError, RelayUdpSocket, SocketAddress};

fn v4(ip: u32, port: u16) -> SocketAddress {
    SocketAddress::V4 { ip, port }
}

fn failure(kind: IoErrorKind) -> IoFailure {
    IoFailure {
        kind,
        message: String::from("socket failure"),
    }
}

#[test]
fn set_udp_builder_options() {
    let mut builder = RelayUdpSocket::build();
    assert_eq!(
        builder.so_reuseaddr(),
        false,
        "initial state of udp:SO_REUSEADDR is False"
    );

    let builder = builder.set_so_reuseaddr(true);
    assert_eq!(
        builder.so_reuseaddr(),
        true,
        "state of udp:SO_REUSEADDR is True"
    );
}

#[test]
fn udp_socket_plan_follows_options() {
    let mut builder = RelayUdpSocket::build();
    let addr = v4(0x7f00_0001, 10443);
    assert_eq!(
        builder.socket_plan(&addr),
        UdpSocketPlan {
            family: AddressFamily::Ipv4,
            set_reuse_address: false,
            nonblocking: true,
            bind_to: addr
        }
    );
    builder.set_so_reuseaddr(true);
    let addr6 = SocketAddress::V6 { ip: 1, port: 53, flowinfo: 0, scope_id: 2 };
    assert_eq!(
        builder.socket_plan(&addr6),
        UdpSocketPlan {
            family: AddressFamily::Ipv6,
            set_reuse_address: true,
            nonblocking: true,
            bind_to: addr6
        }
    );
}

#[test]
fn udp_client_bind_address_defaults_to_wildcard() {
    assert_eq!(client_bind_address(None), v4(0, 0));
    assert_eq!(client_bind_address(Some(v4(0x7f00_0001, 30099))), v4(0x7f00_0001, 30099));
}

#[test]
fn udp_table_read_after_write() {
    let mut table: ConnectionTable<u32> = ConnectionTable::new();
    assert_eq!(table.len(), 0);
    let a = v4(0x7f00_0001, 40000);
    let b = v4(0x7f00_0001, 40001);
    assert_eq!(table.get(&a), None);
    table.insert(a, 1);
    table.insert(b, 2);
    assert_eq!(table.get(&a), Some(&1));
    assert_eq!(table.get(&b), Some(&2));
    assert!(table.contains_key(&a));
    assert_eq!(table.len(), 2);
    table.insert(a, 3);
    assert_eq!(table.get(&a), Some(&3));
    assert_eq!(table.len(), 2);
    assert_eq!(table.remove(&a), Some(3));
    assert_eq!(table.remove(&a), None);
    assert!(!table.contains_key(&a));
    assert_eq!(table.get(&b), Some(&2));
    assert_eq!(table.len(), 1);
}

#[test]
fn udp_table_v6_keys_differ_by_scope() {
    let mut table: ConnectionTable<&str> = ConnectionTable::new();
    let a = SocketAddress::V6 { ip: 1, port: 9, flowinfo: 0, scope_id: 1 };
    let b = SocketAddress::V6 { ip: 1, port: 9, flowinfo: 0, scope_id: 2 };
    table.insert(a, "a");
    assert_eq!(table.get(&b), None);
    table.insert(b, "b");
    assert_eq!(table.get(&a), Some(&"a"));
    assert_eq!(table.get(&b), Some(&"b"));
}

#[test]
fn udp_routes_follow_links() {
    let mut links: Connections<u32> = Connections::new();
    let client = v4(0x7f00_0001, 50000);
    let other = v4(0x7f00_0001, 50001);
    assert_eq!(links.route(&client), Route::New);
    links.add_client_link(client, 10);
    assert_eq!(links.route(&client), Route::Client(&10));
    links.add_remote_link(client, 20);
    assert_eq!(links.route(&client), Route::Remote(&20));
    assert_eq!(links.route(&other), Route::New);
    assert_eq!(links.client_link(&client), Some(&10));
    assert_eq!(links.remote_link(&client), Some(&20));
    links.add_client_link(other, 11);
    links.add_remote_link(other, 21);
    links.forget(&client);
    assert_eq!(links.route(&client), Route::New);
    assert_eq!(links.route(&other), Route::Remote(&21));
    assert_eq!(links.client_link(&client), None);
}

#[test]
fn udp_forward_sends_what_it_receives() {
    let mut fwd = DatagramForward::new(1000);
    assert_eq!(fwd.idle_deadline(), 1000 + UDP_TTL_MS);
    let datagram = vec![56u8; 100];
    match fwd.after_receive(Ok(datagram.clone()), 2000) {
        ForwardStep::Send(d) => assert_eq!(d, datagram),
        other => panic!("unexpected step {:?}", other),
    }
    assert!(fwd.sending());
    assert_eq!(fwd.idle_deadline(), 2000 + UDP_TTL_MS);
    assert_eq!(fwd.after_send(Ok(100)), ForwardStep::Receive);
    assert_eq!(fwd.forwarded(), 100);
    assert!(!fwd.sending());
    let big = vec![7u8; MAX_PKT_SIZE];
    assert_eq!(fwd.after_receive(Ok(big.clone()), 3000), ForwardStep::Send(big));
    assert_eq!(fwd.after_send(Ok(MAX_PKT_SIZE)), ForwardStep::Receive);
    assert_eq!(fwd.forwarded(), 100 + MAX_PKT_SIZE);
}

#[test]
fn udp_forward_ends_on_empty_datagram_or_receive_failure() {
    let mut fwd = DatagramForward::new(0);
    let _ = fwd.after_receive(Ok(vec![1, 2]), 5);
    let _ = fwd.after_send(Ok(2));
    assert_eq!(fwd.after_receive(Ok(Vec::new()), 6), ForwardStep::Finish(Ok(2)));
    assert_eq!(fwd.idle_deadline(), 5 + UDP_TTL_MS);
    assert_eq!(
        fwd.after_receive(Err(failure(IoErrorKind::ConnectionRefused)), 7),
        ForwardStep::Finish(Ok(2))
    );
}

#[test]
fn udp_forward_send_failure_ends_with_io_error() {
    let mut fwd = DatagramForward::new(0);
    let _ = fwd.after_receive(Ok(vec![9]), 1);
    let f = failure(IoErrorKind::Other);
    assert_eq!(
        fwd.after_send(Err(f.clone())),
        ForwardStep::Finish(Err(RelayPortError::IoError(f)))
    );
    assert_eq!(fwd.forwarded(), 0);
}

#[test]
fn udp_forward_expires_only_when_idle() {
    let mut fwd = DatagramForward::new(0);
    assert_eq!(fwd.after_wait(UDP_TTL_MS - 1), ForwardStep::Receive);
    assert_eq!(fwd.after_wait(UDP_TTL_MS), ForwardStep::Expire);
    let _ = fwd.after_receive(Ok(vec![1]), 100);
    let _ = fwd.after_send(Ok(1));
    assert_eq!(fwd.after_wait(UDP_TTL_MS), ForwardStep::Receive);
    assert_eq!(fwd.after_wait(100 + UDP_TTL_MS), ForwardStep::Expire);
    assert_eq!(fwd.after_expire(Ok(())), ForwardStep::Finish(Ok(0)));
    assert_eq!(
        fwd.after_expire(Err(String::from("channel closed"))),
        ForwardStep::Finish(Err(RelayPortError::Unknown(String::from("channel closed"))))
    );
}

#[test]
fn udp_forward_commands() {
    let mut fwd = DatagramForward::new(0);
    let _ = fwd.after_receive(Ok(vec![1, 2, 3]), 1);
    let _ = fwd.after_send(Ok(3));
    assert_eq!(fwd.after_command(Ok(RelayCommand::Shutdown)), ForwardStep::Finish(Ok(0)));
    assert_eq!(
        fwd.after_command(Err(ChannelError::Closed)),
        ForwardStep::Finish(Err(RelayPortError::InternalCommunicationError(ChannelError::Closed)))
    );
}

#[test]
fn udp_serve_steps() {
    let f = failure(IoErrorKind::AddrInUse);
    assert_eq!(serve_step::<()>(ServeEvent::Forwarded(Ok(12))), ServeStep::Receive);
    assert_eq!(
        serve_step::<()>(ServeEvent::Forwarded(Err(f.clone()))),
        ServeStep::Finish(Err(RelayPortError::IoError(f.clone())))
    );
    assert_eq!(
        serve_step::<()>(ServeEvent::LinkFailed(f.clone())),
        ServeStep::Finish(Err(RelayPortError::IoError(f.clone())))
    );
    assert_eq!(serve_step::<()>(ServeEvent::FirstSent(Ok(100))), ServeStep::Spawn);
    assert_eq!(
        serve_step::<()>(ServeEvent::FirstSent(Err(f.clone()))),
        ServeStep::Finish(Err(RelayPortError::IoError(f)))
    );
    assert_eq!(serve_step::<()>(ServeEvent::Spawned), ServeStep::Receive);
    assert_eq!(
        serve_step::<()>(ServeEvent::Command(Ok(RelayCommand::Shutdown))),
        ServeStep::Finish(Ok(()))
    );
    assert_eq!(
        serve_step::<()>(ServeEvent::Command(Err(ChannelError::Lagged(1)))),
        ServeStep::Finish(Err(RelayPortError::InternalCommunicationError(ChannelError::Lagged(1))))
    );
}

#[test]
fn udp_datagrams_go_to_their_peer_links_unchanged() {
    let mut links: Connections<u32> = Connections::new();
    let client = v4(0x7f00_0001, 50000);
    let d = vec![57u8; 100];
    assert_eq!(
        on_datagram(&links, Ok((d.clone(), client))),
        ServeStep::Open { client, first: d.clone() }
    );
    links.add_client_link(client, 1);
    links.add_remote_link(client, 2);
    assert_eq!(on_datagram(&links, Ok((d.clone(), client))), ServeStep::Forward(&2, d.clone()));
    let f = failure(IoErrorKind::Other);
    assert_eq!(
        on_datagram(&links, Err(f.clone())),
        ServeStep::Finish(Err(RelayPortError::IoError(f)))
    );
}

#[test]
fn udp_link_plans_reuse_or_create() {
    let mut links: Connections<u32> = Connections::new();
    let client = v4(0x7f00_0001, 50000);
    let me = v4(0x7f00_0001, 32099);
    let remote = v4(0x7f00_0001, 32100);
    assert_eq!(
        client_link_plan(&links, client, Some(me)),
        LinkPlan::Create(UdpLinkPlan {
            socket: UdpSocketPlan {
                family: AddressFamily::Ipv4,
                set_reuse_address: true,
                nonblocking: true,
                bind_to: me
            },
            connect_to: client
        })
    );
    assert_eq!(
        client_link_plan(&links, client, None),
        LinkPlan::Create(UdpLinkPlan {
            socket: UdpSocketPlan {
                family: AddressFamily::Ipv4,
                set_reuse_address: true,
                nonblocking: true,
                bind_to: v4(0, 0)
            },
            connect_to: client
        })
    );
    assert_eq!(
        remote_link_plan(&links, client, remote),
        LinkPlan::Create(UdpLinkPlan {
            socket: UdpSocketPlan {
                family: AddressFamily::Ipv4,
                set_reuse_address: false,
                nonblocking: true,
                bind_to: v4(0, 0)
            },
            connect_to: remote
        })
    );
    assert_eq!(link_pair(&links, &client), None);
    links.add_client_link(client, 7);
    assert_eq!(client_link_plan(&links, client, Some(me)), LinkPlan::Reuse(&7));
    assert_eq!(link_pair(&links, &client), None);
    links.add_remote_link(client, 8);
    assert_eq!(remote_link_plan(&links, client, remote), LinkPlan::Reuse(&8));
    assert_eq!(link_pair(&links, &client), Some((&7, &8)));
}

#[test]
fn udp_two_clients_keep_to_their_own_links() {
    let mut links: Connections<u32> = Connections::new();
    let me = v4(0x7f00_0001, 32099);
    let remote = v4(0x7f00_0001, 32100);
    let c1 = v4(0x7f00_0001, 50001);
    let c2 = v4(0x7f00_0001, 50002);
    for (client, client_link, remote_link) in [(c1, 11, 12), (c2, 21, 22)] {
        match client_link_plan(&links, client, Some(me)) {
            LinkPlan::Create(p) => assert_eq!(p.connect_to, client),
            other => panic!("unexpected plan {:?}", other),
        }
        match remote_link_plan(&links, client, remote) {
            LinkPlan::Create(p) => assert_eq!(p.connect_to, remote),
            other => panic!("unexpected plan {:?}", other),
        }
        links.add_client_link(client, client_link);
        links.add_remote_link(client, remote_link);
    }
    assert_eq!(on_datagram(&links, Ok((vec![1], c1))), ServeStep::Forward(&12, vec![1]));
    assert_eq!(on_datagram(&links, Ok((vec![2], c2))), ServeStep::Forward(&22, vec![2]));
    assert_eq!(link_pair(&links, &c1), Some((&11, &12)));
    assert_eq!(link_pair(&links, &c2), Some((&21, &22)));
}
