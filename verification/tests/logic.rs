use controlay::events::{ReceiverState, ServerCommand};
use controlay::logic::{
    startup_failure_events, startup_success_events, StartupFailure,
    bind_port, BackendEffect, BackendState, DatagramDecision, PeerAddr, ServerState, SlotActor,
};
use controlay::protocol::SlotPacket;

fn peer(last: u8, port: u16) -> PeerAddr {
    PeerAddr {
        is_v6: false,
        ip: u128::from(u32::from_be_bytes([192, 168, 1, last])),
        port,
        flowinfo: 0,
        scope_id: 0,
    }
}

#[test]
fn start_spawns_once_and_stop_announces_off() {
    let mut b = BackendState::new();
    assert_eq!(
        b.on_command(Some(ServerCommand::Start)),
        vec![BackendEffect::SpawnServer, BackendEffect::Announce(ReceiverState::Starting)]
    );
    assert!(b.on_command(Some(ServerCommand::Start)).is_empty());
    assert_eq!(
        b.on_command(Some(ServerCommand::DisconnectSlot(2))),
        vec![BackendEffect::Forward(ServerCommand::DisconnectSlot(2))]
    );
    assert_eq!(
        b.on_command(Some(ServerCommand::Stop)),
        vec![
            BackendEffect::AbortServer,
            BackendEffect::Announce(ReceiverState::Off),
            BackendEffect::LogStopped
        ]
    );
    assert!(b.on_command(Some(ServerCommand::Stop)).is_empty());
    assert!(b.on_command(Some(ServerCommand::DisconnectSlot(2))).is_empty());
}

#[test]
fn closed_channel_exits() {
    let mut b = BackendState::new();
    assert_eq!(b.on_command(None), vec![BackendEffect::Exit]);
    b.on_command(Some(ServerCommand::Start));
    assert_eq!(b.on_command(None), vec![BackendEffect::AbortServer, BackendEffect::Exit]);
    assert!(!b.server_running);
}

#[test]
fn finished_server_can_be_started_again() {
    let mut b = BackendState::new();
    b.on_command(Some(ServerCommand::Start));
    b.on_server_finished();
    assert_eq!(b.on_command(Some(ServerCommand::Start)).len(), 2);
}

#[test]
fn bind_port_follows_manual_setting() {
    assert_eq!(bind_port(true, 5000), 5000);
    assert_eq!(bind_port(false, 5000), 0);
}

#[test]
fn server_locks_to_first_phone() {
    let mut s = ServerState::new();
    let mut buf = [0u8; 64];
    buf[0] = 1;
    buf[1] = 2;
    assert_eq!(
        s.on_datagram(peer(5, 4000), &buf, 14),
        DatagramDecision::Accepted { newly_connected: true, slot: Some(2) }
    );
    assert_eq!(s.on_datagram(peer(6, 4000), &buf, 14), DatagramDecision::Rejected);
    assert_eq!(s.on_datagram(peer(5, 4001), &buf, 14), DatagramDecision::Rejected);
    assert_eq!(
        s.on_datagram(peer(5, 4000), &buf, 14),
        DatagramDecision::Accepted { newly_connected: false, slot: Some(2) }
    );
    assert!(s.on_timeout());
    assert!(!s.on_timeout());
    assert_eq!(
        s.on_datagram(peer(6, 4000), &buf, 14),
        DatagramDecision::Accepted { newly_connected: true, slot: Some(2) }
    );
}

#[test]
fn short_or_out_of_range_datagrams_are_not_routed() {
    let mut s = ServerState::new();
    let mut buf = [0u8; 64];
    buf[1] = 3;
    assert_eq!(
        s.on_datagram(peer(5, 4000), &buf, 1),
        DatagramDecision::Accepted { newly_connected: true, slot: None }
    );
    buf[1] = 4;
    assert_eq!(
        s.on_datagram(peer(5, 4000), &buf, 20),
        DatagramDecision::Accepted { newly_connected: false, slot: None }
    );
    buf[1] = 3;
    assert_eq!(
        s.on_datagram(peer(5, 4000), &buf, 2),
        DatagramDecision::Accepted { newly_connected: false, slot: Some(3) }
    );
}

#[test]
fn slot_life_cycle() {
    let mut a = SlotActor::new();
    assert!(a.needs_target());
    // Nothing to announce while idle without a phone.
    let idle = a.on_idle();
    assert!(!idle.announce_disconnected && !idle.reset_report);
    a.on_target_ready();
    assert!(!a.needs_target());
    let mut buf = [0u8; 64];
    buf[0] = 2;
    buf[2] = 80;
    buf[3] = 60;
    let step = a.on_data(&buf, 4);
    assert!(step.announce_connected);
    assert!(matches!(step.packet, SlotPacket::Battery(_)));
    buf[0] = 1;
    let step = a.on_data(&buf, 14);
    assert!(!step.announce_connected);
    assert_eq!(step.packet, SlotPacket::State);
    let idle = a.on_idle();
    assert!(idle.announce_disconnected && idle.reset_report);
    assert!(a.on_data(&buf, 14).announce_connected);
    a.on_disconnect();
    assert!(a.needs_target());
    assert!(!a.is_active);
}

fn log_text(e: &controlay::events::AppEvent) -> Option<&str> {
    match e {
        controlay::events::AppEvent::Log(m) => Some(m.as_str()),
        _ => None,
    }
}

#[test]
fn startup_failures_report_and_turn_off() {
    check_failure(StartupFailure::DriverMissing, 3, "ViGEmBus Client failed: no bus");
    check_failure(StartupFailure::BindFailed, 2, "Failed to bind socket: no bus");
    check_failure(StartupFailure::LocalPortUnknown, 2, "Failed to get local port: no bus");
}

fn check_failure(kind: StartupFailure, len: usize, line: &str) {
    let events = startup_failure_events(kind, "no bus");
    assert_eq!(events.len(), len);
    if len == 3 {
        assert!(matches!(events[0], controlay::events::AppEvent::MissingDriver));
    }
    assert_eq!(log_text(&events[len - 2]), Some(line));
    assert!(matches!(
        events[len - 1],
        controlay::events::AppEvent::ReceiverStateChanged(ReceiverState::Off)
    ));
}

#[test]
fn startup_success_announces_on_and_port() {
    let events = startup_success_events(50123);
    assert_eq!(events.len(), 2);
    assert!(matches!(
        events[0],
        controlay::events::AppEvent::ReceiverStateChanged(ReceiverState::On)
    ));
    assert_eq!(log_text(&events[1]), Some("Listening on port 50123"));
}
