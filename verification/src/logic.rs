//! The decisions of the receiver's backend: starting and stopping the
//! server, locking the server to one phone and routing its datagrams to
//! controller slots, and the life cycle of each slot's virtual controller.
//!
//! The caller performs the effects (spawning tasks, sending on sockets and
//! channels, talking to the driver) and reports what happened back.

use vstd::prelude::*;

use crate::config::SLOT_COUNT;
use crate::events::{AppEvent, ReceiverState, ServerCommand};
use crate::text::{push_decimal, spec_decimal};
use crate::protocol::{spec_classify_slot_packet, classify_slot_packet, SlotPacket};

verus! {

/// Seconds without a datagram after which the phone is considered gone.
pub const CLIENT_TIMEOUT_SECS: u64 = 3;

/// The log line sent when the user stops the receiver.
pub const STOPPED_MESSAGE: &'static str = "Stopped.";

/// What the backend does in response to a command.
#[derive(Debug, PartialEq, Eq, Structural, Clone, Copy)]
pub enum BackendEffect {
    /// Spawn the server task.
    SpawnServer,
    /// Abort the server task.
    AbortServer,
    /// Pass a command on to the running server.
    Forward(ServerCommand),
    /// Announce a new receiver state.
    Announce(ReceiverState),
    /// Log [`STOPPED_MESSAGE`].
    LogStopped,
    /// Leave the backend loop.
    Exit,
}

/// Whether the backend has a server task.
pub struct BackendState {
    pub server_running: bool,
}

/// The effects of command `cmd` (`None` when the command channel closed)
/// while the server is `running`, and whether it runs afterwards.
pub open spec fn spec_backend_step(running: bool, cmd: Option<ServerCommand>) -> (bool, Seq<BackendEffect>) {
    match cmd {
        Some(ServerCommand::Start) => if running {
            (true, seq![])
        } else {
            (true, seq![BackendEffect::SpawnServer, BackendEffect::Announce(ReceiverState::Starting)])
        },
        Some(ServerCommand::Stop) => if running {
            (
                false,
                seq![
                    BackendEffect::AbortServer,
                    BackendEffect::Announce(ReceiverState::Off),
                    BackendEffect::LogStopped,
                ],
            )
        } else {
            (false, seq![])
        },
        Some(ServerCommand::DisconnectSlot(slot)) => if running {
            (true, seq![BackendEffect::Forward(ServerCommand::DisconnectSlot(slot))])
        } else {
            (false, seq![])
        },
        None => if running {
            (false, seq![BackendEffect::AbortServer, BackendEffect::Exit])
        } else {
            (false, seq![BackendEffect::Exit])
        },
    }
}

impl BackendState {
    /// A backend without a server.
    pub fn new() -> (s: Self)
        ensures
            !s.server_running,
    {
        BackendState { server_running: false }
    }

    /// Handles one command from the user interface.
    pub fn on_command(&mut self, cmd: Option<ServerCommand>) -> (r: Vec<BackendEffect>)
        ensures
            (final(self).server_running, r@) == spec_backend_step(old(self).server_running, cmd),
    {
        let mut out: Vec<BackendEffect> = Vec::new();
        match cmd {
            Some(ServerCommand::Start) => {
                if !self.server_running {
                    self.server_running = true;
                    out.push(BackendEffect::SpawnServer);
                    out.push(BackendEffect::Announce(ReceiverState::Starting));
                }
            },
            Some(ServerCommand::Stop) => {
                if self.server_running {
                    self.server_running = false;
                    out.push(BackendEffect::AbortServer);
                    out.push(BackendEffect::Announce(ReceiverState::Off));
                    out.push(BackendEffect::LogStopped);
                }
            },
            Some(ServerCommand::DisconnectSlot(slot)) => {
                if self.server_running {
                    out.push(BackendEffect::Forward(ServerCommand::DisconnectSlot(slot)));
                }
            },
            None => {
                if self.server_running {
                    self.server_running = false;
                    out.push(BackendEffect::AbortServer);
                }
                out.push(BackendEffect::Exit);
            },
        }
        proof {
            let (_, effects) = spec_backend_step(old(self).server_running, cmd);
            assert(out@ =~= effects);
        }
        out
    }

    /// The server task ended on its own.
    pub fn on_server_finished(&mut self)
        ensures
            !final(self).server_running,
    {
        self.server_running = false;
    }
}

/// Starting a running receiver does nothing; stopping a stopped one does
/// nothing; a start followed by a stop leaves no server and announces `Off`.
pub proof fn lemma_start_stop(running: bool)
    ensures
        spec_backend_step(true, Some(ServerCommand::Start)) == (true, Seq::<BackendEffect>::empty()),
        spec_backend_step(false, Some(ServerCommand::Stop)) == (false, Seq::<BackendEffect>::empty()),
        ({
            let (r1, _) = spec_backend_step(running, Some(ServerCommand::Start));
            let (r2, e2) = spec_backend_step(r1, Some(ServerCommand::Stop));
            &&& r1
            &&& !r2
            &&& e2.contains(BackendEffect::Announce(ReceiverState::Off))
        }),
{
    let (r1, _) = spec_backend_step(running, Some(ServerCommand::Start));
    let (r2, e2) = spec_backend_step(r1, Some(ServerCommand::Stop));
    assert(e2[1] == BackendEffect::Announce(ReceiverState::Off));
}

/// The port the server binds: the configured one when the user chose a
/// manual port, otherwise 0 (any free port).
pub fn bind_port(use_custom_port: bool, port: u16) -> (p: u16)
    ensures
        p == if use_custom_port {
            port
        } else {
            0
        },
{
    if use_custom_port {
        port
    } else {
        0
    }
}

/// Why the server could not start.
#[derive(Debug, PartialEq, Eq, Structural, Clone, Copy)]
pub enum StartupFailure {
    /// The ViGEmBus driver could not be reached.
    DriverMissing,
    /// The UDP socket could not be bound.
    BindFailed,
    /// The bound socket's local port could not be read.
    LocalPortUnknown,
}

/// The text logged for a start-up failure, in front of the error's message.
pub open spec fn failure_prefix(kind: StartupFailure) -> Seq<char> {
    match kind {
        StartupFailure::DriverMissing => "ViGEmBus Client failed: "@,
        StartupFailure::BindFailed => "Failed to bind socket: "@,
        StartupFailure::LocalPortUnknown => "Failed to get local port: "@,
    }
}

/// The events the server sends when it cannot start for `kind`, where
/// `detail` is the error's message: a missing driver is reported first, then
/// the failure is logged and the receiver is announced as off.
pub fn startup_failure_events(kind: StartupFailure, detail: &str) -> (r: Vec<AppEvent>)
    ensures
        kind == StartupFailure::DriverMissing ==> {
            &&& r@.len() == 3
            &&& r@[0] is MissingDriver
            &&& r@[1] matches AppEvent::Log(m) && m@ == failure_prefix(kind) + detail@
            &&& r@[2] == AppEvent::ReceiverStateChanged(ReceiverState::Off)
        },
        kind != StartupFailure::DriverMissing ==> {
            &&& r@.len() == 2
            &&& r@[0] matches AppEvent::Log(m) && m@ == failure_prefix(kind) + detail@
            &&& r@[1] == AppEvent::ReceiverStateChanged(ReceiverState::Off)
        },
{
    let mut out: Vec<AppEvent> = Vec::new();
    let prefix = match kind {
        StartupFailure::DriverMissing => {
            out.push(AppEvent::MissingDriver);
            "ViGEmBus Client failed: "
        },
        StartupFailure::BindFailed => "Failed to bind socket: ",
        StartupFailure::LocalPortUnknown => "Failed to get local port: ",
    };
    let line = String::from_str(prefix).concat(detail);
    out.push(AppEvent::Log(line));
    out.push(AppEvent::ReceiverStateChanged(ReceiverState::Off));
    out
}

/// The text logged once the server listens.
pub open spec fn listening_message(port: u16) -> Seq<char> {
    "Listening on port "@ + spec_decimal(port as int)
}

/// The events the server sends once it listens on `port`: the receiver is
/// announced as on, then the port is logged.
pub fn startup_success_events(port: u16) -> (r: Vec<AppEvent>)
    ensures
        r@.len() == 2,
        r@[0] == AppEvent::ReceiverStateChanged(ReceiverState::On),
        r@[1] matches AppEvent::Log(m) && m@ == listening_message(port),
{
    let mut line = String::from_str("Listening on port ");
    push_decimal(&mut line, port as i32);
    let mut out: Vec<AppEvent> = Vec::new();
    out.push(AppEvent::ReceiverStateChanged(ReceiverState::On));
    out.push(AppEvent::Log(line));
    out
}

/// A socket address as the server compares it: the address family, the IP
/// address (an IPv4 address in the low 32 bits), the port, and for IPv6 the
/// flow information and scope id.
#[derive(Debug, PartialEq, Eq, Structural, Clone, Copy)]
pub struct PeerAddr {
    pub is_v6: bool,
    pub ip: u128,
    pub port: u16,
    pub flowinfo: u32,
    pub scope_id: u32,
}

/// What the server does with one datagram.
#[derive(Debug, PartialEq, Eq, Structural, Clone, Copy)]
pub enum DatagramDecision {
    /// It comes from another sender than the phone the server is locked to.
    Rejected,
    /// It is from the locked phone, or locks the server to its sender when
    /// `newly_connected`; it restarts the timeout, and is passed to `slot`
    /// when it names one.
    Accepted { newly_connected: bool, slot: Option<u8> },
}

/// The phone that the server is locked to, if any.
pub struct ServerState {
    pub client: Option<PeerAddr>,
}

/// The decision for a datagram of `size` bytes (`packet` holding at least
/// its first two) from `src`, and the locked phone afterwards.
pub open spec fn spec_on_datagram(
    client: Option<PeerAddr>,
    src: PeerAddr,
    packet: Seq<u8>,
    size: int,
) -> (Option<PeerAddr>, DatagramDecision) {
    match client {
        Some(locked) if locked != src => (client, DatagramDecision::Rejected),
        _ => {
            let slot = if size >= 2 && (packet[1] as usize) < SLOT_COUNT {
                Some(packet[1])
            } else {
                None
            };
            (Some(src), DatagramDecision::Accepted { newly_connected: client is None, slot })
        },
    }
}

impl ServerState {
    /// A server that has not heard from any phone.
    pub fn new() -> (s: Self)
        ensures
            s.client is None,
    {
        ServerState { client: None }
    }

    /// Decides what to do with a datagram of `size` bytes from `src`.
    pub fn on_datagram(&mut self, src: PeerAddr, packet: &[u8], size: usize) -> (d: DatagramDecision)
        requires
            packet@.len() >= 2,
        ensures
            (final(self).client, d) == spec_on_datagram(old(self).client, src, packet@, size as int),
    {
        let newly_connected = match self.client {
            Some(locked) => {
                if locked != src {
                    return DatagramDecision::Rejected;
                }
                false
            },
            None => true,
        };
        self.client = Some(src);
        let slot = if size >= 2 && (packet[1] as usize) < SLOT_COUNT {
            Some(packet[1])
        } else {
            None
        };
        DatagramDecision::Accepted { newly_connected, slot }
    }

    /// The timeout elapsed without a datagram; returns whether a phone was
    /// locked (and is now forgotten).
    pub fn on_timeout(&mut self) -> (timed_out: bool)
        ensures
            timed_out == old(self).client is Some,
            final(self).client is None,
    {
        let was = self.client.is_some();
        self.client = None;
        was
    }
}

/// Once locked, the server only accepts datagrams from its phone, until the
/// phone times out.
pub proof fn lemma_locked_to_first_sender(
    first: PeerAddr,
    other: PeerAddr,
    p1: Seq<u8>,
    s1: int,
    p2: Seq<u8>,
    s2: int,
)
    requires
        first != other,
    ensures
        ({
            let (c1, d1) = spec_on_datagram(None, first, p1, s1);
            let (c2, d2) = spec_on_datagram(c1, other, p2, s2);
            &&& d1 matches DatagramDecision::Accepted { newly_connected: true, .. }
            &&& d2 == DatagramDecision::Rejected
            &&& c2 == Some(first)
        }),
{
}

/// What a slot's actor does with a datagram once its virtual controller is
/// plugged in.
#[derive(Debug, PartialEq, Eq, Structural, Clone, Copy)]
pub struct SlotStep {
    /// Announce that the controller connected.
    pub announce_connected: bool,
    /// What the datagram asks for.
    pub packet: SlotPacket,
}

/// What a slot's actor does when no datagram came within the timeout.
#[derive(Debug, PartialEq, Eq, Structural, Clone, Copy)]
pub struct SlotIdle {
    /// Announce that the controller disconnected.
    pub announce_disconnected: bool,
    /// Send an idle report to the virtual controller.
    pub reset_report: bool,
}

/// What happens to a slot.
#[derive(Debug, PartialEq, Eq, Structural, Clone, Copy)]
pub enum SlotEvent {
    /// The user disconnected the slot.
    Disconnect,
    /// A virtual controller was plugged in.
    TargetReady,
    /// A datagram arrived. Without a plugged-in controller (one could not be
    /// plugged in) it is dropped and changes nothing.
    Data,
    /// No datagram came within the timeout.
    Idle,
}

/// What a slot announces to the rest of the application.
#[derive(Debug, PartialEq, Eq, Structural, Clone, Copy)]
pub enum Announcement {
    Connected,
    Disconnected,
}

/// The slot's state (controller plugged in, phone active) after `ev`, and
/// what it announces.
pub open spec fn spec_slot_step(has_target: bool, is_active: bool, ev: SlotEvent) -> (
    bool,
    bool,
    Option<Announcement>,
) {
    match ev {
        SlotEvent::Disconnect => (false, false, None),
        SlotEvent::TargetReady => (true, is_active, None),
        SlotEvent::Data => if has_target {
            (true, true, if is_active { None } else { Some(Announcement::Connected) })
        } else {
            (has_target, is_active, None)
        },
        SlotEvent::Idle => (
            has_target,
            false,
            if is_active { Some(Announcement::Disconnected) } else { None },
        ),
    }
}

/// The state of a fresh slot after `evs`, and everything it announced.
pub open spec fn slot_run(evs: Seq<SlotEvent>) -> (bool, bool, Seq<Announcement>)
    decreases evs.len(),
{
    if evs.len() == 0 {
        (false, false, seq![])
    } else {
        let (h, a, anns) = slot_run(evs.drop_last());
        let (h2, a2, ann) = spec_slot_step(h, a, evs.last());
        (
            h2,
            a2,
            match ann {
                Some(x) => anns.push(x),
                None => anns,
            },
        )
    }
}

/// Every disconnect announcement in `anns` directly follows a connect
/// announcement.
#[verifier::opaque]
pub open spec fn disconnects_follow_connects(anns: Seq<Announcement>) -> bool {
    forall|k: int|
        0 <= k < anns.len() && #[trigger] anns[k] == Announcement::Disconnected ==> k > 0 && anns[k
            - 1] == Announcement::Connected
}

/// Appending an announcement keeps the order when a disconnect is only
/// appended right after a connect.
proof fn lemma_push_announcement(anns: Seq<Announcement>, x: Announcement)
    requires
        disconnects_follow_connects(anns),
        x == Announcement::Disconnected ==> anns.len() > 0 && anns.last()
            == Announcement::Connected,
    ensures
        disconnects_follow_connects(anns.push(x)),
{
    reveal(disconnects_follow_connects);
    let all = anns.push(x);
    assert forall|k: int|
        0 <= k < all.len() && #[trigger] all[k] == Announcement::Disconnected implies k > 0 && all[k
        - 1] == Announcement::Connected by {
        if k < anns.len() {
            assert(all[k] == anns[k]);
            if k > 0 {
                assert(all[k - 1] == anns[k - 1]);
            }
        } else {
            assert(all[k - 1] == anns[anns.len() - 1]);
        }
    }
}

/// Over any sequence of events of a fresh slot, every disconnect
/// announcement directly follows a connect announcement: the slot never
/// announces two disconnects in a row, nor a disconnect first. While the slot
/// is active, its last announcement was a connect.
pub proof fn lemma_slot_announcements_alternate(evs: Seq<SlotEvent>)
    ensures
        disconnects_follow_connects(slot_run(evs).2),
        slot_run(evs).1 ==> slot_run(evs).2.len() > 0 && slot_run(evs).2.last()
            == Announcement::Connected,
    decreases evs.len(),
{
    if evs.len() == 0 {
        reveal(disconnects_follow_connects);
    } else {
        let prev = evs.drop_last();
        lemma_slot_announcements_alternate(prev);
        let r = slot_run(prev);
        let st = spec_slot_step(r.0, r.1, evs.last());
        assert(slot_run(evs) == (
            st.0,
            st.1,
            match st.2 {
                Some(x) => r.2.push(x),
                None => r.2,
            },
        ));
        if let Some(x) = st.2 {
            lemma_push_announcement(r.2, x);
        }
    }
}

/// The life cycle of one slot: whether its virtual controller is plugged in,
/// and whether a phone is driving it.
pub struct SlotActor {
    pub has_target: bool,
    pub is_active: bool,
}

impl SlotActor {
    /// A slot without a controller.
    pub fn new() -> (a: Self)
        ensures
            !a.has_target,
            !a.is_active,
    {
        SlotActor { has_target: false, is_active: false }
    }

    /// The user disconnected the slot: its controller is unplugged.
    pub fn on_disconnect(&mut self)
        ensures
            !final(self).has_target,
            !final(self).is_active,
            spec_slot_step(old(self).has_target, old(self).is_active, SlotEvent::Disconnect) == (
                final(self).has_target,
                final(self).is_active,
                None::<Announcement>,
            ),
    {
        self.has_target = false;
        self.is_active = false;
    }

    /// Whether a datagram must first plug in a virtual controller.
    pub fn needs_target(&self) -> (r: bool)
        ensures
            r == !self.has_target,
    {
        !self.has_target
    }

    /// A virtual controller was plugged in for the slot.
    pub fn on_target_ready(&mut self)
        ensures
            final(self).has_target,
            final(self).is_active == old(self).is_active,
            spec_slot_step(old(self).has_target, old(self).is_active, SlotEvent::TargetReady) == (
                final(self).has_target,
                final(self).is_active,
                None::<Announcement>,
            ),
    {
        self.has_target = true;
    }

    /// Handles a datagram of `len` bytes in `packet` once the controller is
    /// plugged in: the slot becomes active (announced the first time) and the
    /// datagram is classified.
    pub fn on_data(&mut self, packet: &[u8], len: usize) -> (r: SlotStep)
        requires
            old(self).has_target,
            packet@.len() >= 4,
        ensures
            final(self).has_target,
            final(self).is_active,
            r.announce_connected == !old(self).is_active,
            r.packet == spec_classify_slot_packet(packet@, len as int),
            spec_slot_step(old(self).has_target, old(self).is_active, SlotEvent::Data) == (
                final(self).has_target,
                final(self).is_active,
                if r.announce_connected {
                    Some(Announcement::Connected)
                } else {
                    None
                },
            ),
    {
        let announce_connected = !self.is_active;
        self.is_active = true;
        SlotStep { announce_connected, packet: classify_slot_packet(packet, len) }
    }

    /// No datagram came within the timeout: an active slot goes idle, is
    /// announced as disconnected, and its controller gets an idle report.
    pub fn on_idle(&mut self) -> (r: SlotIdle)
        ensures
            !final(self).is_active,
            final(self).has_target == old(self).has_target,
            r.announce_disconnected == old(self).is_active,
            r.reset_report == (old(self).is_active && old(self).has_target),
            spec_slot_step(old(self).has_target, old(self).is_active, SlotEvent::Idle) == (
                final(self).has_target,
                final(self).is_active,
                if r.announce_disconnected {
                    Some(Announcement::Disconnected)
                } else {
                    None
                },
            ),
    {
        let was_active = self.is_active;
        self.is_active = false;
        SlotIdle { announce_disconnected: was_active, reset_report: was_active && self.has_target }
    }
}

} // verus!
