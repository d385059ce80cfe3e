//! What the user interface shows: the receiver state, the connected
//! controllers, the status log and the pending alerts, and how each event
//! from the backend changes it.

use vstd::prelude::*;

use std::collections::VecDeque;

use crate::config::SLOT_COUNT;
use crate::events::{AppEvent, AppInfo, ReceiverState, ServerCommand};
use crate::updater::UpdateInfo;

verus! {

/// The status log keeps at most this many messages from `Log` events.
pub const MAX_LOG_MESSAGES: usize = 25;

/// The first line of the status log.
pub const STARTUP_MESSAGE: &'static str = "Application started";

/// The text logged in front of the version of an available update.
pub const UPDATE_LOG_PREFIX: &'static str = "New version available: ";

/// A controller slot that has seen a phone.
#[derive(Debug, PartialEq, Eq, Structural, Clone, Copy)]
pub struct SlotState {
    pub info: AppInfo,
    pub is_active: bool,
}

/// The page shown in the main window.
#[derive(Debug, PartialEq, Eq, Structural, Clone, Copy)]
pub enum Tab {
    Home,
    Settings,
    About,
}

/// The abstract state of the user interface.
pub struct UiView {
    pub receiver_state: ReceiverState,
    pub controllers: Seq<Option<SlotState>>,
    pub active_tab: Tab,
    pub selected_slot: usize,
    pub status_log: Seq<Seq<char>>,
    pub show_driver_alert: bool,
    pub show_update_alert: bool,
    pub pending_update: Option<(Seq<char>, Seq<char>)>,
}

/// The slot state after a phone reports on `slot`: known slots become active,
/// unknown ones appear active with unknown battery levels.
pub open spec fn connected_slot(old_slot: Option<SlotState>) -> SlotState {
    match old_slot {
        Some(st) => SlotState { info: st.info, is_active: true },
        None => SlotState {
            info: AppInfo { controller_battery: -1i8, phone_battery: -1i8 },
            is_active: true,
        },
    }
}

/// The log after appending `msg` from a `Log` event: the oldest message is
/// dropped when the log would exceed its limit.
pub open spec fn log_after(log: Seq<Seq<char>>, msg: Seq<char>) -> Seq<Seq<char>> {
    let l = log.push(msg);
    if l.len() > MAX_LOG_MESSAGES {
        l.drop_first()
    } else {
        l
    }
}

/// The user-interface state after `event`, where `dismissed` is the version
/// whose update alert the user dismissed.
pub open spec fn spec_handle_event(s: UiView, event: AppEvent, dismissed: Option<Seq<char>>) -> UiView {
    match event {
        AppEvent::ReceiverStateChanged(r) => UiView { receiver_state: r, ..s },
        AppEvent::MissingDriver => UiView { show_driver_alert: true, ..s },
        AppEvent::Log(msg) => UiView { status_log: log_after(s.status_log, msg@), ..s },
        AppEvent::UpdateAvailable(info) => UiView {
            status_log: s.status_log.push(UPDATE_LOG_PREFIX@ + info.version@),
            show_update_alert: s.show_update_alert || dismissed != Some(info.version@),
            pending_update: Some((info.version@, info.url@)),
            ..s
        },
        AppEvent::ControllerConnected(slot) => UiView {
            controllers: s.controllers.update(
                slot as int,
                Some(connected_slot(s.controllers[slot as int])),
            ),
            ..s
        },
        AppEvent::ControllerDisconnected(slot) => match s.controllers[slot as int] {
            Some(st) => UiView {
                controllers: s.controllers.update(
                    slot as int,
                    Some(SlotState { info: st.info, is_active: false }),
                ),
                ..s
            },
            None => s,
        },
        AppEvent::BatteryUpdate(slot, info) => match s.controllers[slot as int] {
            Some(st) => UiView {
                controllers: s.controllers.update(
                    slot as int,
                    Some(SlotState { info, is_active: st.is_active }),
                ),
                ..s
            },
            None => s,
        },
    }
}

/// Whether the slot that `event` names, if any, is one of the slots.
pub open spec fn event_slot_in_range(event: AppEvent) -> bool {
    match event {
        AppEvent::ControllerConnected(slot) => slot < SLOT_COUNT,
        AppEvent::ControllerDisconnected(slot) => slot < SLOT_COUNT,
        AppEvent::BatteryUpdate(slot, _) => slot < SLOT_COUNT,
        _ => true,
    }
}

/// The state that the user interface shows.
pub struct UiState {
    pub receiver_state: ReceiverState,
    pub controllers: [Option<SlotState>; 4],
    pub active_tab: Tab,
    pub selected_slot: usize,
    pub status_log: VecDeque<String>,
    pub show_driver_alert: bool,
    pub show_update_alert: bool,
    pub pending_update: Option<UpdateInfo>,
}

impl View for UiState {
    type V = UiView;

    open spec fn view(&self) -> UiView {
        UiView {
            receiver_state: self.receiver_state,
            controllers: self.controllers@,
            active_tab: self.active_tab,
            selected_slot: self.selected_slot,
            status_log: self.status_log.deep_view(),
            show_driver_alert: self.show_driver_alert,
            show_update_alert: self.show_update_alert,
            pending_update: match self.pending_update {
                Some(u) => Some((u.version@, u.url@)),
                None => None,
            },
        }
    }
}

impl UiState {
    /// The state at start-up: receiver off, no controllers, home page, and a
    /// log holding the start-up message.
    pub fn new() -> (s: Self)
        ensures
            s@.receiver_state == ReceiverState::Off,
            s@.controllers == Seq::new(4, |i: int| None::<SlotState>),
            s@.active_tab == Tab::Home,
            s@.selected_slot == 0,
            s@.status_log == seq![STARTUP_MESSAGE@],
            !s@.show_driver_alert,
            !s@.show_update_alert,
            s@.pending_update is None,
    {
        let mut log: VecDeque<String> = VecDeque::new();
        log.push_back(String::from_str(STARTUP_MESSAGE));
        let s = UiState {
            receiver_state: ReceiverState::Off,
            controllers: [None, None, None, None],
            active_tab: Tab::Home,
            selected_slot: 0,
            status_log: log,
            show_driver_alert: false,
            show_update_alert: false,
            pending_update: None,
        };
        assert(s@.controllers =~= Seq::new(4, |i: int| None::<SlotState>));
        assert(s@.status_log =~= seq![STARTUP_MESSAGE@]);
        s
    }

    /// Forgets every controller (the receiver was stopped).
    pub fn clear_controllers(&mut self)
        ensures
            final(self)@ == (UiView { controllers: Seq::new(4, |i: int| None::<SlotState>), ..old(self)@ }),
    {
        self.controllers = [None, None, None, None];
        assert(self@.controllers =~= Seq::new(4, |i: int| None::<SlotState>));
    }

    /// Forgets the controller of one slot (the user disconnected it).
    pub fn clear_slot(&mut self, slot: u8)
        requires
            slot < SLOT_COUNT,
        ensures
            final(self)@ == (UiView { controllers: old(self)@.controllers.update(slot as int, None), ..old(self)@ }),
    {
        self.controllers[slot as usize] = None;
        assert(self@.controllers =~= old(self)@.controllers.update(slot as int, None));
    }

    /// Applies one event from the backend; `dismissed_version` is the version
    /// whose update alert the user dismissed.
    pub fn handle_event(&mut self, event: AppEvent, dismissed_version: &Option<String>)
        requires
            event_slot_in_range(event),
        ensures
            final(self)@ == spec_handle_event(
                old(self)@,
                event,
                match dismissed_version {
                    Some(d) => Some(d@),
                    None => None,
                },
            ),
            (event matches AppEvent::UpdateAvailable(info) && match dismissed_version {
                Some(d) => d@ != info.version@,
                None => true,
            }) ==> final(self)@.show_update_alert,
    {
        let ghost pre = self@;
        let ghost ev = event;
        match event {
            AppEvent::ReceiverStateChanged(s) => self.receiver_state = s,
            AppEvent::MissingDriver => self.show_driver_alert = true,
            AppEvent::Log(msg) => {
                let ghost m = msg@;
                self.status_log.push_back(msg);
                assert(self.status_log.deep_view() =~= pre.status_log.push(m));
                if self.status_log.len() > MAX_LOG_MESSAGES {
                    let _ = self.status_log.pop_front();
                    assert(self.status_log.deep_view() =~= pre.status_log.push(m).drop_first());
                }
            },
            AppEvent::UpdateAvailable(info) => {
                let line = String::from_str(UPDATE_LOG_PREFIX).concat(info.version.as_str());
                self.status_log.push_back(line);
                assert(self.status_log.deep_view() =~= pre.status_log.push(
                    UPDATE_LOG_PREFIX@ + info.version@,
                ));
                let same_as_dismissed = match dismissed_version {
                    Some(d) => d.eq(&info.version),
                    None => false,
                };
                if !same_as_dismissed {
                    self.show_update_alert = true;
                }
                self.pending_update = Some(info);
            },
            AppEvent::ControllerConnected(slot) => {
                let idx = slot as usize;
                let next = match self.controllers[idx] {
                    Some(st) => SlotState { info: st.info, is_active: true },
                    None => SlotState {
                        info: AppInfo { controller_battery: -1, phone_battery: -1 },
                        is_active: true,
                    },
                };
                self.controllers[idx] = Some(next);
                assert(self@.controllers =~= pre.controllers.update(idx as int, Some(next)));
            },
            AppEvent::ControllerDisconnected(slot) => {
                let idx = slot as usize;
                if let Some(st) = self.controllers[idx] {
                    self.controllers[idx] = Some(SlotState { info: st.info, is_active: false });
                    assert(self@.controllers =~= pre.controllers.update(
                        idx as int,
                        Some(SlotState { info: st.info, is_active: false }),
                    ));
                }
            },
            AppEvent::BatteryUpdate(slot, info) => {
                let idx = slot as usize;
                if let Some(st) = self.controllers[idx] {
                    self.controllers[idx] = Some(SlotState { info, is_active: st.is_active });
                    assert(self@.controllers =~= pre.controllers.update(
                        idx as int,
                        Some(SlotState { info, is_active: st.is_active }),
                    ));
                }
            },
        }
    }
}

} // verus!

verus! {

/// A `Log` event keeps the log within its limit and appends the message as
/// the newest entry.
pub proof fn lemma_log_stays_bounded(s: UiView, msg: String, dismissed: Option<Seq<char>>)
    requires
        s.status_log.len() <= MAX_LOG_MESSAGES,
    ensures
        ({
            let t = spec_handle_event(s, AppEvent::Log(msg), dismissed);
            &&& t.status_log.len() <= MAX_LOG_MESSAGES
            &&& t.status_log.len() > 0
            &&& t.status_log.last() == msg@
        }),
{
}

/// An update whose version the user dismissed does not raise the alert again,
/// though it is still logged and remembered.
pub proof fn lemma_dismissed_update_stays_quiet(s: UiView, info: UpdateInfo)
    ensures
        ({
            let t = spec_handle_event(s, AppEvent::UpdateAvailable(info), Some(info.version@));
            &&& t.show_update_alert == s.show_update_alert
            &&& t.pending_update == Some((info.version@, info.url@))
        }),
{
}

/// An available update raises the alert whenever its version is not the one
/// the user dismissed, in particular when nothing was ever dismissed; it is
/// remembered as the pending update either way.
pub proof fn lemma_new_update_raises_alert(
    s: UiView,
    info: UpdateInfo,
    dismissed: Option<Seq<char>>,
)
    requires
        dismissed != Some(info.version@),
    ensures
        ({
            let t = spec_handle_event(s, AppEvent::UpdateAvailable(info), dismissed);
            &&& t.show_update_alert
            &&& t.pending_update == Some((info.version@, info.url@))
        }),
        spec_handle_event(s, AppEvent::UpdateAvailable(info), None).show_update_alert,
{
}

/// A slot that connects and then disconnects stays listed, inactive, with
/// the battery levels it had.
pub proof fn lemma_disconnect_keeps_slot(s: UiView, slot: u8, dismissed: Option<Seq<char>>)
    requires
        slot < SLOT_COUNT,
        s.controllers.len() == SLOT_COUNT,
    ensures
        ({
            let t = spec_handle_event(s, AppEvent::ControllerConnected(slot), dismissed);
            let u = spec_handle_event(t, AppEvent::ControllerDisconnected(slot), dismissed);
            &&& u.controllers[slot as int] == Some(
                SlotState { info: connected_slot(s.controllers[slot as int]).info, is_active: false },
            )
            &&& forall|i: int| 0 <= i < SLOT_COUNT && i != slot ==> u.controllers[i] == s.controllers[i]
        }),
{
}

} // verus!

verus! {

/// How full a battery icon is drawn.
#[derive(Debug, PartialEq, Eq, Structural, Clone, Copy)]
pub enum BatteryBand {
    /// Above 50 %.
    High,
    /// Above 20 %, up to 50 %.
    Medium,
    /// 20 % or less (or unknown).
    Low,
}

/// The band of a battery level in percent.
pub fn battery_band(percentage: i8) -> (b: BatteryBand)
    ensures
        b == if percentage > 50 {
            BatteryBand::High
        } else if percentage > 20 {
            BatteryBand::Medium
        } else {
            BatteryBand::Low
        },
{
    if percentage > 50 {
        BatteryBand::High
    } else if percentage > 20 {
        BatteryBand::Medium
    } else {
        BatteryBand::Low
    }
}

/// The number of listed slots among the first `n`.
pub open spec fn count_listed(c: Seq<Option<SlotState>>, n: int) -> nat
    decreases n,
{
    if n <= 0 {
        0
    } else {
        count_listed(c, n - 1) + if c[n - 1] is Some {
            1nat
        } else {
            0nat
        }
    }
}

impl UiState {
    /// The number of slots that have seen a phone.
    pub fn active_controller_count(&self) -> (n: usize)
        ensures
            n == count_listed(self.controllers@, 4),
    {
        let mut n: usize = 0;
        let mut i: usize = 0;
        while i < 4
            invariant
                i <= 4,
                n == count_listed(self.controllers@, i as int),
                n <= i,
            decreases 4 - i,
        {
            if self.controllers[i].is_some() {
                n = n + 1;
            }
            i = i + 1;
        }
        n
    }

    /// Hardware settings (host name, port, controller type) can only be
    /// changed while the receiver is off.
    pub fn settings_locked(&self) -> (r: bool)
        ensures
            r == (self.receiver_state != ReceiverState::Off),
    {
        self.receiver_state != ReceiverState::Off
    }

    /// Whether edited live settings (deadzones, rumble) are sent to the
    /// backend: only once an edit is committed, and only while the receiver
    /// runs.
    pub fn live_update_due(&self, committed: bool) -> (r: bool)
        ensures
            r == (committed && self.receiver_state != ReceiverState::Off),
    {
        committed && self.settings_locked()
    }

    /// The command that the home page's button sends: start while the
    /// receiver is off, stop while it is on, none while it is starting (no
    /// button is shown then).
    pub fn home_button_command(&self) -> (r: Option<ServerCommand>)
        ensures
            r == match self.receiver_state {
                ReceiverState::Off => Some(ServerCommand::Start),
                ReceiverState::On => Some(ServerCommand::Stop),
                ReceiverState::Starting => None::<ServerCommand>,
            },
    {
        match self.receiver_state {
            ReceiverState::Off => Some(ServerCommand::Start),
            ReceiverState::On => Some(ServerCommand::Stop),
            ReceiverState::Starting => None,
        }
    }

    /// Whether to show the "new update" link: an update is known and its
    /// alert is closed.
    pub fn shows_update_footer(&self) -> (r: bool)
        ensures
            r == (self.pending_update is Some && !self.show_update_alert),
    {
        self.pending_update.is_some() && !self.show_update_alert
    }
}

} // verus!

verus! {

/// The state after `Log` events carrying `msgs`, in order.
pub open spec fn after_logs(s: UiView, msgs: Seq<String>, dismissed: Option<Seq<char>>) -> UiView
    decreases msgs.len(),
{
    if msgs.len() == 0 {
        s
    } else {
        spec_handle_event(
            after_logs(s, msgs.drop_last(), dismissed),
            AppEvent::Log(msgs.last()),
            dismissed,
        )
    }
}

/// The last `min(MAX_LOG_MESSAGES, log.len())` entries of `log`.
pub open spec fn newest_messages(log: Seq<Seq<char>>) -> Seq<Seq<char>> {
    if log.len() <= MAX_LOG_MESSAGES {
        log
    } else {
        log.subrange(log.len() - MAX_LOG_MESSAGES, log.len() as int)
    }
}

/// After any queue of `Log` events, starting from a log within its limit,
/// the log holds the newest messages of the old log followed by the queued
/// ones, at most [`MAX_LOG_MESSAGES`] of them, oldest dropped first; nothing
/// else changes.
pub proof fn lemma_log_keeps_newest_messages(
    s: UiView,
    msgs: Seq<String>,
    dismissed: Option<Seq<char>>,
)
    requires
        s.status_log.len() <= MAX_LOG_MESSAGES,
    ensures
        after_logs(s, msgs, dismissed) == (UiView {
            status_log: newest_messages(s.status_log + msgs.map_values(|m: String| m@)),
            ..s
        }),
    decreases msgs.len(),
{
    let all = s.status_log + msgs.map_values(|m: String| m@);
    if msgs.len() == 0 {
        assert(all =~= s.status_log);
    } else {
        let prev = msgs.drop_last();
        lemma_log_keeps_newest_messages(s, prev, dismissed);
        let prev_all = s.status_log + prev.map_values(|m: String| m@);
        assert(all =~= prev_all.push(msgs.last()@));
        let l = newest_messages(prev_all);
        let pushed = l.push(msgs.last()@);
        if prev_all.len() + 1 <= MAX_LOG_MESSAGES {
            assert(newest_messages(all) =~= pushed);
        } else if prev_all.len() <= MAX_LOG_MESSAGES {
            assert(prev_all.len() == MAX_LOG_MESSAGES);
            assert(newest_messages(all) =~= pushed.drop_first());
        } else {
            assert(newest_messages(all) =~= pushed.drop_first());
        }
    }
}

} // verus!
