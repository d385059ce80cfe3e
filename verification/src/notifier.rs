//! Which desktop notifications the receiver shows, and under which
//! application id.
//!
//! Connection changes are announced when connection alerts are enabled. A low
//! battery (of the controller or of the phone) is announced once when it
//! drops to the threshold or below, and not again until it has risen above it.

use vstd::prelude::*;

use crate::config::SLOT_COUNT;
use crate::events::{AppEvent, AppInfo};
use crate::text::{push_decimal, spec_decimal};

verus! {

/// The application id that Windows shows toasts under when the application
/// has no Start-menu shortcut of its own.
pub const FALLBACK_APP_ID: &'static str = "Microsoft.Windows.Explorer";

/// Why a notification could not be shown.
#[derive(Debug)]
pub enum NotifyError {
    ShowFailed(String),
}

/// Shows notifications under one application id.
pub struct AppNotifier {
    app_id: String,
}

impl AppNotifier {
    /// The application id that notifications are shown under.
    pub closed spec fn spec_app_id(&self) -> Seq<char> {
        self.app_id@
    }

    /// A notifier for `app_id`, used as given. On Windows a notifier must
    /// instead fall back to Explorer's id when the application has no
    /// Start-menu shortcut; that case is [`AppNotifier::with_shortcut_check`],
    /// because looking for the shortcut reads the file system.
    pub fn new(app_id: &str) -> (r: Result<Self, NotifyError>)
        ensures
            r matches Ok(n) && n.spec_app_id() == app_id@,
    {
        Ok(AppNotifier { app_id: String::from_str(app_id) })
    }

    /// A notifier for `app_id` on Windows, where toasts of an application
    /// without a Start-menu shortcut are shown under Explorer's id instead.
    pub fn with_shortcut_check(app_id: &str, shortcut_exists: bool) -> (n: Self)
        ensures
            n.spec_app_id() == if shortcut_exists {
                app_id@
            } else {
                FALLBACK_APP_ID@
            },
    {
        if shortcut_exists {
            AppNotifier { app_id: String::from_str(app_id) }
        } else {
            AppNotifier { app_id: String::from_str(FALLBACK_APP_ID) }
        }
    }

    /// The application id that notifications are shown under.
    pub fn app_id(&self) -> (r: &str)
        ensures
            r@ == self.spec_app_id(),
    {
        self.app_id.as_str()
    }
}

/// The settings that decide which notifications are shown.
#[derive(Debug, Clone, Copy)]
pub struct NotificationPrefs {
    pub enable_battery_notifications: bool,
    pub enable_connection_notifications: bool,
    pub battery_warn_threshold_controller: u8,
    pub battery_warn_threshold_phone: u8,
}

/// A notification to show.
#[derive(Debug, PartialEq, Eq, Structural, Clone, Copy)]
pub enum Notice {
    ControllerConnected { slot: u8 },
    ControllerDisconnected { slot: u8 },
    ControllerBatteryLow { slot: u8, percent: i8 },
    PhoneBatteryLow { percent: i8 },
}

/// The title of connection notices.
pub const CONNECTION_TITLE: &'static str = "Controlay";
/// The title of battery warnings.
pub const BATTERY_TITLE: &'static str = "Low Battery";

impl Notice {
    /// The title shown for this notice.
    pub open spec fn spec_title(self) -> Seq<char> {
        match self {
            Notice::ControllerConnected { .. } => CONNECTION_TITLE@,
            Notice::ControllerDisconnected { .. } => CONNECTION_TITLE@,
            _ => BATTERY_TITLE@,
        }
    }

    /// The text shown for this notice; slots are numbered from 1.
    pub open spec fn spec_body(self) -> Seq<char> {
        match self {
            Notice::ControllerConnected { slot } => "Controller "@ + spec_decimal(slot + 1)
                + " connected"@,
            Notice::ControllerDisconnected { slot } => "Controller "@ + spec_decimal(slot + 1)
                + " disconnected"@,
            Notice::ControllerBatteryLow { slot, percent } => "P"@ + spec_decimal(slot + 1)
                + " Controller is at "@ + spec_decimal(percent as int) + "%"@,
            Notice::PhoneBatteryLow { percent } => "Phone battery is at "@ + spec_decimal(
                percent as int,
            ) + "%"@,
        }
    }

    /// Whether the slot number shown in this notice fits a slot byte.
    pub open spec fn slot_shown_fits(self) -> bool {
        match self {
            Notice::ControllerConnected { slot } => slot < 255,
            Notice::ControllerDisconnected { slot } => slot < 255,
            Notice::ControllerBatteryLow { slot, .. } => slot < 255,
            Notice::PhoneBatteryLow { .. } => true,
        }
    }

    /// The title shown for this notice.
    pub fn title(&self) -> (r: &'static str)
        ensures
            r@ == self.spec_title(),
    {
        match self {
            Notice::ControllerConnected { .. } => CONNECTION_TITLE,
            Notice::ControllerDisconnected { .. } => CONNECTION_TITLE,
            _ => BATTERY_TITLE,
        }
    }

    /// The text shown for this notice.
    pub fn body(&self) -> (r: String)
        requires
            self.slot_shown_fits(),
        ensures
            r@ == self.spec_body(),
    {
        match self {
            Notice::ControllerConnected { slot } => {
                let mut s = String::from_str("Controller ");
                push_decimal(&mut s, (*slot + 1) as i32);
                s.append(" connected");
                s
            },
            Notice::ControllerDisconnected { slot } => {
                let mut s = String::from_str("Controller ");
                push_decimal(&mut s, (*slot + 1) as i32);
                s.append(" disconnected");
                s
            },
            Notice::ControllerBatteryLow { slot, percent } => {
                let mut s = String::from_str("P");
                push_decimal(&mut s, (*slot + 1) as i32);
                s.append(" Controller is at ");
                push_decimal(&mut s, *percent as i32);
                s.append("%");
                s
            },
            Notice::PhoneBatteryLow { percent } => {
                let mut s = String::from_str("Phone battery is at ");
                push_decimal(&mut s, *percent as i32);
                s.append("%");
                s
            },
        }
    }
}

/// Which low-battery warnings have been shown, per slot.
pub struct TrackerView {
    pub controller_warned: Seq<bool>,
    pub phone_warned: Seq<bool>,
}

/// Whether a reported level (negative when unknown) is at or below `threshold`.
pub open spec fn is_low(level: i8, threshold: u8) -> bool {
    0 <= level && level <= threshold
}

/// The state after `event` and the notices that it causes.
pub open spec fn spec_on_event(s: TrackerView, event: AppEvent, prefs: NotificationPrefs) -> (
    TrackerView,
    Seq<Notice>,
) {
    match event {
        AppEvent::ControllerConnected(slot) => if prefs.enable_connection_notifications {
            (s, seq![Notice::ControllerConnected { slot }])
        } else {
            (s, seq![])
        },
        AppEvent::ControllerDisconnected(slot) => if prefs.enable_connection_notifications {
            (s, seq![Notice::ControllerDisconnected { slot }])
        } else {
            (s, seq![])
        },
        AppEvent::BatteryUpdate(slot, info) => if prefs.enable_battery_notifications {
            let c_low = is_low(info.controller_battery, prefs.battery_warn_threshold_controller);
            let p_low = is_low(info.phone_battery, prefs.battery_warn_threshold_phone);
            let c_notices = if c_low && !s.controller_warned[slot as int] {
                seq![Notice::ControllerBatteryLow { slot, percent: info.controller_battery }]
            } else {
                seq![]
            };
            let p_notices = if p_low && !s.phone_warned[slot as int] {
                seq![Notice::PhoneBatteryLow { percent: info.phone_battery }]
            } else {
                seq![]
            };
            (
                TrackerView {
                    controller_warned: s.controller_warned.update(slot as int, c_low),
                    phone_warned: s.phone_warned.update(slot as int, p_low),
                },
                c_notices + p_notices,
            )
        } else {
            (s, seq![])
        },
        _ => (s, seq![]),
    }
}

/// Whether `event` can be handed to the tracker: battery updates that are
/// looked at name one of the slots.
pub open spec fn event_in_range(event: AppEvent, prefs: NotificationPrefs) -> bool {
    match event {
        AppEvent::BatteryUpdate(slot, _) => prefs.enable_battery_notifications ==> slot
            < SLOT_COUNT,
        _ => true,
    }
}

/// Remembers, per slot, which low-battery warnings were shown.
pub struct NotificationTracker {
    sent_controller_warn: [bool; 4],
    sent_phone_warn: [bool; 4],
}

impl View for NotificationTracker {
    type V = TrackerView;

    closed spec fn view(&self) -> TrackerView {
        TrackerView {
            controller_warned: self.sent_controller_warn@,
            phone_warned: self.sent_phone_warn@,
        }
    }
}

impl NotificationTracker {
    /// A tracker remembers its warnings for every slot.
    pub proof fn lemma_view_lengths(&self)
        ensures
            self@.controller_warned.len() == SLOT_COUNT,
            self@.phone_warned.len() == SLOT_COUNT,
    {
    }

    /// A tracker that has shown no warning yet.
    pub fn new() -> (t: Self)
        ensures
            t@.controller_warned == Seq::new(4, |i: int| false),
            t@.phone_warned == Seq::new(4, |i: int| false),
    {
        let t = NotificationTracker { sent_controller_warn: [false; 4], sent_phone_warn: [false; 4] };
        assert(t@.controller_warned =~= Seq::new(4, |i: int| false));
        assert(t@.phone_warned =~= Seq::new(4, |i: int| false));
        t
    }

    /// Decides which notifications `event` causes and updates the warnings
    /// already shown.
    pub fn on_event(&mut self, event: &AppEvent, prefs: &NotificationPrefs) -> (r: Vec<Notice>)
        requires
            event_in_range(*event, *prefs),
        ensures
            old(self)@.controller_warned.len() == SLOT_COUNT,
            old(self)@.phone_warned.len() == SLOT_COUNT,
            (final(self)@, r@) == spec_on_event(old(self)@, *event, *prefs),
            (*event is ControllerConnected || *event is ControllerDisconnected)
                && !prefs.enable_connection_notifications ==> r@.len() == 0,
            final(self)@.controller_warned.len() == SLOT_COUNT,
            final(self)@.phone_warned.len() == SLOT_COUNT,
    {
        let mut out: Vec<Notice> = Vec::new();
        match event {
            AppEvent::ControllerConnected(slot) => {
                if prefs.enable_connection_notifications {
                    out.push(Notice::ControllerConnected { slot: *slot });
                }
            },
            AppEvent::ControllerDisconnected(slot) => {
                if prefs.enable_connection_notifications {
                    out.push(Notice::ControllerDisconnected { slot: *slot });
                }
            },
            AppEvent::BatteryUpdate(slot, info) => {
                if prefs.enable_battery_notifications {
                    let s = *slot as usize;
                    let c_low = info.controller_battery >= 0 && info.controller_battery as u8
                        <= prefs.battery_warn_threshold_controller;
                    if c_low {
                        if !self.sent_controller_warn[s] {
                            out.push(
                                Notice::ControllerBatteryLow {
                                    slot: *slot,
                                    percent: info.controller_battery,
                                },
                            );
                            self.sent_controller_warn[s] = true;
                        }
                    } else {
                        self.sent_controller_warn[s] = false;
                    }
                    let p_low = info.phone_battery >= 0 && info.phone_battery as u8
                        <= prefs.battery_warn_threshold_phone;
                    if p_low {
                        if !self.sent_phone_warn[s] {
                            out.push(Notice::PhoneBatteryLow { percent: info.phone_battery });
                            self.sent_phone_warn[s] = true;
                        }
                    } else {
                        self.sent_phone_warn[s] = false;
                    }
                }
            },
            _ => {},
        }
        proof {
            let (post, notices) = spec_on_event(old(self)@, *event, *prefs);
            assert(self@.controller_warned =~= post.controller_warned);
            assert(self@.phone_warned =~= post.phone_warned);
            assert(out@ =~= notices);
        }
        out
    }
}

/// Connection notices follow the connection preference alone: with it off, a
/// controller connecting or disconnecting shows nothing; with it on, each shows
/// exactly one notice naming that slot. Neither touches the low-battery state.
pub proof fn lemma_connection_notices_follow_preference(
    s: TrackerView,
    slot: u8,
    prefs: NotificationPrefs,
)
    ensures
        ({
            let (s1, n1) = spec_on_event(s, AppEvent::ControllerConnected(slot), prefs);
            let (s2, n2) = spec_on_event(s, AppEvent::ControllerDisconnected(slot), prefs);
            &&& s1 == s
            &&& s2 == s
            &&& !prefs.enable_connection_notifications ==> n1.len() == 0 && n2.len() == 0
            &&& prefs.enable_connection_notifications ==> n1.len() == 1 && n1[0]
                == Notice::ControllerConnected { slot }
            &&& prefs.enable_connection_notifications ==> n2.len() == 1 && n2[0]
                == Notice::ControllerDisconnected { slot }
        }),
{
}

/// A low battery is announced once per episode: after a low reading of a
/// slot's controller, a second low reading is not announced again, and after
/// a reading above the threshold the next low reading is announced.
pub proof fn lemma_low_battery_warns_once(
    s0: TrackerView,
    slot: u8,
    first: AppInfo,
    second: AppInfo,
    prefs: NotificationPrefs,
)
    requires
        s0.controller_warned.len() == SLOT_COUNT,
        s0.phone_warned.len() == SLOT_COUNT,
        slot < SLOT_COUNT,
        prefs.enable_battery_notifications,
    ensures
        ({
            let (s1, n1) = spec_on_event(s0, AppEvent::BatteryUpdate(slot, first), prefs);
            let (s2, n2) = spec_on_event(s1, AppEvent::BatteryUpdate(slot, second), prefs);
            let c1 = is_low(first.controller_battery, prefs.battery_warn_threshold_controller);
            let c2 = is_low(second.controller_battery, prefs.battery_warn_threshold_controller);
            let p1 = is_low(first.phone_battery, prefs.battery_warn_threshold_phone);
            let p2 = is_low(second.phone_battery, prefs.battery_warn_threshold_phone);
            &&& (c1 && c2) ==> !n2.contains(
                Notice::ControllerBatteryLow { slot, percent: second.controller_battery },
            )
            &&& (!c1 && c2) ==> n2.contains(
                Notice::ControllerBatteryLow { slot, percent: second.controller_battery },
            )
            &&& (p1 && p2) ==> !n2.contains(Notice::PhoneBatteryLow { percent: second.phone_battery })
            &&& (!p1 && p2) ==> n2.contains(Notice::PhoneBatteryLow { percent: second.phone_battery })
        }),
{
    let (s1, n1) = spec_on_event(s0, AppEvent::BatteryUpdate(slot, first), prefs);
    let (s2, n2) = spec_on_event(s1, AppEvent::BatteryUpdate(slot, second), prefs);
    let c2 = is_low(second.controller_battery, prefs.battery_warn_threshold_controller);
    let p2 = is_low(second.phone_battery, prefs.battery_warn_threshold_phone);
    let cn = if c2 && !s1.controller_warned[slot as int] {
        seq![Notice::ControllerBatteryLow { slot, percent: second.controller_battery }]
    } else {
        seq![]
    };
    let pn = if p2 && !s1.phone_warned[slot as int] {
        seq![Notice::PhoneBatteryLow { percent: second.phone_battery }]
    } else {
        seq![]
    };
    assert(n2 == cn + pn);
    if cn.len() > 0 {
        assert(n2[0] == cn[0]);
    }
    if pn.len() > 0 {
        assert(n2[n2.len() - 1] == pn[0]);
    }
    assert forall|k: int| 0 <= k < n2.len() implies !(#[trigger] n2[k] is PhoneBatteryLow) || pn.len()
        > 0 by {
        if k < cn.len() {
            assert(n2[k] == cn[k]);
        } else {
            assert(n2[k] == pn[k - cn.len()]);
        }
    }
    assert forall|k: int| 0 <= k < n2.len() implies !(#[trigger] n2[k] is ControllerBatteryLow)
        || cn.len() > 0 by {
        if k < cn.len() {
            assert(n2[k] == cn[k]);
        } else {
            assert(n2[k] == pn[k - cn.len()]);
        }
    }
}

} // verus!
