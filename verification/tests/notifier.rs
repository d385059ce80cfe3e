use controlay::events::{AppEvent, AppInfo, ReceiverState};
use controlay::notifier::{
    AppNotifier, Notice, NotificationPrefs, NotificationTracker, FALLBACK_APP_ID,
};

fn prefs() -> NotificationPrefs {
    NotificationPrefs {
        enable_battery_notifications: true,
        enable_connection_notifications: true,
        battery_warn_threshold_controller: 20,
        battery_warn_threshold_phone: 15,
    }
}

fn battery(slot: u8, controller: i8, phone: i8) -> AppEvent {
    AppEvent::BatteryUpdate(slot, AppInfo { controller_battery: controller, phone_battery: phone })
}

#[test]
fn notifier_keeps_its_app_id() {
    let n = AppNotifier::new("com.arounre.controlay").unwrap();
    assert_eq!(n.app_id(), "com.arounre.controlay");
    let n = AppNotifier::with_shortcut_check("com.arounre.controlay", true);
    assert_eq!(n.app_id(), "com.arounre.controlay");
    let n = AppNotifier::with_shortcut_check("com.arounre.controlay", false);
    assert_eq!(n.app_id(), FALLBACK_APP_ID);
}

#[test]
fn connection_changes_are_announced_when_enabled() {
    let mut t = NotificationTracker::new();
    assert_eq!(
        t.on_event(&AppEvent::ControllerConnected(1), &prefs()),
        vec![Notice::ControllerConnected { slot: 1 }]
    );
    assert_eq!(
        t.on_event(&AppEvent::ControllerDisconnected(1), &prefs()),
        vec![Notice::ControllerDisconnected { slot: 1 }]
    );
    let mut quiet = prefs();
    quiet.enable_connection_notifications = false;
    assert!(t.on_event(&AppEvent::ControllerConnected(1), &quiet).is_empty());
}

#[test]
fn other_events_are_not_announced() {
    let mut t = NotificationTracker::new();
    assert!(t.on_event(&AppEvent::MissingDriver, &prefs()).is_empty());
    assert!(t.on_event(&AppEvent::Log("x".to_string()), &prefs()).is_empty());
    assert!(t
        .on_event(&AppEvent::ReceiverStateChanged(ReceiverState::On), &prefs())
        .is_empty());
}

#[test]
fn low_battery_is_announced_once_per_episode() {
    let mut t = NotificationTracker::new();
    assert_eq!(
        t.on_event(&battery(0, 20, 80), &prefs()),
        vec![Notice::ControllerBatteryLow { slot: 0, percent: 20 }]
    );
    assert!(t.on_event(&battery(0, 18, 80), &prefs()).is_empty());
    // Charged above the threshold, then low again: announced again.
    assert!(t.on_event(&battery(0, 21, 80), &prefs()).is_empty());
    assert_eq!(
        t.on_event(&battery(0, 19, 80), &prefs()),
        vec![Notice::ControllerBatteryLow { slot: 0, percent: 19 }]
    );
}

#[test]
fn phone_and_controller_warnings_are_independent() {
    let mut t = NotificationTracker::new();
    assert_eq!(
        t.on_event(&battery(2, 10, 15), &prefs()),
        vec![
            Notice::ControllerBatteryLow { slot: 2, percent: 10 },
            Notice::PhoneBatteryLow { percent: 15 }
        ]
    );
    // Another slot has its own warnings.
    assert_eq!(
        t.on_event(&battery(3, 50, 5), &prefs()),
        vec![Notice::PhoneBatteryLow { percent: 5 }]
    );
    assert!(t.on_event(&battery(2, 10, 15), &prefs()).is_empty());
}

#[test]
fn unknown_battery_level_is_not_low() {
    let mut t = NotificationTracker::new();
    assert!(t.on_event(&battery(0, -1, -1), &prefs()).is_empty());
}

#[test]
fn battery_warnings_off_leaves_state_alone() {
    let mut t = NotificationTracker::new();
    let mut quiet = prefs();
    quiet.enable_battery_notifications = false;
    assert!(t.on_event(&battery(0, 5, 5), &quiet).is_empty());
    // Slot numbers are not looked at when warnings are off.
    assert!(t.on_event(&battery(9, 5, 5), &quiet).is_empty());
    assert_eq!(t.on_event(&battery(0, 5, 50), &prefs()).len(), 1);
}

#[test]
fn notice_texts() {
    let n = Notice::ControllerConnected { slot: 0 };
    assert_eq!((n.title(), n.body().as_str()), ("Controlay", "Controller 1 connected"));
    let n = Notice::ControllerDisconnected { slot: 3 };
    assert_eq!((n.title(), n.body().as_str()), ("Controlay", "Controller 4 disconnected"));
    let n = Notice::ControllerBatteryLow { slot: 1, percent: 7 };
    assert_eq!((n.title(), n.body().as_str()), ("Low Battery", "P2 Controller is at 7%"));
    let n = Notice::PhoneBatteryLow { percent: 15 };
    assert_eq!((n.title(), n.body().as_str()), ("Low Battery", "Phone battery is at 15%"));
}
