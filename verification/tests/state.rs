use controlay::events::{AppEvent, AppInfo, ReceiverState, ServerCommand};
use controlay::state::{SlotState, Tab, UiState};
use controlay::updater::UpdateInfo;

#[test]
fn starts_off_with_one_log_line() {
    let s = UiState::new();
    assert_eq!(s.receiver_state, ReceiverState::Off);
    assert_eq!(s.active_tab, Tab::Home);
    assert_eq!(s.status_log.len(), 1);
    assert_eq!(s.status_log[0], "Application started");
    assert!(s.controllers.iter().all(|c| c.is_none()));
}

#[test]
fn log_keeps_the_last_25_messages() {
    let mut s = UiState::new();
    for i in 0..40 {
        s.handle_event(AppEvent::Log(format!("m{}", i)), &None);
        assert!(s.status_log.len() <= 25);
    }
    assert_eq!(s.status_log.len(), 25);
    assert_eq!(s.status_log[0], "m15");
    assert_eq!(s.status_log[24], "m39");
}

#[test]
fn receiver_state_and_driver_alert() {
    let mut s = UiState::new();
    s.handle_event(AppEvent::ReceiverStateChanged(ReceiverState::On), &None);
    assert_eq!(s.receiver_state, ReceiverState::On);
    s.handle_event(AppEvent::MissingDriver, &None);
    assert!(s.show_driver_alert);
}

#[test]
fn controllers_connect_update_and_disconnect() {
    let mut s = UiState::new();
    let info = AppInfo { controller_battery: 50, phone_battery: 60 };
    // Battery updates for unknown slots are ignored.
    s.handle_event(AppEvent::BatteryUpdate(1, info), &None);
    assert_eq!(s.controllers[1], None);
    s.handle_event(AppEvent::ControllerConnected(1), &None);
    assert_eq!(
        s.controllers[1],
        Some(SlotState { info: AppInfo { controller_battery: -1, phone_battery: -1 }, is_active: true })
    );
    s.handle_event(AppEvent::BatteryUpdate(1, info), &None);
    s.handle_event(AppEvent::ControllerDisconnected(1), &None);
    assert_eq!(s.controllers[1], Some(SlotState { info, is_active: false }));
    s.handle_event(AppEvent::ControllerConnected(1), &None);
    assert_eq!(s.controllers[1], Some(SlotState { info, is_active: true }));
    s.clear_slot(1);
    assert_eq!(s.controllers[1], None);
    s.handle_event(AppEvent::ControllerConnected(3), &None);
    s.clear_controllers();
    assert!(s.controllers.iter().all(|c| c.is_none()));
}

#[test]
fn update_alert_respects_dismissed_version() {
    let info = UpdateInfo { version: "1.2.0".to_string(), url: "u".to_string() };
    let mut s = UiState::new();
    s.handle_event(AppEvent::UpdateAvailable(info.clone()), &Some("1.2.0".to_string()));
    assert!(!s.show_update_alert);
    assert_eq!(s.pending_update.as_ref().unwrap().version, "1.2.0");
    assert_eq!(s.status_log.back().unwrap(), "New version available: 1.2.0");
    let mut s = UiState::new();
    s.handle_event(AppEvent::UpdateAvailable(info), &Some("1.1.0".to_string()));
    assert!(s.show_update_alert);
}

#[test]
fn home_button_and_live_updates_follow_receiver_state() {
    let mut s = UiState::new();
    assert_eq!(s.home_button_command(), Some(ServerCommand::Start));
    assert!(!s.live_update_due(true));
    s.handle_event(AppEvent::ReceiverStateChanged(ReceiverState::Starting), &None);
    assert_eq!(s.home_button_command(), None);
    assert!(s.live_update_due(true));
    s.handle_event(AppEvent::ReceiverStateChanged(ReceiverState::On), &None);
    assert_eq!(s.home_button_command(), Some(ServerCommand::Stop));
    assert!(s.live_update_due(true));
    assert!(!s.live_update_due(false));
}
