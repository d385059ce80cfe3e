//! Messages exchanged between the user interface and the receiver.

use vstd::prelude::*;

use crate::updater::UpdateInfo;

verus! {

/// Whether the receiver is listening for a phone.
#[derive(Debug, PartialEq, Eq, Structural, Clone, Copy)]
pub enum ReceiverState {
    Off,
    Starting,
    On,
}

/// Battery levels reported by a phone for one slot, in percent; a negative
/// value means unknown.
#[derive(Debug, PartialEq, Eq, Structural, Clone, Copy)]
pub struct AppInfo {
    pub controller_battery: i8,
    pub phone_battery: i8,
}

/// The central event bus.
#[derive(Clone)]
pub enum AppEvent {
    Log(String),
    ReceiverStateChanged(ReceiverState),
    ControllerConnected(u8),
    ControllerDisconnected(u8),
    BatteryUpdate(u8, AppInfo),
    MissingDriver,
    UpdateAvailable(UpdateInfo),
}

/// Commands sent from the user interface down to the backend.
#[derive(Debug, PartialEq, Eq, Structural, Clone, Copy)]
pub enum ServerCommand {
    Start,
    Stop,
    DisconnectSlot(u8),
}

} // verus!
