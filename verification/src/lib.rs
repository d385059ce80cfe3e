//! Controlay: the verified core of a receiver that turns gamepad packets sent
//! by a phone over UDP into virtual Xbox 360 / DualShock 4 controllers.
//!
//! The library holds the decisions: decoding the wire protocol, filtering
//! button bounce, classifying stick deadzones, routing datagrams to slots,
//! tracking which notifications were already sent, and keeping the state
//! that the user interface shows.

pub mod bits;
pub mod config;
pub mod events;
pub mod logic;
pub mod notifier;
pub mod protocol;
pub mod state;
pub mod text;
pub mod deadzone;
pub mod debounce;
pub mod discovery;
pub mod updater;
