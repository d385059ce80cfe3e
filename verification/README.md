# Controlay

Controlay receives gamepad input that a phone sends over UDP and presents it
to Windows as virtual Xbox 360 or DualShock 4 controllers (through ViGEmBus).

The crate is split in two:

- `src/` is the verified library, checked by Verus. It holds the decisions:
  - `protocol`: decoding state and battery packets, the Xbox 360 to
    DualShock 4 button and d-pad mapping, stick scaling;
  - `deadzone`: which zone of a stick's travel an axis value is in;
  - `debounce`: the per-button anti-double-click filter;
  - `logic`: the backend, server and per-slot state machines (start/stop,
    locking to one phone, routing datagrams, slot life cycle);
  - `notifier`: which desktop notifications to show and their texts;
  - `state`: what the user interface shows and how events change it;
  - `updater`: comparing a release tag with the running version (`semver`);
  - `discovery`: the name announced by the network beacon;
  - `bits`, `text`, `config`, `events`: shared facts, types and constants.
- `app/` is the program around it: the window (eframe/egui), the tray icon,
  the tokio tasks, sockets, the driver, HTTP and notifications. It performs
  the effects that the library's state machines decide, and keeps the
  floating-point parts (deadzone scaling, rumble strength).

`tests/` exercises the library on concrete scenarios.
