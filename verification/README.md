# awesome_clicker

The decision logic of a desktop auto clicker, verified with Verus.

- `src/clicker.rs`: click settings, and the pause after a click (interval plus a random offset).
- `src/worker.rs`: the clicking worker as a state machine, driven by a thread that performs
  its actions; interruptible sleeps taken in chunks.
- `src/session.rs`: the window state: sequence editor, start/stop, capture, status line.
- `src/hotkey.rs`: bindable keys, the two hotkey bindings, turning input into hotkey events.
- `src/profile.rs`, `src/text.rs`: profile file names and listing order; decimal and name formatting.
- `app/`: the egui window, the worker and listener threads, mouse control and profile files.
