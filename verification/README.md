# gupax

The decisions behind the Gupax window, verified with Verus.

- `src/` is the verified library:
  - `keys`: the keyboard shortcuts (tab and submenu navigation, fullscreen).
  - `tab`: the tabs shown for the processes the user chose to show.
  - `submenu`: the submenus of the Status, P2Pool and Settings tabs.
  - `process`: the processes and the states the GUI reads of them each frame.
  - `notification`: the desktop notification service, as a state machine
    stepped once per subscribed notification.
  - `updates`: the warnings before a downgrade or a switch to a BETA, and the
    start-up question about missing binaries.
  - `nodes`: the refresh of the pinged remote nodes and of the backup hosts.
  - `app`, `errors`, `text`: the window's state, the error shown over it, and
    the string functions the rest needs.
- `app/` reads egui's input and the disk, shows desktop notifications, runs
  the notification loop on its own thread and installs the panic hook.
- `tests/` runs the library on concrete values.
