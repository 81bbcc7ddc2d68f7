# hyprbar

The verified core of a Wayland status bar for Hyprland: the state machines,
parsers, calendar arithmetic and text formatting behind its pills (clock,
date, command center, notifications, profile) and their dropdown panels.

- `src/` is the library, written in Verus: its functions carry contracts
  (a few, such as the worker's shutdown flag, have nothing to promise
  about a value that other threads change), and the properties that span several calls (alarms stay in time
  order, an alarm rings once per minute, a press outside the open dropdown
  closes it, actions survive the trip through an interaction, ...) are
  stated and proved as proof functions beside the code they speak of.
- `app/` is the runtime around it: processes (`wpctl`, `nmcli`,
  `hyprnotify`, `notify-send`), files, the system clock, worker threads and
  the stores they share, and the floating-point geometry.
- `tests/` exercises the library on concrete values.

Times inside the library are nanoseconds on a monotonic clock (`u128`);
the runtime converts from `Instant` and `Duration`.
