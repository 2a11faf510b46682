# asus_touchpad_numpad

A userspace driver that turns the touchpad of supported ASUS laptops into a
numpad overlay, as a Verus-verified library (`src/`) and a thin program around
it (`app/`).

`src/` holds the logic, each function with a contract that Verus proves:

- `text` — the string operations the readers are built from (trim, split,
  lines, words, integer parsing and printing), specified over `Seq<char>`.
- `config` — the configuration model, the bundled default layouts, and the
  validation of a configuration (active layout, keymap resolution).
- `sys::proc` — parsing of `/proc/bus/input/devices` and the touchpad search.
- `sys::keyboard` — AZERTY/QWERTY detection from `vconsole.conf` or `localectl`.
- `sys::touchpad` — the touchpad's setup and the event loop's decisions, a
  state machine from touch events to actions, with its laws.
- `logger`, `sys::utils` — log level names, message prefixes, paths, board names.

`app/` reads files, talks to evdev, uinput and I2C, logs, and computes the
touch position's zone and grid cell on `f32` ratios; it asks the library what
each event means and performs the answer.
