# deskbridge

Deskbridge shares one keyboard, mouse and clipboard between computers on a
local network: a server captures input and hands it to a client when the
pointer crosses a screen edge, and both sides keep their clipboards in step.

- `src/` is the verified library: the wire protocol, the pointer router, the
  keyboard and modifier routing, the input sinks and capture state machines
  for Linux, macOS and Windows, clipboard echo suppression, the parsers for
  `xrandr`, `wlr-randr`, `xdpyinfo`, `/proc/bus/input/devices` and
  `text/uri-list`, the configuration file, and the file-transfer checks.
  Each public function states what it returns in its contract, and the
  `law_*` proof functions state what holds across calls.
- `app/` is the program around it: sockets, threads, processes, uinput,
  X11, Windows hooks, raw input and SendInput, the macOS event tap and HID
  shim, the floating-point smooth scroller, and the settings file on disk.
- `tests/` runs the library on concrete values.
