# simple_wayland

A small Wayland client toolkit, verified with Verus: a window with minimal decorations
(one-pixel borders, a title bar with close / maximize / minimize buttons), a screen that
keeps its pixels between drawing calls and prints with a built-in bitmapped font, and the
translation of compositor input into simple events (`Way`) for a polling main loop.

Layout:

- `src/` — the verified library. `font`, `pool`, `canvas` and `screen` draw into a model
  of the shared-memory pool; `buttons`, `frame` and `redraw` decide what the decorations
  look like and how they react to the pointer; `events` turns window, pointer and keyboard
  input into `Way` events; `pixels` encodes pixels for the compositor (through
  `byteorder`); `laws` states and proves the properties that span several functions.
- `tests/` — tests of the library on concrete values.
- `app/` — the Wayland side (smithay-client-toolkit): connection, surfaces, buffers,
  input devices and the demo program. It hands plain values to the library and carries
  its answers out.
