# corefw

Verified core of a custom firmware for Novation Launchpad controllers,
written in Verus. The library holds the logic; `app/` is a small host-side
runner that feeds it events from standard input.

Layout of `src/`:

- `events`, `driver`, `palette`, `settings`, `led`, `system`: the LED engine
  (steady, flashing and pulsing layers on a MIDI-clock tempo), palettes,
  user settings, and `Sys`, the state every app acts on.
- `app`: the app host (app switching, the setup button, event routing), the
  power-up animation, performance and programmer modes, the palette editor
  and the setup pages.
- `usb`: descriptors, the endpoint 0 control state machine, the USB queues
  and packet-memory/FIFO packing.
- `storage`: settings in internal flash, planned as page programs.
- `launchpad_pro`, `launchpad_pro_mk3`, `launchpad_mk2`, `launchpad_mini_mk3`,
  `launchpad_s_and_mini`: per-device surface decoding (pad state machines,
  debouncing, scan sequencing, LED payloads), the DIN MIDI port and the
  co-processor link.

The app layer is built for the Launchpad Pro: RGB palettes, pressure-sensitive
pads, a setup button at index 0 and page buttons 93/94. Tables that depend on
the board (palettes, note layout, orientation mappings, the animation) are
data handed to the library.
