# tiliqua_fw

Firmware logic for three images on the Tiliqua Eurorack module, written in
Verus with its behaviour stated as contracts and proved:

- `src/mbsid/` — the MBSID dual-SID synth: the menu state machine and the
  frames it draws, the Lead patch parameter table, SysEx patch capture, the
  flash-backed user bank and settings record, whole-bank import, USB patch
  files (`.SYX` parsing and export encoding), the FAT volume stream over a
  512-byte block device with its partition search, the USB mass-storage
  polling steps, SID register diffing, CV routing, MIDI dispatch and the
  status line.
- `src/sid_player/` — the hardware SID player: PSID header parsing, `.SID`
  names, the three-row menu, and the peripheral register views.
- `src/sid_player_sw/` — the software SID player: PSID parsing and play
  rate, tune loading into the 6502 image, the SID write log and its replay
  timing, the 6502 bootstrap stubs and the two-card menu.
- `src/outside.rs` — the trusted declarations through which the library
  uses `heapless`, `midi-convert` and `core::str`.

`tests/` exercises the library with concrete values. `app/` is the board
glue (FAT file access through `fatfs`, the `mos6502` bus, diff painting with
`embedded-graphics`, the uptime counter, the NOR flash adapter and the
interrupt and main-loop plumbing); it is plain Rust around the library.

The board firmware reaches `embedded-graphics` (drawing) and
`embedded-storage` (the NOR flash traits) through the board support
crate, which re-exports them; here they are named directly, since only
those two interfaces are used. The flash, drive and engine drivers in
`app/` implement the library's `NorStore`, `BlockIo` and `CvSink` traits
without their specification models, so the proved contracts of those
traits, and what is proved through them, describe the in-memory
implementations in `src/` and not the hardware drivers.
