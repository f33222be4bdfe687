# r3bl_tui (VT-100 shims)

The part of a terminal multiplexer that turns CSI sequences from a PTY child
into edits of an offscreen buffer, written in Verus.

- `src/csi_params.rs`: the `vte::Params` list, handed out through one trusted
  conversion, and the VT-100 reading of a parameter (a missing or zero count
  means 1).
- `src/modes.rs`: DEC private modes and the erase regions selected by
  parameters.
- `src/terminal_mode.rs`: the terminal mode state.
- `src/offscreen_buffer.rs`: the cell grid with cursor, scroll region and
  style; IL, DL, EL, ED and clear, each with an exact contract, and the laws
  relating them.
- `src/line_ops.rs`, `src/mode_ops.rs`: the CSI handlers (`L`, `M`, `K`, `J`,
  `h`, `l`).
- `src/panic_message.rs`: the message read from a caught panic's payload.
- `app/lib.rs`: what needs the OS or `dyn Any`: downcasting panic payloads,
  spawning the test executable, the Windows error-mode call.
- `tests/`: the handlers driven by `vte::Parser` over real byte streams.
