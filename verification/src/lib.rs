//! VT-100 output handling for a terminal multiplexer: decoding of CSI
//! parameters, the terminal mode state, and the line, erase and mode
//! operations that CSI sequences drive on an offscreen buffer.

pub mod csi_params;
pub mod terminal_mode;
pub mod modes;
pub mod offscreen_buffer;
pub mod performer;
pub mod line_ops;
pub mod mode_ops;
pub mod panic_message;
