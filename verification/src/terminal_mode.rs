//! The operational modes that the program behind the PTY has requested.

use vstd::prelude::*;

verus! {

/// Whether cursor keys send normal or application escape sequences (DECCKM).
#[derive(Debug, Clone, Copy, PartialEq, Eq, Structural)]
pub enum CursorKeyMode {
    Normal,
    Application,
}

/// Which screen buffer receives the output.
#[derive(Debug, Clone, Copy, PartialEq, Eq, Structural)]
pub enum ActiveScreenBuffer {
    Primary,
    Alternate,
}

/// Whether the program asked for mouse events.
#[derive(Debug, Clone, Copy, PartialEq, Eq, Structural)]
pub enum MouseTrackingMode {
    Disabled,
    Enabled,
}

/// The encoding the program asked for mouse events: X10 or SGR.
#[derive(Debug, Clone, Copy, PartialEq, Eq, Structural)]
pub enum MouseTrackingFormat {
    X10,
    Sgr,
}

/// Bracketed paste mode (DECSET/DECRST 2004).
#[derive(Debug, Clone, Copy, PartialEq, Eq, Structural)]
pub enum BracketedPasteMode {
    Enabled,
    Disabled,
}

/// State tracking for the terminal's operational modes, kept by the VT-100
/// parser performer for the program running in the PTY.
#[derive(Debug, Clone, Copy, PartialEq, Eq, Structural)]
pub struct TerminalModeState {
    /// Cursor key mode (DECCKM), toggled by `CSI ? 1 h` / `CSI ? 1 l`.
    pub cursor_key_mode: CursorKeyMode,
    /// Alternate screen buffer, toggled by `CSI ? 1049 h` / `CSI ? 1049 l`.
    pub active_screen_buffer: ActiveScreenBuffer,
    /// Mouse tracking enabled or disabled.
    pub mouse_tracking_mode: MouseTrackingMode,
    /// Mouse tracking encoding format.
    pub mouse_tracking_format: MouseTrackingFormat,
    /// Bracketed paste mode, updated by `CSI ? 2004 h` / `CSI ? 2004 l`.
    pub bracketed_paste: BracketedPasteMode,
    /// Focus event reporting, enabled by `CSI ? 1004 h`.
    pub focus_events: bool,
    /// Synchronized output (DEC private mode 2026).
    pub synchronized_output: bool,
}

impl TerminalModeState {
    /// The state of a terminal that no program has changed yet.
    pub open spec fn initial() -> TerminalModeState {
        TerminalModeState {
            cursor_key_mode: CursorKeyMode::Normal,
            active_screen_buffer: ActiveScreenBuffer::Primary,
            mouse_tracking_mode: MouseTrackingMode::Disabled,
            mouse_tracking_format: MouseTrackingFormat::X10,
            bracketed_paste: BracketedPasteMode::Disabled,
            focus_events: false,
            synchronized_output: false,
        }
    }

    /// Whether the PTY child has enabled bracketed paste mode (DECSET 2004).
    pub fn is_bracketed_paste_enabled(&self) -> (enabled: bool)
        ensures
            enabled == (self.bracketed_paste == BracketedPasteMode::Enabled),
    {
        self.bracketed_paste == BracketedPasteMode::Enabled
    }
}

impl Default for TerminalModeState {
    fn default() -> (state: TerminalModeState)
        ensures
            state == TerminalModeState::initial(),
    {
        TerminalModeState {
            cursor_key_mode: CursorKeyMode::Normal,
            active_screen_buffer: ActiveScreenBuffer::Primary,
            mouse_tracking_mode: MouseTrackingMode::Disabled,
            mouse_tracking_format: MouseTrackingFormat::X10,
            bracketed_paste: BracketedPasteMode::Disabled,
            focus_events: false,
            synchronized_output: false,
        }
    }
}

} // verus!
