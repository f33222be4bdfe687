//! Set Mode (`CSI h`) and Reset Mode (`CSI l`). Only DEC private modes (the
//! `?` marker) are acted on; standard modes leave the state as it is.

use vstd::prelude::*;
use crate::csi_params::params_groups_view;
use crate::modes::{PrivateModeType, BRACKETED_PASTE};
use crate::offscreen_buffer::{blank_lines, OffscreenBuffer};
use crate::performer::AnsiToOfsBufPerformer;
use crate::terminal_mode::{
    ActiveScreenBuffer,
    BracketedPasteMode,
    CursorKeyMode,
    TerminalModeState,
};

verus! {

/// The marker byte that makes a CSI mode sequence a DEC private one.
pub const PRIVATE_MODE_MARKER: u8 = 0x3f;

/// The terminal modes after a private mode was turned on or off: cursor keys
/// and bracketed paste follow both ways, the alternate screen too, focus
/// events are only turned on; every other mode leaves the state as it is.
pub open spec fn modes_after(
    state: TerminalModeState,
    mode: PrivateModeType,
    enabled: bool,
) -> TerminalModeState {
    match mode {
        PrivateModeType::CursorKeys => TerminalModeState {
            cursor_key_mode: if enabled {
                CursorKeyMode::Application
            } else {
                CursorKeyMode::Normal
            },
            ..state
        },
        PrivateModeType::AlternateScreenBuffer => TerminalModeState {
            active_screen_buffer: if enabled {
                ActiveScreenBuffer::Alternate
            } else {
                ActiveScreenBuffer::Primary
            },
            ..state
        },
        PrivateModeType::BracketedPaste => TerminalModeState {
            bracketed_paste: if enabled {
                BracketedPasteMode::Enabled
            } else {
                BracketedPasteMode::Disabled
            },
            ..state
        },
        PrivateModeType::FocusEvents => if enabled {
            TerminalModeState { focus_events: true, ..state }
        } else {
            state
        },
        _ => state,
    }
}

/// `after` is `before` with a private mode turned on or off: auto-wrap and
/// the terminal modes follow the mode, leaving the alternate screen clears
/// every cell, and nothing else changes.
pub open spec fn private_mode_applied(
    before: OffscreenBuffer,
    after: OffscreenBuffer,
    mode: PrivateModeType,
    enabled: bool,
) -> bool {
    &&& after.window_size == before.window_size
    &&& after.cursor_pos == before.cursor_pos
    &&& after.scroll_top == before.scroll_top
    &&& after.scroll_bottom == before.scroll_bottom
    &&& after.current_style == before.current_style
    &&& after.auto_wrap_mode == (if mode == PrivateModeType::AutoWrap {
        enabled
    } else {
        before.auto_wrap_mode
    })
    &&& after.terminal_mode == modes_after(before.terminal_mode, mode, enabled)
    &&& after.lines() == (if mode == PrivateModeType::AlternateScreenBuffer && !enabled {
        blank_lines(before.window_size.row_height as nat, before.window_size.col_width as nat)
    } else {
        before.lines()
    })
}

/// Turning a private mode on or off and then on or off again leaves the
/// terminal modes as the second change alone would: the last change wins.
/// Focus events are left out, since resetting them changes nothing.
pub proof fn lemma_last_mode_change_wins(
    state: TerminalModeState,
    mode: PrivateModeType,
    first: bool,
    second: bool,
)
    requires
        mode != PrivateModeType::FocusEvents,
    ensures
        modes_after(modes_after(state, mode, first), mode, second) == modes_after(
            state,
            mode,
            second,
        ),
{
}

/// A private mode change touches only the terminal mode that it names.
pub proof fn lemma_mode_change_is_local(
    state: TerminalModeState,
    mode: PrivateModeType,
    enabled: bool,
)
    ensures
        mode != PrivateModeType::CursorKeys ==> modes_after(state, mode, enabled).cursor_key_mode
            == state.cursor_key_mode,
        mode != PrivateModeType::AlternateScreenBuffer ==> modes_after(
            state,
            mode,
            enabled,
        ).active_screen_buffer == state.active_screen_buffer,
        mode != PrivateModeType::BracketedPaste ==> modes_after(state, mode, enabled).bracketed_paste
            == state.bracketed_paste,
        mode != PrivateModeType::FocusEvents ==> modes_after(state, mode, enabled).focus_events
            == state.focus_events,
        !enabled ==> modes_after(state, mode, enabled).focus_events == state.focus_events,
        modes_after(state, mode, enabled).synchronized_output == state.synchronized_output,
        modes_after(state, mode, enabled).mouse_tracking_mode == state.mouse_tracking_mode,
        modes_after(state, mode, enabled).mouse_tracking_format == state.mouse_tracking_format,
{
}

/// After `CSI ? 2004 h` bracketed paste is reported enabled, after
/// `CSI ? 2004 l` disabled.
pub proof fn lemma_bracketed_paste_follows_mode_2004(state: TerminalModeState, enabled: bool)
    ensures
        (modes_after(state, PrivateModeType::from_code_spec(BRACKETED_PASTE), enabled).bracketed_paste
            == BracketedPasteMode::Enabled) == enabled,
{
}

/// A private mode change sets the state it names whatever that state was:
/// cursor keys, the alternate screen and bracketed paste follow `enabled`,
/// and turning focus events on leaves them on.
pub proof fn lemma_mode_change_takes_effect(state: TerminalModeState, enabled: bool)
    ensures
        modes_after(state, PrivateModeType::CursorKeys, enabled).cursor_key_mode == (if enabled {
            CursorKeyMode::Application
        } else {
            CursorKeyMode::Normal
        }),
        modes_after(state, PrivateModeType::AlternateScreenBuffer, enabled).active_screen_buffer
            == (if enabled {
            ActiveScreenBuffer::Alternate
        } else {
            ActiveScreenBuffer::Primary
        }),
        modes_after(state, PrivateModeType::BracketedPaste, enabled).bracketed_paste == (if enabled {
            BracketedPasteMode::Enabled
        } else {
            BracketedPasteMode::Disabled
        }),
        modes_after(state, PrivateModeType::FocusEvents, true).focus_events,
{
}

/// Setting a private mode twice is the same as setting it once, for every
/// mode.
pub proof fn lemma_setting_mode_is_idempotent(state: TerminalModeState, mode: PrivateModeType)
    ensures
        modes_after(modes_after(state, mode, true), mode, true) == modes_after(state, mode, true),
{
}

/// Whether the intermediates of a CSI sequence hold the private marker `?`.
pub fn has_private_marker(intermediates: &[u8]) -> (private: bool)
    ensures
        private == intermediates@.contains(PRIVATE_MODE_MARKER),
{
    let mut i: usize = 0;
    while i < intermediates.len()
        invariant
            i <= intermediates@.len(),
            forall|j: int| 0 <= j < i ==> intermediates@[j] != PRIVATE_MODE_MARKER,
        decreases intermediates.len() - i,
    {
        if intermediates[i] == PRIVATE_MODE_MARKER {
            assert(intermediates@[i as int] == PRIVATE_MODE_MARKER);
            return true;
        }
        i = i + 1;
    }
    false
}

/// Turns a private mode on or off in the buffer's state.
fn apply_private_mode(ofs_buf: &mut OffscreenBuffer, mode: PrivateModeType, enabled: bool)
    requires
        old(ofs_buf).wf(),
    ensures
        final(ofs_buf).wf(),
        private_mode_applied(*old(ofs_buf), *final(ofs_buf), mode, enabled),
{
    match mode {
        PrivateModeType::AutoWrap => {
            ofs_buf.set_auto_wrap_mode(enabled);
        },
        PrivateModeType::AlternateScreenBuffer => {
            ofs_buf.set_alternate_screen_mode(enabled);
            if !enabled {
                ofs_buf.clear();
            }
        },
        PrivateModeType::CursorKeys => {
            ofs_buf.terminal_mode.cursor_key_mode =
                if enabled {
                    CursorKeyMode::Application
                } else {
                    CursorKeyMode::Normal
                };
        },
        PrivateModeType::BracketedPaste => {
            ofs_buf.terminal_mode.bracketed_paste =
                if enabled {
                    BracketedPasteMode::Enabled
                } else {
                    BracketedPasteMode::Disabled
                };
        },
        PrivateModeType::FocusEvents => {
            if enabled {
                ofs_buf.terminal_mode.focus_events = true;
            }
        },
        PrivateModeType::Other(_) => {},
    }
}

/// Handles Set Mode (`CSI h`): with the `?` marker, turns on the private
/// mode that the first parameter selects; a standard mode changes nothing.
pub fn set_mode(performer: &mut AnsiToOfsBufPerformer, params: &vte::Params, intermediates: &[u8])
    requires
        old(performer).ofs_buf.wf(),
    ensures
        final(performer).ofs_buf.wf(),
        intermediates@.contains(PRIVATE_MODE_MARKER) ==> private_mode_applied(
            old(performer).ofs_buf,
            final(performer).ofs_buf,
            PrivateModeType::from_params_spec(params_groups_view(*params)),
            true,
        ),
        !intermediates@.contains(PRIVATE_MODE_MARKER) ==> final(performer).ofs_buf == old(
            performer,
        ).ofs_buf,
{
    let is_private_mode = has_private_marker(intermediates);
    if is_private_mode {
        let mode = PrivateModeType::from_params(params);
        apply_private_mode(&mut performer.ofs_buf, mode, true);
    }
}

/// Handles Reset Mode (`CSI l`): with the `?` marker, turns off the private
/// mode that the first parameter selects, clearing the buffer when it leaves
/// the alternate screen; a standard mode changes nothing.
pub fn reset_mode(
    performer: &mut AnsiToOfsBufPerformer,
    params: &vte::Params,
    intermediates: &[u8],
)
    requires
        old(performer).ofs_buf.wf(),
    ensures
        final(performer).ofs_buf.wf(),
        intermediates@.contains(PRIVATE_MODE_MARKER) ==> private_mode_applied(
            old(performer).ofs_buf,
            final(performer).ofs_buf,
            PrivateModeType::from_params_spec(params_groups_view(*params)),
            false,
        ),
        !intermediates@.contains(PRIVATE_MODE_MARKER) ==> final(performer).ofs_buf == old(
            performer,
        ).ofs_buf,
{
    let is_private_mode = has_private_marker(intermediates);
    if is_private_mode {
        let mode = PrivateModeType::from_params(params);
        apply_private_mode(&mut performer.ofs_buf, mode, false);
    }
}

} // verus!
