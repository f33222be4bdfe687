//! The typed readings of the raw CSI parameters that select a private mode or
//! an erase region.

use vstd::prelude::*;
use crate::csi_params::{extract_nth_single_opt_raw, nth_first, params_groups_view};

verus! {

/// DEC private mode numbers that the performer acts on.
pub const DECCKM_CURSOR_KEYS: u16 = 1;
pub const DECAWM_AUTO_WRAP: u16 = 7;
pub const FOCUS_EVENTS: u16 = 1004;
pub const ALTERNATE_SCREEN_BUFFER: u16 = 1049;
pub const BRACKETED_PASTE: u16 = 2004;

/// A DEC private mode, as selected by `CSI ? n h` / `CSI ? n l`.
#[derive(Debug, Clone, Copy, PartialEq, Eq, Structural)]
pub enum PrivateModeType {
    CursorKeys,
    AutoWrap,
    FocusEvents,
    AlternateScreenBuffer,
    BracketedPaste,
    Other(u16),
}

impl PrivateModeType {
    /// The mode that a mode number names.
    pub open spec fn from_code_spec(code: u16) -> PrivateModeType {
        if code == DECCKM_CURSOR_KEYS {
            PrivateModeType::CursorKeys
        } else if code == DECAWM_AUTO_WRAP {
            PrivateModeType::AutoWrap
        } else if code == FOCUS_EVENTS {
            PrivateModeType::FocusEvents
        } else if code == ALTERNATE_SCREEN_BUFFER {
            PrivateModeType::AlternateScreenBuffer
        } else if code == BRACKETED_PASTE {
            PrivateModeType::BracketedPaste
        } else {
            PrivateModeType::Other(code)
        }
    }

    /// The mode number of a mode.
    pub open spec fn code_spec(self) -> u16 {
        match self {
            PrivateModeType::CursorKeys => DECCKM_CURSOR_KEYS,
            PrivateModeType::AutoWrap => DECAWM_AUTO_WRAP,
            PrivateModeType::FocusEvents => FOCUS_EVENTS,
            PrivateModeType::AlternateScreenBuffer => ALTERNATE_SCREEN_BUFFER,
            PrivateModeType::BracketedPaste => BRACKETED_PASTE,
            PrivateModeType::Other(code) => code,
        }
    }

    /// The mode that the first parameter of a sequence selects; a sequence
    /// without a value selects mode number 0.
    pub open spec fn from_params_spec(groups: Seq<Seq<u16>>) -> PrivateModeType {
        match nth_first(groups, 0) {
            Some(code) => PrivateModeType::from_code_spec(code),
            None => PrivateModeType::from_code_spec(0),
        }
    }

    pub fn from_code(code: u16) -> (mode: PrivateModeType)
        ensures
            mode == PrivateModeType::from_code_spec(code),
    {
        if code == DECCKM_CURSOR_KEYS {
            PrivateModeType::CursorKeys
        } else if code == DECAWM_AUTO_WRAP {
            PrivateModeType::AutoWrap
        } else if code == FOCUS_EVENTS {
            PrivateModeType::FocusEvents
        } else if code == ALTERNATE_SCREEN_BUFFER {
            PrivateModeType::AlternateScreenBuffer
        } else if code == BRACKETED_PASTE {
            PrivateModeType::BracketedPaste
        } else {
            PrivateModeType::Other(code)
        }
    }

    pub fn from_params(params: &vte::Params) -> (mode: PrivateModeType)
        ensures
            mode == PrivateModeType::from_params_spec(params_groups_view(*params)),
    {
        match extract_nth_single_opt_raw(params, 0) {
            Some(code) => PrivateModeType::from_code(code),
            None => PrivateModeType::from_code(0),
        }
    }

    pub fn as_u16(&self) -> (code: u16)
        ensures
            code == self.code_spec(),
    {
        match self {
            PrivateModeType::CursorKeys => DECCKM_CURSOR_KEYS,
            PrivateModeType::AutoWrap => DECAWM_AUTO_WRAP,
            PrivateModeType::FocusEvents => FOCUS_EVENTS,
            PrivateModeType::AlternateScreenBuffer => ALTERNATE_SCREEN_BUFFER,
            PrivateModeType::BracketedPaste => BRACKETED_PASTE,
            PrivateModeType::Other(code) => *code,
        }
    }
}

/// Reading a mode number as a mode and back gives the same number.
pub proof fn lemma_private_mode_code_round_trip(code: u16)
    ensures
        PrivateModeType::from_code_spec(code).code_spec() == code,
{
}

/// The region that EL (Erase Line) clears.
#[derive(Debug, Clone, Copy, PartialEq, Eq, Structural)]
pub enum EraseLineMode {
    /// `0`, also the default: from the cursor to the end of the line.
    FromCursorToEnd,
    /// `1`: from the start of the line to the cursor.
    FromStartToCursor,
    /// `2`: the entire line.
    EntireLine,
}

impl EraseLineMode {
    /// `1` and `2` select their regions; every other value selects the
    /// default region.
    pub open spec fn from_code_spec(code: u16) -> EraseLineMode {
        if code == 1 {
            EraseLineMode::FromStartToCursor
        } else if code == 2 {
            EraseLineMode::EntireLine
        } else {
            EraseLineMode::FromCursorToEnd
        }
    }

    pub fn from_code(code: u16) -> (mode: EraseLineMode)
        ensures
            mode == EraseLineMode::from_code_spec(code),
    {
        if code == 1 {
            EraseLineMode::FromStartToCursor
        } else if code == 2 {
            EraseLineMode::EntireLine
        } else {
            EraseLineMode::FromCursorToEnd
        }
    }
}

/// The region that ED (Erase Display) clears.
#[derive(Debug, Clone, Copy, PartialEq, Eq, Structural)]
pub enum EraseDisplayMode {
    /// `0`, also the default: from the cursor to the end of the display.
    FromCursorToEnd,
    /// `1`: from the start of the display to the cursor.
    FromStartToCursor,
    /// `2`, and `3` (display and scrollback): the entire display.
    EntireDisplay,
}

impl EraseDisplayMode {
    /// `1` selects the region before the cursor, `2` and `3` the whole
    /// display; every other value selects the default region.
    pub open spec fn from_code_spec(code: u16) -> EraseDisplayMode {
        if code == 1 {
            EraseDisplayMode::FromStartToCursor
        } else if code == 2 || code == 3 {
            EraseDisplayMode::EntireDisplay
        } else {
            EraseDisplayMode::FromCursorToEnd
        }
    }

    pub fn from_code(code: u16) -> (mode: EraseDisplayMode)
        ensures
            mode == EraseDisplayMode::from_code_spec(code),
    {
        if code == 1 {
            EraseDisplayMode::FromStartToCursor
        } else if code == 2 || code == 3 {
            EraseDisplayMode::EntireDisplay
        } else {
            EraseDisplayMode::FromCursorToEnd
        }
    }
}

/// ED with parameter 3 (display and scrollback) erases as ED with 2 does.
pub proof fn lemma_erase_display_3_is_2()
    ensures
        EraseDisplayMode::from_code_spec(3) == EraseDisplayMode::from_code_spec(2),
{
}

} // verus!
