use r3bl_tui::modes::{
    EraseDisplayMode, EraseLineMode, PrivateModeType, ALTERNATE_SCREEN_BUFFER, BRACKETED_PASTE,
    DECAWM_AUTO_WRAP,
};
use r3bl_tui::terminal_mode::{
    ActiveScreenBuffer, BracketedPasteMode, CursorKeyMode, MouseTrackingFormat, MouseTrackingMode,
    TerminalModeState,
};

#[test]
fn default_terminal_mode_state_has_every_mode_off() {
    let state = TerminalModeState::default();
    assert_eq!(state.cursor_key_mode, CursorKeyMode::Normal);
    assert_eq!(state.active_screen_buffer, ActiveScreenBuffer::Primary);
    assert_eq!(state.mouse_tracking_mode, MouseTrackingMode::Disabled);
    assert_eq!(state.mouse_tracking_format, MouseTrackingFormat::X10);
    assert_eq!(state.bracketed_paste, BracketedPasteMode::Disabled);
    assert!(!state.focus_events);
    assert!(!state.synchronized_output);
    assert!(!state.is_bracketed_paste_enabled());
}

#[test]
fn bracketed_paste_enabled_is_reported() {
    let state = TerminalModeState {
        bracketed_paste: BracketedPasteMode::Enabled,
        ..TerminalModeState::default()
    };
    assert!(state.is_bracketed_paste_enabled());
}

#[test]
fn private_mode_numbers_name_modes() {
    assert_eq!(PrivateModeType::from_code(1), PrivateModeType::CursorKeys);
    assert_eq!(PrivateModeType::from_code(7), PrivateModeType::AutoWrap);
    assert_eq!(PrivateModeType::from_code(1004), PrivateModeType::FocusEvents);
    assert_eq!(PrivateModeType::from_code(1049), PrivateModeType::AlternateScreenBuffer);
    assert_eq!(PrivateModeType::from_code(2004), PrivateModeType::BracketedPaste);
    assert_eq!(PrivateModeType::from_code(2026), PrivateModeType::Other(2026));
    assert_eq!(PrivateModeType::from_code(25), PrivateModeType::Other(25));
}

#[test]
fn private_mode_number_round_trips() {
    for code in [0u16, 1, 7, 25, 1004, 1049, 2004, 2026, u16::MAX] {
        assert_eq!(PrivateModeType::from_code(code).as_u16(), code);
    }
    assert_eq!(PrivateModeType::AutoWrap.as_u16(), DECAWM_AUTO_WRAP);
    assert_eq!(PrivateModeType::AlternateScreenBuffer.as_u16(), ALTERNATE_SCREEN_BUFFER);
    assert_eq!(PrivateModeType::BracketedPaste.as_u16(), BRACKETED_PASTE);
}

#[test]
fn erase_line_mode_numbers() {
    assert_eq!(EraseLineMode::from_code(0), EraseLineMode::FromCursorToEnd);
    assert_eq!(EraseLineMode::from_code(1), EraseLineMode::FromStartToCursor);
    assert_eq!(EraseLineMode::from_code(2), EraseLineMode::EntireLine);
    assert_eq!(EraseLineMode::from_code(9), EraseLineMode::FromCursorToEnd);
}

#[test]
fn erase_display_mode_numbers() {
    assert_eq!(EraseDisplayMode::from_code(0), EraseDisplayMode::FromCursorToEnd);
    assert_eq!(EraseDisplayMode::from_code(1), EraseDisplayMode::FromStartToCursor);
    assert_eq!(EraseDisplayMode::from_code(2), EraseDisplayMode::EntireDisplay);
    assert_eq!(EraseDisplayMode::from_code(3), EraseDisplayMode::from_code(2));
    assert_eq!(EraseDisplayMode::from_code(4), EraseDisplayMode::FromCursorToEnd);
}
