use r3bl_tui::csi_params::{
    extract_nth_single_non_zero, extract_nth_single_opt_raw, nth_single_non_zero,
    nth_single_opt_raw,
};
use r3bl_tui::line_ops::{delete_lines, erase_display, erase_line, insert_lines};
use r3bl_tui::mode_ops::{has_private_marker, reset_mode, set_mode};
use r3bl_tui::offscreen_buffer::{OffscreenBuffer, PixelChar, Pos, Size, TuiStyle};
use r3bl_tui::performer::AnsiToOfsBufPerformer;
use r3bl_tui::terminal_mode::{ActiveScreenBuffer, BracketedPasteMode, CursorKeyMode};

/// Routes the CSI sequences of a byte stream to the shims, recording how the
/// first parameter of each was read.
struct Dispatcher {
    performer: AnsiToOfsBufPerformer,
    counts: Vec<u16>,
    raws: Vec<Option<u16>>,
}

impl vte::Perform for Dispatcher {
    fn csi_dispatch(
        &mut self,
        params: &vte::Params,
        intermediates: &[u8],
        _ignore: bool,
        action: char,
    ) {
        self.counts.push(extract_nth_single_non_zero(params, 0));
        self.raws.push(extract_nth_single_opt_raw(params, 0));
        match action {
            'L' => insert_lines(&mut self.performer, params),
            'M' => delete_lines(&mut self.performer, params),
            'K' => erase_line(&mut self.performer, params),
            'J' => erase_display(&mut self.performer, params),
            'h' => set_mode(&mut self.performer, params, intermediates),
            'l' => reset_mode(&mut self.performer, params, intermediates),
            _ => {}
        }
    }
}

const STYLE: TuiStyle = TuiStyle { fg_color: Some(1), bg_color: Some(4) };

fn text(c: char) -> PixelChar {
    PixelChar::PlainText { display_char: c, style: TuiStyle { fg_color: None, bg_color: None } }
}

/// A buffer of `rows` x `cols` whose row `r` holds `'a' + r` in every cell.
fn lettered(rows: usize, cols: usize) -> OffscreenBuffer {
    let mut buf = OffscreenBuffer::new_empty(Size { row_height: rows, col_width: cols });
    for r in 0..rows {
        for c in 0..cols {
            assert!(buf.set_char(Pos { row_index: r, col_index: c }, text((b'a' + r as u8) as char)));
        }
    }
    buf
}

fn run(ofs_buf: OffscreenBuffer, bytes: &[u8]) -> Dispatcher {
    let mut parser = vte::Parser::new();
    let mut dispatcher = Dispatcher {
        performer: AnsiToOfsBufPerformer::new(ofs_buf),
        counts: Vec::new(),
        raws: Vec::new(),
    };
    parser.advance(&mut dispatcher, bytes);
    dispatcher
}

/// One character per cell: the letter, `_` for a styled space, `.` for an
/// empty cell.
fn render(buf: &OffscreenBuffer) -> Vec<String> {
    buf.buffer
        .iter()
        .map(|line| {
            line.iter()
                .map(|cell| match cell {
                    PixelChar::Spacer => '.',
                    PixelChar::PlainText { display_char: ' ', style } => {
                        assert_eq!(*style, STYLE);
                        '_'
                    }
                    PixelChar::PlainText { display_char, .. } => *display_char,
                })
                .collect()
        })
        .collect()
}

fn rows(expected: &[&str]) -> Vec<String> {
    expected.iter().map(|s| s.to_string()).collect()
}

fn with_cursor(mut buf: OffscreenBuffer, row: usize, col: usize) -> OffscreenBuffer {
    buf.set_cursor_pos(Pos { row_index: row, col_index: col });
    buf.set_current_style(STYLE);
    buf
}

#[test]
fn missing_or_zero_count_means_one() {
    let d = run(lettered(2, 2), b"\x1b[L\x1b[0L\x1b[3L\x1b[5;7L");
    assert_eq!(d.counts, vec![1, 1, 3, 5]);
    assert_eq!(d.raws, vec![Some(0), Some(0), Some(3), Some(5)]);
}

#[test]
fn subparameters_belong_to_their_parameter() {
    let d = run(lettered(2, 2), b"\x1b[4:2;9m");
    assert_eq!(d.counts, vec![4]);
    assert_eq!(d.raws, vec![Some(4)]);
}

#[test]
fn nth_value_of_plain_groups() {
    let groups = vec![vec![0u16], vec![12, 3], vec![]];
    assert_eq!(nth_single_opt_raw(&groups, 0), Some(0));
    assert_eq!(nth_single_opt_raw(&groups, 1), Some(12));
    assert_eq!(nth_single_opt_raw(&groups, 2), None);
    assert_eq!(nth_single_opt_raw(&groups, 3), None);
    assert_eq!(nth_single_non_zero(&groups, 0), 1);
    assert_eq!(nth_single_non_zero(&groups, 1), 12);
    assert_eq!(nth_single_non_zero(&groups, 2), 1);
    assert_eq!(nth_single_non_zero(&groups, 7), 1);
}

#[test]
fn insert_lines_shifts_rows_down() {
    let d = run(with_cursor(lettered(5, 2), 1, 1), b"\x1b[2L");
    assert_eq!(render(&d.performer.ofs_buf), rows(&["aa", "..", "..", "bb", "cc"]));
    assert_eq!(d.performer.ofs_buf.cursor_pos, Pos { row_index: 1, col_index: 1 });
}

#[test]
fn insert_line_without_parameter_inserts_one() {
    let d = run(with_cursor(lettered(3, 1), 0, 0), b"\x1b[L");
    assert_eq!(render(&d.performer.ofs_buf), rows(&[".", "a", "b"]));
}

#[test]
fn insert_lines_stays_in_scroll_region() {
    let mut buf = with_cursor(lettered(5, 1), 1, 0);
    assert!(buf.set_scroll_region(1, 3));
    let d = run(buf, b"\x1b[1L");
    assert_eq!(render(&d.performer.ofs_buf), rows(&["a", ".", "b", "c", "e"]));
}

#[test]
fn insert_lines_beyond_region_blanks_the_rest() {
    let d = run(with_cursor(lettered(4, 1), 2, 0), b"\x1b[9L");
    assert_eq!(render(&d.performer.ofs_buf), rows(&["a", "b", ".", "."]));
}

#[test]
fn insert_lines_outside_scroll_region_does_nothing() {
    let mut buf = with_cursor(lettered(5, 1), 4, 0);
    assert!(buf.set_scroll_region(0, 2));
    let d = run(buf, b"\x1b[2L\x1b[2M");
    assert_eq!(render(&d.performer.ofs_buf), rows(&["a", "b", "c", "d", "e"]));
}

#[test]
fn delete_lines_shifts_rows_up() {
    let d = run(with_cursor(lettered(5, 2), 1, 0), b"\x1b[2M");
    assert_eq!(render(&d.performer.ofs_buf), rows(&["aa", "dd", "ee", "..", ".."]));
}

#[test]
fn delete_lines_stays_in_scroll_region() {
    let mut buf = with_cursor(lettered(5, 1), 1, 0);
    assert!(buf.set_scroll_region(0, 3));
    let d = run(buf, b"\x1b[0M");
    assert_eq!(render(&d.performer.ofs_buf), rows(&["a", "c", "d", ".", "e"]));
}

#[test]
fn delete_after_insert_restores_rows_but_blanks_the_pushed_out_ones() {
    let d = run(with_cursor(lettered(5, 1), 1, 0), b"\x1b[2L\x1b[2M");
    assert_eq!(render(&d.performer.ofs_buf), rows(&["a", "b", "c", ".", "."]));
}

#[test]
fn erase_line_from_cursor_to_end() {
    let d = run(with_cursor(lettered(2, 4), 1, 1), b"\x1b[K");
    assert_eq!(render(&d.performer.ofs_buf), rows(&["aaaa", "b___"]));
    let d = run(with_cursor(lettered(2, 4), 1, 1), b"\x1b[0K");
    assert_eq!(render(&d.performer.ofs_buf), rows(&["aaaa", "b___"]));
}

#[test]
fn erase_line_from_start_to_cursor() {
    let d = run(with_cursor(lettered(2, 4), 0, 2), b"\x1b[1K");
    assert_eq!(render(&d.performer.ofs_buf), rows(&["___a", "bbbb"]));
}

#[test]
fn erase_entire_line() {
    let d = run(with_cursor(lettered(2, 4), 0, 2), b"\x1b[2K");
    assert_eq!(render(&d.performer.ofs_buf), rows(&["____", "bbbb"]));
}

#[test]
fn erase_line_halves_make_the_whole_line() {
    let d = run(with_cursor(lettered(2, 4), 0, 2), b"\x1b[1K\x1b[0K");
    assert_eq!(render(&d.performer.ofs_buf), rows(&["____", "bbbb"]));
}

#[test]
fn erase_line_unknown_mode_is_default() {
    let d = run(with_cursor(lettered(1, 3), 0, 1), b"\x1b[5K");
    assert_eq!(render(&d.performer.ofs_buf), rows(&["a__"]));
}

#[test]
fn erase_display_from_cursor_to_end() {
    let d = run(with_cursor(lettered(3, 3), 1, 1), b"\x1b[J");
    assert_eq!(render(&d.performer.ofs_buf), rows(&["aaa", "b__", "___"]));
}

#[test]
fn erase_display_from_start_to_cursor() {
    let d = run(with_cursor(lettered(3, 3), 1, 1), b"\x1b[1J");
    assert_eq!(render(&d.performer.ofs_buf), rows(&["___", "__b", "ccc"]));
}

#[test]
fn erase_display_entire_and_with_scrollback() {
    let d = run(with_cursor(lettered(2, 2), 1, 1), b"\x1b[2J");
    assert_eq!(render(&d.performer.ofs_buf), rows(&["__", "__"]));
    let d = run(with_cursor(lettered(2, 2), 1, 1), b"\x1b[3J");
    assert_eq!(render(&d.performer.ofs_buf), rows(&["__", "__"]));
}

#[test]
fn erase_display_halves_make_the_whole_display() {
    let d = run(with_cursor(lettered(3, 2), 1, 0), b"\x1b[1J\x1b[0J");
    assert_eq!(render(&d.performer.ofs_buf), rows(&["__", "__", "__"]));
}

#[test]
fn set_and_reset_auto_wrap() {
    let d = run(lettered(1, 1), b"\x1b[?7l");
    assert!(!d.performer.ofs_buf.auto_wrap_mode);
    let d = run(lettered(1, 1), b"\x1b[?7l\x1b[?7h");
    assert!(d.performer.ofs_buf.auto_wrap_mode);
}

#[test]
fn alternate_screen_on_keeps_cells_off_clears_them() {
    let d = run(lettered(2, 1), b"\x1b[?1049h");
    assert_eq!(d.performer.ofs_buf.terminal_mode.active_screen_buffer, ActiveScreenBuffer::Alternate);
    assert_eq!(render(&d.performer.ofs_buf), rows(&["a", "b"]));
    let d = run(lettered(2, 1), b"\x1b[?1049h\x1b[?1049l");
    assert_eq!(d.performer.ofs_buf.terminal_mode.active_screen_buffer, ActiveScreenBuffer::Primary);
    assert_eq!(render(&d.performer.ofs_buf), rows(&[".", "."]));
}

#[test]
fn bracketed_paste_follows_mode_2004() {
    let d = run(lettered(1, 1), b"\x1b[?2004h");
    assert_eq!(d.performer.ofs_buf.terminal_mode.bracketed_paste, BracketedPasteMode::Enabled);
    assert!(d.performer.ofs_buf.terminal_mode.is_bracketed_paste_enabled());
    let d = run(lettered(1, 1), b"\x1b[?2004h\x1b[?2004l");
    assert!(!d.performer.ofs_buf.terminal_mode.is_bracketed_paste_enabled());
}

#[test]
fn cursor_keys_and_focus_modes() {
    let d = run(lettered(1, 1), b"\x1b[?1h\x1b[?1004h");
    let modes = d.performer.ofs_buf.terminal_mode;
    assert_eq!(modes.cursor_key_mode, CursorKeyMode::Application);
    assert!(modes.focus_events);
    let d = run(lettered(1, 1), b"\x1b[?1h\x1b[?1004h\x1b[?1l\x1b[?1004l");
    let modes = d.performer.ofs_buf.terminal_mode;
    assert_eq!(modes.cursor_key_mode, CursorKeyMode::Normal);
    assert!(modes.focus_events);
}

#[test]
fn synchronized_output_and_focus_reset_change_nothing() {
    let before = lettered(2, 2);
    let d = run(lettered(2, 2), b"\x1b[?2026h\x1b[?2026l\x1b[?1004l");
    assert_eq!(d.performer.ofs_buf, before);
}

#[test]
fn standard_and_unknown_modes_change_nothing() {
    let before = lettered(2, 2);
    let d = run(lettered(2, 2), b"\x1b[4h\x1b[7l\x1b[1049l\x1b[?9999h\x1b[?25l");
    assert_eq!(d.performer.ofs_buf, before);
}

#[test]
fn private_marker_detection() {
    assert!(has_private_marker(b"?"));
    assert!(has_private_marker(b" ?"));
    assert!(!has_private_marker(b""));
    assert!(!has_private_marker(b">"));
}

#[test]
fn new_empty_buffer_and_cells() {
    let mut buf = OffscreenBuffer::new_empty(Size { row_height: 2, col_width: 3 });
    assert_eq!(render(&buf), rows(&["...", "..."]));
    assert_eq!(buf.cursor_pos, Pos { row_index: 0, col_index: 0 });
    assert_eq!((buf.scroll_top, buf.scroll_bottom), (0, 1));
    assert!(buf.auto_wrap_mode);
    assert!(buf.set_char(Pos { row_index: 1, col_index: 2 }, text('z')));
    assert!(!buf.set_char(Pos { row_index: 2, col_index: 0 }, text('z')));
    assert_eq!(buf.get_char(Pos { row_index: 1, col_index: 2 }), Some(text('z')));
    assert_eq!(buf.get_char(Pos { row_index: 0, col_index: 3 }), None);
    assert_eq!(render(&buf), rows(&["...", "..z"]));
}

#[test]
fn cursor_is_clamped_and_bad_scroll_regions_are_refused() {
    let mut buf = OffscreenBuffer::new_empty(Size { row_height: 4, col_width: 5 });
    buf.set_cursor_pos(Pos { row_index: 9, col_index: 2 });
    assert_eq!(buf.cursor_pos, Pos { row_index: 3, col_index: 2 });
    buf.set_cursor_pos(Pos { row_index: 1, col_index: 50 });
    assert_eq!(buf.cursor_pos, Pos { row_index: 1, col_index: 4 });
    assert!(!buf.set_scroll_region(2, 1));
    assert!(!buf.set_scroll_region(0, 4));
    assert_eq!((buf.scroll_top, buf.scroll_bottom), (0, 3));
    assert!(buf.set_scroll_region(1, 2));
    assert_eq!((buf.scroll_top, buf.scroll_bottom), (1, 2));
}
