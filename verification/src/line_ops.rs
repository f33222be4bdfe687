//! Line insertion and deletion (IL, DL) and erasing (EL, ED): the CSI
//! parameters are read with the VT-100 conventions and the operation is
//! applied to the performer's offscreen buffer at the cursor.

use vstd::prelude::*;
use crate::csi_params::{
    count_or_one,
    extract_nth_single_non_zero,
    extract_nth_single_opt_raw,
    nth_first,
    params_groups_view,
    value_or_zero,
};
use crate::modes::{EraseDisplayMode, EraseLineMode};
use crate::offscreen_buffer::{
    lines_after_delete,
    lines_after_erase_display,
    lines_after_erase_line,
    lines_after_insert,
    styled_space,
};
use crate::performer::AnsiToOfsBufPerformer;

verus! {

/// IL (Insert Line): inserts n blank rows at the cursor's row, where n is
/// the first parameter and a missing or zero parameter means 1. Rows below
/// the cursor and within the scroll region move down; a cursor outside the
/// scroll region changes nothing.
pub fn insert_lines(performer: &mut AnsiToOfsBufPerformer, params: &vte::Params)
    requires
        old(performer).ofs_buf.wf(),
    ensures
        final(performer).ofs_buf.wf(),
        final(performer).ofs_buf.same_settings(&old(performer).ofs_buf),
        final(performer).ofs_buf.lines() == lines_after_insert(
            old(performer).ofs_buf.lines(),
            old(performer).ofs_buf.scroll_top as int,
            old(performer).ofs_buf.scroll_bottom as int,
            old(performer).ofs_buf.cursor_pos.row_index as int,
            count_or_one(nth_first(params_groups_view(*params), 0)) as int,
            old(performer).ofs_buf.window_size.col_width as nat,
        ),
{
    let how_many = extract_nth_single_non_zero(params, 0);
    let at = performer.ofs_buf.cursor_pos.row_index;
    performer.ofs_buf.insert_lines_at(at, how_many as usize);
}

/// DL (Delete Line): deletes n rows at the cursor's row, where n is the first
/// parameter and a missing or zero parameter means 1. Rows below, within the
/// scroll region, move up and blank rows fill the end of the region; a
/// cursor outside the scroll region changes nothing.
pub fn delete_lines(performer: &mut AnsiToOfsBufPerformer, params: &vte::Params)
    requires
        old(performer).ofs_buf.wf(),
    ensures
        final(performer).ofs_buf.wf(),
        final(performer).ofs_buf.same_settings(&old(performer).ofs_buf),
        final(performer).ofs_buf.lines() == lines_after_delete(
            old(performer).ofs_buf.lines(),
            old(performer).ofs_buf.scroll_top as int,
            old(performer).ofs_buf.scroll_bottom as int,
            old(performer).ofs_buf.cursor_pos.row_index as int,
            count_or_one(nth_first(params_groups_view(*params), 0)) as int,
            old(performer).ofs_buf.window_size.col_width as nat,
        ),
{
    let how_many = extract_nth_single_non_zero(params, 0);
    let at = performer.ofs_buf.cursor_pos.row_index;
    performer.ofs_buf.delete_lines_at(at, how_many as usize);
}

/// EL (Erase Line): fills part of the cursor's row with spaces in the current
/// style. The first parameter selects the part: 0 or missing, from the cursor
/// to the end; 1, from the start to the cursor; 2, the whole row.
pub fn erase_line(performer: &mut AnsiToOfsBufPerformer, params: &vte::Params)
    requires
        old(performer).ofs_buf.wf(),
    ensures
        final(performer).ofs_buf.wf(),
        final(performer).ofs_buf.same_settings(&old(performer).ofs_buf),
        final(performer).ofs_buf.lines() == lines_after_erase_line(
            old(performer).ofs_buf.lines(),
            EraseLineMode::from_code_spec(value_or_zero(nth_first(params_groups_view(*params), 0))),
            old(performer).ofs_buf.cursor_pos.row_index as int,
            old(performer).ofs_buf.cursor_pos.col_index as int,
            old(performer).ofs_buf.window_size.col_width as int,
            styled_space(old(performer).ofs_buf.current_style),
        ),
{
    let code = match extract_nth_single_opt_raw(params, 0) {
        Some(code) => code,
        None => 0,
    };
    let mode = EraseLineMode::from_code(code);
    performer.ofs_buf.erase_line(mode);
}

/// ED (Erase Display): fills part of the display with spaces in the current
/// style. The first parameter selects the part: 0 or missing, from the cursor
/// to the end; 1, from the start to the cursor; 2, the whole display; 3, the
/// display and the scrollback, treated as 2.
pub fn erase_display(performer: &mut AnsiToOfsBufPerformer, params: &vte::Params)
    requires
        old(performer).ofs_buf.wf(),
    ensures
        final(performer).ofs_buf.wf(),
        final(performer).ofs_buf.same_settings(&old(performer).ofs_buf),
        final(performer).ofs_buf.lines() == lines_after_erase_display(
            old(performer).ofs_buf.lines(),
            EraseDisplayMode::from_code_spec(
                value_or_zero(nth_first(params_groups_view(*params), 0)),
            ),
            old(performer).ofs_buf.cursor_pos.row_index as int,
            old(performer).ofs_buf.cursor_pos.col_index as int,
            old(performer).ofs_buf.window_size.col_width as int,
            styled_space(old(performer).ofs_buf.current_style),
        ),
{
    let code = match extract_nth_single_opt_raw(params, 0) {
        Some(code) => code,
        None => 0,
    };
    let mode = EraseDisplayMode::from_code(code);
    performer.ofs_buf.erase_display(mode);
}

} // verus!
