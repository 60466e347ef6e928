//! The editor context around the cursor of the current Neovim window.

use vstd::prelude::*;
use crate::nvim_types::{CursorPosition, NvimContext};

verus! {

/// How many lines above and below the cursor line are shown.
pub const CONTEXT_RADIUS: i64 = 50;

/// What Neovim reported about its current window and buffer.
pub struct EditorReadings {
    /// Cursor line (1-based) and column (0-based) of the current window.
    pub cursor_line: i64,
    pub cursor_col: i64,
    /// Name of the current buffer.
    pub file_path: String,
    /// The buffer's `filetype` option, when Neovim answered with a valid
    /// UTF-8 string.
    pub file_type: Option<String>,
    /// Number of the current buffer.
    pub buffer_id: i64,
    /// Number of lines of the current buffer.
    pub line_count: i64,
    /// The buffer's `modified` option, when Neovim answered with a boolean.
    pub modified: Option<bool>,
}

/// The cursor line is far enough from the ends of `i64` that the window
/// around it can be computed.
pub open spec fn cursor_line_in_range(cursor_line: int) -> bool {
    i64::MIN + CONTEXT_RADIUS <= cursor_line <= i64::MAX - CONTEXT_RADIUS
}

/// First line of the window, 0-based: the line `CONTEXT_RADIUS` above the
/// cursor, but not above the first line.
pub open spec fn window_start(cursor_line: int) -> int {
    let above = cursor_line - CONTEXT_RADIUS;
    (if above > 1 { above } else { 1 }) - 1
}

/// End of the window, exclusive: the line `CONTEXT_RADIUS` below the cursor,
/// but not below the last line.
pub open spec fn window_end(cursor_line: int, line_count: int) -> int {
    let below = cursor_line + CONTEXT_RADIUS;
    if below < line_count { below } else { line_count }
}

/// The lines to fetch around the cursor: `(start, end)` with `start` 0-based
/// and `end` exclusive.
pub fn visible_window(cursor_line: i64, line_count: i64) -> (window: (i64, i64))
    requires
        cursor_line_in_range(cursor_line as int),
    ensures
        window.0 == window_start(cursor_line as int),
        window.1 == window_end(cursor_line as int, line_count as int),
{
    let above = cursor_line - CONTEXT_RADIUS;
    let first = if above > 1 { above } else { 1 };
    let below = cursor_line + CONTEXT_RADIUS;
    let end = if below < line_count { below } else { line_count };
    (first - 1, end)
}

/// The text of an optional string, empty when there is none.
pub open spec fn text_or_empty(text: Option<String>) -> Seq<char> {
    match text {
        Some(t) => t@,
        None => Seq::empty(),
    }
}

impl NvimContext {
    /// Assembles the context from Neovim's readings and the lines fetched for
    /// `visible_window(readings.cursor_line, readings.line_count)`.
    pub fn from_readings(readings: EditorReadings, visible_lines: Vec<String>) -> (context: NvimContext)
        requires
            cursor_line_in_range(readings.cursor_line as int),
        ensures
            context.cursor == (CursorPosition { line: readings.cursor_line, col: readings.cursor_col }),
            context.file_path == readings.file_path,
            context.file_type@ == text_or_empty(readings.file_type),
            context.buffer_id == readings.buffer_id,
            context.line_count == readings.line_count,
            context.modified == (readings.modified == Some(true)),
            context.visible_lines == visible_lines,
            context.visible_range.0 == window_start(readings.cursor_line as int) + 1,
            context.visible_range.1 == window_end(readings.cursor_line as int, readings.line_count as int),
    {
        let window = visible_window(readings.cursor_line, readings.line_count);
        let file_type = match readings.file_type {
            Some(t) => t,
            None => String::new(),
        };
        let modified = match readings.modified {
            Some(m) => m,
            None => false,
        };
        NvimContext {
            cursor: CursorPosition { line: readings.cursor_line, col: readings.cursor_col },
            file_path: readings.file_path,
            file_type,
            buffer_id: readings.buffer_id,
            line_count: readings.line_count,
            modified,
            visible_lines,
            visible_range: (window.0 + 1, window.1),
        }
    }
}

/// The window reaches 50 lines above and below the cursor line, cut at the
/// first and the last line of the buffer: its start (0-based) is the larger
/// of 0 and `cursor_line - 51`, and its end is the smaller of
/// `cursor_line + 50` and `line_count`.
pub proof fn law_window_is_the_cursor_neighbourhood(cursor_line: int, line_count: int)
    ensures
        window_start(cursor_line) >= 0,
        window_start(cursor_line) >= cursor_line - 51,
        window_start(cursor_line) == 0 || window_start(cursor_line) == cursor_line - 51,
        window_end(cursor_line, line_count) <= line_count,
        window_end(cursor_line, line_count) <= cursor_line + 50,
        window_end(cursor_line, line_count) == line_count || window_end(cursor_line, line_count)
            == cursor_line + 50,
{
}

/// The file type is the buffer's `filetype` when Neovim gave one, and empty
/// otherwise.
pub proof fn law_file_type_text(file_type: Option<String>)
    ensures
        file_type matches Some(t) ==> text_or_empty(file_type) == t@,
        file_type is None ==> text_or_empty(file_type).len() == 0,
{
}

} // verus!
