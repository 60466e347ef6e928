//! Values that the Neovim bridge hands to the front end.

use vstd::prelude::*;

verus! {

/// A cursor position: 1-based line, 0-based column.
#[derive(Debug, Clone, Copy, PartialEq, Eq)]
pub struct CursorPosition {
    pub line: i64,
    pub col: i64,
}

/// What the editor shows around the cursor of the current window.
#[derive(Debug, PartialEq, Eq)]
pub struct NvimContext {
    pub cursor: CursorPosition,
    pub file_path: String,
    pub file_type: String,
    pub buffer_id: i64,
    pub line_count: i64,
    pub modified: bool,
    pub visible_lines: Vec<String>,
    /// First and last visible line, 1-based and inclusive.
    pub visible_range: (i64, i64),
}

/// One diagnostic of the current buffer.
#[derive(Debug, PartialEq, Eq)]
pub struct Diagnostic {
    pub line: i64,
    pub col: i64,
    pub severity: i64,
    pub message: String,
    pub source: String,
}

/// The whole text of the current buffer.
#[derive(Debug, PartialEq, Eq)]
pub struct BufferContent {
    pub file_path: String,
    pub lines: Vec<String>,
    pub line_count: i64,
}

/// A replacement of the lines `start_line..end_line` (0-based, end exclusive)
/// of a buffer by `new_lines`.
#[derive(Debug, PartialEq, Eq)]
pub struct BufferEdit {
    pub start_line: i64,
    pub end_line: i64,
    pub new_lines: Vec<String>,
}

/// Whether a terminal has a Neovim connection.
#[derive(Debug, PartialEq, Eq)]
pub enum ConnectionStatus {
    Connected { socket_path: String },
    Disconnected,
    Error(String),
}

/// The diagnostic that a fix-diagnostic action is about.
#[derive(Debug, PartialEq, Eq)]
pub struct ActionDiagnostic {
    pub line: i64,
    pub col: i64,
    pub severity: i64,
    pub message: String,
    pub source: String,
}

/// An action that the user started from inside Neovim.
#[derive(Debug, PartialEq, Eq)]
pub enum NvimAction {
    FixDiagnostic {
        file_path: String,
        cursor_line: i64,
        cursor_col: i64,
        diagnostic: ActionDiagnostic,
        context_lines: Vec<String>,
        context_start_line: i64,
    },
    Implement {
        file_path: String,
        file_type: String,
        cursor_line: i64,
        signature_lines: Vec<String>,
        context_lines: Vec<String>,
        context_start_line: i64,
    },
    Explain {
        file_path: String,
        file_type: String,
        cursor_line: i64,
        target_text: String,
        context_lines: Vec<String>,
        context_start_line: i64,
    },
    Ask {
        file_path: String,
        file_type: String,
        cursor_line: i64,
        prompt: String,
        selection: Option<String>,
        context_lines: Vec<String>,
        context_start_line: i64,
    },
}

/// An action, with the terminal whose Neovim sent it.
#[derive(Debug, PartialEq, Eq)]
pub struct NvimActionEvent {
    pub terminal_id: String,
    pub action: NvimAction,
}

} // verus!
