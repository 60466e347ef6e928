//! The Lua script injected into a connected Neovim: helpers, the four agent
//! actions that notify this process over its RPC channel, keybindings and
//! user commands.

use vstd::prelude::*;
use crate::text::{decimal, push_decimal};

verus! {

/// The script up to the channel assignment `_G.libg.channel = `.
pub const LUA_SETUP_HEAD: &'static str = r##"
_G.libg = _G.libg or {}
_G.libg.channel = "##;

/// From the channel assignment to the `vim.rpcnotify(` call of the fix-diagnostic action.
pub const LUA_SETUP_AFTER_CHANNEL: &'static str = r##"

-- Helper: get context lines around a 1-indexed line
local function get_context(radius)
    local bufnr = vim.api.nvim_get_current_buf()
    local cursor = vim.api.nvim_win_get_cursor(0)
    local line = cursor[1]
    local total = vim.api.nvim_buf_line_count(bufnr)
    local start = math.max(1, line - radius)
    local finish = math.min(total, line + radius)
    local lines = vim.api.nvim_buf_get_lines(bufnr, start - 1, finish, false)
    return lines, start
end

-- Helper: get visual selection text
local function get_visual_selection()
    local start_pos = vim.fn.getpos("'<")
    local end_pos = vim.fn.getpos("'>")
    local start_line = start_pos[2]
    local end_line = end_pos[2]
    local lines = vim.api.nvim_buf_get_lines(0, start_line - 1, end_line, false)
    if #lines == 0 then return "" end
    local start_col = start_pos[3]
    local end_col = end_pos[3]
    if #lines == 1 then
        lines[1] = string.sub(lines[1], start_col, end_col)
    else
        lines[1] = string.sub(lines[1], start_col)
        lines[#lines] = string.sub(lines[#lines], 1, end_col)
    end
    return table.concat(lines, "\n")
end

-- Action: fix diagnostic under cursor
function _G.libg.fix_diagnostic()
    local cursor = vim.api.nvim_win_get_cursor(0)
    local line = cursor[1]
    local col = cursor[2]
    local bufnr = vim.api.nvim_get_current_buf()
    local diags = vim.diagnostic.get(bufnr, { lnum = line - 1 })
    if #diags == 0 then
        vim.notify("[libg] No diagnostic on current line", vim.log.levels.WARN)
        return
    end
    local d = diags[1]
    local context_lines, context_start = get_context(30)
    local file_path = vim.api.nvim_buf_get_name(bufnr)
    vim.rpcnotify("##;

/// From the fix-diagnostic notification to the `vim.rpcnotify(` call of the implement action.
pub const LUA_SETUP_AFTER_FIX_DIAGNOSTIC: &'static str = r##", "libg_action", {
        action = "fixDiagnostic",
        filePath = file_path,
        cursorLine = line,
        cursorCol = col,
        diagnostic = {
            line = d.lnum,
            col = d.col,
            severity = d.severity,
            message = d.message,
            source = d.source or "",
        },
        contextLines = context_lines,
        contextStartLine = context_start,
    })
    vim.notify("[libg] Sent fix-diagnostic to agent", vim.log.levels.INFO)
end

-- Action: implement signature under cursor
function _G.libg.implement()
    local cursor = vim.api.nvim_win_get_cursor(0)
    local line = cursor[1]
    local bufnr = vim.api.nvim_get_current_buf()
    local file_path = vim.api.nvim_buf_get_name(bufnr)
    local file_type = vim.bo[bufnr].filetype
    -- Grab current line as the signature
    local sig_lines = vim.api.nvim_buf_get_lines(bufnr, line - 1, line, false)
    local context_lines, context_start = get_context(50)
    vim.rpcnotify("##;

/// From the implement notification to the `vim.rpcnotify(` call of the explain action.
pub const LUA_SETUP_AFTER_IMPLEMENT: &'static str = r##", "libg_action", {
        action = "implement",
        filePath = file_path,
        fileType = file_type,
        cursorLine = line,
        signatureLines = sig_lines,
        contextLines = context_lines,
        contextStartLine = context_start,
    })
    vim.notify("[libg] Sent implement to agent", vim.log.levels.INFO)
end

-- Action: explain code (normal or visual)
function _G.libg.explain(use_selection)
    local cursor = vim.api.nvim_win_get_cursor(0)
    local line = cursor[1]
    local bufnr = vim.api.nvim_get_current_buf()
    local file_path = vim.api.nvim_buf_get_name(bufnr)
    local file_type = vim.bo[bufnr].filetype
    local target_text
    if use_selection then
        target_text = get_visual_selection()
    else
        target_text = vim.api.nvim_get_current_line()
    end
    local context_lines, context_start = get_context(30)
    vim.rpcnotify("##;

/// From the explain notification to the `vim.rpcnotify(` call of the ask action.
pub const LUA_SETUP_AFTER_EXPLAIN: &'static str = r##", "libg_action", {
        action = "explain",
        filePath = file_path,
        fileType = file_type,
        cursorLine = line,
        targetText = target_text,
        contextLines = context_lines,
        contextStartLine = context_start,
    })
    vim.notify("[libg] Sent explain to agent", vim.log.levels.INFO)
end

-- Action: ask with custom prompt (normal or visual)
function _G.libg.ask(use_selection)
    local prompt = vim.fn.input("libg ask: ")
    if prompt == "" then return end
    local cursor = vim.api.nvim_win_get_cursor(0)
    local line = cursor[1]
    local bufnr = vim.api.nvim_get_current_buf()
    local file_path = vim.api.nvim_buf_get_name(bufnr)
    local file_type = vim.bo[bufnr].filetype
    local selection = nil
    if use_selection then
        selection = get_visual_selection()
    end
    local context_lines, context_start = get_context(30)
    vim.rpcnotify("##;

/// From the ask notification to the end: keybindings and user commands.
pub const LUA_SETUP_TAIL: &'static str = r##", "libg_action", {
        action = "ask",
        filePath = file_path,
        fileType = file_type,
        cursorLine = line,
        prompt = prompt,
        selection = selection,
        contextLines = context_lines,
        contextStartLine = context_start,
    })
    vim.notify("[libg] Sent ask to agent", vim.log.levels.INFO)
end

-- Keybindings (<leader>m prefix = "model")
vim.keymap.set("n", "<leader>mf", function() _G.libg.fix_diagnostic() end, { desc = "[libg] Fix diagnostic" })
vim.keymap.set("n", "<leader>mi", function() _G.libg.implement() end, { desc = "[libg] Implement" })
vim.keymap.set("n", "<leader>me", function() _G.libg.explain(false) end, { desc = "[libg] Explain" })
vim.keymap.set("v", "<leader>me", function() _G.libg.explain(true) end, { desc = "[libg] Explain selection" })
vim.keymap.set("n", "<leader>ma", function() _G.libg.ask(false) end, { desc = "[libg] Ask" })
vim.keymap.set("v", "<leader>ma", function() _G.libg.ask(true) end, { desc = "[libg] Ask with selection" })

-- User commands
vim.api.nvim_create_user_command("LibgFixDiagnostic", function() _G.libg.fix_diagnostic() end, {})
vim.api.nvim_create_user_command("LibgImplement", function() _G.libg.implement() end, {})
vim.api.nvim_create_user_command("LibgExplain", function() _G.libg.explain(false) end, { range = true })
vim.api.nvim_create_user_command("LibgAsk", function() _G.libg.ask(false) end, { range = true })

vim.notify("[libg] Agent keybindings loaded", vim.log.levels.INFO)
"##;

/// The script with `channel` written, in decimal, at its five places of use:
/// once as `_G.libg.channel` and once as the target of each action's
/// `vim.rpcnotify`.
pub open spec fn lua_setup_text(channel: int) -> Seq<char> {
    LUA_SETUP_HEAD@ + decimal(channel) + LUA_SETUP_AFTER_CHANNEL@ + decimal(channel)
        + LUA_SETUP_AFTER_FIX_DIAGNOSTIC@ + decimal(channel) + LUA_SETUP_AFTER_IMPLEMENT@
        + decimal(channel) + LUA_SETUP_AFTER_EXPLAIN@ + decimal(channel) + LUA_SETUP_TAIL@
}

/// Builds the Lua setup script for the RPC channel `channel_id`.
pub fn build_lua_setup(channel_id: i64) -> (script: String)
    ensures
        script@ == lua_setup_text(channel_id as int),
{
    let mut script = String::from_str(LUA_SETUP_HEAD);
    push_decimal(&mut script, channel_id);
    script.append(LUA_SETUP_AFTER_CHANNEL);
    push_decimal(&mut script, channel_id);
    script.append(LUA_SETUP_AFTER_FIX_DIAGNOSTIC);
    push_decimal(&mut script, channel_id);
    script.append(LUA_SETUP_AFTER_IMPLEMENT);
    push_decimal(&mut script, channel_id);
    script.append(LUA_SETUP_AFTER_EXPLAIN);
    push_decimal(&mut script, channel_id);
    script.append(LUA_SETUP_TAIL);
    script
}

/// The script assigns the channel's decimal text to `_G.libg.channel` right
/// after its opening lines, and writes the same text as the target of every
/// action's notification: the five places of the channel in the script.
pub proof fn law_lua_setup_names_the_channel(channel: int)
    ensures
        LUA_SETUP_HEAD@ == "\n_G.libg = _G.libg or {}\n_G.libg.channel = "@,
        lua_setup_text(channel) == LUA_SETUP_HEAD@ + decimal(channel) + LUA_SETUP_AFTER_CHANNEL@
            + decimal(channel) + LUA_SETUP_AFTER_FIX_DIAGNOSTIC@ + decimal(channel)
            + LUA_SETUP_AFTER_IMPLEMENT@ + decimal(channel) + LUA_SETUP_AFTER_EXPLAIN@ + decimal(channel)
            + LUA_SETUP_TAIL@,
{
}

} // verus!
