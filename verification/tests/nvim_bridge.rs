use libg::bridge::{action_payload, channel_id_from_api_info, ConnectFailure, NvimBridgeState};
use libg::diagnostics::{diagnostics_from_records, diagnostics_from_reply, DiagnosticRecord};
use libg::edits::edit_application_order;
use libg::lua_setup::build_lua_setup;
use libg::nvim_context::{visible_window, EditorReadings};
use libg::nvim_types::{BufferEdit, ConnectionStatus, CursorPosition, Diagnostic, NvimContext};

fn edit(start: i64, end: i64, text: &str) -> BufferEdit {
    BufferEdit { start_line: start, end_line: end, new_lines: vec![text.to_string()] }
}

#[test]
fn lua_setup_names_the_channel_everywhere() {
    let script = build_lua_setup(42);
    assert!(script.starts_with("\n_G.libg = _G.libg or {}\n_G.libg.channel = 42\n"));
    assert_eq!(script.matches("vim.rpcnotify(42, \"libg_action\", {").count(), 4);
    assert_eq!(script.matches("42").count(), 5);
    assert!(script.contains("action = \"fixDiagnostic\""));
    assert!(script.contains("{ desc = \"[libg] Fix diagnostic\" }"));
    assert!(script.ends_with("vim.notify(\"[libg] Agent keybindings loaded\", vim.log.levels.INFO)\n"));
    assert!(!script.contains("{{"));
}

#[test]
fn lua_setup_writes_negative_and_extreme_channels() {
    let script = build_lua_setup(-7);
    assert!(script.contains("_G.libg.channel = -7\n"));
    assert_eq!(script.matches("vim.rpcnotify(-7, ").count(), 4);
    let script = build_lua_setup(i64::MIN);
    assert!(script.contains("_G.libg.channel = -9223372036854775808\n"));
    let script = build_lua_setup(0);
    assert!(script.contains("_G.libg.channel = 0\n"));
    assert!(script.contains("vim.rpcnotify(0, \"libg_action\""));
    let script = build_lua_setup(1_000_000_007);
    assert!(script.contains("vim.rpcnotify(1000000007, \"libg_action\""));
}

#[test]
fn lua_setup_differs_only_in_the_channel() {
    let a = build_lua_setup(3);
    let b = build_lua_setup(4);
    assert_eq!(a.len(), b.len());
    assert_eq!(a.replace("= 3\n", "= 4\n").replace("rpcnotify(3,", "rpcnotify(4,"), b);
}

#[test]
fn edits_apply_bottom_up_and_stably() {
    let edits = vec![edit(1, 2, "a"), edit(10, 11, "b"), edit(5, 5, "c"), edit(10, 12, "d"), edit(1, 1, "e")];
    let ordered = edit_application_order(edits);
    let names: Vec<&str> = ordered.iter().map(|e| e.new_lines[0].as_str()).collect();
    assert_eq!(names, vec!["b", "d", "c", "a", "e"]);
    assert_eq!(ordered[0], edit(10, 11, "b"));
    assert_eq!(ordered[1], edit(10, 12, "d"));
}

#[test]
fn edit_order_of_empty_and_single() {
    assert!(edit_application_order(Vec::new()).is_empty());
    assert_eq!(edit_application_order(vec![edit(3, 4, "x")]), vec![edit(3, 4, "x")]);
}

#[test]
fn edit_order_keeps_equal_starts_in_input_order() {
    let edits = vec![edit(2, 3, "first"), edit(2, 2, "second"), edit(2, 9, "third")];
    let ordered = edit_application_order(edits);
    assert_eq!(ordered, vec![edit(2, 3, "first"), edit(2, 2, "second"), edit(2, 9, "third")]);
}

#[test]
fn visible_window_clips_to_buffer() {
    assert_eq!(visible_window(100, 500), (49, 150));
    assert_eq!(visible_window(10, 500), (0, 60));
    assert_eq!(visible_window(51, 500), (0, 101));
    assert_eq!(visible_window(52, 500), (1, 102));
    assert_eq!(visible_window(480, 500), (429, 500));
    assert_eq!(visible_window(1, 1), (0, 1));
}

#[test]
fn context_is_assembled_from_readings() {
    let readings = EditorReadings {
        cursor_line: 120,
        cursor_col: 4,
        file_path: "/tmp/a.rs".to_string(),
        file_type: Some("rust".to_string()),
        buffer_id: 3,
        line_count: 130,
        modified: Some(true),
    };
    let context = NvimContext::from_readings(readings, vec!["x".to_string()]);
    assert_eq!(context.cursor, CursorPosition { line: 120, col: 4 });
    assert_eq!(context.file_path, "/tmp/a.rs");
    assert_eq!(context.file_type, "rust");
    assert_eq!(context.buffer_id, 3);
    assert_eq!(context.line_count, 130);
    assert!(context.modified);
    assert_eq!(context.visible_lines, vec!["x".to_string()]);
    assert_eq!(context.visible_range, (70, 130));
}

#[test]
fn context_defaults_for_unusable_replies() {
    let readings = EditorReadings {
        cursor_line: 1,
        cursor_col: 0,
        file_path: String::new(),
        file_type: None,
        buffer_id: 1,
        line_count: 0,
        modified: None,
    };
    let context = NvimContext::from_readings(readings, Vec::new());
    assert_eq!(context.file_type, "");
    assert!(!context.modified);
    assert_eq!(context.visible_range, (1, 0));
    let readings = EditorReadings {
        cursor_line: 1,
        cursor_col: 0,
        file_path: String::new(),
        file_type: Some(String::new()),
        buffer_id: 1,
        line_count: 10,
        modified: Some(false),
    };
    assert!(!NvimContext::from_readings(readings, Vec::new()).modified);
}

fn diag(line: i64, col: i64, severity: i64, message: &str, source: &str) -> Diagnostic {
    Diagnostic { line, col, severity, message: message.to_string(), source: source.to_string() }
}

#[test]
fn diagnostics_are_read_from_json() {
    let reply = r#"[{"lnum":3,"col":1,"severity":2,"message":"unused","source":"rustc"},
                    {"lnum":"x","message":5},
                    7]"#;
    let diagnostics = diagnostics_from_reply(Some(reply.to_string())).unwrap();
    assert_eq!(
        diagnostics,
        vec![diag(3, 1, 2, "unused", "rustc"), diag(0, 0, 0, "", ""), diag(0, 0, 0, "", "")]
    );
}

#[test]
fn diagnostics_default_to_empty_array() {
    assert_eq!(diagnostics_from_reply(None), Ok(Vec::new()));
    assert_eq!(diagnostics_from_reply(Some("[]".to_string())), Ok(Vec::new()));
}

#[test]
fn diagnostics_report_json_errors() {
    let err = diagnostics_from_reply(Some("not json".to_string())).unwrap_err();
    assert!(err.contains("expected"), "{}", err);
    let err = diagnostics_from_reply(Some("{\"lnum\": 1}".to_string())).unwrap_err();
    assert!(!err.is_empty());
}

#[test]
fn diagnostic_records_get_defaults() {
    let records = vec![
        DiagnosticRecord { lnum: Some(9), col: None, severity: Some(1), message: None, source: Some("lsp".to_string()) },
    ];
    assert_eq!(diagnostics_from_records(records), vec![diag(9, 0, 1, "", "lsp")]);
}

#[test]
fn bridge_tracks_connections() {
    let mut bridge: NvimBridgeState<u32> = NvimBridgeState::new();
    let t1 = "term-1".to_string();
    let t2 = "term-2".to_string();
    assert_eq!(bridge.status(&t1), ConnectionStatus::Disconnected);
    bridge.connect(t1.clone(), "/tmp/n1".to_string(), 1);
    assert_eq!(bridge.status(&t1), ConnectionStatus::Connected { socket_path: "/tmp/n1".to_string() });
    assert_eq!(bridge.status(&t2), ConnectionStatus::Disconnected);
    assert_eq!(bridge.connection(&t1), Ok(&1));
    bridge.connect(t2.clone(), "/tmp/n2".to_string(), 2);
    bridge.connect(t1.clone(), "/tmp/n1b".to_string(), 3);
    assert_eq!(bridge.status(&t1), ConnectionStatus::Connected { socket_path: "/tmp/n1b".to_string() });
    assert_eq!(bridge.connection(&t1), Ok(&3));
    assert_eq!(bridge.connection(&t2), Ok(&2));
    bridge.disconnect(&t1);
    assert_eq!(bridge.status(&t1), ConnectionStatus::Disconnected);
    assert_eq!(bridge.connection(&t1), Err("No neovim connection for terminal: term-1".to_string()));
    assert_eq!(bridge.status(&t2), ConnectionStatus::Connected { socket_path: "/tmp/n2".to_string() });
    bridge.disconnect(&t1);
    assert_eq!(bridge.connection(&t2), Ok(&2));
}

#[test]
fn notifications_other_than_actions_are_ignored() {
    assert_eq!(action_payload(&"libg_action".to_string(), vec![5, 6]), Some(5));
    assert_eq!(action_payload(&"libg_action".to_string(), Vec::<i32>::new()), None);
    assert_eq!(action_payload(&"other".to_string(), vec![5]), None);
    assert_eq!(action_payload(&"libg_action ".to_string(), vec![5]), None);
}

#[test]
fn channel_id_is_the_first_api_info_item() {
    assert_eq!(channel_id_from_api_info(Some(17)), Ok(17));
    assert_eq!(
        channel_id_from_api_info(None),
        Err("Failed to extract channel ID from api info".to_string())
    );
}

#[test]
fn connect_failure_messages() {
    let f = ConnectFailure::Connect { socket_path: "/tmp/s".to_string(), error: "refused".to_string() };
    assert_eq!(f.message(), "Failed to connect to neovim at /tmp/s: refused");
    assert_eq!(ConnectFailure::ApiInfo { error: "e".to_string() }.message(), "Failed to get api info: e");
    assert_eq!(ConnectFailure::ChannelId.message(), "Failed to extract channel ID from api info");
    assert_eq!(
        ConnectFailure::InjectLua { error: "boom".to_string() }.message(),
        "Failed to inject lua keybindings: boom"
    );
}

fn set_lines(buffer: &mut Vec<String>, e: &BufferEdit) {
    buffer.splice(e.start_line as usize..e.end_line as usize, e.new_lines.iter().cloned());
}

fn lines(items: &[&str]) -> Vec<String> {
    items.iter().map(|s| s.to_string()).collect()
}

#[test]
fn bottom_up_application_patches_original_line_numbers() {
    let buffer = lines(&["l0", "l1", "l2", "l3", "l4", "l5"]);
    let edits = vec![
        BufferEdit { start_line: 1, end_line: 2, new_lines: lines(&["a", "a2"]) },
        BufferEdit { start_line: 4, end_line: 6, new_lines: lines(&[]) },
        BufferEdit { start_line: 2, end_line: 2, new_lines: lines(&["ins"]) },
        BufferEdit { start_line: 0, end_line: 0, new_lines: lines(&["top"]) },
    ];
    let mut patched = buffer.clone();
    for e in edit_application_order(edits) {
        set_lines(&mut patched, &e);
    }
    assert_eq!(patched, lines(&["top", "l0", "a", "a2", "ins", "l2", "l3"]));
}
