use libg::acp_events::{acp_event_for_update, AcpEvent, AgentStatus, AgentUpdate};
use libg::acp_state::{worker_reply, AcpClientState};
use libg::acp_worker::{on_prompt_finished, prompt_blocks, AcpWorker, StartupFailure, WorkerAction, WorkerCommand};

fn s(text: &str) -> String {
    text.to_string()
}

#[test]
fn agent_starts_runs_and_stops() {
    let mut state: AcpClientState<u8> = AcpClientState::new();
    assert_eq!(state.status(), AgentStatus::Stopped);
    assert_eq!(state.worker(), Err(s("No agent running")));
    assert_eq!(state.begin_start(), Ok(()));
    assert_eq!(state.status(), AgentStatus::Starting);
    assert_eq!(state.finish_start(Some(Ok(())), 9), Ok(()));
    assert_eq!(state.status(), AgentStatus::Running);
    assert_eq!(state.worker(), Ok(&9));
    assert_eq!(state.begin_start(), Err(s("Agent already running. Stop it first.")));
    assert_eq!(state.status(), AgentStatus::Running);
    assert_eq!(state.stop(), Some(9));
    assert_eq!(state.status(), AgentStatus::Stopped);
    assert_eq!(state.stop(), None);
    assert_eq!(state.status(), AgentStatus::Stopped);
}

#[test]
fn failed_start_reports_error_and_allows_retry() {
    let mut state: AcpClientState<u8> = AcpClientState::new();
    state.begin_start().unwrap();
    assert_eq!(state.finish_start(Some(Err(s("ACP initialize failed: x"))), 1), Err(s("ACP initialize failed: x")));
    assert_eq!(state.status(), AgentStatus::Error(s("ACP initialize failed: x")));
    assert_eq!(state.worker(), Err(s("No agent running")));
    assert_eq!(state.begin_start(), Ok(()));
    assert_eq!(state.finish_start(None, 2), Err(s("Worker thread died")));
    assert_eq!(state.status(), AgentStatus::Starting);
    assert_eq!(state.begin_start(), Ok(()));
}

#[test]
fn worker_replies_reach_the_front_end() {
    assert_eq!(worker_reply(true, Some(Ok(s("sess-1")))), Ok(s("sess-1")));
    assert_eq!(worker_reply(true, Some(Err(s("No active session")))), Err(s("No active session")));
    assert_eq!(worker_reply(true, None), Err(s("Agent worker died")));
    assert_eq!(worker_reply(false, Some(Ok(s("x")))), Err(s("Agent worker died")));
}

#[test]
fn prompt_without_session_is_refused() {
    let worker = AcpWorker::new();
    match worker.on_command(WorkerCommand::Prompt { messages: vec![s("hi")], context: None }) {
        WorkerAction::Reply(Err(m)) => assert_eq!(m, "No active session"),
        _ => panic!("expected a refusal"),
    }
}

#[test]
fn prompt_goes_to_the_created_session() {
    let mut worker = AcpWorker::new();
    assert_eq!(worker.on_session_created(Ok(s("sess-1"))), Ok(s("sess-1")));
    assert_eq!(worker.on_session_created(Err(s("denied"))), Err(s("Failed to create session: denied")));
    let action = worker.on_command(WorkerCommand::Prompt {
        messages: vec![s("one"), s("two")],
        context: Some(s("ctx")),
    });
    match action {
        WorkerAction::SendPrompt { session_id, blocks } => {
            assert_eq!(session_id, "sess-1");
            assert_eq!(blocks, vec![s("ctx"), s("one"), s("two")]);
        }
        _ => panic!("expected a prompt"),
    }
    assert_eq!(worker.on_session_created(Ok(s("sess-2"))), Ok(s("sess-2")));
    match worker.on_command(WorkerCommand::Prompt { messages: vec![], context: None }) {
        WorkerAction::SendPrompt { session_id, blocks } => {
            assert_eq!(session_id, "sess-2");
            assert!(blocks.is_empty());
        }
        _ => panic!("expected a prompt"),
    }
}

#[test]
fn other_commands() {
    let worker = AcpWorker::new();
    match worker.on_command(WorkerCommand::CreateSession { working_dir: s("/w") }) {
        WorkerAction::NewSession { working_dir } => assert_eq!(working_dir, "/w"),
        _ => panic!("expected a session request"),
    }
    assert!(matches!(worker.on_command(WorkerCommand::Shutdown), WorkerAction::Stop));
}

#[test]
fn prompt_blocks_put_context_first() {
    assert_eq!(prompt_blocks(vec![s("a"), s("b")], Some(s("c"))), vec![s("c"), s("a"), s("b")]);
    assert_eq!(prompt_blocks(vec![s("a")], None), vec![s("a")]);
    assert_eq!(prompt_blocks(vec![], Some(s("c"))), vec![s("c")]);
}

#[test]
fn prompt_outcomes() {
    let (event, reply) = on_prompt_finished(Ok(s("EndTurn")));
    assert_eq!(event, Some(AcpEvent::Done { stop_reason: s("EndTurn") }));
    assert_eq!(reply, Ok(s("EndTurn")));
    let (event, reply) = on_prompt_finished(Err(s("gone")));
    assert_eq!(event, None);
    assert_eq!(reply, Err(s("Prompt failed: gone")));
}

#[test]
fn startup_failure_messages() {
    let f = StartupFailure::Spawn { agent_path: s("/bin/agent"), error: s("not found") };
    assert_eq!(f.message(), "Failed to spawn agent '/bin/agent': not found");
    assert_eq!(StartupFailure::MissingStdin.message(), "Failed to take agent stdin");
    assert_eq!(StartupFailure::MissingStdout.message(), "Failed to take agent stdout");
    assert_eq!(StartupFailure::Initialize { error: s("eof") }.message(), "ACP initialize failed: eof");
}

#[test]
fn session_updates_become_events() {
    assert_eq!(
        acp_event_for_update(AgentUpdate::MessageChunk { text: Some(s("hello")) }),
        Some(AcpEvent::ContentChunk(s("hello")))
    );
    assert_eq!(acp_event_for_update(AgentUpdate::MessageChunk { text: None }), None);
    assert_eq!(
        acp_event_for_update(AgentUpdate::ThoughtChunk { text: Some(s("hmm")) }),
        Some(AcpEvent::ThoughtChunk(s("hmm")))
    );
    assert_eq!(acp_event_for_update(AgentUpdate::ThoughtChunk { text: None }), None);
    assert_eq!(
        acp_event_for_update(AgentUpdate::ToolCall { id: s("t1"), title: s("Read"), kind: s("Read") }),
        Some(AcpEvent::ToolCallStarted { id: s("t1"), title: s("Read"), kind: s("Read") })
    );
    assert_eq!(
        acp_event_for_update(AgentUpdate::ToolCallUpdate { id: s("t1") }),
        Some(AcpEvent::ToolCallUpdated { id: s("t1"), status: s("updated") })
    );
    assert_eq!(acp_event_for_update(AgentUpdate::Other), None);
}
