//! The decisions of the worker that owns the agent connection: start-up
//! failures, the session it prompts, and the replies to the front end.

use vstd::prelude::*;
use crate::acp_events::AcpEvent;

verus! {

/// A request from the front end to the worker.
pub enum WorkerCommand {
    CreateSession { working_dir: String },
    Prompt { messages: Vec<String>, context: Option<String> },
    Shutdown,
}

/// What the worker does next.
pub enum WorkerAction {
    /// Ask the agent for a new session in `working_dir`.
    NewSession { working_dir: String },
    /// Send the agent a prompt made of the text blocks `blocks` in session `session_id`.
    SendPrompt { session_id: String, blocks: Vec<String> },
    /// Answer the front end at once.
    Reply(Result<String, String>),
    /// Leave the command loop and end the agent process.
    Stop,
}

/// The text blocks of a prompt: the context first, when there is one, then
/// the messages in order.
pub open spec fn prompt_block_texts(messages: Seq<String>, context: Option<String>) -> Seq<String> {
    match context {
        Some(c) => seq![c] + messages,
        None => messages,
    }
}

pub open spec fn no_session_message() -> Seq<char> {
    "No active session"@
}

pub open spec fn session_failed_message(error: Seq<char>) -> Seq<char> {
    "Failed to create session: "@ + error
}

pub open spec fn prompt_failed_message(error: Seq<char>) -> Seq<char> {
    "Prompt failed: "@ + error
}

/// The action the worker takes for `command` when its current session is `session`.
pub open spec fn action_for_command(
    session: Option<Seq<char>>,
    command: WorkerCommand,
    action: WorkerAction,
) -> bool {
    match command {
        WorkerCommand::CreateSession { working_dir } => action == WorkerAction::NewSession { working_dir },
        WorkerCommand::Prompt { messages, context } => match session {
            None => action matches WorkerAction::Reply(Err(m)) && m@ == no_session_message(),
            Some(sid) => action matches WorkerAction::SendPrompt { session_id, blocks }
                && session_id@ == sid && blocks@ == prompt_block_texts(messages@, context),
        },
        WorkerCommand::Shutdown => action is Stop,
    }
}

/// The session after the agent answered a session request with `outcome`:
/// the new session on success, the previous one otherwise.
pub open spec fn session_after_creation(
    session: Option<Seq<char>>,
    outcome: Result<String, String>,
) -> Option<Seq<char>> {
    match outcome {
        Ok(sid) => Some(sid@),
        Err(_) => session,
    }
}

/// Builds the text blocks of a prompt.
pub fn prompt_blocks(messages: Vec<String>, context: Option<String>) -> (blocks: Vec<String>)
    ensures
        blocks@ == prompt_block_texts(messages@, context),
{
    match context {
        Some(c) => {
            let mut blocks: Vec<String> = Vec::new();
            blocks.push(c);
            let mut messages = messages;
            blocks.append(&mut messages);
            blocks
        },
        None => messages,
    }
}

/// The worker's record of the session it prompts.
pub struct AcpWorker {
    session_id: Option<String>,
}

impl View for AcpWorker {
    /// The id of the current session, if one was created.
    type V = Option<Seq<char>>;

    closed spec fn view(&self) -> Option<Seq<char>> {
        match self.session_id {
            Some(s) => Some(s@),
            None => None,
        }
    }
}

impl AcpWorker {
    /// A worker without a session.
    pub fn new() -> (worker: Self)
        ensures
            worker@ is None,
    {
        AcpWorker { session_id: None }
    }

    /// The action for a command of the front end.
    pub fn on_command(&self, command: WorkerCommand) -> (action: WorkerAction)
        ensures
            action_for_command(self@, command, action),
    {
        match command {
            WorkerCommand::CreateSession { working_dir } => WorkerAction::NewSession { working_dir },
            WorkerCommand::Prompt { messages, context } => match &self.session_id {
                None => WorkerAction::Reply(Err(String::from_str("No active session"))),
                Some(sid) => WorkerAction::SendPrompt {
                    session_id: sid.clone(),
                    blocks: prompt_blocks(messages, context),
                },
            },
            WorkerCommand::Shutdown => WorkerAction::Stop,
        }
    }

    /// Records the agent's answer to a session request; returns the reply to
    /// the front end: the session id, or the error.
    pub fn on_session_created(&mut self, outcome: Result<String, String>) -> (reply: Result<String, String>)
        ensures
            final(self)@ == session_after_creation(old(self)@, outcome),
            match outcome {
                Ok(sid) => reply == Ok::<String, String>(sid),
                Err(e) => reply matches Err(m) && m@ == session_failed_message(e@),
            },
    {
        match outcome {
            Ok(sid) => {
                self.session_id = Some(sid.clone());
                Ok(sid)
            },
            Err(e) => {
                let mut m = String::from_str("Failed to create session: ");
                m.append(e.as_str());
                Err(m)
            },
        }
    }
}

/// The event to emit and the reply to the front end once the agent answered a
/// prompt with `outcome`: the stop reason on success, reported as a `Done`
/// event too; the error otherwise, with no event.
pub fn on_prompt_finished(outcome: Result<String, String>) -> (result: (Option<AcpEvent>, Result<String, String>))
    ensures
        match outcome {
            Ok(stop_reason) => result.0 == Some(AcpEvent::Done { stop_reason })
                && result.1 == Ok::<String, String>(stop_reason),
            Err(e) => result.0 is None && (result.1 matches Err(m) && m@ == prompt_failed_message(e@)),
        },
{
    match outcome {
        Ok(stop_reason) => {
            let event = AcpEvent::Done { stop_reason: stop_reason.clone() };
            (Some(event), Ok(stop_reason))
        },
        Err(e) => {
            let mut m = String::from_str("Prompt failed: ");
            m.append(e.as_str());
            (None, Err(m))
        },
    }
}

/// A start-up step of the worker that failed.
pub enum StartupFailure {
    /// The agent program could not be started.
    Spawn { agent_path: String, error: String },
    /// The agent's standard input could not be taken.
    MissingStdin,
    /// The agent's standard output could not be taken.
    MissingStdout,
    /// The protocol handshake failed.
    Initialize { error: String },
}

/// The message that the worker reports for a failed start-up.
pub open spec fn startup_failure_message(failure: StartupFailure) -> Seq<char> {
    match failure {
        StartupFailure::Spawn { agent_path, error } => "Failed to spawn agent '"@ + agent_path@ + "': "@
            + error@,
        StartupFailure::MissingStdin => "Failed to take agent stdin"@,
        StartupFailure::MissingStdout => "Failed to take agent stdout"@,
        StartupFailure::Initialize { error } => "ACP initialize failed: "@ + error@,
    }
}

impl StartupFailure {
    /// The message reported for this failure.
    pub fn message(&self) -> (message: String)
        ensures
            message@ == startup_failure_message(*self),
    {
        match self {
            StartupFailure::Spawn { agent_path, error } => {
                let mut m = String::from_str("Failed to spawn agent '");
                m.append(agent_path.as_str());
                m.append("': ");
                m.append(error.as_str());
                m
            },
            StartupFailure::MissingStdin => String::from_str("Failed to take agent stdin"),
            StartupFailure::MissingStdout => String::from_str("Failed to take agent stdout"),
            StartupFailure::Initialize { error } => {
                let mut m = String::from_str("ACP initialize failed: ");
                m.append(error.as_str());
                m
            },
        }
    }
}

/// A prompt is sent to the session that the last successful session request
/// created; a failed request keeps the previous session; before any session
/// exists a prompt is refused.
pub proof fn law_prompt_targets_created_session(
    session: Option<Seq<char>>,
    created: String,
    error: String,
    messages: Vec<String>,
    context: Option<String>,
    action: WorkerAction,
)
    ensures
        session_after_creation(session, Ok(created)) == Some(created@),
        session_after_creation(session, Err(error)) == session,
        action_for_command(Some(created@), WorkerCommand::Prompt { messages, context }, action)
            ==> (action matches WorkerAction::SendPrompt { session_id, .. } && session_id@ == created@),
        action_for_command(None, WorkerCommand::Prompt { messages, context }, action)
            ==> (action matches WorkerAction::Reply(Err(m)) && m@ == no_session_message()),
{
}

/// The blocks of a prompt are the messages in their given order, preceded by
/// the context when there is one: block `k` of a prompt without context is
/// message `k`; with a context, block `0` is the context and block `k + 1` is
/// message `k`.
pub proof fn law_prompt_blocks_keep_message_order(messages: Seq<String>, context: Option<String>)
    ensures
        context is None ==> prompt_block_texts(messages, context).len() == messages.len(),
        context is None ==> forall|k: int|
            0 <= k < messages.len() ==> #[trigger] prompt_block_texts(messages, context)[k] == messages[k],
        context matches Some(c) ==> (prompt_block_texts(messages, context).len() == messages.len() + 1
            && prompt_block_texts(messages, context)[0] == c),
        context is Some ==> forall|k: int|
            0 <= k < messages.len() ==> #[trigger] prompt_block_texts(messages, context)[k + 1] == messages[k],
{
}

/// What the worker does for each command: a session request goes to the agent
/// with its working directory; a prompt goes to the current session with the
/// context block first and then the messages in order, or, without a session,
/// is answered `No active session`; a shutdown stops the worker.
pub proof fn law_worker_actions(session: Option<Seq<char>>, command: WorkerCommand, action: WorkerAction)
    requires
        action_for_command(session, command, action),
    ensures
        command matches WorkerCommand::CreateSession { working_dir } ==> (action matches WorkerAction::NewSession {
            working_dir: dir,
        } && dir == working_dir),
        command matches WorkerCommand::Prompt { messages, context } ==> (session matches Some(sid) ==> (
        action matches WorkerAction::SendPrompt { session_id, blocks } && session_id@ == sid && blocks@ == (
        match context {
            Some(c) => seq![c] + messages@,
            None => messages@,
        }))),
        (command is Prompt && session is None) ==> (action matches WorkerAction::Reply(Err(m)) && m@
            == "No active session"@),
        command is Shutdown ==> action is Stop,
{
}

/// Each start-up failure is reported with its own text: the agent path and
/// the spawn error, the missing standard stream, or the handshake error.
pub proof fn law_startup_failure_messages(agent_path: String, error: String)
    ensures
        startup_failure_message(StartupFailure::Spawn { agent_path, error }) == "Failed to spawn agent '"@
            + agent_path@ + "': "@ + error@,
        startup_failure_message(StartupFailure::MissingStdin) == "Failed to take agent stdin"@,
        startup_failure_message(StartupFailure::MissingStdout) == "Failed to take agent stdout"@,
        startup_failure_message(StartupFailure::Initialize { error }) == "ACP initialize failed: "@ + error@,
        session_failed_message(error@) == "Failed to create session: "@ + error@,
        prompt_failed_message(error@) == "Prompt failed: "@ + error@,
{
}

} // verus!
