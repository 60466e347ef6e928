//! Agent status and the events that the agent session reports to the front end.

use vstd::prelude::*;

verus! {

/// The life cycle of the agent process.
#[derive(Debug, PartialEq, Eq)]
pub enum AgentStatus {
    Stopped,
    Starting,
    Running,
    Error(String),
}

/// An event of the agent session, as the front end receives it.
#[derive(Debug, PartialEq, Eq)]
pub enum AcpEvent {
    ContentChunk(String),
    ThoughtChunk(String),
    ToolCallStarted { id: String, title: String, kind: String },
    ToolCallUpdated { id: String, status: String },
    Done { stop_reason: String },
    Error(String),
}

/// A session update sent by the agent, with what the front end is told of it.
pub enum AgentUpdate {
    /// A chunk of the agent's reply; its text when the chunk is a text block.
    MessageChunk { text: Option<String> },
    /// A chunk of the agent's reasoning; its text when the chunk is a text block.
    ThoughtChunk { text: Option<String> },
    /// A tool call that starts: its id, its title and the name of its kind.
    ToolCall { id: String, title: String, kind: String },
    /// An update of the tool call `id`.
    ToolCallUpdate { id: String },
    /// Any other update.
    Other,
}

/// The status that a tool call update reports.
pub open spec fn tool_call_updated_status() -> Seq<char> {
    "updated"@
}

/// The event, if any, that the front end receives for `update`: text chunks
/// of the reply and of the reasoning, started and updated tool calls; nothing
/// for a non-text chunk or any other update.
pub open spec fn event_for_update(update: AgentUpdate, event: Option<AcpEvent>) -> bool {
    match update {
        AgentUpdate::MessageChunk { text } => match text {
            Some(t) => event == Some(AcpEvent::ContentChunk(t)),
            None => event is None,
        },
        AgentUpdate::ThoughtChunk { text } => match text {
            Some(t) => event == Some(AcpEvent::ThoughtChunk(t)),
            None => event is None,
        },
        AgentUpdate::ToolCall { id, title, kind } => event == Some(
            AcpEvent::ToolCallStarted { id, title, kind },
        ),
        AgentUpdate::ToolCallUpdate { id } => event matches Some(
            AcpEvent::ToolCallUpdated { id: i, status },
        ) && i == id && status@ == tool_call_updated_status(),
        AgentUpdate::Other => event is None,
    }
}

/// The event that the front end receives for a session update, if any.
pub fn acp_event_for_update(update: AgentUpdate) -> (event: Option<AcpEvent>)
    ensures
        event_for_update(update, event),
{
    match update {
        AgentUpdate::MessageChunk { text } => match text {
            Some(t) => Some(AcpEvent::ContentChunk(t)),
            None => None,
        },
        AgentUpdate::ThoughtChunk { text } => match text {
            Some(t) => Some(AcpEvent::ThoughtChunk(t)),
            None => None,
        },
        AgentUpdate::ToolCall { id, title, kind } => Some(AcpEvent::ToolCallStarted { id, title, kind }),
        AgentUpdate::ToolCallUpdate { id } => Some(
            AcpEvent::ToolCallUpdated { id, status: String::from_str("updated") },
        ),
        AgentUpdate::Other => None,
    }
}

/// Each session update gives the front end the event named after it, with
/// the update's own fields in the fields of the same name: a text chunk of the
/// reply or of the reasoning carries that text, a started tool call carries
/// its id, title and kind, an updated tool call carries its id and the status
/// `updated`; a non-text chunk and any other update give no event.
pub proof fn law_event_carries_the_update_fields(update: AgentUpdate, event: Option<AcpEvent>)
    requires
        event_for_update(update, event),
    ensures
        update matches AgentUpdate::MessageChunk { text: Some(t) } ==> (event matches Some(
            AcpEvent::ContentChunk(c),
        ) && c == t),
        update matches AgentUpdate::ThoughtChunk { text: Some(t) } ==> (event matches Some(
            AcpEvent::ThoughtChunk(c),
        ) && c == t),
        update matches AgentUpdate::MessageChunk { text: None } ==> event is None,
        update matches AgentUpdate::ThoughtChunk { text: None } ==> event is None,
        update matches AgentUpdate::ToolCall { id, title, kind } ==> (event matches Some(
            AcpEvent::ToolCallStarted { id: event_id, title: event_title, kind: event_kind },
        ) && event_id == id && event_title == title && event_kind == kind),
        update matches AgentUpdate::ToolCallUpdate { id } ==> (event matches Some(
            AcpEvent::ToolCallUpdated { id: event_id, status },
        ) && event_id == id && status@ == "updated"@),
        update is Other ==> event is None,
{
}

} // verus!
