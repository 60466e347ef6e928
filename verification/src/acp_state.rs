//! The state that the front end's agent commands share: the status of the
//! agent and the link to its worker, when one runs.

use vstd::prelude::*;
use crate::acp_events::AgentStatus;

verus! {

/// The agent state as values: its status and the link to the worker.
pub struct AgentStateView<W> {
    pub status: AgentStatus,
    pub worker: Option<W>,
}

/// A worker is linked exactly when the agent is running.
pub open spec fn state_well_formed<W>(state: AgentStateView<W>) -> bool {
    state.worker is Some <==> state.status is Running
}

/// A start is refused while a worker is linked.
pub open spec fn start_refused<W>(state: AgentStateView<W>) -> bool {
    state.worker is Some
}

/// The state after a start request: unchanged when refused, otherwise
/// `Starting` without a worker.
pub open spec fn after_begin_start<W>(state: AgentStateView<W>) -> AgentStateView<W> {
    if start_refused(state) {
        state
    } else {
        AgentStateView { status: AgentStatus::Starting, worker: None }
    }
}

/// The state once the worker reported its start-up: `ready` is `None` when
/// the worker ended without reporting.
pub open spec fn after_finish_start<W>(
    state: AgentStateView<W>,
    ready: Option<Result<(), String>>,
    worker: W,
) -> AgentStateView<W> {
    match ready {
        None => state,
        Some(Ok(())) => AgentStateView { status: AgentStatus::Running, worker: Some(worker) },
        Some(Err(e)) => AgentStateView { status: AgentStatus::Error(e), worker: None },
    }
}

/// The state after a stop: `Stopped` without a worker.
pub open spec fn after_stop<W>(state: AgentStateView<W>) -> AgentStateView<W> {
    AgentStateView { status: AgentStatus::Stopped, worker: None }
}

pub open spec fn already_running_message() -> Seq<char> {
    "Agent already running. Stop it first."@
}

pub open spec fn worker_died_message() -> Seq<char> {
    "Worker thread died"@
}

pub open spec fn no_agent_message() -> Seq<char> {
    "No agent running"@
}

pub open spec fn agent_worker_died_message() -> Seq<char> {
    "Agent worker died"@
}

/// The agent status and, while it runs, the link `W` to its worker.
pub struct AcpClientState<W> {
    worker: Option<W>,
    status: AgentStatus,
}

impl<W> View for AcpClientState<W> {
    type V = AgentStateView<W>;

    closed spec fn view(&self) -> AgentStateView<W> {
        AgentStateView { status: self.status, worker: self.worker }
    }
}

fn copy_status(status: &AgentStatus) -> (copy: AgentStatus)
    ensures
        copy == *status,
{
    match status {
        AgentStatus::Stopped => AgentStatus::Stopped,
        AgentStatus::Starting => AgentStatus::Starting,
        AgentStatus::Running => AgentStatus::Running,
        AgentStatus::Error(e) => AgentStatus::Error(e.clone()),
    }
}

impl<W> AcpClientState<W> {
    /// No agent: `Stopped`, no worker.
    pub fn new() -> (state: Self)
        ensures
            state@ == (AgentStateView::<W> { status: AgentStatus::Stopped, worker: None }),
            state_well_formed(state@),
    {
        AcpClientState { worker: None, status: AgentStatus::Stopped }
    }

    /// Asks to start the agent: refused while a worker is linked, otherwise
    /// the agent is `Starting`.
    pub fn begin_start(&mut self) -> (outcome: Result<(), String>)
        ensures
            final(self)@ == after_begin_start(old(self)@),
            start_refused(old(self)@) ==> (outcome matches Err(m) && m@ == already_running_message()),
            !start_refused(old(self)@) ==> outcome is Ok,
            state_well_formed(old(self)@) ==> state_well_formed(final(self)@),
    {
        if self.worker.is_some() {
            return Err(String::from_str("Agent already running. Stop it first."));
        }
        self.status = AgentStatus::Starting;
        Ok(())
    }

    /// Records how the start-up of `worker` went: `ready` is the worker's
    /// report, `None` when it ended without one.
    pub fn finish_start(&mut self, ready: Option<Result<(), String>>, worker: W) -> (outcome: Result<(), String>)
        requires
            !start_refused(old(self)@),
        ensures
            final(self)@ == after_finish_start(old(self)@, ready, worker),
            match ready {
                None => outcome matches Err(m) && m@ == worker_died_message(),
                Some(Ok(())) => outcome is Ok,
                Some(Err(e)) => outcome == Err::<(), String>(e),
            },
            state_well_formed(old(self)@) ==> state_well_formed(final(self)@),
    {
        match ready {
            None => Err(String::from_str("Worker thread died")),
            Some(Ok(())) => {
                self.worker = Some(worker);
                self.status = AgentStatus::Running;
                Ok(())
            },
            Some(Err(e)) => {
                let message = e.clone();
                self.status = AgentStatus::Error(e);
                Err(message)
            },
        }
    }

    /// Stops the agent: hands back the worker link, if any, to be shut down.
    pub fn stop(&mut self) -> (worker: Option<W>)
        ensures
            worker == old(self)@.worker,
            final(self)@ == after_stop(old(self)@),
            state_well_formed(final(self)@),
    {
        let worker = self.worker.take();
        self.status = AgentStatus::Stopped;
        worker
    }

    /// The agent status.
    pub fn status(&self) -> (status: AgentStatus)
        ensures
            status == self@.status,
    {
        copy_status(&self.status)
    }

    /// The link to the worker, or the message that no agent runs.
    pub fn worker(&self) -> (worker: Result<&W, String>)
        ensures
            match self@.worker {
                Some(w) => worker == Ok::<&W, String>(&w),
                None => worker matches Err(m) && m@ == no_agent_message(),
            },
    {
        match &self.worker {
            Some(w) => Ok(w),
            None => Err(String::from_str("No agent running")),
        }
    }
}

/// The answer to a request handed to the worker: `delivered` tells whether
/// the request reached the worker, `reply` is the worker's reply, `None` when
/// the worker dropped the request.
pub fn worker_reply(delivered: bool, reply: Option<Result<String, String>>) -> (answer: Result<String, String>)
    ensures
        delivered && reply is Some ==> answer == reply->0,
        !(delivered && reply is Some) ==> (answer matches Err(m) && m@ == agent_worker_died_message()),
{
    if !delivered {
        return Err(String::from_str("Agent worker died"));
    }
    match reply {
        Some(answer) => answer,
        None => Err(String::from_str("Agent worker died")),
    }
}

/// A worker is linked exactly when the agent runs, in every state that the
/// operations reach from `new`.
pub proof fn law_linked_exactly_when_running<W>(
    state: AgentStateView<W>,
    ready: Option<Result<(), String>>,
    worker: W,
)
    requires
        state_well_formed(state),
    ensures
        state_well_formed(after_begin_start(state)),
        !start_refused(state) ==> state_well_formed(after_finish_start(after_begin_start(state), ready, worker)),
        state_well_formed(after_stop(state)),
{
}

/// A start while the agent runs is refused and changes nothing.
pub proof fn law_start_while_running_changes_nothing<W>(state: AgentStateView<W>)
    requires
        state_well_formed(state),
        state.status is Running,
    ensures
        start_refused(state),
        after_begin_start(state) == state,
{
}

/// A start that the worker reports ready leaves the agent running with that
/// worker; one that fails leaves the error as the status, and a new start is
/// then accepted.
pub proof fn law_start_outcomes<W>(state: AgentStateView<W>, worker: W, error: String)
    requires
        state_well_formed(state),
        !start_refused(state),
    ensures
        after_finish_start(after_begin_start(state), Some(Ok(())), worker) == (AgentStateView {
            status: AgentStatus::Running,
            worker: Some(worker),
        }),
        after_finish_start(after_begin_start(state), Some(Err(error)), worker).status == AgentStatus::Error(
            error,
        ),
        !start_refused(after_finish_start(after_begin_start(state), Some(Err(error)), worker)),
        after_finish_start(after_begin_start(state), None, worker).status is Starting,
        !start_refused(after_finish_start(after_begin_start(state), None, worker)),
{
}

/// Stopping leaves the agent stopped without a worker, from any state;
/// stopping again changes nothing, and a start is then accepted.
pub proof fn law_stop_is_idempotent<W>(state: AgentStateView<W>)
    ensures
        after_stop(state).status is Stopped,
        after_stop(state).worker is None,
        after_stop(after_stop(state)) == after_stop(state),
        !start_refused(after_stop(state)),
{
}

/// A start is refused exactly while a worker is linked; an accepted start
/// leaves the agent `Starting` without a worker, whatever its status was.
pub proof fn law_begin_start<W>(state: AgentStateView<W>)
    ensures
        start_refused(state) == state.worker is Some,
        state.worker is None ==> after_begin_start(state) == (AgentStateView::<W> {
            status: AgentStatus::Starting,
            worker: None,
        }),
        state.worker is Some ==> after_begin_start(state) == state,
{
}

/// The texts that the agent commands report.
pub proof fn law_agent_messages()
    ensures
        already_running_message() == "Agent already running. Stop it first."@,
        worker_died_message() == "Worker thread died"@,
        no_agent_message() == "No agent running"@,
        agent_worker_died_message() == "Agent worker died"@,
{
}

} // verus!
