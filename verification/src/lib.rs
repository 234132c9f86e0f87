//! A supervisor for a single external child process.
//!
//! The host application starts exactly one child process at startup and must
//! ask it to terminate exactly once, when the application's exit event fires.
//! The supervisor owns an optional process handle: it is filled once, on a
//! successful spawn, and emptied once, by the first exit event. A second exit
//! event observes the empty slot and does nothing. Termination is best-effort:
//! the supervisor only decides *which* kill request to issue; the caller
//! performs it and discards its result.
//!
//! All process I/O (spawning, killing) happens outside this crate. The caller
//! hands in the outcome of the spawn and the events of the run loop as plain
//! values, and carries out the [`TerminationRequest`] the supervisor returns.

use vstd::prelude::*;

verus! {

/// An event delivered by the host application's run loop.
///
/// The supervisor reacts to exactly one event kind, the application-exit
/// event; every other kind is ignored.
#[derive(Clone, Copy, Debug, PartialEq, Eq, Structural)]
pub enum AppEvent {
    /// The application is shutting down.
    Exit,
    /// Any event other than the exit event.
    Other,
}

/// How the current platform terminates the supervised process.
#[derive(Clone, Copy, Debug, PartialEq, Eq, Structural)]
pub enum TerminationStyle {
    /// A forceful, recursive kill by process id, reaching the whole
    /// process tree.
    KillTreeById,
    /// A direct termination signal to the process handle.
    DirectSignal,
}

/// The side effect the caller must perform after handing an event to the
/// supervisor. The caller issues the request and ignores its outcome:
/// termination is fire-and-forget.
#[derive(Clone, Copy, Debug, PartialEq, Eq, Structural)]
pub enum TerminationRequest {
    /// Issue a forceful, recursive kill of the process tree rooted at `pid`.
    KillTree { pid: u32 },
    /// Send a direct termination signal to the process with id `pid`.
    Signal { pid: u32 },
    /// Nothing to do.
    NoOp,
}

/// The spawn of the child process failed. Startup is aborted: no supervisor
/// value exists, so no exit-event handling is ever reachable.
#[derive(Clone, Copy, Debug, PartialEq, Eq, Structural)]
pub struct SpawnError;

/// The kill request that terminates process `pid` under `style`.
pub open spec fn request_for(pid: u32, style: TerminationStyle) -> TerminationRequest {
    match style {
        TerminationStyle::KillTreeById => TerminationRequest::KillTree { pid },
        TerminationStyle::DirectSignal => TerminationRequest::Signal { pid },
    }
}

/// One step of the supervisor's state machine: from the current slot and an
/// incoming event to the next slot and the request the caller must perform.
///
/// Only the exit event on a filled slot does anything: it empties the slot
/// and asks for the platform's kill request. Every other combination leaves
/// the slot as it is and asks for nothing.
pub open spec fn step(
    state: Option<u32>,
    event: AppEvent,
    style: TerminationStyle,
) -> (Option<u32>, TerminationRequest) {
    match (event, state) {
        (AppEvent::Exit, Some(pid)) => (None, request_for(pid, style)),
        _ => (state, TerminationRequest::NoOp),
    }
}

/// Owns the lifecycle of exactly one child process.
///
/// The slot holds the id of the running process, or nothing once the process
/// has been taken for termination. It is filled exactly once, at construction,
/// and emptied exactly once, by the first exit event; there is no path back.
pub struct Supervisor {
    slot: Option<u32>,
}

impl View for Supervisor {
    type V = Option<u32>;

    closed spec fn view(&self) -> Option<u32> {
        self.slot
    }
}

impl Supervisor {
    /// Begins supervising the process with id `pid`, entering the running
    /// state. This is the only way a slot is ever filled.
    pub fn new(pid: u32) -> (s: Supervisor)
        ensures
            s@ == Some(pid),
    {
        Supervisor { slot: Some(pid) }
    }

    /// Turns the outcome of the startup spawn into a supervisor.
    ///
    /// A successful spawn yields a running supervisor over that process; a
    /// failed spawn is fatal and yields an error, so the application never
    /// reaches the running state and no exit-event handling is reachable.
    pub fn start(spawn_result: Option<u32>) -> (r: Result<Supervisor, SpawnError>)
        ensures
            spawn_result matches Some(pid) ==> (r matches Ok(s) && s@ == Some(pid)),
            spawn_result is None ==> (r matches Err(e) && e == SpawnError),
    {
        match spawn_result {
            Some(pid) => Ok(Supervisor::new(pid)),
            None => Err(SpawnError),
        }
    }

    /// Whether the supervisor still holds a live process handle.
    pub fn is_running(&self) -> (b: bool)
        ensures
            b == (self@ is Some),
    {
        self.slot.is_some()
    }

    /// The id of the supervised process, while it is held.
    pub fn current_pid(&self) -> (p: Option<u32>)
        ensures
            p == self@,
    {
        self.slot
    }

    /// Takes the process handle out for termination, leaving the slot empty
    /// so that it cannot be taken twice. Returns the id that was held, or
    /// nothing if the handle was already taken.
    pub fn take_for_termination(&mut self) -> (taken: Option<u32>)
        ensures
            taken == old(self)@,
            final(self)@ is None,
    {
        let taken = self.slot;
        self.slot = None;
        taken
    }

    /// Handles one event from the host application's run loop, following
    /// [`step`]: the first exit event empties the slot and returns the
    /// platform's kill request; anything else changes nothing and returns
    /// [`TerminationRequest::NoOp`]. The caller performs the request and
    /// discards its result.
    pub fn on_event(&mut self, event: AppEvent, style: TerminationStyle) -> (req: TerminationRequest)
        ensures
            final(self)@ == step(old(self)@, event, style).0,
            req == step(old(self)@, event, style).1,
    {
        match event {
            AppEvent::Exit => {
                match self.take_for_termination() {
                    Some(pid) => termination_request(pid, style),
                    None => TerminationRequest::NoOp,
                }
            }
            AppEvent::Other => TerminationRequest::NoOp,
        }
    }
}

/// Builds the kill request for process `pid` under `style`: a forceful,
/// recursive kill by id on the platform family that needs one, a direct
/// signal everywhere else.
pub fn termination_request(pid: u32, style: TerminationStyle) -> (req: TerminationRequest)
    ensures
        req == request_for(pid, style),
{
    match style {
        TerminationStyle::KillTreeById => TerminationRequest::KillTree { pid },
        TerminationStyle::DirectSignal => TerminationRequest::Signal { pid },
    }
}

/// No respawn path exists: once the slot is empty no event refills it, and
/// while it is full no event replaces its process with a different one. So at
/// most one process is ever supervised per application lifetime.
pub proof fn lemma_no_respawn(state: Option<u32>, event: AppEvent, style: TerminationStyle)
    ensures
        state is None ==> step(state, event, style).0 is None,
        step(state, event, style).0 is Some ==> step(state, event, style).0 == state,
{
}

/// The exit transition is idempotent: after one exit event the slot is empty,
/// and a second exit event changes nothing and asks for no action.
pub proof fn lemma_exit_idempotent(state: Option<u32>, style: TerminationStyle)
    ensures
        step(step(state, AppEvent::Exit, style).0, AppEvent::Exit, style).0 == step(
            state,
            AppEvent::Exit,
            style,
        ).0,
        step(step(state, AppEvent::Exit, style).0, AppEvent::Exit, style).1
            == TerminationRequest::NoOp,
{
}

/// A single exit event on a running supervisor terminates: the slot is
/// emptied and exactly the platform's kill request is asked for, which is
/// never a no-op.
pub proof fn lemma_exit_terminates(pid: u32, style: TerminationStyle)
    ensures
        step(Some(pid), AppEvent::Exit, style).0 is None,
        step(Some(pid), AppEvent::Exit, style).1 == request_for(pid, style),
        request_for(pid, style) != TerminationRequest::NoOp,
{
}

/// Events other than the exit event are ignored entirely: the slot is
/// unchanged and no action is asked for.
pub proof fn lemma_other_events_ignored(state: Option<u32>, style: TerminationStyle)
    ensures
        step(state, AppEvent::Other, style).0 == state,
        step(state, AppEvent::Other, style).1 == TerminationRequest::NoOp,
{
}

/// Which kill request each platform family gets: a forceful, recursive kill
/// by process id on the family that needs one, a direct signal to the handle
/// on all others. Both carry the supervised process's id.
pub proof fn lemma_platform_request(pid: u32)
    ensures
        request_for(pid, TerminationStyle::KillTreeById) == (TerminationRequest::KillTree { pid }),
        request_for(pid, TerminationStyle::DirectSignal) == (TerminationRequest::Signal { pid }),
{
}

} // verus!
