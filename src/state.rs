use vstd::prelude::*;
use std::sync::atomic::{AtomicBool, Ordering};
use std::sync::{Arc, RwLock};
use crate::events::{CommandResult, Event, Response, State};

verus! {

/// The phase of the remote timer, as last reported.
#[derive(Copy, Clone, Debug, PartialEq, Eq, Structural)]
pub enum TimerState {
    NotRunning,
    Running,
    Paused,
    Ended,
}

/// The phase that a received message reports, where it reports one.
pub open spec fn update_of(msg: CommandResult) -> Option<TimerState> {
    match msg {
        CommandResult::Success(Response::State(State::NotRunning)) => Some(TimerState::NotRunning),
        CommandResult::Success(Response::State(State::Running(_))) => Some(TimerState::Running),
        CommandResult::Success(Response::State(State::Paused(_))) => Some(TimerState::Paused),
        CommandResult::Success(Response::State(State::Ended)) => Some(TimerState::Ended),
        CommandResult::Event(Event::Started) => Some(TimerState::Running),
        CommandResult::Event(Event::Paused) => Some(TimerState::Paused),
        CommandResult::Event(Event::Resumed) => Some(TimerState::Running),
        CommandResult::Event(Event::Finished) => Some(TimerState::Ended),
        CommandResult::Event(Event::Reset) => Some(TimerState::NotRunning),
        _ => None,
    }
}

/// The cached phase after a message has been received.
pub open spec fn projected(cache: TimerState, msg: CommandResult) -> TimerState {
    match update_of(msg) {
        Some(s) => s,
        None => cache,
    }
}

/// Whether a message is a state report, or one of the events that move the
/// timer from one phase to another.
pub open spec fn reports_phase(msg: CommandResult) -> bool {
    match msg {
        CommandResult::Success(Response::State(_)) => true,
        CommandResult::Event(e) => e == Event::Started || e == Event::Paused || e
            == Event::Resumed || e == Event::Finished || e == Event::Reset,
        _ => false,
    }
}

/// The phase that a received message reports, where it reports one.
pub fn state_update(msg: &CommandResult) -> (r: Option<TimerState>)
    ensures
        r == update_of(*msg),
{
    match msg {
        CommandResult::Success(Response::State(s)) => Some(
            match s {
                State::NotRunning => TimerState::NotRunning,
                State::Running(_) => TimerState::Running,
                State::Paused(_) => TimerState::Paused,
                State::Ended => TimerState::Ended,
            },
        ),
        CommandResult::Event(Event::Started) => Some(TimerState::Running),
        CommandResult::Event(Event::Paused) => Some(TimerState::Paused),
        CommandResult::Event(Event::Resumed) => Some(TimerState::Running),
        CommandResult::Event(Event::Finished) => Some(TimerState::Ended),
        CommandResult::Event(Event::Reset) => Some(TimerState::NotRunning),
        _ => None,
    }
}

/// A message that reports no phase leaves the cache as it was; one that does
/// replaces the cache, whatever it held.
pub proof fn lemma_projection_exact(cache: TimerState, msg: CommandResult)
    ensures
        !reports_phase(msg) ==> projected(cache, msg) == cache,
        reports_phase(msg) ==> (forall|other: TimerState| projected(other, msg) == projected(cache, msg)),
        reports_phase(msg) <==> update_of(msg) is Some,
{
}

#[verifier::external_type_specification]
#[verifier::external_body]
#[verifier::reject_recursive_types(T)]
pub struct ExRwLock<T: ?Sized>(RwLock<T>);

/// Relies on RwLock::read: the value in the cell, taken also from a lock that
/// a failed writer left poisoned.
#[verifier::external_body]
fn read_cell(cell: &RwLock<TimerState>) -> TimerState {
    *cell.read().unwrap_or_else(|e| e.into_inner())
}

/// Relies on RwLock::write: replaces the value in the cell, also in a lock
/// that a failed writer left poisoned.
#[verifier::external_body]
fn write_cell(cell: &RwLock<TimerState>, s: TimerState) {
    *cell.write().unwrap_or_else(|e| e.into_inner()) = s;
}

/// The state that the two loops of one connection share: the cached timer
/// phase and whether the connection is still alive.
#[derive(Debug, Clone)]
pub struct SharedState {
    state: Arc<RwLock<TimerState>>,
    alive: Arc<AtomicBool>,
}

impl SharedState {
    /// A live shared state around the given cell.
    pub fn new(state: Arc<RwLock<TimerState>>) -> Self {
        SharedState { state, alive: Arc::new(AtomicBool::new(true)) }
    }

    /// The cached phase; never fails.
    pub fn state(&self) -> TimerState {
        read_cell(&self.state)
    }

    /// Replaces the cached phase; never fails.
    pub fn write(&self, s: TimerState) {
        write_cell(&self.state, s)
    }

    /// Whether no loop has marked the connection dead yet.
    pub fn alive(&self) -> bool {
        self.alive.load(Ordering::Relaxed)
    }

    /// Marks the connection dead. Calling it again changes nothing.
    pub fn deadge(&self) {
        self.alive.store(false, Ordering::Relaxed)
    }
}

} // verus!
