//! The slot that holds the one backend process, and what the shell does
//! with it when the application starts and when its windows go away.
//!
//! The slot is generic in the handle, so the rules are the same for a real
//! process and for a number that stands for one. Whoever owns the slot gives
//! out one `&mut` at a time; the shell keeps it behind a lock.

use vstd::prelude::*;
use crate::error::ShellError;

verus! {

/// What the slot holds.
#[derive(Debug, PartialEq, Eq)]
pub enum SlotState<H> {
    /// No backend was started, or starting it failed.
    Vacant,
    /// The backend runs under this handle.
    Occupied(H),
    /// The handle was taken out to end the backend. Nothing is stored again.
    Retired,
}

/// The slot for the handle of the backend process.
#[derive(Debug)]
pub struct ProcessSlot<H> {
    state: SlotState<H>,
}

/// What became of an attempt to start the backend.
#[derive(Debug, PartialEq, Eq)]
pub enum LaunchOutcome<H> {
    /// The handle is in the slot.
    Started,
    /// No backend was started. The application goes on without one of its
    /// own, since one may be running already; the failure is to be reported.
    Degraded(ShellError),
    /// The slot was not vacant and keeps what it held; the new handle comes
    /// back to the caller.
    Refused(H),
}

/// What happened to a window of the application.
#[derive(Clone, Copy, Debug, PartialEq, Eq, Structural)]
pub enum WindowEvent {
    /// The window was destroyed; `primary` tells whether it was the main
    /// window.
    Destroyed { primary: bool },
    /// Anything else.
    Other,
}

impl<H> SlotState<H> {
    /// The handle in the slot, if there is one.
    pub open spec fn handle(self) -> Option<H> {
        match self {
            SlotState::Occupied(handle) => Some(handle),
            _ => None,
        }
    }
}

/// The slot and the outcome after an attempt to start the backend. A handle
/// goes into a vacant slot and nowhere else.
pub open spec fn launch_step<H>(state: SlotState<H>, attempt: Result<H, ShellError>) -> (
    SlotState<H>,
    LaunchOutcome<H>,
) {
    match attempt {
        Err(failure) => (state, LaunchOutcome::Degraded(failure)),
        Ok(handle) => match state {
            SlotState::Vacant => (SlotState::Occupied(handle), LaunchOutcome::Started),
            _ => (state, LaunchOutcome::Refused(handle)),
        },
    }
}

/// The slot after the backend was ended, and the handle to end it by.
pub open spec fn terminate_step<H>(state: SlotState<H>) -> (SlotState<H>, Option<H>) {
    (SlotState::Retired, state.handle())
}

/// Whether a window event ends the backend: only the destruction of the main
/// window does.
pub open spec fn ends_backend(event: WindowEvent) -> bool {
    event == (WindowEvent::Destroyed { primary: true })
}

/// The slot after a window event, and the handle to end the backend by.
pub open spec fn window_step<H>(state: SlotState<H>, event: WindowEvent) -> (
    SlotState<H>,
    Option<H>,
) {
    if ends_backend(event) {
        terminate_step(state)
    } else {
        (state, None)
    }
}

impl<H> View for ProcessSlot<H> {
    type V = SlotState<H>;

    closed spec fn view(&self) -> SlotState<H> {
        self.state
    }
}

impl<H> ProcessSlot<H> {
    /// A vacant slot.
    pub fn new() -> (slot: Self)
        ensures
            slot@ == SlotState::<H>::Vacant,
    {
        ProcessSlot { state: SlotState::Vacant }
    }

    /// Whether a handle is in the slot.
    pub fn is_occupied(&self) -> (occupied: bool)
        ensures
            occupied == (self@ is Occupied),
    {
        match &self.state {
            SlotState::Occupied(_) => true,
            _ => false,
        }
    }

    /// Whether the handle was taken out for good.
    pub fn is_retired(&self) -> (retired: bool)
        ensures
            retired == (self@ is Retired),
    {
        match &self.state {
            SlotState::Retired => true,
            _ => false,
        }
    }

    /// Records an attempt to start the backend. The handle of a backend that
    /// started goes into the slot if the slot is vacant; a slot that holds a
    /// handle, or that was retired, is left as it is.
    pub fn record_launch(&mut self, attempt: Result<H, ShellError>) -> (outcome: LaunchOutcome<H>)
        ensures
            (final(self)@, outcome) == launch_step(old(self)@, attempt),
    {
        match attempt {
            Err(failure) => LaunchOutcome::Degraded(failure),
            Ok(handle) => {
                let vacant = match &self.state {
                    SlotState::Vacant => true,
                    _ => false,
                };
                if vacant {
                    self.state = SlotState::Occupied(handle);
                    LaunchOutcome::Started
                } else {
                    LaunchOutcome::Refused(handle)
                }
            },
        }
    }

    /// Takes the handle out and retires the slot. The caller ends the
    /// process that the handle stands for; where the slot held none there is
    /// nothing to do, and that is no failure.
    pub fn terminate(&mut self) -> (handle: Option<H>)
        ensures
            (final(self)@, handle) == terminate_step(old(self)@),
    {
        let mut state = SlotState::Retired;
        core::mem::swap(&mut self.state, &mut state);
        match state {
            SlotState::Occupied(handle) => Some(handle),
            _ => None,
        }
    }

    /// Reacts to a window event: the destruction of the main window ends the
    /// backend as [`ProcessSlot::terminate`] does, every other event leaves
    /// the slot alone.
    pub fn on_window_event(&mut self, event: WindowEvent) -> (handle: Option<H>)
        ensures
            (final(self)@, handle) == window_step(old(self)@, event),
    {
        match event {
            WindowEvent::Destroyed { primary: true } => self.terminate(),
            _ => None,
        }
    }
}

/// After a backend was started into a vacant slot, the slot holds its handle
/// and no other; a slot that holds a handle keeps that handle through every
/// further attempt, and the attempt's own handle comes back.
pub proof fn lemma_slot_is_never_overwritten<H>(
    state: SlotState<H>,
    attempt: Result<H, ShellError>,
)
    ensures
        state is Vacant && attempt is Ok ==> launch_step(state, attempt).0 == SlotState::Occupied(
            attempt->Ok_0,
        ),
        state is Occupied ==> launch_step(state, attempt).0 == state,
        state is Occupied && attempt is Ok ==> launch_step(state, attempt).1
            == LaunchOutcome::Refused(attempt->Ok_0),
{
}

/// Ending the backend twice is ending it once: the first call hands out the
/// handle, if there was one, and the second finds the slot retired, hands out
/// nothing and leaves it so.
pub proof fn lemma_terminate_is_idempotent<H>(state: SlotState<H>)
    ensures
        terminate_step(terminate_step(state).0) == (SlotState::<H>::Retired, None::<H>),
        terminate_step(terminate_step(state).0).0 == terminate_step(state).0,
{
}

/// A retired slot stays retired and empty, whatever is tried on it: no
/// attempt to start the backend and no window event stores a handle again.
pub proof fn lemma_retired_slot_stays_empty<H>(
    attempt: Result<H, ShellError>,
    event: WindowEvent,
)
    ensures
        launch_step(SlotState::<H>::Retired, attempt).0 == SlotState::<H>::Retired,
        window_step(SlotState::<H>::Retired, event) == (SlotState::<H>::Retired, None::<H>),
{
}

} // verus!
