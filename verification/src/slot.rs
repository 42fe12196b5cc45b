//! The slot of one service: whether an instance runs, and the only moves by
//! which that changes.
//!
//! A slot goes `Stopped -> Starting -> Running -> Stopping -> Stopped`. The
//! host creates a process only between an accepted `begin_start` and
//! `complete_start`, and ends one only between an accepted `begin_stop` and
//! `complete_stop`. A process that ends by itself is reported with
//! `note_exit`, which takes the slot from `Running` straight to `Stopped`.

use crate::error::{Failure, SupervisorError};
use crate::launch::Service;
use vstd::prelude::*;

verus! {

/// The instance that a slot holds while its service runs.
#[derive(Debug, PartialEq, Eq)]
pub struct RunningInstance<I> {
    /// What the host needs to reach the process.
    pub handle: I,
    /// The number of this instance among those that the slot has held.
    pub id: u64,
    /// When it was started, by the host's clock.
    pub started_at: u64,
}

/// Where a slot stands.
#[derive(Debug, PartialEq, Eq)]
pub enum SlotState<I> {
    /// No instance, and none on its way.
    Stopped,
    /// A start was accepted; the host is creating the process.
    Starting,
    /// The instance runs.
    Running(RunningInstance<I>),
    /// A stop was accepted; the host is ending the process.
    Stopping,
}

/// The slot of one service.
#[derive(Debug, PartialEq, Eq)]
pub struct ServiceSlot<I> {
    /// The service that this slot is for.
    pub service: Service,
    /// Where the slot stands.
    pub state: SlotState<I>,
    /// The number that the next instance gets.
    pub next_id: u64,
}

/// A move on a slot: one call of one of its operations.
pub enum SlotMove<I> {
    BeginStart,
    CompleteStart(I, u64),
    AbortStart,
    BeginStop,
    CompleteStop,
    NoteExit(u64),
}

/// The number after `id`, starting over after the largest.
pub open spec fn id_after(id: u64) -> u64 {
    if id == u64::MAX {
        0
    } else {
        (id + 1) as u64
    }
}

impl<I> ServiceSlot<I> {
    /// Whether the slot is free for a start.
    pub open spec fn is_stopped(self) -> bool {
        self.state is Stopped
    }

    /// Whether the slot holds an instance.
    pub open spec fn is_running(self) -> bool {
        self.state is Running
    }

    /// This slot in another state.
    pub open spec fn with_state(self, state: SlotState<I>) -> Self {
        ServiceSlot { service: self.service, state, next_id: self.next_id }
    }

    /// The slot after `begin_start`: `Starting` if it was free, else as it
    /// was.
    pub open spec fn start_begun(self) -> Self {
        if self.is_stopped() {
            self.with_state(SlotState::Starting)
        } else {
            self
        }
    }

    /// The slot after `complete_start`: if it was `Starting`, it holds
    /// `handle` under the next number; else it is as it was.
    pub open spec fn start_completed(self, handle: I, started_at: u64) -> Self {
        if self.state is Starting {
            ServiceSlot {
                service: self.service,
                state: SlotState::Running(RunningInstance { handle, id: self.next_id, started_at }),
                next_id: id_after(self.next_id),
            }
        } else {
            self
        }
    }

    /// The slot after `abort_start`.
    pub open spec fn start_aborted(self) -> Self {
        if self.state is Starting {
            self.with_state(SlotState::Stopped)
        } else {
            self
        }
    }

    /// The slot after `begin_stop`.
    pub open spec fn stop_begun(self) -> Self {
        if self.is_running() {
            self.with_state(SlotState::Stopping)
        } else {
            self
        }
    }

    /// The slot after `complete_stop`.
    pub open spec fn stop_completed(self) -> Self {
        if self.state is Stopping {
            self.with_state(SlotState::Stopped)
        } else {
            self
        }
    }

    /// Whether the slot holds the instance numbered `id`.
    pub open spec fn holds(self, id: u64) -> bool {
        self.state matches SlotState::Running(instance) && instance.id == id
    }

    /// The slot after `note_exit(id)`.
    pub open spec fn exit_noted(self, id: u64) -> Self {
        if self.holds(id) {
            self.with_state(SlotState::Stopped)
        } else {
            self
        }
    }

    /// The slot after the move `m`.
    pub open spec fn after(self, m: SlotMove<I>) -> Self {
        match m {
            SlotMove::BeginStart => self.start_begun(),
            SlotMove::CompleteStart(handle, started_at) => self.start_completed(handle, started_at),
            SlotMove::AbortStart => self.start_aborted(),
            SlotMove::BeginStop => self.stop_begun(),
            SlotMove::CompleteStop => self.stop_completed(),
            SlotMove::NoteExit(id) => self.exit_noted(id),
        }
    }

    /// The slot after the moves `moves`, in order.
    pub open spec fn after_all(self, moves: Seq<SlotMove<I>>) -> Self
        decreases moves.len(),
    {
        if moves.len() == 0 {
            self
        } else {
            self.after_all(moves.drop_last()).after(moves.last())
        }
    }

    /// The empty slot for `service`.
    pub open spec fn new_slot(service: Service) -> Self {
        ServiceSlot { service, state: SlotState::Stopped, next_id: 0 }
    }

    /// An empty slot for `service`.
    pub fn new(service: Service) -> (slot: Self)
        ensures
            slot == Self::new_slot(service),
    {
        ServiceSlot { service, state: SlotState::Stopped, next_id: 0 }
    }

    /// Whether the slot holds an instance.
    pub fn running(&self) -> (r: bool)
        ensures
            r == self.is_running(),
    {
        match &self.state {
            SlotState::Running(_) => true,
            _ => false,
        }
    }

    /// The instance that the slot holds.
    pub fn instance(&self) -> (r: Option<&RunningInstance<I>>)
        ensures
            match self.state {
                SlotState::Running(instance) => r == Some(&instance),
                _ => r is None,
            },
    {
        match &self.state {
            SlotState::Running(instance) => Some(instance),
            _ => None,
        }
    }

    /// Asks to start the service. Accepted only on a free slot, which is then
    /// `Starting`; on any other the request is refused with `AlreadyRunning`
    /// and the slot stays as it was.
    pub fn begin_start(&mut self) -> (r: Result<(), SupervisorError>)
        ensures
            *final(self) == old(self).start_begun(),
            r is Ok <==> old(self).is_stopped(),
            r matches Err(e) ==> e@ == Failure::AlreadyRunning(old(self).service),
    {
        match &self.state {
            SlotState::Stopped => {
                self.state = SlotState::Starting;
                Ok(())
            },
            _ => Err(SupervisorError::AlreadyRunning(self.service)),
        }
    }

    /// Hands the slot the process that was created for it. On a slot that is
    /// `Starting` the instance is recorded and its number returned; on any
    /// other the handle comes back and the slot stays as it was.
    pub fn complete_start(&mut self, handle: I, started_at: u64) -> (r: Result<u64, I>)
        ensures
            *final(self) == old(self).start_completed(handle, started_at),
            old(self).state is Starting ==> r == Ok::<u64, I>(old(self).next_id),
            !(old(self).state is Starting) ==> r == Err::<u64, I>(handle),
    {
        match &self.state {
            SlotState::Starting => {
                let id = self.next_id;
                self.state = SlotState::Running(RunningInstance { handle, id, started_at });
                self.next_id = if id == u64::MAX {
                    0
                } else {
                    id + 1
                };
                Ok(id)
            },
            _ => Err(handle),
        }
    }

    /// Gives up a start whose process could not be created. Returns whether
    /// the slot was `Starting`; it is then free again.
    pub fn abort_start(&mut self) -> (r: bool)
        ensures
            *final(self) == old(self).start_aborted(),
            r == (old(self).state is Starting),
    {
        match &self.state {
            SlotState::Starting => {
                self.state = SlotState::Stopped;
                true
            },
            _ => false,
        }
    }

    /// Asks to stop the service. Accepted only on a slot that holds an
    /// instance, which is handed out and the slot is then `Stopping`; on any
    /// other the request is refused with `NotRunning` and the slot stays as
    /// it was.
    pub fn begin_stop(&mut self) -> (r: Result<RunningInstance<I>, SupervisorError>)
        ensures
            *final(self) == old(self).stop_begun(),
            r is Ok <==> old(self).is_running(),
            r matches Ok(instance) ==> old(self).state == SlotState::Running(instance),
            r matches Err(e) ==> e@ == Failure::NotRunning(old(self).service),
    {
        match &self.state {
            SlotState::Running(_) => {},
            _ => {
                return Err(SupervisorError::NotRunning(self.service));
            },
        }
        let mut taken = SlotState::Stopping;
        core::mem::swap(&mut self.state, &mut taken);
        match taken {
            SlotState::Running(instance) => Ok(instance),
            _ => Err(SupervisorError::NotRunning(self.service)),
        }
    }

    /// Records that the process of an accepted stop is gone, or could not be
    /// ended: either way the slot is free again. Returns whether the slot was
    /// `Stopping`.
    pub fn complete_stop(&mut self) -> (r: bool)
        ensures
            *final(self) == old(self).stop_completed(),
            r == (old(self).state is Stopping),
    {
        match &self.state {
            SlotState::Stopping => {
                self.state = SlotState::Stopped;
                true
            },
            _ => false,
        }
    }

    /// Records that the process of instance `id` ended by itself. If the slot
    /// still holds that instance, it is handed out and the slot is free; a
    /// report about any other instance changes nothing.
    pub fn note_exit(&mut self, id: u64) -> (r: Option<RunningInstance<I>>)
        ensures
            *final(self) == old(self).exit_noted(id),
            r is Some <==> old(self).holds(id),
            r matches Some(instance) ==> old(self).state == SlotState::Running(instance),
    {
        match &self.state {
            SlotState::Running(instance) => {
                if instance.id != id {
                    return None;
                }
            },
            _ => {
                return None;
            },
        }
        let mut taken = SlotState::Stopped;
        core::mem::swap(&mut self.state, &mut taken);
        match taken {
            SlotState::Running(instance) => Some(instance),
            _ => None,
        }
    }
}

} // verus!
