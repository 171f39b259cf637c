//! The hand-over of the graphics context from the task that sets it up to
//! the frame loop: a slot that is written once and emptied once.

use vstd::prelude::*;

verus! {

/// A slot for one value, written at most once and read at most once.
#[derive(Debug)]
pub struct Handoff<T> {
    slot: Option<T>,
    written: bool,
}

impl<T> Handoff<T> {
    /// What waits in the slot.
    pub closed spec fn waiting(self) -> Option<T> {
        self.slot
    }

    /// Whether the slot was ever written.
    pub closed spec fn written(self) -> bool {
        self.written
    }

    /// An empty slot that was never written.
    pub fn new() -> (handoff: Self)
        ensures
            handoff.waiting().is_none(),
            !handoff.written(),
    {
        Handoff { slot: None, written: false }
    }

    /// Writes `value` into the slot, once: a second write is refused and
    /// gets its value back.
    pub fn offer(&mut self, value: T) -> (refused: Option<T>)
        ensures
            final(self).written(),
            old(self).written() ==> refused == Some(value) && final(self).waiting() == old(
                self,
            ).waiting(),
            !old(self).written() ==> refused.is_none() && final(self).waiting() == Some(value),
    {
        if self.written {
            Some(value)
        } else {
            self.slot = Some(value);
            self.written = true;
            None
        }
    }

    /// Takes what waits in the slot and leaves it empty.
    pub fn drain(&mut self) -> (value: Option<T>)
        ensures
            value == old(self).waiting(),
            final(self).waiting().is_none(),
            final(self).written() == old(self).written(),
    {
        self.slot.take()
    }
}

/// The graphics context as the frame loop holds it.
#[derive(Debug)]
pub enum GpuState<C> {
    /// The context is not there yet.
    Uninitialized,
    /// The context is there.
    Ready(C),
}

impl<C> GpuState<C> {
    /// The state after the start of a tick that found `arrived` in the slot.
    pub open spec fn polled(self, arrived: Option<C>) -> Self {
        match (self, arrived) {
            (GpuState::Uninitialized, Some(context)) => GpuState::Ready(context),
            (state, _) => state,
        }
    }

    /// Whether the context is there.
    pub fn is_ready(&self) -> (ready: bool)
        ensures
            ready == (self is Ready),
    {
        match self {
            GpuState::Uninitialized => false,
            GpuState::Ready(_) => true,
        }
    }

    /// The start of a tick: empties the slot and, where a context waited
    /// and none is held yet, takes it.
    pub fn poll(self, handoff: &mut Handoff<C>) -> (state: Self)
        ensures
            state == self.polled(old(handoff).waiting()),
            final(handoff).waiting().is_none(),
            final(handoff).written() == old(handoff).written(),
    {
        let arrived = handoff.drain();
        match self {
            GpuState::Uninitialized => match arrived {
                Some(context) => GpuState::Ready(context),
                None => GpuState::Uninitialized,
            },
            GpuState::Ready(context) => GpuState::Ready(context),
        }
    }
}

} // verus!
