//! Start and stop of a pipeline run: the shutdown signal that the line source
//! worker polls, and the queue's producer handle whose release closes the queue
//! for the sound worker.
use vstd::prelude::*;

verus! {

/// Where the pipeline stands, as far as the coordinator knows.
#[derive(Clone, Copy, Debug, PartialEq, Eq, Structural)]
pub enum Phase {
    /// Nothing was started.
    Idle,
    /// A run holds the producer handle and no stop was asked.
    Running,
    /// A stop was asked; the workers wind down on their own.
    Stopping,
}

/// The coordinator's state: the shutdown signal and, while a run is active, the
/// producer handle of its queue.
pub struct Lifecycle<H> {
    shutdown: bool,
    producer: Option<H>,
}

/// The state after a start that stores `handle`.
pub open spec fn after_start<H>(state: (bool, Option<H>), handle: H) -> (bool, Option<H>) {
    (false, Some(handle))
}

/// The state after a stop.
pub open spec fn after_stop<H>(state: (bool, Option<H>)) -> (bool, Option<H>) {
    (true, None)
}

/// The phase of a coordinator state.
pub open spec fn phase_of<H>(state: (bool, Option<H>)) -> Phase {
    if state.0 {
        Phase::Stopping
    } else if state.1 is Some {
        Phase::Running
    } else {
        Phase::Idle
    }
}

impl<H> Lifecycle<H> {
    /// The shutdown signal and the stored producer handle.
    pub closed spec fn view(&self) -> (bool, Option<H>) {
        (self.shutdown, self.producer)
    }

    /// A coordinator with nothing started.
    pub fn new() -> (r: Lifecycle<H>)
        ensures
            r.view() == (false, None::<H>),
            phase_of(r.view()) == Phase::Idle,
    {
        Lifecycle { shutdown: false, producer: None }
    }

    /// Begins a run: clears the shutdown signal and stores `producer`. The
    /// handle of an earlier run, if still stored, is handed back to the caller.
    pub fn start(&mut self, producer: H) -> (replaced: Option<H>)
        ensures
            final(self).view() == after_start(old(self).view(), producer),
            replaced == old(self).view().1,
            phase_of(final(self).view()) == Phase::Running,
    {
        self.shutdown = false;
        let replaced = self.producer.take();
        self.producer = Some(producer);
        replaced
    }

    /// Ends the run: sets the shutdown signal and hands the stored producer
    /// handle back to the caller, whose dropping of it closes the queue.
    pub fn stop(&mut self) -> (released: Option<H>)
        ensures
            final(self).view() == after_stop(old(self).view()),
            released == old(self).view().1,
            phase_of(final(self).view()) == Phase::Stopping,
    {
        self.shutdown = true;
        self.producer.take()
    }

    /// Whether a stop was asked since the last start.
    pub fn shutdown_requested(&self) -> (r: bool)
        ensures
            r == self.view().0,
    {
        self.shutdown
    }

    /// Whether a producer handle is stored.
    pub fn has_producer(&self) -> (r: bool)
        ensures
            r == self.view().1 is Some,
    {
        self.producer.is_some()
    }

    /// The coordinator's phase.
    pub fn phase(&self) -> (r: Phase)
        ensures
            r == phase_of(self.view()),
    {
        if self.shutdown {
            Phase::Stopping
        } else if self.producer.is_some() {
            Phase::Running
        } else {
            Phase::Idle
        }
    }
}

/// Two starts in a row leave the second run's handle stored, hand the first
/// one back, and the stop that follows releases the second one: the last
/// start wins.
pub proof fn law_last_start_wins<H>(state: (bool, Option<H>), first: H, second: H)
    ensures
        after_start(state, first).1 == Some(first),
        after_start(after_start(state, first), second).1 == Some(second),
        after_stop(after_start(after_start(state, first), second)).1 is None,
        phase_of(after_stop(after_start(after_start(state, first), second))) == Phase::Stopping,
{
}

/// A start after a stop brings the coordinator back to a clean running state.
pub proof fn law_restart_is_clean<H>(state: (bool, Option<H>), handle: H)
    ensures
        after_start(after_stop(state), handle) == (false, Some(handle)),
        phase_of(after_start(after_stop(state), handle)) == Phase::Running,
{
}

} // verus!
