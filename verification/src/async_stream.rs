//! The adapter from a resumable computation to a pull-based sequence.

use crate::step::{size_bounds, transition, Next, Outcome, Step};
use crate::yielder::Receiver;
use vstd::prelude::*;

verus! {

/// A lazy sequence of the values that a resumable computation hands to its
/// rendezvous channel.
///
/// The adapter owns the computation (`generator`) and the channel's receiving
/// end. It starts active and terminates when a driving step finishes the
/// computation; from then on it never touches either of them again.
#[derive(Debug)]
pub struct AsyncStream<T, U> {
    rx: Receiver<T>,
    done: bool,
    generator: U,
}

impl<T, U> AsyncStream<T, U> {
    /// Whether the computation has run to completion.
    pub closed spec fn terminated(&self) -> bool {
        self.done
    }

    /// The receiving end that the adapter owns.
    pub closed spec fn receiver(&self) -> Receiver<T> {
        self.rx
    }

    /// The computation that the adapter owns.
    pub closed spec fn generator(&self) -> U {
        self.generator
    }

    /// An active adapter over a computation and the receiving end paired
    /// with it.
    pub fn new(rx: Receiver<T>, generator: U) -> (stream: AsyncStream<T, U>)
        ensures
            !stream.terminated(),
            stream.receiver() == rx,
            stream.generator() == generator,
    {
        AsyncStream { rx, done: false, generator }
    }

    /// Whether the sequence is over: every further request answers `End`.
    pub fn is_terminated(&self) -> (terminated: bool)
        ensures
            terminated == self.terminated(),
    {
        self.done
    }

    /// Bounds on the number of items still to come: exactly none once
    /// terminated, at least none and unknown above before.
    pub fn size_hint(&self) -> (bounds: (usize, Option<usize>))
        ensures
            bounds == size_bounds(self.terminated()),
    {
        if self.done {
            (0, Some(0))
        } else {
            (0, None)
        }
    }

    /// Answers one request for the next element.
    ///
    /// A terminated adapter answers `End` at once and calls nothing. An
    /// active one allocates an empty destination slot and calls `drive`
    /// once, with the receiving end, the slot and the computation. `drive`
    /// enters the receiving end with the slot, advances the computation by
    /// one step, leaves the receiving end again and reports how the step
    /// ended. Whatever `drive` did, the adapter then records whether the
    /// computation finished and answers as [`transition`] says: with the
    /// value found in the slot if there is one, else with `End` if the
    /// computation finished, else with `NotReady`.
    pub fn poll_next<F>(&mut self, drive: F) -> (next: Next<T>) where
        F: FnOnce(&mut Receiver<T>, &mut Option<T>, &mut U) -> Outcome,

        requires
            !old(self).terminated() ==> forall|
                rx: &mut Receiver<T>,
                slot: &mut Option<T>,
                generator: &mut U,
            |
                *rx == old(self).receiver() && *slot is None && *generator == old(
                    self,
                ).generator() ==> call_requires(drive, (rx, slot, generator)),
        ensures
            old(self).terminated() ==> next is End && *final(self) == *old(self),
            !old(self).terminated() ==> exists|
                rx: &mut Receiver<T>,
                slot: &mut Option<T>,
                generator: &mut U,
                outcome: Outcome,
            |
                {
                    &&& *rx == old(self).receiver()
                    &&& *slot is None
                    &&& *generator == old(self).generator()
                    &&& #[trigger] call_ensures(drive, (rx, slot, generator), outcome)
                    &&& final(self).receiver() == *final(rx)
                    &&& final(self).generator() == *final(generator)
                    &&& (final(self).terminated(), next) == transition(
                        false,
                        (Step { outcome, emitted: *final(slot) }),
                    )
                },
    {
        if self.done {
            return Next::End;
        }
        let mut slot: Option<T> = None;
        let outcome = drive(&mut self.rx, &mut slot, &mut self.generator);
        self.settle(outcome, slot)
    }

    /// Concludes a request from what its driving step produced: the outcome
    /// of the step and the content of its destination slot.
    ///
    /// On a terminated adapter nothing changes, `slot` is discarded and the
    /// answer is `End`.
    pub fn settle(&mut self, outcome: Outcome, slot: Option<T>) -> (next: Next<T>)
        ensures
            final(self).receiver() == old(self).receiver(),
            final(self).generator() == old(self).generator(),
            (final(self).terminated(), next) == transition(
                old(self).terminated(),
                (Step { outcome, emitted: slot }),
            ),
    {
        if self.done {
            return Next::End;
        }
        self.done = match outcome {
            Outcome::Finished => true,
            Outcome::Suspended => false,
        };
        match slot {
            Some(value) => Next::Item(value),
            None => if self.done {
                Next::End
            } else {
                Next::NotReady
            },
        }
    }
}

} // verus!
