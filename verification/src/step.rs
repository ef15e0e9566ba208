//! One driving step: what it consumes and what it answers.

use vstd::prelude::*;

verus! {

/// How one driving step left the computation.
#[derive(Debug, Clone, Copy, PartialEq, Eq, Structural)]
pub enum Outcome {
    /// The computation is not finished; it waits to be resumed.
    Suspended,
    /// The computation ran to completion.
    Finished,
}

/// What one request for the next element answers.
#[derive(Debug, PartialEq, Eq)]
pub enum Next<T> {
    /// The computation handed off this value.
    Item(T),
    /// No value yet: ask again once the computation has been woken.
    NotReady,
    /// The sequence is over, for good.
    End,
}

/// Everything one driving step of the computation produced: how it left the
/// computation, and the value found in the destination slot afterwards.
pub struct Step<T> {
    pub outcome: Outcome,
    pub emitted: Option<T>,
}

/// The answer to a request whose driving step produced `step`.
///
/// A value in the slot is reported even when the computation finished in the
/// same step; the end is reported only when the slot stayed empty.
pub open spec fn answer_of<T>(step: Step<T>) -> Next<T> {
    match step.emitted {
        Some(v) => Next::Item(v),
        None => if step.outcome is Finished {
            Next::End
        } else {
            Next::NotReady
        },
    }
}

/// One request, as a function of the adapter's state: the state after the
/// request and its answer.
///
/// A terminated adapter stays terminated and answers `End` whatever `step`
/// holds, since the computation is no longer driven. An active adapter
/// becomes terminated exactly when the computation finished.
pub open spec fn transition<T>(terminated: bool, step: Step<T>) -> (bool, Next<T>) {
    if terminated {
        (true, Next::End)
    } else {
        (step.outcome is Finished, answer_of(step))
    }
}

/// The bounds on the number of items still to come: none once terminated,
/// unknown before.
pub open spec fn size_bounds(terminated: bool) -> (usize, Option<usize>) {
    if terminated {
        (0, Some(0))
    } else {
        (0, None)
    }
}

} // verus!
