//! A run of requests against one adapter, and what holds of every run.
//!
//! A run is described by a sequence of [`Step`]s: entry `i` is what the
//! computation produces if request number `i` drives it. A request made on a
//! terminated adapter drives nothing, so its entry is never looked at.
//! State and answers follow [`transition`], as the adapter's own contracts
//! do.

use crate::step::{size_bounds, transition, Next, Step};
use vstd::prelude::*;

verus! {

/// Whether a fresh adapter is terminated once the first `n` requests of the
/// run have been answered.
pub open spec fn terminated_after<T>(steps: Seq<Step<T>>, n: nat) -> bool
    decreases n,
{
    if n == 0 {
        false
    } else {
        transition(terminated_after(steps, (n - 1) as nat), steps[n - 1]).0
    }
}

/// The answer to request number `i` of the run, counted from zero.
pub open spec fn answer<T>(steps: Seq<Step<T>>, i: nat) -> Next<T> {
    transition(terminated_after(steps, i), steps[i as int]).1
}

/// The items that the first `n` requests of the run produced, oldest first.
pub open spec fn items<T>(steps: Seq<Step<T>>, n: nat) -> Seq<T>
    decreases n,
{
    if n == 0 {
        Seq::empty()
    } else {
        let earlier = items(steps, (n - 1) as nat);
        match answer(steps, (n - 1) as nat) {
            Next::Item(v) => earlier.push(v),
            _ => earlier,
        }
    }
}

/// Termination is never undone: an adapter that is terminated after `n`
/// requests is terminated after any larger number of requests.
pub proof fn lemma_termination_is_monotone<T>(steps: Seq<Step<T>>, n: nat, m: nat)
    requires
        n <= m,
        terminated_after(steps, n),
    ensures
        terminated_after(steps, m),
    decreases m,
{
    if n < m {
        lemma_termination_is_monotone(steps, n, (m - 1) as nat);
    }
}

/// The adapter is terminated exactly when one of the driving steps made so
/// far finished the computation.
pub proof fn lemma_terminated_iff_finished<T>(steps: Seq<Step<T>>, n: nat)
    ensures
        terminated_after(steps, n) <==> exists|i: int|
            0 <= i < n && (#[trigger] steps[i]).outcome is Finished,
    decreases n,
{
    if n > 0 {
        let k = (n - 1) as nat;
        lemma_terminated_iff_finished(steps, k);
        if terminated_after(steps, k) {
            let i = choose|i: int| 0 <= i < k && (#[trigger] steps[i]).outcome is Finished;
            assert(0 <= i < n && steps[i].outcome is Finished);
        } else if steps[k as int].outcome is Finished {
            assert(0 <= k < n && steps[k as int].outcome is Finished);
        } else {
            assert forall|i: int| 0 <= i < n implies !((#[trigger] steps[i]).outcome is Finished) by {
                if i < k {
                    assert(!(steps[i].outcome is Finished));
                }
            }
        }
    }
}

/// Once a request has answered `End`, every later request answers `End`
/// too, and the adapter is terminated after each of them. Such a request
/// leaves the adapter as it found it, whatever a driving step would have
/// produced.
pub proof fn lemma_end_is_permanent<T>(steps: Seq<Step<T>>, i: nat, j: nat)
    requires
        i <= j < steps.len(),
        answer(steps, i) is End,
    ensures
        answer(steps, j) is End,
        terminated_after(steps, j + 1),
        i < j ==> transition(terminated_after(steps, j), steps[j as int]) == (
            terminated_after(steps, j),
            Next::<T>::End,
        ),
{
    assert(terminated_after(steps, i + 1));
    lemma_termination_is_monotone(steps, i + 1, j + 1);
    if i < j {
        lemma_termination_is_monotone(steps, i + 1, j);
    }
}

/// A request produces an item exactly when its driving step took place and
/// left that value in the slot: the value comes from this step and from no
/// other.
pub proof fn lemma_item_comes_from_its_step<T>(steps: Seq<Step<T>>, i: nat, v: T)
    requires
        i < steps.len(),
    ensures
        answer(steps, i) == Next::Item(v) <==> !terminated_after(steps, i) && steps[i as int].emitted
            == Some(v),
{
}

/// No run of `n` requests produces more than `n` items.
pub proof fn lemma_at_most_one_item_per_request<T>(steps: Seq<Step<T>>, n: nat)
    requires
        n <= steps.len(),
    ensures
        items(steps, n).len() <= n,
    decreases n,
{
    if n > 0 {
        lemma_at_most_one_item_per_request(steps, (n - 1) as nat);
    }
}

/// A driving step that both leaves a value in the slot and finishes the
/// computation is answered with the value; `End` is the answer to the
/// request after it.
pub proof fn lemma_emission_precedes_end<T>(steps: Seq<Step<T>>, i: nat, v: T)
    requires
        i + 1 < steps.len(),
        !terminated_after(steps, i),
        steps[i as int].outcome is Finished,
        steps[i as int].emitted == Some(v),
    ensures
        answer(steps, i) == Next::Item(v),
        answer(steps, i + 1) is End,
{
    assert(terminated_after(steps, i + 1));
}

/// A driving step that suspends the computation with the slot still empty
/// is answered with `NotReady` and leaves the adapter active.
pub proof fn lemma_suspension_yields_nothing<T>(steps: Seq<Step<T>>, i: nat)
    requires
        i < steps.len(),
        !terminated_after(steps, i),
        steps[i as int].outcome is Suspended,
        steps[i as int].emitted is None,
    ensures
        answer(steps, i) is NotReady,
        !terminated_after(steps, i + 1),
        items(steps, i + 1) == items(steps, i),
{
}

/// The size bounds say the truth: before termination they promise nothing,
/// and once they read "exactly none" no further request produces an item.
pub proof fn lemma_size_bounds_hold<T>(steps: Seq<Step<T>>, n: nat, m: nat)
    requires
        n <= m <= steps.len(),
    ensures
        !terminated_after(steps, n) ==> size_bounds(terminated_after(steps, n)) == (
            0usize,
            None::<usize>,
        ),
        terminated_after(steps, n) ==> size_bounds(terminated_after(steps, n)) == (
            0usize,
            Some(0usize),
        ) && items(steps, m) == items(steps, n),
    decreases m,
{
    if terminated_after(steps, n) && n < m {
        let k = (m - 1) as nat;
        lemma_size_bounds_hold(steps, n, k);
        lemma_termination_is_monotone(steps, n, k);
    }
}

/// A computation that only ever suspends with an empty slot keeps the
/// adapter active: every request answers `NotReady` and no item appears.
pub proof fn lemma_idle_run_never_ends<T>(steps: Seq<Step<T>>, n: nat)
    requires
        n <= steps.len(),
        forall|k: int|
            0 <= k < n ==> (#[trigger] steps[k]).outcome is Suspended && steps[k].emitted is None,
    ensures
        !terminated_after(steps, n),
        items(steps, n) == Seq::<T>::empty(),
        forall|k: nat| k < n ==> #[trigger] answer(steps, k) is NotReady,
    decreases n,
{
    if n > 0 {
        let p = (n - 1) as nat;
        lemma_idle_run_never_ends(steps, p);
        assert(steps[p as int].outcome is Suspended && steps[p as int].emitted is None);
        assert forall|k: nat| k < n implies #[trigger] answer(steps, k) is NotReady by {
            if k == p {
                assert(answer(steps, p) is NotReady);
            }
        }
    }
}

} // verus!
