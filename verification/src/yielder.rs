//! The receiving end of the rendezvous channel.

use std::marker::PhantomData;
use vstd::prelude::*;

verus! {

/// The receiving end of a single-slot rendezvous channel that carries values
/// of type `T`.
///
/// The handle holds no data of its own. Whoever drives the computation enters
/// it together with a destination slot for the length of one driving step;
/// a value that the paired sending end hands off during that step lands in
/// the slot.
#[derive(Debug)]
pub struct Receiver<T> {
    _p: PhantomData<T>,
}

impl<T> Receiver<T> {
    /// The handle at rest, entered with no slot. It carries no data, so
    /// this is the value of every handle outside a driving step.
    pub closed spec fn at_rest() -> Receiver<T> {
        Receiver { _p: PhantomData }
    }

    /// A fresh receiving end, at rest.
    pub fn new() -> (rx: Receiver<T>)
        ensures
            rx == Receiver::<T>::at_rest(),
    {
        Receiver { _p: PhantomData }
    }
}

} // verus!
