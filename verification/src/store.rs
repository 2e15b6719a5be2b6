use core::marker::PhantomData;
use vstd::prelude::*;

verus! {

/// A state of type `S` together with the one function that may change it.
///
/// `A` is the type of the actions that the function takes.
pub struct Store<S, A, F: Fn(&mut S, &A)> {
    state: S,
    updater: F,
    action: PhantomData<A>,
}

impl<S, A, F: Fn(&mut S, &A)> Store<S, A, F> {
    /// The state held at present.
    pub closed spec fn state(&self) -> S {
        self.state
    }

    /// The function that `dispatch` calls.
    pub closed spec fn updater(&self) -> F {
        self.updater
    }

    /// A store that holds `state` and changes it through `updater`.
    pub fn new(updater: F, state: S) -> (store: Self)
        ensures
            store.state() == state,
            store.updater() == updater,
    {
        Store { state, updater, action: PhantomData }
    }

    /// Calls the updater once, on the state held and `action`. The state
    /// held afterwards is the one that this call left behind.
    pub fn dispatch(&mut self, action: &A)
        requires
            forall|s: &mut S| *s == old(self).state() ==> call_requires(old(self).updater(), (s, action)),
        ensures
            final(self).updater() == old(self).updater(),
            exists|s: &mut S|
                *s == old(self).state() && *final(s) == final(self).state() && call_ensures(
                    old(self).updater(),
                    (s, action),
                    (),
                ),
    {
        (self.updater)(&mut self.state, action);
    }

    /// The state held at present.
    pub fn get_state(&self) -> (state: &S)
        ensures
            *state == self.state(),
    {
        &self.state
    }
}

} // verus!
