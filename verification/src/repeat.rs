use vstd::prelude::*;

use crate::owner::SelfMonadOwner;

verus! {

/// A container whose derivation step is a pure function of the owner and
/// may run any number of times.
///
/// Every materialize call runs the stored step afresh against the owner as
/// it currently stands; nothing is consumed and no view is cached, so as
/// long as the owner is unchanged between calls a referentially
/// transparent step re-derives the same view each time (see
/// [`crate::lemma_repeat_view_consistent`]).
pub struct SelfMonad<O, V: ?Sized, F> {
    owner: O,
    func: F,
    view_marker: core::marker::PhantomData<V>,
}

impl<O, V: ?Sized, F> SelfMonad<O, V, F> {
    /// The owner currently stored in the container.
    pub closed spec fn owner_spec(&self) -> O {
        self.owner
    }

    /// The derivation step stored in the container.
    pub closed spec fn step_spec(&self) -> F {
        self.func
    }
}

impl<O, V: ?Sized, F: Fn(&O) -> &V> SelfMonad<O, V, F> {
    /// Store `owner` and a repeatable step deriving a shared view of it,
    /// without running the step.
    pub fn new(owner: O, func: F) -> (r: Self)
        ensures
            r.owner_spec() == owner,
            r.step_spec() == func,
    {
        SelfMonad { owner, func, view_marker: core::marker::PhantomData }
    }

    /// Run the stored step against the owner and return the derived view.
    /// The step stays in place, ready to run again.
    pub fn as_ref(&self) -> (r: &V)
        requires
            call_requires(self.step_spec(), (&self.owner_spec(),)),
        ensures
            call_ensures(self.step_spec(), (&self.owner_spec(),), r),
    {
        (self.func)(&self.owner)
    }

    /// Materialize the view; identical to [`Self::as_ref`].
    pub fn deref(&self) -> (r: &V)
        requires
            call_requires(self.step_spec(), (&self.owner_spec(),)),
        ensures
            call_ensures(self.step_spec(), (&self.owner_spec(),), r),
    {
        self.as_ref()
    }
}

impl<O, V: ?Sized, F: Fn(&mut O) -> &mut V> SelfMonad<O, V, F> {
    /// Store `owner` and a repeatable step deriving a mutable view of it,
    /// without running the step.
    pub fn new_mut(owner: O, func: F) -> (r: Self)
        ensures
            r.owner_spec() == owner,
            r.step_spec() == func,
    {
        SelfMonad { owner, func, view_marker: core::marker::PhantomData }
    }

    /// Run the stored step against the owner and return a mutable view
    /// through which the owner's storage can be changed in place. The step
    /// stays in place, ready to run again.
    pub fn as_mut(&mut self) -> (r: &mut V)
        requires
            forall|m: &mut O|
                mut_ref_current(m) == old(self).owner_spec() ==> call_requires(
                    old(self).step_spec(),
                    (m,),
                ),
        ensures
            final(self).step_spec() == old(self).step_spec(),
            exists|m: &mut O|
                mut_ref_current(m) == old(self).owner_spec()
                    && mut_ref_future(m) == final(self).owner_spec()
                    && call_ensures(old(self).step_spec(), (m,), r),
    {
        (self.func)(&mut self.owner)
    }
}

impl<O, V: ?Sized, F> SelfMonadOwner<O> for SelfMonad<O, V, F> {
    open spec fn owner_view(&self) -> O {
        self.owner_spec()
    }

    open spec fn same_step(&self, other: &Self) -> bool {
        self.step_spec() == other.step_spec()
    }

    fn owner(&self) -> (r: &O) {
        &self.owner
    }

    fn owner_mut(&mut self) -> (r: &mut O) {
        &mut self.owner
    }

    fn owner_into(self) -> (r: O) {
        self.owner
    }
}

} // verus!
