use vstd::prelude::*;

use crate::owner::SelfMonadOwner;

verus! {

/// A container whose derivation step may carry internal state across runs.
///
/// The step is not assumed referentially transparent, so every run takes
/// the step through exclusive access: each materialize call borrows the
/// whole container mutably, which statically serializes runs and rules out
/// a re-entrant run of the step from within a view's own use.
pub struct SelfMonadMut<O, V: ?Sized, F> {
    owner: O,
    func: F,
    view_marker: core::marker::PhantomData<V>,
}

impl<O, V: ?Sized, F> SelfMonadMut<O, V, F> {
    /// The owner currently stored in the container.
    pub closed spec fn owner_spec(&self) -> O {
        self.owner
    }

    /// The derivation step stored in the container.
    pub closed spec fn step_spec(&self) -> F {
        self.func
    }
}

impl<O, V: ?Sized, F: FnMut(&O) -> &V> SelfMonadMut<O, V, F> {
    /// Store `owner` and a possibly stateful step deriving a shared view
    /// of it, without running the step.
    pub fn new(owner: O, func: F) -> (r: Self)
        ensures
            r.owner_spec() == owner,
            r.step_spec() == func,
    {
        SelfMonadMut { owner, func, view_marker: core::marker::PhantomData }
    }

    /// Run the stored step, under exclusive access, against the owner and
    /// return the derived view. The owner itself is read, never changed.
    pub fn as_ref(&mut self) -> (r: &V)
        requires
            call_requires(old(self).step_spec(), (&old(self).owner_spec(),)),
        ensures
            final(self).owner_spec() == old(self).owner_spec(),
            final(self).step_spec() == old(self).step_spec(),
            call_ensures(old(self).step_spec(), (&old(self).owner_spec(),), r),
    {
        (self.func)(&self.owner)
    }

    /// Materialize the view; identical to [`Self::as_ref`].
    pub fn deref(&mut self) -> (r: &V)
        requires
            call_requires(old(self).step_spec(), (&old(self).owner_spec(),)),
        ensures
            final(self).owner_spec() == old(self).owner_spec(),
            final(self).step_spec() == old(self).step_spec(),
            call_ensures(old(self).step_spec(), (&old(self).owner_spec(),), r),
    {
        self.as_ref()
    }
}

impl<O, V: ?Sized, F: FnMut(&mut O) -> &mut V> SelfMonadMut<O, V, F> {
    /// Store `owner` and a possibly stateful step deriving a mutable view
    /// of it, without running the step.
    pub fn new_mut(owner: O, func: F) -> (r: Self)
        ensures
            r.owner_spec() == owner,
            r.step_spec() == func,
    {
        SelfMonadMut { owner, func, view_marker: core::marker::PhantomData }
    }

    /// Run the stored step, under exclusive access, against the owner and
    /// return a mutable view through which the owner's storage can be
    /// changed in place.
    pub fn as_mut(&mut self) -> (r: &mut V)
        requires
            forall|m: &mut O|
                mut_ref_current(m) == old(self).owner_spec() ==> call_requires(
                    old(self).step_spec(),
                    (m,),
                ),
        ensures
            final(self).step_spec() == old(self).step_spec(),
            exists|m: &mut O|
                mut_ref_current(m) == old(self).owner_spec()
                    && mut_ref_future(m) == final(self).owner_spec()
                    && call_ensures(old(self).step_spec(), (m,), r),
    {
        (self.func)(&mut self.owner)
    }
}

impl<O, V: ?Sized, F> SelfMonadOwner<O> for SelfMonadMut<O, V, F> {
    open spec fn owner_view(&self) -> O {
        self.owner_spec()
    }

    open spec fn same_step(&self, other: &Self) -> bool {
        self.step_spec() == other.step_spec()
    }

    fn owner(&self) -> (r: &O) {
        &self.owner
    }

    fn owner_mut(&mut self) -> (r: &mut O) {
        &mut self.owner
    }

    fn owner_into(self) -> (r: O) {
        self.owner
    }
}

} // verus!
