use vstd::prelude::*;

use crate::owner::SelfMonadOwner;

verus! {

/// A container whose derivation step may run at most once.
///
/// The step is stored in an `Option` slot that is emptied on first use, so
/// a first materialize call consumes it and every later attempt finds the
/// slot empty. Verified callers are held to the `is_armed` precondition;
/// a caller outside the verifier that breaks it is stopped by the panic of
/// the `unwrap` on the emptied slot rather than handed a stale view.
pub struct SelfMonadOnce<O, V: ?Sized, F> {
    owner: O,
    func: Option<F>,
    view_marker: core::marker::PhantomData<V>,
}

impl<O, V: ?Sized, F> SelfMonadOnce<O, V, F> {
    /// The owner currently stored in the container.
    pub closed spec fn owner_spec(&self) -> O {
        self.owner
    }

    /// The step slot: `Some` until the step has been consumed.
    pub closed spec fn step_spec(&self) -> Option<F> {
        self.func
    }

    /// True while the one-shot step is still available.
    pub open spec fn is_armed(&self) -> bool {
        self.step_spec() is Some
    }
}

impl<O, V: ?Sized, F: FnOnce(&O) -> &V> SelfMonadOnce<O, V, F> {
    /// Store `owner` and a one-shot step deriving a shared view of it,
    /// without running the step.
    pub fn new(owner: O, func: F) -> (r: Self)
        ensures
            r.owner_spec() == owner,
            r.step_spec() == Some(func),
    {
        SelfMonadOnce { owner, func: Some(func), view_marker: core::marker::PhantomData }
    }

    /// Consume the stored step and run it once against the owner,
    /// returning the derived view.
    pub fn as_ref(&mut self) -> (r: &V)
        requires
            old(self).is_armed(),
            call_requires(old(self).step_spec().unwrap(), (&old(self).owner_spec(),)),
        ensures
            final(self).owner_spec() == old(self).owner_spec(),
            !final(self).is_armed(),
            call_ensures(old(self).step_spec().unwrap(), (&old(self).owner_spec(),), r),
    {
        let f = self.func.take().unwrap();
        f(&self.owner)
    }

    /// Materialize the view; identical to [`Self::as_ref`].
    pub fn deref(&mut self) -> (r: &V)
        requires
            old(self).is_armed(),
            call_requires(old(self).step_spec().unwrap(), (&old(self).owner_spec(),)),
        ensures
            final(self).owner_spec() == old(self).owner_spec(),
            !final(self).is_armed(),
            call_ensures(old(self).step_spec().unwrap(), (&old(self).owner_spec(),), r),
    {
        self.as_ref()
    }
}

impl<O, V: ?Sized, F: FnOnce(&mut O) -> &mut V> SelfMonadOnce<O, V, F> {
    /// Store `owner` and a one-shot step deriving a mutable view of it,
    /// without running the step.
    pub fn new_mut(owner: O, func: F) -> (r: Self)
        ensures
            r.owner_spec() == owner,
            r.step_spec() == Some(func),
    {
        SelfMonadOnce { owner, func: Some(func), view_marker: core::marker::PhantomData }
    }

    /// Consume the stored step and run it once against the owner,
    /// returning a mutable view through which the owner's storage can be
    /// changed in place.
    pub fn as_mut(&mut self) -> (r: &mut V)
        requires
            old(self).is_armed(),
            forall|m: &mut O|
                mut_ref_current(m) == old(self).owner_spec() ==> call_requires(
                    old(self).step_spec().unwrap(),
                    (m,),
                ),
        ensures
            !final(self).is_armed(),
            exists|m: &mut O|
                mut_ref_current(m) == old(self).owner_spec()
                    && mut_ref_future(m) == final(self).owner_spec()
                    && call_ensures(old(self).step_spec().unwrap(), (m,), r),
    {
        let f = self.func.take().unwrap();
        f(&mut self.owner)
    }
}

impl<O, V: ?Sized, F> SelfMonadOwner<O> for SelfMonadOnce<O, V, F> {
    open spec fn owner_view(&self) -> O {
        self.owner_spec()
    }

    open spec fn same_step(&self, other: &Self) -> bool {
        self.step_spec() == other.step_spec()
    }

    fn owner(&self) -> (r: &O) {
        &self.owner
    }

    fn owner_mut(&mut self) -> (r: &mut O) {
        &mut self.owner
    }

    fn owner_into(self) -> (r: O) {
        self.owner
    }
}

} // verus!
