use vstd::prelude::*;

verus! {

/// Uniform access to the owner stored inside a view container.
///
/// Every container of this crate holds exactly one owner together with a
/// derivation step. This trait exposes the owner itself, by shared
/// reference, by mutable reference, or by consuming the container, and in
/// doing so it never runs the stored derivation step: the step held after
/// an accessor call is exactly the step held before it.
pub trait SelfMonadOwner<O>: Sized {
    /// The owner currently stored in the container.
    spec fn owner_view(&self) -> O;

    /// True when `other` holds the same derivation step, in the same
    /// state, as `self`.
    spec fn same_step(&self, other: &Self) -> bool;

    /// Read the owner without touching the derivation step.
    fn owner(&self) -> (r: &O)
        ensures
            *r == self.owner_view(),
    ;

    /// Exclusive access to the owner, bypassing the derivation step.
    /// The step is left exactly as it was; only the owner can change,
    /// and only through the handle returned to the caller.
    fn owner_mut(&mut self) -> (r: &mut O)
        ensures
            *r == old(self).owner_view(),
            final(self).owner_view() == *final(r),
            old(self).same_step(final(self)),
    ;

    /// Destroy the container, discard the derivation step, and hand the
    /// owner back unchanged.
    fn owner_into(self) -> (r: O)
        ensures
            r == self.owner_view(),
    ;
}

} // verus!
