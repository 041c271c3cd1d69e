use vstd::prelude::*;

use crate::owner::SelfMonadOwner;
use crate::repeat::SelfMonad;

verus! {

/// True when `f` is referentially transparent as a step deriving a shared
/// view: for one and the same owner it can only ever return one view.
pub open spec fn pure_step<O, V: ?Sized, F: Fn(&O) -> &V>(f: F) -> bool {
    forall|o: &O, r1: &V, r2: &V|
        #[trigger] call_ensures(f, (o,), r1) && #[trigger] call_ensures(f, (o,), r2) ==> r1 == r2
}

/// As long as the owner is unchanged, every materialize call on a
/// repeatable container with a pure step returns the same view: any two
/// views the stored step can derive from the stored owner are equal.
pub proof fn lemma_repeat_view_consistent<O, V: ?Sized, F: Fn(&O) -> &V>(
    m: &SelfMonad<O, V, F>,
    r1: &V,
    r2: &V,
)
    requires
        pure_step(m.step_spec()),
        call_ensures(m.step_spec(), (&m.owner_spec(),), r1),
        call_ensures(m.step_spec(), (&m.owner_spec(),), r2),
    ensures
        r1 == r2,
{
}

/// Round trip: a container built on owner `x` and consumed through
/// `owner_into` without ever materializing a view hands `x` back
/// unchanged. Construction ensures the stored owner is `x`; `owner_into`
/// ensures its result is the stored owner.
pub proof fn lemma_owner_round_trip<O, C: SelfMonadOwner<O>>(x: O, c: C, r: O)
    requires
        c.owner_view() == x,
        r == c.owner_view(),
    ensures
        r == x,
{
}

} // verus!
