//! Containers that package a value (the owner) together with the step that
//! derives a borrowed view into it.
//!
//! Each container stores the owner and the derivation step without running
//! the step; every access re-derives the view from the owner as it stands,
//! scoping the borrow to the call, so no materialized view ever outlives
//! the access that produced it. The three containers differ only in how
//! often, and under what mutability, the stored step may run:
//!
//! - [`SelfMonadOnce`]: the step runs at most once and is consumed by its
//!   first run.
//! - [`SelfMonad`]: the step is a pure function of the owner and may run
//!   any number of times.
//! - [`SelfMonadMut`]: the step may carry internal state across runs and
//!   therefore demands exclusive access on every run.
//!
//! All three expose the owner itself through [`SelfMonadOwner`], which
//! never runs the step.

mod laws;
mod once;
mod owner;
mod repeat;
mod stateful;

pub use laws::lemma_owner_round_trip;
pub use laws::lemma_repeat_view_consistent;
pub use laws::pure_step;
pub use once::SelfMonadOnce;
pub use owner::SelfMonadOwner;
pub use repeat::SelfMonad;
pub use stateful::SelfMonadMut;
