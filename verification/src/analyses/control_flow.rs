//! How control leaves an instruction.

use vstd::prelude::*;

verus! {

/// Where control goes to.
#[derive(Debug, PartialEq, Eq, Copy, Structural)]
pub enum Target<A> {
    /// To the address after the instruction plus this offset.
    Relative(A),
    /// To this address.
    Absolute(A),
    /// To an address that is not known before the program runs.
    Indeterminate,
}

/// The effect of an instruction on the flow of control: whether execution
/// stops falling through after it, and where else it may go.
#[derive(Debug, PartialEq, Eq, Copy, Structural)]
pub struct Effect<A> {
    pub stop_after: bool,
    pub dest: Option<Target<A>>,
}

impl<A: Copy> Clone for Target<A> {
    fn clone(&self) -> (copy: Target<A>)
        ensures
            copy == *self,
    {
        *self
    }
}

impl<A: Copy> Clone for Effect<A> {
    fn clone(&self) -> (copy: Effect<A>)
        ensures
            copy == *self,
    {
        *self
    }
}

impl<A> Effect<A> {
    /// Whether execution does not fall through to the next instruction.
    pub open spec fn spec_is_stop(&self) -> bool {
        self.stop_after
    }

    /// Whether execution does not fall through to the next instruction.
    #[verifier::when_used_as_spec(spec_is_stop)]
    pub fn is_stop(&self) -> (stop: bool)
        ensures
            stop == self.stop_after,
    {
        self.stop_after
    }

    /// Execution ends here.
    pub fn stop() -> (effect: Effect<A>)
        ensures
            effect == (Effect::<A> { stop_after: true, dest: None }),
    {
        Effect { stop_after: true, dest: None }
    }

    /// Execution goes to `dest` and nowhere else.
    pub fn stop_and(dest: Target<A>) -> (effect: Effect<A>)
        ensures
            effect == (Effect { stop_after: true, dest: Some(dest) }),
    {
        Effect { stop_after: true, dest: Some(dest) }
    }

    /// Execution falls through to the next instruction.
    pub fn cont() -> (effect: Effect<A>)
        ensures
            effect == (Effect::<A> { stop_after: false, dest: None }),
    {
        Effect { stop_after: false, dest: None }
    }

    /// Execution falls through to the next instruction or goes to `dest`.
    pub fn cont_and(dest: Target<A>) -> (effect: Effect<A>)
        ensures
            effect == (Effect { stop_after: false, dest: Some(dest) }),
    {
        Effect { stop_after: false, dest: Some(dest) }
    }
}

} // verus!
