//! Analytical core of a multi-architecture binary-analysis framework:
//! cross-references between code and data, symbolic propagation over a
//! data-flow graph, per-architecture instruction drivers, and a uniform view
//! of the bytes under analysis.

use vstd::prelude::*;

pub mod analyses;
pub mod arch;
pub mod data;
pub mod memory;

verus! {

/// A table that answers what is known at an address.
pub trait ContextRead<A, Ctx> {
    /// What the table knows at `address`.
    spec fn spec_at(&self, address: A) -> Ctx;

    /// What the table knows at `address`.
    fn at(&self, address: &A) -> (ctx: Ctx)
        ensures
            ctx == self.spec_at(*address),
    ;
}

/// A table that takes updates of what is known at an address.
pub trait ContextWrite<A, Update> {
    /// Whether `after` is this table with `update` put at `address`.
    spec fn written(&self, after: &Self, address: A, update: Update) -> bool;

    /// Puts `update` at `address`.
    fn put(&mut self, address: A, update: Update)
        ensures
            old(self).written(final(self), address, update),
    ;
}

} // verus!
