//! Structural type hints: what an otherwise unknown value is believed to be.

use vstd::prelude::*;
use vstd::std_specs::cmp::PartialEqSpecImpl;

verus! {

/// The layout of the processor control region of the analysed system.
pub const KPCR: u64 = 1;

/// What is known of the type of a value.
#[derive(Debug)]
pub enum TypeSpec {
    /// Nothing is known.
    Unknown,
    /// A structure with the layout of the given id.
    LayoutId(u64),
    /// A pointer to a value of the given type.
    PointerTo(Box<TypeSpec>),
}

impl TypeSpec {
    /// A copy of this type hint.
    pub fn duplicate(&self) -> (copy: TypeSpec)
        ensures
            copy == *self,
        decreases *self,
    {
        match self {
            TypeSpec::Unknown => TypeSpec::Unknown,
            TypeSpec::LayoutId(id) => TypeSpec::LayoutId(*id),
            TypeSpec::PointerTo(inner) => TypeSpec::PointerTo(Box::new(inner.duplicate())),
        }
    }

    /// Whether two type hints are structurally the same.
    pub fn same(&self, other: &TypeSpec) -> (r: bool)
        ensures
            r == (*self == *other),
        decreases *self,
    {
        match (self, other) {
            (TypeSpec::Unknown, TypeSpec::Unknown) => true,
            (TypeSpec::LayoutId(a), TypeSpec::LayoutId(b)) => *a == *b,
            (TypeSpec::PointerTo(a), TypeSpec::PointerTo(b)) => a.same(b),
            _ => false,
        }
    }
}

impl Clone for TypeSpec {
    fn clone(&self) -> (copy: TypeSpec)
        ensures
            copy == *self,
    {
        self.duplicate()
    }
}

impl PartialEq for TypeSpec {
    fn eq(&self, other: &TypeSpec) -> (r: bool) {
        self.same(other)
    }
}

impl PartialEqSpecImpl for TypeSpec {
    open spec fn obeys_eq_spec() -> bool {
        true
    }

    open spec fn eq_spec(&self, other: &TypeSpec) -> bool {
        *self == *other
    }
}

impl Eq for TypeSpec {

}

} // verus!
