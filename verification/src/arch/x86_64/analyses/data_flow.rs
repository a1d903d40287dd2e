//! What flows through a program: the locations that instructions read and
//! write, and the data that analyses record for the values in them.

use vstd::prelude::*;
use vstd::std_specs::cmp::PartialEqSpecImpl;

use crate::analyses::static_single_assignment::SlotLocation;
use crate::arch::x86_64::RegSpec;
use crate::data::types::TypeSpec;

verus! {

/// A place that holds a value.
#[derive(Debug, PartialEq, Eq, Copy, Clone, Structural)]
pub enum Location {
    /// A register.
    Register(RegSpec),
    /// The memory cell at an address.
    Memory(u64),
    /// Memory at an address that is not known.
    MemoryAny,
}

impl SlotLocation for Location {
    fn same_location(&self, other: &Location) -> (same: bool) {
        *self == *other
    }
}

/// A value that is not known but has a known structure: an unknown value of
/// some type, such a value plus an offset, or what such a value points to.
#[derive(Debug)]
pub enum SymbolicExpression {
    /// An unknown value of the given type.
    Opaque(TypeSpec),
    /// The value of the expression plus an offset, at the width of an
    /// address.
    Add(Box<SymbolicExpression>, u64),
    /// The value in memory at the address that the expression stands for.
    Deref(Box<SymbolicExpression>),
}

impl SymbolicExpression {
    /// This value plus `offset`, at the width of an address: an offset to a
    /// sum is added to the offset of the sum, and any other expression
    /// becomes a sum.
    pub open spec fn spec_offset(self, offset: u64) -> SymbolicExpression {
        match self {
            SymbolicExpression::Add(base, current) => SymbolicExpression::Add(
                base,
                current.wrapping_add(offset),
            ),
            other => SymbolicExpression::Add(Box::new(other), offset),
        }
    }

    /// This value plus `offset`, as a new expression.
    #[verifier::when_used_as_spec(spec_offset)]
    pub fn offset(self, offset: u64) -> (sum: SymbolicExpression)
        ensures
            sum == self.spec_offset(offset),
    {
        match self {
            SymbolicExpression::Add(base, current) => SymbolicExpression::Add(
                base,
                current.wrapping_add(offset),
            ),
            other => SymbolicExpression::Add(Box::new(other), offset),
        }
    }

    /// A copy of this expression.
    pub fn duplicate(&self) -> (copy: SymbolicExpression)
        ensures
            copy == *self,
        decreases *self,
    {
        match self {
            SymbolicExpression::Opaque(ty) => SymbolicExpression::Opaque(ty.duplicate()),
            SymbolicExpression::Add(base, offset) => SymbolicExpression::Add(
                Box::new(base.duplicate()),
                *offset,
            ),
            SymbolicExpression::Deref(inner) => SymbolicExpression::Deref(
                Box::new(inner.duplicate()),
            ),
        }
    }

    /// Whether two expressions are structurally the same.
    pub fn same(&self, other: &SymbolicExpression) -> (same: bool)
        ensures
            same == (*self == *other),
        decreases *self,
    {
        match (self, other) {
            (SymbolicExpression::Opaque(a), SymbolicExpression::Opaque(b)) => a.same(b),
            (SymbolicExpression::Add(a, m), SymbolicExpression::Add(b, n)) => *m == *n && a.same(b),
            (SymbolicExpression::Deref(a), SymbolicExpression::Deref(b)) => a.same(b),
            _ => false,
        }
    }

    /// Offsets compose: offsetting by `m` and then by `n` gives the
    /// expression that offsetting by their sum gives, the sum taken at the
    /// width of an address.
    pub proof fn lemma_offset_composes(self, m: u64, n: u64)
        ensures
            self.spec_offset(m).spec_offset(n) == self.spec_offset(m.wrapping_add(n)),
    {
    }
}

impl Clone for SymbolicExpression {
    fn clone(&self) -> (copy: SymbolicExpression)
        ensures
            copy == *self,
    {
        self.duplicate()
    }
}

impl PartialEq for SymbolicExpression {
    fn eq(&self, other: &SymbolicExpression) -> (r: bool) {
        self.same(other)
    }
}

impl PartialEqSpecImpl for SymbolicExpression {
    open spec fn obeys_eq_spec() -> bool {
        true
    }

    open spec fn eq_spec(&self, other: &SymbolicExpression) -> bool {
        *self == *other
    }
}

impl Eq for SymbolicExpression {

}

/// What an analysis recorded for a value.
#[derive(Debug)]
pub enum Data {
    /// The value is this number, of this type where the type is known.
    Concrete(u64, Option<TypeSpec>),
    /// The value has this structure.
    Expression(SymbolicExpression),
}

impl Data {
    /// A copy of this data.
    pub fn duplicate(&self) -> (copy: Data)
        ensures
            copy == *self,
    {
        match self {
            Data::Concrete(value, None) => Data::Concrete(*value, None),
            Data::Concrete(value, Some(ty)) => Data::Concrete(*value, Some(ty.duplicate())),
            Data::Expression(expr) => Data::Expression(expr.duplicate()),
        }
    }

    /// Whether two recorded data are structurally the same.
    pub fn same(&self, other: &Data) -> (same: bool)
        ensures
            same == (*self == *other),
    {
        match (self, other) {
            (Data::Concrete(a, None), Data::Concrete(b, None)) => *a == *b,
            (Data::Concrete(a, Some(s)), Data::Concrete(b, Some(t))) => *a == *b && s.same(t),
            (Data::Expression(a), Data::Expression(b)) => a.same(b),
            _ => false,
        }
    }
}

impl Clone for Data {
    fn clone(&self) -> (copy: Data)
        ensures
            copy == *self,
    {
        self.duplicate()
    }
}

impl PartialEq for Data {
    fn eq(&self, other: &Data) -> (r: bool) {
        self.same(other)
    }
}

impl PartialEqSpecImpl for Data {
    open spec fn obeys_eq_spec() -> bool {
        true
    }

    open spec fn eq_spec(&self, other: &Data) -> bool {
        *self == *other
    }
}

impl Eq for Data {

}

} // verus!
