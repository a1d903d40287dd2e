//! Abstract interpretation over the data-flow graph.
//!
//! A domain says what an analysis tracks and how two facts about one value
//! merge. An evaluator applies one instruction to the graph: it reads what is
//! recorded for the values the instruction uses and records what follows for
//! the values it defines.

use vstd::prelude::*;

use crate::analyses::static_single_assignment::{SlotLocation, SSA};
use crate::memory::MemoryRange;

verus! {

/// The merge of two facts about one value: a fact survives only where both
/// sides hold it, and hold the same.
pub open spec fn strict_join<V>(l: Option<V>, r: Option<V>) -> Option<V> {
    if l == r {
        l
    } else {
        None
    }
}

/// The value space of one analysis.
pub trait Domain {
    /// How an instruction changes a value along one edge of the control flow.
    type Modifier;

    /// What the analysis records for a value.
    type Value;

    /// Merges what two paths know of one value. The merge keeps what holds on
    /// both paths and forgets everything else; it does not widen.
    fn join(l: Option<Self::Value>, r: Option<Self::Value>) -> (joined: Option<Self::Value>)
        ensures
            joined == strict_join(l, r),
    ;
}

/// The join is strict: two different facts merge to none, a fact merges with
/// itself to itself, and no fact merged with anything is no fact.
pub proof fn lemma_join_is_strict<V>(a: V, b: V, x: Option<V>)
    ensures
        a != b ==> strict_join(Some(a), Some(b)) == None::<V>,
        strict_join(Some(a), Some(a)) == Some(a),
        strict_join(None, x) == None::<V>,
{
}

/// An analysis of domain `D` that evaluates the instructions of one
/// architecture against contexts of type `Ctxs`.
///
/// An evaluator keeps no state of its own: what it records is a function of
/// its arguments, so that evaluating the same instruction at the same address
/// against the same graph records the same again. It looks slots up and
/// updates the data of values; it adds and removes none.
pub trait ConstEvaluator<Ctxs, D: Domain> {
    /// The instructions of the architecture.
    type Instruction;

    /// The locations that its instructions read and write.
    type Location: SlotLocation;

    /// What the data-flow graph records for a value.
    type Data;

    /// The data of the graph's values after `instr` at `addr` was evaluated,
    /// with `memory` as the bytes that the analysed program is made of.
    spec fn evaluated(
        instr: Self::Instruction,
        addr: u64,
        dfg: SSA<Self::Location, Self::Data>,
        contexts: Ctxs,
        memory: Map<u64, u8>,
    ) -> Seq<Option<Self::Data>>;

    /// The data of the graph's values after the modifiers were applied along
    /// the edge from `from` to `to`.
    spec fn transient(
        from: u64,
        to: u64,
        location: Option<Self::Location>,
        exprs: Seq<D::Modifier>,
        dfg: SSA<Self::Location, Self::Data>,
        contexts: Ctxs,
    ) -> Seq<Option<Self::Data>>;

    /// Applies the modifiers that hold along the edge from `from` to `to` to
    /// what is recorded for `location`.
    fn apply_transient(
        from: u64,
        to: u64,
        location: Option<Self::Location>,
        exprs: &Vec<D::Modifier>,
        dfg: &mut SSA<Self::Location, Self::Data>,
        contexts: &Ctxs,
    )
        ensures
            final(dfg).slots() == old(dfg).slots(),
            final(dfg).values() == Self::transient(
                from,
                to,
                location,
                exprs@,
                *old(dfg),
                *contexts,
            ),
            old(dfg).wf() ==> final(dfg).wf(),
    ;

    /// Evaluates the instruction `instr` at `addr`: records in `dfg` what the
    /// instruction makes of the data recorded there. `data` is the memory
    /// that the instruction was read from.
    fn evaluate_instruction<U: MemoryRange>(
        instr: &Self::Instruction,
        addr: u64,
        dfg: &mut SSA<Self::Location, Self::Data>,
        contexts: &Ctxs,
        data: &U,
    )
        ensures
            final(dfg).slots() == old(dfg).slots(),
            final(dfg).values() == Self::evaluated(
                *instr,
                addr,
                *old(dfg),
                *contexts,
                data.bytes(),
            ),
            old(dfg).wf() ==> final(dfg).wf(),
    ;
}

} // verus!
