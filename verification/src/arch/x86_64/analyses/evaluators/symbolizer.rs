//! Propagation of symbolic values: values that are not known as numbers but
//! are known as pointers into structures of a known layout.
//!
//! Two shapes of instruction move such values. A move from memory into a
//! register loads what the memory operand refers to. An addition of an
//! immediate to a register moves a symbolic value by that offset. Every
//! other instruction leaves what is recorded as it is.

use vstd::prelude::*;

use crate::analyses::evaluators::const_evaluator::{ConstEvaluator, Domain};
use crate::analyses::static_single_assignment::{Direction, SSA};
use crate::arch::x86_64::analyses::data_flow::{Data, Location, SymbolicExpression};
use crate::arch::x86_64::{
    address_offset, sign_extend, Instruction, ModifierExpression, Opcode, Operand, RegSpec,
    RegisterBank,
};
use crate::data::types::{TypeSpec, KPCR};
use crate::memory::MemoryRange;

verus! {

/// The domain of symbolic expressions.
pub struct SymbolicDomain;

impl Domain for SymbolicDomain {
    type Modifier = ModifierExpression;

    type Value = SymbolicExpression;

    fn join(l: Option<SymbolicExpression>, r: Option<SymbolicExpression>) -> (joined: Option<
        SymbolicExpression,
    >) {
        if l == r {
            l
        } else {
            None
        }
    }
}

/// Displacements below this limit, relative to the `gs` segment, lie in the
/// processor control region.
pub const GS_REGION_LIMIT: u64 = 0x10000;

/// The address of the global that holds the linear address of the processor
/// control region.
pub const KPCR_POINTER_GLOBAL: u64 = 0x1402a3148;

/// The address of the global that holds a pointer to a pointer to a
/// structure that is not identified yet. Its own address is not established
/// either: it is recorded under the address of the first global, which
/// therefore answers for both.
pub const UNKNOWN_POINTER_GLOBAL: u64 = 0x1402a3148;

/// A pointer to the processor control region.
pub open spec fn kpcr_pointer() -> TypeSpec {
    TypeSpec::PointerTo(Box::new(TypeSpec::LayoutId(KPCR)))
}

/// What a memory operand at a literal displacement refers to: under the `gs`
/// override and below the limit of the processor control region, the field
/// of that region at the displacement.
pub open spec fn displacement_referent(gs: bool, disp: u64) -> Option<SymbolicExpression> {
    if gs && disp < GS_REGION_LIMIT {
        Some(SymbolicExpression::Add(Box::new(SymbolicExpression::Opaque(kpcr_pointer())), disp))
    } else {
        None
    }
}

/// What is known of the global at `address`. The known globals are looked up
/// in order, and the first that is at `address` answers.
pub open spec fn global_referent(address: u64) -> Option<SymbolicExpression> {
    if address == KPCR_POINTER_GLOBAL {
        Some(SymbolicExpression::Opaque(TypeSpec::PointerTo(Box::new(kpcr_pointer()))))
    } else if address == UNKNOWN_POINTER_GLOBAL {
        Some(
            SymbolicExpression::Opaque(
                TypeSpec::PointerTo(Box::new(TypeSpec::PointerTo(Box::new(TypeSpec::Unknown)))),
            ),
        )
    } else {
        None
    }
}

/// The address that an operand relative to the instruction pointer names:
/// the address after the instruction plus the displacement.
pub open spec fn rip_relative_target(addr: u64, length: u8, disp: i32) -> u64 {
    addr.wrapping_add(length as u64).wrapping_add(address_offset(disp as int))
}

/// What a memory operand relative to a register refers to, given what is
/// recorded for the register: a symbolic value moved by the operand's
/// offset, if it has one. A register that holds a number, or nothing that is
/// known, gives no referent.
pub open spec fn register_referent(recorded: Option<Data>, offset: Option<u64>) -> Option<
    SymbolicExpression,
> {
    match recorded {
        Some(Data::Expression(sym)) => match offset {
            Some(offset) => Some(sym.spec_offset(offset)),
            None => Some(sym),
        },
        _ => None,
    }
}

/// The symbolic value that the memory operand `mem_op` of the instruction
/// `instr` at `addr` refers to, if one is known.
pub open spec fn spec_referent(
    instr: Instruction,
    mem_op: Operand,
    addr: u64,
    dfg: SSA<Location, Data>,
) -> Option<SymbolicExpression> {
    match mem_op {
        Operand::DisplacementU32(disp) => displacement_referent(instr.prefixes.gs, disp as u64),
        Operand::DisplacementU64(disp) => displacement_referent(instr.prefixes.gs, disp),
        Operand::RegDisp(reg, disp) => if reg == RegSpec::spec_rip() {
            global_referent(rip_relative_target(addr, instr.length, disp))
        } else {
            register_referent(
                dfg.slot_data((addr, Location::Register(reg), Direction::Read)),
                Some(address_offset(disp as int)),
            )
        },
        Operand::RegDeref(reg) => register_referent(
            dfg.slot_data((addr, Location::Register(reg), Direction::Read)),
            None,
        ),
        _ => None,
    }
}

fn displacement(gs: bool, disp: u64) -> (referent: Option<SymbolicExpression>)
    ensures
        referent == displacement_referent(gs, disp),
{
    if gs {
        if disp < GS_REGION_LIMIT {
            Some(
                SymbolicExpression::Add(
                    Box::new(
                        SymbolicExpression::Opaque(
                            TypeSpec::PointerTo(Box::new(TypeSpec::LayoutId(KPCR))),
                        ),
                    ),
                    disp,
                ),
            )
        } else {
            None
        }
    } else {
        None
    }
}

fn recorded_use(addr: u64, reg: RegSpec, dfg: &SSA<Location, Data>) -> (recorded: Option<&Data>)
    ensures
        match recorded {
            Some(data) => dfg.slot_data((addr, Location::Register(reg), Direction::Read)) == Some(
                *data,
            ),
            None => dfg.slot_data((addr, Location::Register(reg), Direction::Read)) is None,
        },
{
    match dfg.get_use(addr, &Location::Register(reg)) {
        Some(value) => dfg.get_data(value),
        None => None,
    }
}

/// The symbolic value that the memory operand `mem_op` of the instruction
/// `instr` at `addr` refers to, if one is known.
///
/// - An operand at a literal displacement refers into the processor control
///   region where the instruction carries the `gs` override and the
///   displacement is below the limit of that region.
/// - An operand relative to the instruction pointer refers to a global, where
///   the address it names is that of a known global.
/// - An operand relative to another register, with or without an offset,
///   refers to what the register points to, where the value that the
///   instruction reads from the register is recorded as symbolic.
/// - Operands of every other shape have no known referent.
pub fn referent(
    instr: &Instruction,
    mem_op: &Operand,
    addr: u64,
    dfg: &SSA<Location, Data>,
    contexts: &(),
) -> (referent: Option<SymbolicExpression>)
    ensures
        referent == spec_referent(*instr, *mem_op, addr, *dfg),
{
    match mem_op {
        Operand::DisplacementU32(disp) => displacement(instr.prefixes.gs, *disp as u64),
        Operand::DisplacementU64(disp) => displacement(instr.prefixes.gs, *disp),
        Operand::RegDisp(reg, disp) => {
            if reg.num == 0 && reg.bank == RegisterBank::RIP {
                let target = addr.wrapping_add(instr.length as u64).wrapping_add(
                    sign_extend(*disp as i64),
                );
                if target == KPCR_POINTER_GLOBAL {
                    Some(
                        SymbolicExpression::Opaque(
                            TypeSpec::PointerTo(
                                Box::new(TypeSpec::PointerTo(Box::new(TypeSpec::LayoutId(KPCR)))),
                            ),
                        ),
                    )
                } else if target == UNKNOWN_POINTER_GLOBAL {
                    Some(
                        SymbolicExpression::Opaque(
                            TypeSpec::PointerTo(
                                Box::new(TypeSpec::PointerTo(Box::new(TypeSpec::Unknown))),
                            ),
                        ),
                    )
                } else {
                    None
                }
            } else {
                match recorded_use(addr, *reg, dfg) {
                    Some(Data::Expression(sym)) => Some(
                        sym.duplicate().offset(sign_extend(*disp as i64)),
                    ),
                    _ => None,
                }
            }
        },
        Operand::RegDeref(reg) => {
            match recorded_use(addr, *reg, dfg) {
                Some(Data::Expression(sym)) => Some(sym.duplicate()),
                _ => None,
            }
        },
        _ => None,
    }
}

/// What a load into `dest` records: where the source has a known referent
/// and nothing is recorded yet for the value that the instruction writes to
/// the register, that value is what the referent points to. What is recorded
/// already is kept.
pub open spec fn loaded(
    dfg: SSA<Location, Data>,
    addr: u64,
    dest: RegSpec,
    source: Option<SymbolicExpression>,
) -> Seq<Option<Data>> {
    match (source, dfg.slot((addr, Location::Register(dest), Direction::Write))) {
        (Some(src), Some(def)) => if dfg.data(def) is None {
            dfg.updated(def, Data::Expression(SymbolicExpression::Deref(Box::new(src))))
        } else {
            dfg.values()
        },
        _ => dfg.values(),
    }
}

/// What the addition of `offset` to `reg` records: where the value that the
/// instruction reads from the register is recorded as symbolic, the value
/// that it writes is that expression moved by the offset. A register that
/// holds a number, or nothing that is known, records nothing.
pub open spec fn advanced(dfg: SSA<Location, Data>, addr: u64, reg: RegSpec, offset: u64) -> Seq<
    Option<Data>,
> {
    match (
        dfg.slot_data((addr, Location::Register(reg), Direction::Read)),
        dfg.slot((addr, Location::Register(reg), Direction::Write)),
    ) {
        (Some(Data::Expression(expr)), Some(def)) => dfg.updated(
            def,
            Data::Expression(expr.spec_offset(offset)),
        ),
        _ => dfg.values(),
    }
}

/// The data of the graph's values after the instruction `instr` at `addr`
/// was evaluated.
pub open spec fn symbolized(instr: Instruction, addr: u64, dfg: SSA<Location, Data>) -> Seq<
    Option<Data>,
> {
    match (instr.opcode, instr.operands[0], instr.operands[1]) {
        (Opcode::MOV, Operand::Register(dest), source) => if source.spec_is_memory() {
            loaded(dfg, addr, dest, spec_referent(instr, source, addr, dfg))
        } else {
            dfg.values()
        },
        (Opcode::ADD, Operand::Register(reg), Operand::ImmediateI64(i)) => advanced(
            dfg,
            addr,
            reg,
            address_offset(i as int),
        ),
        (Opcode::ADD, Operand::Register(reg), Operand::ImmediateI32(i)) => advanced(
            dfg,
            addr,
            reg,
            address_offset(i as int),
        ),
        (Opcode::ADD, Operand::Register(reg), Operand::ImmediateI8(i)) => advanced(
            dfg,
            addr,
            reg,
            address_offset(i as int),
        ),
        _ => dfg.values(),
    }
}

fn load(dfg: &mut SSA<Location, Data>, addr: u64, dest: RegSpec, source: Option<SymbolicExpression>)
    ensures
        final(dfg).slots() == old(dfg).slots(),
        final(dfg).values() == loaded(*old(dfg), addr, dest, source),
        old(dfg).wf() ==> final(dfg).wf(),
{
    if let Some(src) = source {
        if let Some(def) = dfg.get_def(addr, &Location::Register(dest)) {
            if dfg.get_data(def).is_none() {
                dfg.update(def, Data::Expression(SymbolicExpression::Deref(Box::new(src))));
            }
        }
    }
}

fn advance(dfg: &mut SSA<Location, Data>, addr: u64, reg: RegSpec, offset: u64)
    ensures
        final(dfg).slots() == old(dfg).slots(),
        final(dfg).values() == advanced(*old(dfg), addr, reg, offset),
        old(dfg).wf() ==> final(dfg).wf(),
{
    let moved = match recorded_use(addr, reg, dfg) {
        Some(Data::Expression(expr)) => Some(expr.duplicate().offset(offset)),
        _ => None,
    };
    if let Some(sum) = moved {
        if let Some(def) = dfg.get_def(addr, &Location::Register(reg)) {
            dfg.update(def, Data::Expression(sum));
        }
    }
}

/// The 64-bit general-purpose architecture, as what evaluators are
/// implemented for.
#[allow(non_camel_case_types)]
pub struct x86_64;

impl ConstEvaluator<(), SymbolicDomain> for x86_64 {
    type Instruction = Instruction;

    type Location = Location;

    type Data = Data;

    /// Symbolic propagation looks at the instruction and the graph alone.
    open spec fn evaluated(
        instr: Instruction,
        addr: u64,
        dfg: SSA<Location, Data>,
        contexts: (),
        memory: Map<u64, u8>,
    ) -> Seq<Option<Data>> {
        symbolized(instr, addr, dfg)
    }

    /// Symbolic values do not change along an edge.
    open spec fn transient(
        from: u64,
        to: u64,
        location: Option<Location>,
        exprs: Seq<ModifierExpression>,
        dfg: SSA<Location, Data>,
        contexts: (),
    ) -> Seq<Option<Data>> {
        dfg.values()
    }

    fn apply_transient(
        from: u64,
        to: u64,
        location: Option<Location>,
        exprs: &Vec<ModifierExpression>,
        dfg: &mut SSA<Location, Data>,
        contexts: &(),
    ) {
    }

    fn evaluate_instruction<U: MemoryRange>(
        instr: &Instruction,
        addr: u64,
        dfg: &mut SSA<Location, Data>,
        contexts: &(),
        data: &U,
    ) {
        let dest = instr.operands[0];
        let source = instr.operands[1];
        match (instr.opcode, dest, source) {
            (Opcode::MOV, Operand::Register(l), op) => {
                if op.is_memory() {
                    let src = referent(instr, &op, addr, dfg, contexts);
                    load(dfg, addr, l, src);
                }
            },
            (Opcode::ADD, Operand::Register(l), Operand::ImmediateI64(i)) => {
                advance(dfg, addr, l, sign_extend(i));
            },
            (Opcode::ADD, Operand::Register(l), Operand::ImmediateI32(i)) => {
                advance(dfg, addr, l, sign_extend(i as i64));
            },
            (Opcode::ADD, Operand::Register(l), Operand::ImmediateI8(i)) => {
                advance(dfg, addr, l, sign_extend(i as i64));
            },
            _ => {},
        }
    }
}

} // verus!
