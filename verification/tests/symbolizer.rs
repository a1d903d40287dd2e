use yaxpeax_core::analyses::evaluators::const_evaluator::{ConstEvaluator, Domain};
use yaxpeax_core::analyses::static_single_assignment::{DFGRef, Direction, SSA};
use yaxpeax_core::arch::x86_64::analyses::data_flow::{Data, Location, SymbolicExpression};
use yaxpeax_core::arch::x86_64::analyses::evaluators::symbolizer::{
    referent, x86_64, SymbolicDomain, GS_REGION_LIMIT, KPCR_POINTER_GLOBAL,
};
use yaxpeax_core::arch::x86_64::{
    sign_extend, Instruction, ModifierExpression, Opcode, Operand, Prefixes, RegSpec,
    RegisterBank,
};
use yaxpeax_core::data::types::{TypeSpec, KPCR};
use yaxpeax_core::memory::repr::flat::FlatMemoryRepr;

const RAX: RegSpec = RegSpec { num: 0, bank: RegisterBank::Q };
const RCX: RegSpec = RegSpec { num: 1, bank: RegisterBank::Q };
const RIP: RegSpec = RegSpec { num: 0, bank: RegisterBank::RIP };

fn instruction(opcode: Opcode, first: Operand, second: Operand) -> Instruction {
    Instruction { prefixes: Prefixes { gs: false }, opcode, operands: [first, second], length: 4 }
}

fn with_gs(mut instr: Instruction) -> Instruction {
    instr.prefixes.gs = true;
    instr
}

fn opaque(ty: TypeSpec) -> SymbolicExpression {
    SymbolicExpression::Opaque(ty)
}

fn pointer_to(ty: TypeSpec) -> TypeSpec {
    TypeSpec::PointerTo(Box::new(ty))
}

fn deref(expr: SymbolicExpression) -> SymbolicExpression {
    SymbolicExpression::Deref(Box::new(expr))
}

fn add(expr: SymbolicExpression, offset: u64) -> SymbolicExpression {
    SymbolicExpression::Add(Box::new(expr), offset)
}

fn kpcr() -> SymbolicExpression {
    opaque(pointer_to(TypeSpec::LayoutId(KPCR)))
}

fn memory() -> FlatMemoryRepr {
    FlatMemoryRepr::empty(String::new())
}

/// A graph in which the instruction at `addr` reads `reg` as a value with
/// the data `used` and writes it as a value with the data `defined`.
fn graph(addr: u64, reg: RegSpec, used: Option<Data>, defined: Option<Data>) -> (
    SSA<Location, Data>,
    DFGRef,
    DFGRef,
) {
    let mut dfg = SSA::new();
    let before = dfg.add_value(used);
    let after = dfg.add_value(defined);
    dfg.bind(addr, Location::Register(reg), Direction::Read, before);
    dfg.bind(addr, Location::Register(reg), Direction::Write, after);
    (dfg, before, after)
}

fn evaluate(instr: &Instruction, addr: u64, dfg: &mut SSA<Location, Data>) {
    <x86_64 as ConstEvaluator<(), SymbolicDomain>>::evaluate_instruction(
        instr,
        addr,
        dfg,
        &(),
        &memory(),
    );
}

#[test]
fn join_of_different_values_is_absent() {
    let a = opaque(TypeSpec::Unknown);
    let b = opaque(TypeSpec::LayoutId(KPCR));
    assert_eq!(SymbolicDomain::join(Some(a), Some(b)), None);
    assert_eq!(SymbolicDomain::join(Some(add(kpcr(), 4)), Some(add(kpcr(), 8))), None);
    assert_eq!(SymbolicDomain::join(Some(deref(kpcr())), Some(kpcr())), None);
}

#[test]
fn join_of_a_value_with_itself_is_the_value() {
    let twice = SymbolicDomain::join(Some(deref(add(kpcr(), 0x20))), Some(deref(add(kpcr(), 0x20))));
    assert_eq!(twice, Some(deref(add(kpcr(), 0x20))));
}

#[test]
fn join_with_absent_is_absent() {
    assert_eq!(SymbolicDomain::join(None, None), None);
    assert_eq!(SymbolicDomain::join(None, Some(kpcr())), None);
    assert_eq!(SymbolicDomain::join(Some(kpcr()), None), None);
}

#[test]
fn offset_of_a_dereference_is_a_sum() {
    let value = deref(opaque(TypeSpec::Unknown));
    assert_eq!(value.offset(4), add(deref(opaque(TypeSpec::Unknown)), 4));
    assert_eq!(kpcr().offset(0), add(kpcr(), 0));
}

#[test]
fn offsets_of_a_sum_collapse() {
    assert_eq!(add(kpcr(), 0x10).offset(0x20), add(kpcr(), 0x30));
    assert_eq!(kpcr().offset(3).offset(5), kpcr().offset(8));
    assert_eq!(add(kpcr(), 1).offset(3).offset(5), add(kpcr(), 1).offset(8));
    assert_eq!(deref(kpcr()).offset(7).offset(0), deref(kpcr()).offset(7));
}

#[test]
fn offsets_wrap_at_the_width_of_an_address() {
    assert_eq!(add(kpcr(), u64::MAX).offset(1), add(kpcr(), 0));
    assert_eq!(add(kpcr(), 8).offset(sign_extend(-8)), add(kpcr(), 0));
    assert_eq!(add(kpcr(), 8).offset(sign_extend(-16)), add(kpcr(), 0xffff_ffff_ffff_fff8));
    assert_eq!(
        kpcr().offset(u64::MAX).offset(u64::MAX),
        kpcr().offset(u64::MAX.wrapping_add(u64::MAX)),
    );
    assert_eq!(kpcr().offset(u64::MAX).offset(u64::MAX), add(kpcr(), u64::MAX - 1));
}

#[test]
fn sign_extension_is_two_s_complement() {
    assert_eq!(sign_extend(0), 0);
    assert_eq!(sign_extend(4), 4);
    assert_eq!(sign_extend(-1), u64::MAX);
    assert_eq!(sign_extend(-8), 0xffff_ffff_ffff_fff8);
    assert_eq!(sign_extend(i64::MAX), 0x7fff_ffff_ffff_ffff);
    assert_eq!(sign_extend(i64::MIN), 0x8000_0000_0000_0000);
}

#[test]
fn copies_are_equal_to_what_was_copied() {
    let expr = deref(add(opaque(pointer_to(pointer_to(TypeSpec::Unknown))), 9));
    assert_eq!(expr.duplicate(), expr);
    assert_eq!(expr.clone(), expr);
    assert!(expr.same(&expr.duplicate()));
    assert!(!expr.same(&deref(add(opaque(pointer_to(pointer_to(TypeSpec::Unknown))), 8))));
    let ty = pointer_to(TypeSpec::LayoutId(3));
    assert_eq!(ty.duplicate(), ty);
    assert_ne!(ty, pointer_to(TypeSpec::LayoutId(4)));
    assert_ne!(ty, TypeSpec::LayoutId(3));
    let data = Data::Concrete(5, Some(TypeSpec::Unknown));
    assert_eq!(data.duplicate(), data);
    assert_ne!(data, Data::Concrete(5, None));
    assert_ne!(data, Data::Concrete(6, Some(TypeSpec::Unknown)));
    assert_ne!(Data::Expression(kpcr()), Data::Concrete(0, None));
    assert_eq!(Data::Expression(kpcr()).clone(), Data::Expression(kpcr()));
}

#[test]
fn displacement_under_gs_refers_into_the_control_region() {
    let dfg = SSA::new();
    let op = Operand::DisplacementU32(0x188);
    let instr = with_gs(instruction(Opcode::MOV, Operand::Register(RAX), op));
    assert_eq!(referent(&instr, &op, 0x1000, &dfg, &()), Some(add(kpcr(), 0x188)));
    let op = Operand::DisplacementU64(0);
    let instr = with_gs(instruction(Opcode::MOV, Operand::Register(RAX), op));
    assert_eq!(referent(&instr, &op, 0x1000, &dfg, &()), Some(add(kpcr(), 0)));
    let op = Operand::DisplacementU64(0xffff);
    assert_eq!(referent(&instr, &op, 0x1000, &dfg, &()), Some(add(kpcr(), 0xffff)));
}

#[test]
fn displacement_at_or_above_the_limit_is_unresolved() {
    let dfg = SSA::new();
    assert_eq!(GS_REGION_LIMIT, 0x10000);
    let op = Operand::DisplacementU32(0x10000);
    let instr = with_gs(instruction(Opcode::MOV, Operand::Register(RAX), op));
    assert_eq!(referent(&instr, &op, 0x1000, &dfg, &()), None);
    let op = Operand::DisplacementU64(0x1_0000_0020);
    assert_eq!(referent(&instr, &op, 0x1000, &dfg, &()), None);
}

#[test]
fn displacement_without_gs_is_unresolved() {
    let dfg = SSA::new();
    let op = Operand::DisplacementU32(0x188);
    let instr = instruction(Opcode::MOV, Operand::Register(RAX), op);
    assert_eq!(referent(&instr, &op, 0x1000, &dfg, &()), None);
    let op = Operand::DisplacementU64(0x188);
    assert_eq!(referent(&instr, &op, 0x1000, &dfg, &()), None);
}

#[test]
fn rip_relative_operand_finds_the_known_global() {
    let dfg = SSA::new();
    let expected = opaque(pointer_to(pointer_to(TypeSpec::LayoutId(KPCR))));
    assert_eq!(KPCR_POINTER_GLOBAL, 0x1402a3148);
    // 0x1402a3100 + 7 + 0x41 == 0x1402a3148
    let op = Operand::RegDisp(RIP, 0x41);
    let mut instr = instruction(Opcode::MOV, Operand::Register(RAX), op);
    instr.length = 7;
    assert_eq!(referent(&instr, &op, 0x1402a3100, &dfg, &()), Some(expected.duplicate()));
    // 0x1402a3200 + 7 - 0xbf == 0x1402a3148
    let op = Operand::RegDisp(RIP, -0xbf);
    assert_eq!(referent(&instr, &op, 0x1402a3200, &dfg, &()), Some(expected));
}

#[test]
fn rip_relative_operand_elsewhere_is_unresolved() {
    let dfg = SSA::new();
    let op = Operand::RegDisp(RIP, 0x41);
    let mut instr = instruction(Opcode::MOV, Operand::Register(RAX), op);
    instr.length = 6;
    assert_eq!(referent(&instr, &op, 0x1402a3100, &dfg, &()), None);
    instr.length = 7;
    assert_eq!(referent(&instr, &op, 0x1402a3101, &dfg, &()), None);
    let op = Operand::RegDisp(RIP, 0x40);
    assert_eq!(referent(&instr, &op, 0x1402a3100, &dfg, &()), None);
}

#[test]
fn rip_relative_operand_ignores_what_is_recorded() {
    let (dfg, _, _) = graph(0x1000, RIP, Some(Data::Expression(kpcr())), None);
    let op = Operand::RegDisp(RIP, 8);
    let instr = instruction(Opcode::MOV, Operand::Register(RAX), op);
    assert_eq!(referent(&instr, &op, 0x1000, &dfg, &()), None);
}

#[test]
fn rip_relative_address_wraps() {
    let dfg = SSA::new();
    let op = Operand::RegDisp(RIP, i32::MAX);
    let mut instr = instruction(Opcode::MOV, Operand::Register(RAX), op);
    instr.length = 15;
    assert_eq!(referent(&instr, &op, u64::MAX, &dfg, &()), None);
    let op = Operand::RegDisp(RIP, i32::MIN);
    instr.length = 0;
    assert_eq!(referent(&instr, &op, 0, &dfg, &()), None);
    // 0xffff_ffff + 1 + 0x402a3148 == 0x1402a3148
    let op = Operand::RegDisp(RIP, 0x402a3148);
    instr.length = 1;
    assert!(referent(&instr, &op, 0xffff_ffff, &dfg, &()).is_some());
    // 0x1c02a3148 + 0 - 0x80000000 == 0x1402a3148
    let op = Operand::RegDisp(RIP, i32::MIN);
    instr.length = 0;
    assert!(referent(&instr, &op, 0x1c02a3148, &dfg, &()).is_some());
}

#[test]
fn register_operand_refers_to_what_the_register_holds() {
    let (dfg, _, _) = graph(0x1000, RCX, Some(Data::Expression(deref(kpcr()))), None);
    let op = Operand::RegDeref(RCX);
    let instr = instruction(Opcode::MOV, Operand::Register(RAX), op);
    assert_eq!(referent(&instr, &op, 0x1000, &dfg, &()), Some(deref(kpcr())));
    let op = Operand::RegDisp(RCX, 0x18);
    assert_eq!(referent(&instr, &op, 0x1000, &dfg, &()), Some(add(deref(kpcr()), 0x18)));
    let op = Operand::RegDisp(RCX, -8);
    assert_eq!(
        referent(&instr, &op, 0x1000, &dfg, &()),
        Some(add(deref(kpcr()), 0xffff_ffff_ffff_fff8)),
    );
}

#[test]
fn register_operand_collapses_offsets() {
    let (dfg, _, _) = graph(0x1000, RCX, Some(Data::Expression(add(kpcr(), 0x20))), None);
    let op = Operand::RegDisp(RCX, 0x18);
    let instr = instruction(Opcode::MOV, Operand::Register(RAX), op);
    assert_eq!(referent(&instr, &op, 0x1000, &dfg, &()), Some(add(kpcr(), 0x38)));
    let op = Operand::RegDisp(RCX, -0x20);
    assert_eq!(referent(&instr, &op, 0x1000, &dfg, &()), Some(add(kpcr(), 0)));
}

#[test]
fn register_that_holds_a_number_is_unresolved() {
    let (dfg, _, _) = graph(0x1000, RCX, Some(Data::Concrete(0x1402a3148, None)), None);
    let instr = instruction(Opcode::MOV, Operand::Register(RAX), Operand::RegDeref(RCX));
    assert_eq!(referent(&instr, &Operand::RegDeref(RCX), 0x1000, &dfg, &()), None);
    assert_eq!(referent(&instr, &Operand::RegDisp(RCX, 0), 0x1000, &dfg, &()), None);
    let typed = Some(Data::Concrete(0, Some(pointer_to(TypeSpec::LayoutId(KPCR)))));
    let (dfg, _, _) = graph(0x1000, RCX, typed, None);
    assert_eq!(referent(&instr, &Operand::RegDeref(RCX), 0x1000, &dfg, &()), None);
    assert_eq!(referent(&instr, &Operand::RegDisp(RCX, 8), 0x1000, &dfg, &()), None);
}

#[test]
fn register_without_recorded_value_is_unresolved() {
    let (dfg, _, _) = graph(0x1000, RCX, None, Some(Data::Expression(kpcr())));
    let instr = instruction(Opcode::MOV, Operand::Register(RAX), Operand::RegDeref(RCX));
    assert_eq!(referent(&instr, &Operand::RegDeref(RCX), 0x1000, &dfg, &()), None);
    assert_eq!(referent(&instr, &Operand::RegDisp(RCX, 8), 0x1000, &dfg, &()), None);
    // another register, another address, no slot at all
    let (dfg, _, _) = graph(0x1000, RCX, Some(Data::Expression(kpcr())), None);
    assert_eq!(referent(&instr, &Operand::RegDeref(RAX), 0x1000, &dfg, &()), None);
    assert_eq!(referent(&instr, &Operand::RegDeref(RCX), 0x1004, &dfg, &()), None);
    assert_eq!(referent(&instr, &Operand::RegDeref(RCX), 0x1000, &SSA::new(), &()), None);
}

#[test]
fn other_addressing_shapes_are_unresolved() {
    let (dfg, _, _) = graph(0x1000, RCX, Some(Data::Expression(kpcr())), None);
    let instr = with_gs(instruction(Opcode::MOV, Operand::Register(RAX), Operand::Nothing));
    let shapes = [
        Operand::RegScale(RCX, 4),
        Operand::RegIndexBase(RCX, RAX),
        Operand::RegIndexBaseDisp(RCX, RAX, 8),
        Operand::RegScaleDisp(RCX, 2, 8),
        Operand::RegIndexBaseScale(RCX, RAX, 8),
        Operand::RegIndexBaseScaleDisp(RCX, RAX, 8, 0x10),
        Operand::OtherMemory,
        Operand::Register(RCX),
        Operand::ImmediateI8(4),
        Operand::ImmediateU64(0x188),
        Operand::Nothing,
    ];
    for shape in shapes.iter() {
        assert_eq!(referent(&instr, shape, 0x1000, &dfg, &()), None);
    }
}

#[test]
fn memory_operands_are_told_apart() {
    assert!(Operand::DisplacementU32(0).is_memory());
    assert!(Operand::DisplacementU64(0).is_memory());
    assert!(Operand::RegDeref(RAX).is_memory());
    assert!(Operand::RegDisp(RAX, 1).is_memory());
    assert!(Operand::RegScale(RAX, 1).is_memory());
    assert!(Operand::RegIndexBase(RAX, RCX).is_memory());
    assert!(Operand::RegIndexBaseDisp(RAX, RCX, 1).is_memory());
    assert!(Operand::RegScaleDisp(RAX, 1, 1).is_memory());
    assert!(Operand::RegIndexBaseScale(RAX, RCX, 1).is_memory());
    assert!(Operand::RegIndexBaseScaleDisp(RAX, RCX, 1, 1).is_memory());
    assert!(Operand::OtherMemory.is_memory());
    assert!(!Operand::Register(RAX).is_memory());
    assert!(!Operand::ImmediateI8(1).is_memory());
    assert!(!Operand::ImmediateU32(1).is_memory());
    assert!(!Operand::ImmediateI64(1).is_memory());
    assert!(!Operand::Nothing.is_memory());
    assert_eq!(RegSpec::rip(), RIP);
}

#[test]
fn add_of_an_immediate_moves_a_symbolic_value() {
    let held = Data::Expression(deref(opaque(TypeSpec::Unknown)));
    let (mut dfg, before, after) = graph(0x1000, RAX, Some(held), None);
    let instr = instruction(Opcode::ADD, Operand::Register(RAX), Operand::ImmediateI8(4));
    evaluate(&instr, 0x1000, &mut dfg);
    let expected = Data::Expression(deref(opaque(TypeSpec::Unknown)).offset(4));
    assert_eq!(dfg.get_data(after), Some(&expected));
    assert_eq!(
        dfg.get_data(after),
        Some(&Data::Expression(add(deref(opaque(TypeSpec::Unknown)), 4))),
    );
    assert_eq!(dfg.get_data(before), Some(&Data::Expression(deref(opaque(TypeSpec::Unknown)))));
}

#[test]
fn add_of_wider_immediates_moves_a_symbolic_value() {
    let (mut dfg, _, after) = graph(0x1000, RAX, Some(Data::Expression(kpcr())), None);
    let instr = instruction(Opcode::ADD, Operand::Register(RAX), Operand::ImmediateI32(0x12345));
    evaluate(&instr, 0x1000, &mut dfg);
    assert_eq!(dfg.get_data(after), Some(&Data::Expression(add(kpcr(), 0x12345))));

    let (mut dfg, _, after) = graph(0x1000, RAX, Some(Data::Expression(add(kpcr(), 8))), None);
    let instr = instruction(
        Opcode::ADD,
        Operand::Register(RAX),
        Operand::ImmediateI64(0x1_0000_0000),
    );
    evaluate(&instr, 0x1000, &mut dfg);
    assert_eq!(dfg.get_data(after), Some(&Data::Expression(add(kpcr(), 0x1_0000_0008))));
}

#[test]
fn add_of_a_negative_immediate_is_sign_extended() {
    let (mut dfg, _, after) = graph(0x1000, RAX, Some(Data::Expression(add(kpcr(), 0x10))), None);
    let instr = instruction(Opcode::ADD, Operand::Register(RAX), Operand::ImmediateI8(-8));
    evaluate(&instr, 0x1000, &mut dfg);
    assert_eq!(dfg.get_data(after), Some(&Data::Expression(add(kpcr(), 8))));

    let (mut dfg, _, after) = graph(0x1000, RAX, Some(Data::Expression(kpcr())), None);
    let instr = instruction(Opcode::ADD, Operand::Register(RAX), Operand::ImmediateI32(-1));
    evaluate(&instr, 0x1000, &mut dfg);
    assert_eq!(dfg.get_data(after), Some(&Data::Expression(add(kpcr(), u64::MAX))));

    let (mut dfg, _, after) = graph(0x1000, RAX, Some(Data::Expression(kpcr())), None);
    let instr = instruction(Opcode::ADD, Operand::Register(RAX), Operand::ImmediateI64(-2));
    evaluate(&instr, 0x1000, &mut dfg);
    assert_eq!(dfg.get_data(after), Some(&Data::Expression(add(kpcr(), u64::MAX - 1))));
}

#[test]
fn add_replaces_what_was_recorded_for_the_result() {
    let (mut dfg, _, after) =
        graph(0x1000, RAX, Some(Data::Expression(kpcr())), Some(Data::Concrete(9, None)));
    let instr = instruction(Opcode::ADD, Operand::Register(RAX), Operand::ImmediateI8(1));
    evaluate(&instr, 0x1000, &mut dfg);
    assert_eq!(dfg.get_data(after), Some(&Data::Expression(add(kpcr(), 1))));
}

#[test]
fn add_to_a_number_records_nothing() {
    let (mut dfg, before, after) = graph(0x1000, RAX, Some(Data::Concrete(0x40, None)), None);
    let instr = instruction(Opcode::ADD, Operand::Register(RAX), Operand::ImmediateI8(4));
    evaluate(&instr, 0x1000, &mut dfg);
    assert_eq!(dfg.get_data(after), None);
    assert_eq!(dfg.get_data(before), Some(&Data::Concrete(0x40, None)));

    let (mut dfg, _, after) = graph(0x1000, RAX, None, None);
    evaluate(&instr, 0x1000, &mut dfg);
    assert_eq!(dfg.get_data(after), None);
}

#[test]
fn add_of_other_immediates_records_nothing() {
    for immediate in [
        Operand::ImmediateU8(4),
        Operand::ImmediateI16(4),
        Operand::ImmediateU16(4),
        Operand::ImmediateU32(4),
        Operand::ImmediateU64(4),
        Operand::Register(RCX),
    ] {
        let (mut dfg, _, after) = graph(0x1000, RAX, Some(Data::Expression(kpcr())), None);
        let instr = instruction(Opcode::ADD, Operand::Register(RAX), immediate);
        evaluate(&instr, 0x1000, &mut dfg);
        assert_eq!(dfg.get_data(after), None);
    }
}

#[test]
fn add_at_another_address_records_nothing() {
    let (mut dfg, _, after) = graph(0x1000, RAX, Some(Data::Expression(kpcr())), None);
    let instr = instruction(Opcode::ADD, Operand::Register(RAX), Operand::ImmediateI8(4));
    evaluate(&instr, 0x1004, &mut dfg);
    assert_eq!(dfg.get_data(after), None);
    let instr = instruction(Opcode::ADD, Operand::Register(RCX), Operand::ImmediateI8(4));
    evaluate(&instr, 0x1000, &mut dfg);
    assert_eq!(dfg.get_data(after), None);
}

#[test]
fn move_keeps_what_the_register_holds_already() {
    let (mut dfg, _, after) = graph(0x1000, RAX, None, Some(Data::Concrete(7, None)));
    let source = Operand::DisplacementU32(0x20);
    let instr = with_gs(instruction(Opcode::MOV, Operand::Register(RAX), source));
    assert!(referent(&instr, &source, 0x1000, &dfg, &()).is_some());
    evaluate(&instr, 0x1000, &mut dfg);
    assert_eq!(dfg.get_data(after), Some(&Data::Concrete(7, None)));

    let held = Some(Data::Expression(opaque(TypeSpec::Unknown)));
    let (mut dfg, _, after) = graph(0x1000, RAX, None, held);
    evaluate(&instr, 0x1000, &mut dfg);
    assert_eq!(dfg.get_data(after), Some(&Data::Expression(opaque(TypeSpec::Unknown))));
}

#[test]
fn move_from_memory_loads_what_the_referent_points_to() {
    let (mut dfg, _, after) = graph(0x1000, RAX, None, None);
    let source = Operand::DisplacementU32(0x20);
    let instr = with_gs(instruction(Opcode::MOV, Operand::Register(RAX), source));
    evaluate(&instr, 0x1000, &mut dfg);
    assert_eq!(dfg.get_data(after), Some(&Data::Expression(deref(add(kpcr(), 0x20)))));
}

#[test]
fn move_through_a_register_loads_what_it_points_to() {
    let mut dfg = SSA::new();
    let base = dfg.add_value(Some(Data::Expression(deref(add(kpcr(), 0x20)))));
    let loaded = dfg.add_value(None);
    dfg.bind(0x1000, Location::Register(RCX), Direction::Read, base);
    dfg.bind(0x1000, Location::Register(RAX), Direction::Write, loaded);
    let instr = instruction(Opcode::MOV, Operand::Register(RAX), Operand::RegDisp(RCX, 0x18));
    evaluate(&instr, 0x1000, &mut dfg);
    assert_eq!(
        dfg.get_data(loaded),
        Some(&Data::Expression(deref(add(deref(add(kpcr(), 0x20)), 0x18)))),
    );
    assert_eq!(dfg.get_data(base), Some(&Data::Expression(deref(add(kpcr(), 0x20)))));
}

#[test]
fn move_without_a_referent_records_nothing() {
    let (mut dfg, _, after) = graph(0x1000, RAX, None, None);
    let instr = instruction(Opcode::MOV, Operand::Register(RAX), Operand::DisplacementU32(0x20));
    evaluate(&instr, 0x1000, &mut dfg);
    assert_eq!(dfg.get_data(after), None);
    let instr = with_gs(instruction(Opcode::MOV, Operand::Register(RAX), Operand::Register(RCX)));
    evaluate(&instr, 0x1000, &mut dfg);
    assert_eq!(dfg.get_data(after), None);
    let instr = with_gs(instruction(Opcode::MOV, Operand::Register(RAX), Operand::ImmediateI32(0x20)));
    evaluate(&instr, 0x1000, &mut dfg);
    assert_eq!(dfg.get_data(after), None);
}

#[test]
fn move_into_memory_records_nothing() {
    let (mut dfg, _, after) = graph(0x1000, RAX, Some(Data::Expression(kpcr())), None);
    let instr = with_gs(instruction(
        Opcode::MOV,
        Operand::DisplacementU32(0x20),
        Operand::Register(RAX),
    ));
    evaluate(&instr, 0x1000, &mut dfg);
    assert_eq!(dfg.get_data(after), None);
}

#[test]
fn other_instructions_record_nothing() {
    let (mut dfg, before, after) = graph(0x1000, RAX, Some(Data::Expression(kpcr())), None);
    let source = Operand::DisplacementU32(0x20);
    let instr = with_gs(instruction(Opcode::Other, Operand::Register(RAX), source));
    evaluate(&instr, 0x1000, &mut dfg);
    assert_eq!(dfg.get_data(after), None);
    let instr = instruction(Opcode::Other, Operand::Register(RAX), Operand::ImmediateI8(4));
    evaluate(&instr, 0x1000, &mut dfg);
    assert_eq!(dfg.get_data(after), None);
    assert_eq!(dfg.get_data(before), Some(&Data::Expression(kpcr())));
}

#[test]
fn evaluation_without_slots_changes_nothing() {
    let mut dfg: SSA<Location, Data> = SSA::new();
    let lonely = dfg.add_value(None);
    let source = Operand::DisplacementU32(0x20);
    let instr = with_gs(instruction(Opcode::MOV, Operand::Register(RAX), source));
    evaluate(&instr, 0x1000, &mut dfg);
    let instr = instruction(Opcode::ADD, Operand::Register(RAX), Operand::ImmediateI8(4));
    evaluate(&instr, 0x1000, &mut dfg);
    assert_eq!(dfg.get_data(lonely), None);
    assert_eq!(dfg.get_use(0x1000, &Location::Register(RAX)), None);
    assert_eq!(dfg.get_def(0x1000, &Location::Register(RAX)), None);
}

#[test]
fn evaluating_twice_records_the_same() {
    let build = || graph(0x1000, RAX, Some(Data::Expression(kpcr())), None);
    let instr = instruction(Opcode::ADD, Operand::Register(RAX), Operand::ImmediateI8(4));
    let (mut first, _, after) = build();
    evaluate(&instr, 0x1000, &mut first);
    let (mut second, _, _) = build();
    evaluate(&instr, 0x1000, &mut second);
    assert_eq!(first.get_data(after), second.get_data(after));
    evaluate(&instr, 0x1000, &mut second);
    assert_eq!(first.get_data(after), second.get_data(after));
}

#[test]
fn a_value_shared_by_use_and_definition_moves_on() {
    let mut dfg = SSA::new();
    let shared = dfg.add_value(Some(Data::Expression(kpcr())));
    dfg.bind(0x1000, Location::Register(RAX), Direction::Read, shared);
    dfg.bind(0x1000, Location::Register(RAX), Direction::Write, shared);
    let instr = instruction(Opcode::ADD, Operand::Register(RAX), Operand::ImmediateI8(4));
    evaluate(&instr, 0x1000, &mut dfg);
    assert_eq!(dfg.get_data(shared), Some(&Data::Expression(add(kpcr(), 4))));
    evaluate(&instr, 0x1000, &mut dfg);
    assert_eq!(dfg.get_data(shared), Some(&Data::Expression(add(kpcr(), 8))));
}

#[test]
fn transient_modifiers_leave_symbolic_values_alone() {
    let (mut dfg, before, after) = graph(0x1000, RAX, Some(Data::Expression(kpcr())), None);
    let modifiers = vec![ModifierExpression::Below(8), ModifierExpression::IsNot(0)];
    <x86_64 as ConstEvaluator<(), SymbolicDomain>>::apply_transient(
        0x1000,
        0x1010,
        Some(Location::Register(RAX)),
        &modifiers,
        &mut dfg,
        &(),
    );
    assert_eq!(dfg.get_data(before), Some(&Data::Expression(kpcr())));
    assert_eq!(dfg.get_data(after), None);
    assert_eq!(dfg.get_use(0x1000, &Location::Register(RAX)), Some(before));
    assert_eq!(dfg.get_def(0x1000, &Location::Register(RAX)), Some(after));
}
