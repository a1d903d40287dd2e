//! The 64-bit general-purpose instruction set, as far as analyses look into
//! its instructions: an instruction's opcode, its first two operands, whether
//! it carries the `gs` segment override, and its length in bytes.

use vstd::prelude::*;

pub mod analyses;

verus! {

/// The class of a register.
#[derive(Debug, PartialEq, Eq, Copy, Clone, Structural)]
pub enum RegisterBank {
    /// 64-bit general-purpose registers.
    Q,
    /// 32-bit general-purpose registers.
    D,
    /// 16-bit general-purpose registers.
    W,
    /// 8-bit general-purpose registers.
    B,
    /// 8-bit general-purpose registers as named without a `rex` prefix.
    RB,
    /// Control registers.
    CR,
    /// Debug registers.
    DR,
    /// Segment registers.
    S,
    /// 128-bit vector registers.
    X,
    /// 256-bit vector registers.
    Y,
    /// 512-bit vector registers.
    Z,
    /// Registers of the floating-point stack.
    ST,
    /// 64-bit vector registers.
    MM,
    /// Mask registers.
    K,
    /// The 64-bit instruction pointer.
    RIP,
    /// The 32-bit instruction pointer.
    EIP,
    /// The 64-bit flags register.
    RFlags,
    /// The 32-bit flags register.
    EFlags,
}

/// One register: its class and its number within the class.
#[derive(Debug, PartialEq, Eq, Copy, Clone, Structural)]
pub struct RegSpec {
    pub num: u8,
    pub bank: RegisterBank,
}

impl RegSpec {
    /// The 64-bit instruction pointer.
    pub open spec fn spec_rip() -> RegSpec {
        RegSpec { num: 0, bank: RegisterBank::RIP }
    }

    /// The 64-bit instruction pointer.
    #[verifier::when_used_as_spec(spec_rip)]
    pub fn rip() -> (reg: RegSpec)
        ensures
            reg == Self::spec_rip(),
    {
        RegSpec { num: 0, bank: RegisterBank::RIP }
    }
}

/// What an instruction does, as far as analyses tell opcodes apart.
#[derive(Debug, PartialEq, Eq, Copy, Clone, Structural)]
pub enum Opcode {
    MOV,
    ADD,
    /// Any other opcode.
    Other,
}

/// One operand of an instruction.
#[derive(Debug, PartialEq, Eq, Copy, Clone, Structural)]
pub enum Operand {
    /// A sign-extended byte.
    ImmediateI8(i8),
    /// A zero-extended byte.
    ImmediateU8(u8),
    /// A sign-extended word.
    ImmediateI16(i16),
    /// A zero-extended word.
    ImmediateU16(u16),
    /// A sign-extended doubleword.
    ImmediateI32(i32),
    /// A zero-extended doubleword.
    ImmediateU32(u32),
    /// A sign-extended quadword.
    ImmediateI64(i64),
    /// A zero-extended quadword.
    ImmediateU64(u64),
    /// A register.
    Register(RegSpec),
    /// Memory at a literal 32-bit address.
    DisplacementU32(u32),
    /// Memory at a literal 64-bit address.
    DisplacementU64(u64),
    /// Memory at the address in a register: `[base]`.
    RegDeref(RegSpec),
    /// Memory at a register plus an offset: `[base + disp]`.
    RegDisp(RegSpec, i32),
    /// Memory at a scaled register: `[index * scale]`.
    RegScale(RegSpec, u8),
    /// Memory at the sum of two registers: `[base + index]`.
    RegIndexBase(RegSpec, RegSpec),
    /// Memory at the sum of two registers and an offset.
    RegIndexBaseDisp(RegSpec, RegSpec, i32),
    /// Memory at a scaled register plus an offset.
    RegScaleDisp(RegSpec, u8, i32),
    /// Memory at a register plus a scaled register.
    RegIndexBaseScale(RegSpec, RegSpec, u8),
    /// Memory at a register plus a scaled register plus an offset.
    RegIndexBaseScaleDisp(RegSpec, RegSpec, u8, i32),
    /// A memory operand of a shape that analyses do not look into.
    OtherMemory,
    /// No operand, or one that is neither of the above.
    Nothing,
}

impl Operand {
    /// Whether the operand names memory.
    pub open spec fn spec_is_memory(&self) -> bool {
        match self {
            Operand::DisplacementU32(_)
            | Operand::DisplacementU64(_)
            | Operand::RegDeref(_)
            | Operand::RegDisp(_, _)
            | Operand::RegScale(_, _)
            | Operand::RegIndexBase(_, _)
            | Operand::RegIndexBaseDisp(_, _, _)
            | Operand::RegScaleDisp(_, _, _)
            | Operand::RegIndexBaseScale(_, _, _)
            | Operand::RegIndexBaseScaleDisp(_, _, _, _)
            | Operand::OtherMemory => true,
            _ => false,
        }
    }

    /// Whether the operand names memory.
    #[verifier::when_used_as_spec(spec_is_memory)]
    pub fn is_memory(&self) -> (memory: bool)
        ensures
            memory == self.spec_is_memory(),
    {
        match self {
            Operand::DisplacementU32(_)
            | Operand::DisplacementU64(_)
            | Operand::RegDeref(_)
            | Operand::RegDisp(_, _)
            | Operand::RegScale(_, _)
            | Operand::RegIndexBase(_, _)
            | Operand::RegIndexBaseDisp(_, _, _)
            | Operand::RegScaleDisp(_, _, _)
            | Operand::RegIndexBaseScale(_, _, _)
            | Operand::RegIndexBaseScaleDisp(_, _, _, _)
            | Operand::OtherMemory => true,
            _ => false,
        }
    }
}

/// The prefixes of an instruction that analyses look at.
#[derive(Debug, PartialEq, Eq, Copy, Clone, Structural)]
pub struct Prefixes {
    /// Whether memory operands are relative to the `gs` segment.
    pub gs: bool,
}

/// One decoded instruction.
#[derive(Debug, Copy, Clone)]
pub struct Instruction {
    pub prefixes: Prefixes,
    pub opcode: Opcode,
    pub operands: [Operand; 2],
    /// The length of the encoded instruction in bytes.
    pub length: u8,
}

/// How an instruction constrains a value along one edge of the control flow.
#[derive(Debug, PartialEq, Eq, Copy, Clone, Structural)]
pub enum ModifierExpression {
    Below(u64),
    Above(u64),
    Is(u64),
    IsNot(u64),
}

/// The address offset that a signed displacement stands for: its two's
/// complement at the width of an address.
pub open spec fn address_offset(disp: int) -> u64 {
    if disp < 0 {
        (disp + 0x1_0000_0000_0000_0000) as u64
    } else {
        disp as u64
    }
}

/// Sign-extends a displacement to the width of an address.
pub fn sign_extend(disp: i64) -> (offset: u64)
    ensures
        offset == address_offset(disp as int),
{
    0u64.wrapping_add_signed(disp)
}

} // verus!
