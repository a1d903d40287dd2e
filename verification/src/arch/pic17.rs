//! The PIC17 family of 8-bit microcontrollers.
//!
//! Instructions name file registers by an 8-bit number. What register a
//! number means depends on the bank-select register: its low half selects
//! the bank of the peripheral registers, its high half the bank of the
//! general-purpose registers. Analyses therefore carry, address by address,
//! what is known of the two halves.

use std::collections::HashMap;

use vstd::prelude::*;

use crate::{ContextRead, ContextWrite};

pub mod analyses;
pub mod cpu;

verus! {

broadcast use vstd::std_specs::hash::group_hash_axioms;

/// What an instruction does.
#[derive(Debug, PartialEq, Eq, Copy, Clone, Structural)]
pub enum Opcode {
    Invalid(u8, u8),
    NOP,
    RETURN,
    SLEEP,
    CLRWDT,
    RETFIE,
    MOVWF,
    SUBWFB,
    SUBWF,
    DECF,
    IORWF,
    ANDWF,
    XORWF,
    ADDWF,
    ADDWFC,
    COMF,
    INCF,
    DECFSZ,
    RRCF,
    RLCF,
    SWAPF,
    INCFSZ,
    RRNCF,
    RLNCF,
    INFSNZ,
    DCFSNZ,
    CLRF,
    SETF,
    NEGW,
    DAW,
    BTG,
    CPFSLT,
    CPFSEQ,
    CPFSGT,
    MULWF,
    TSTFSZ,
    BSF,
    BCF,
    BTFSS,
    BTFSC,
    MOVFP,
    MOVPF,
    MOVLW,
    ADDLW,
    SUBLW,
    IORLW,
    XORLW,
    ANDLW,
    RETLW,
    LCALL,
    MOVLB,
    MOVLR,
    MULLW,
    TLRDL,
    TLRDH,
    TLWTL,
    TLWTH,
    TABLRDL,
    TABLRDLI,
    TABLRDH,
    TABLRDHI,
    TABLWTL,
    TABLWTLI,
    TABLWTH,
    TABLWTHI,
    GOTO,
    CALL,
}

impl Opcode {
    /// Whether the opcode tests, sets, clears or toggles one bit of a file
    /// register.
    pub open spec fn spec_is_bit_operation(&self) -> bool {
        match self {
            Opcode::BTG | Opcode::BSF | Opcode::BCF | Opcode::BTFSS | Opcode::BTFSC => true,
            _ => false,
        }
    }

    /// Whether the opcode tests, sets, clears or toggles one bit of a file
    /// register.
    #[verifier::when_used_as_spec(spec_is_bit_operation)]
    pub fn is_bit_operation(&self) -> (bit: bool)
        ensures
            bit == self.spec_is_bit_operation(),
    {
        match self {
            Opcode::BTG | Opcode::BSF | Opcode::BCF | Opcode::BTFSS | Opcode::BTFSC => true,
            _ => false,
        }
    }
}

/// One operand of an instruction.
#[derive(Debug, PartialEq, Eq, Copy, Clone, Structural)]
pub enum Operand {
    ImmediateU8(u8),
    ImmediateU32(u32),
    /// A file register, by its number within the selected bank.
    File(u8),
    /// The working register.
    W,
    Nothing,
}

/// The length of every instruction, in bytes: one 16-bit word.
pub const INSTRUCTION_LENGTH: u16 = 2;

/// One decoded instruction.
#[derive(Debug, Copy, Clone)]
pub struct Instruction {
    pub opcode: Opcode,
    pub operands: [Operand; 2],
}

impl Instruction {
    /// The operands are of the shape that the opcode promises, as far as
    /// analyses rely on it: a bit operation names a file register and a bit,
    /// and a move to one half of the bank-select register has its literal.
    pub open spec fn spec_well_formed(&self) -> bool {
        &&& self.opcode.spec_is_bit_operation() ==> self.operands[0] is File
            && self.operands[1] is ImmediateU8
        &&& self.opcode == Opcode::MOVLB || self.opcode == Opcode::MOVLR
            ==> self.operands[0] is ImmediateU8
    }

    /// Whether the operands are of the shape that the opcode promises.
    #[verifier::when_used_as_spec(spec_well_formed)]
    pub fn well_formed(&self) -> (well_formed: bool)
        ensures
            well_formed == self.spec_well_formed(),
    {
        let first = self.operands[0];
        let second = self.operands[1];
        if self.opcode.is_bit_operation() {
            match (first, second) {
                (Operand::File(_), Operand::ImmediateU8(_)) => true,
                _ => false,
            }
        } else {
            match self.opcode {
                Opcode::MOVLB | Opcode::MOVLR => match first {
                    Operand::ImmediateU8(_) => true,
                    _ => false,
                },
                _ => true,
            }
        }
    }

    /// The length of the instruction in bytes.
    pub open spec fn spec_len(&self) -> u16 {
        INSTRUCTION_LENGTH
    }

    /// The length of the instruction in bytes.
    #[verifier::when_used_as_spec(spec_len)]
    pub fn len(&self) -> (len: u16)
        ensures
            len == self.spec_len(),
    {
        INSTRUCTION_LENGTH
    }

    /// Whether the instruction calls a subroutine.
    pub fn is_call(&self) -> (call: bool)
        ensures
            call == (self.opcode == Opcode::CALL || self.opcode == Opcode::LCALL),
    {
        match self.opcode {
            Opcode::CALL | Opcode::LCALL => true,
            _ => false,
        }
    }
}

/// What the user stated of the machine state at an address.
#[derive(Debug, PartialEq, Eq, Copy, Clone, Structural)]
pub struct PartialContext {
    /// The bank of peripheral registers that is selected.
    pub bsr_sfr: Option<u8>,
    /// The bank of general-purpose registers that is selected.
    pub bsr_gpr: Option<u8>,
}

/// What analysis computed of the machine state at an address.
#[derive(Debug, PartialEq, Eq, Copy, Clone, Structural)]
pub struct ComputedContext {
    /// The bank of peripheral registers that is selected.
    pub bsr_sfr: Option<u8>,
    /// The bank of general-purpose registers that is selected.
    pub bsr_gpr: Option<u8>,
}

/// What is known of the machine state at an address: what was computed and
/// what the user stated. Where the user stated something, that is what holds.
#[derive(Debug, PartialEq, Eq, Copy, Clone, Structural)]
pub struct MergedContext {
    pub computed: Option<ComputedContext>,
    pub user: Option<PartialContext>,
}

/// The first of two facts that is known.
pub open spec fn first_known(stated: Option<u8>, computed: Option<u8>) -> Option<u8> {
    if stated is Some {
        stated
    } else {
        computed
    }
}

impl MergedContext {
    /// The bank of peripheral registers that is selected, if known.
    pub open spec fn spec_bsr_sfr(&self) -> Option<u8> {
        first_known(
            match self.user {
                Some(user) => user.bsr_sfr,
                None => None,
            },
            match self.computed {
                Some(computed) => computed.bsr_sfr,
                None => None,
            },
        )
    }

    /// The bank of general-purpose registers that is selected, if known.
    pub open spec fn spec_bsr_gpr(&self) -> Option<u8> {
        first_known(
            match self.user {
                Some(user) => user.bsr_gpr,
                None => None,
            },
            match self.computed {
                Some(computed) => computed.bsr_gpr,
                None => None,
            },
        )
    }

    /// The bank of peripheral registers that is selected, if known.
    #[verifier::when_used_as_spec(spec_bsr_sfr)]
    pub fn bsr_sfr(&self) -> (bank: Option<u8>)
        ensures
            bank == self.spec_bsr_sfr(),
    {
        let stated = match self.user {
            Some(user) => user.bsr_sfr,
            None => None,
        };
        if stated.is_some() {
            return stated;
        }
        match self.computed {
            Some(computed) => computed.bsr_sfr,
            None => None,
        }
    }

    /// The bank of general-purpose registers that is selected, if known.
    #[verifier::when_used_as_spec(spec_bsr_gpr)]
    pub fn bsr_gpr(&self) -> (bank: Option<u8>)
        ensures
            bank == self.spec_bsr_gpr(),
    {
        let stated = match self.user {
            Some(user) => user.bsr_gpr,
            None => None,
        };
        if stated.is_some() {
            return stated;
        }
        match self.computed {
            Some(computed) => computed.bsr_gpr,
            None => None,
        }
    }
}

/// A fact about an address, to be put into the context table later.
#[derive(Debug, PartialEq, Eq)]
pub enum StateUpdate {
    /// The computed context at the address is this one.
    FullContext(ComputedContext),
    /// The address gets this computed comment.
    ComputedComment(String),
}

/// A state update as a value of specifications.
pub enum StateUpdateView {
    FullContext(ComputedContext),
    ComputedComment(Seq<char>),
}

impl View for StateUpdate {
    type V = StateUpdateView;

    open spec fn view(&self) -> StateUpdateView {
        match self {
            StateUpdate::FullContext(ctx) => StateUpdateView::FullContext(*ctx),
            StateUpdate::ComputedComment(comment) => StateUpdateView::ComputedComment(comment@),
        }
    }
}

impl Clone for StateUpdate {
    fn clone(&self) -> (copy: StateUpdate)
        ensures
            copy@ == self@,
    {
        match self {
            StateUpdate::FullContext(ctx) => StateUpdate::FullContext(*ctx),
            StateUpdate::ComputedComment(comment) => StateUpdate::ComputedComment(comment.clone()),
        }
    }
}

/// The addressed updates of a list, each as a value of specifications.
pub open spec fn update_views(updates: Seq<(u16, StateUpdate)>) -> Seq<(u16, StateUpdateView)> {
    updates.map_values(|update: (u16, StateUpdate)| (update.0, update.1@))
}

/// The context after `instr`, given the context before it. A move of a
/// literal to the low half of the bank-select register selects the bank of
/// peripheral registers, one to the high half the bank of general-purpose
/// registers; every other instruction leaves the selected banks as they are.
pub open spec fn spec_compute_state(instr: Instruction, ctx: MergedContext) -> ComputedContext {
    match (instr.opcode, instr.operands[0]) {
        (Opcode::MOVLB, Operand::ImmediateU8(literal)) => ComputedContext {
            bsr_sfr: Some(literal % 16),
            bsr_gpr: ctx.spec_bsr_gpr(),
        },
        (Opcode::MOVLR, Operand::ImmediateU8(literal)) => ComputedContext {
            bsr_sfr: ctx.spec_bsr_sfr(),
            bsr_gpr: Some(literal / 16),
        },
        _ => ComputedContext { bsr_sfr: ctx.spec_bsr_sfr(), bsr_gpr: ctx.spec_bsr_gpr() },
    }
}

/// The context after `instr`, given the context before it.
pub fn compute_state(instr: &Instruction, ctx: &MergedContext) -> (next: ComputedContext)
    requires
        instr.well_formed(),
    ensures
        next == spec_compute_state(*instr, *ctx),
{
    let mut next = ComputedContext { bsr_sfr: ctx.bsr_sfr(), bsr_gpr: ctx.bsr_gpr() };
    match (instr.opcode, instr.operands[0]) {
        (Opcode::MOVLB, Operand::ImmediateU8(literal)) => {
            next.bsr_sfr = Some(literal % 16);
        },
        (Opcode::MOVLR, Operand::ImmediateU8(literal)) => {
            next.bsr_gpr = Some(literal / 16);
        },
        _ => {},
    }
    next
}

/// The status register of the arithmetic unit.
pub const ALUSTA: u16 = 0x04;

/// The status register of the processor.
pub const CPUSTA: u16 = 0x06;

/// The interrupt status and control register.
pub const INTSTA: u16 = 0x07;

/// The name of bit `bit` of the file register `file`, where the bit has one.
/// `file` is the register's number with its bank above it.
pub open spec fn spec_bit_name(file: u16, bit: u8) -> Option<Seq<char>> {
    if file == ALUSTA {
        match bit {
            0 => Some("C"@),
            1 => Some("DC"@),
            2 => Some("Z"@),
            3 => Some("OV"@),
            4 => Some("FS0"@),
            5 => Some("FS1"@),
            6 => Some("FS2"@),
            7 => Some("FS3"@),
            _ => None,
        }
    } else if file == CPUSTA {
        match bit {
            2 => Some("PD"@),
            3 => Some("TO"@),
            4 => Some("GLINTD"@),
            5 => Some("STKAV"@),
            _ => None,
        }
    } else if file == INTSTA {
        match bit {
            0 => Some("INTE"@),
            1 => Some("T0IE"@),
            2 => Some("T0CKIE"@),
            3 => Some("PEIE"@),
            4 => Some("INTF"@),
            5 => Some("T0IF"@),
            6 => Some("T0CKIF"@),
            7 => Some("PEIF"@),
            _ => None,
        }
    } else {
        None
    }
}

/// The name of bit `bit` of the file register `file`, where the bit has one.
pub fn bit_name(file: u16, bit: u8) -> (name: Option<&'static str>)
    ensures
        match name {
            Some(name) => spec_bit_name(file, bit) == Some(name@),
            None => spec_bit_name(file, bit) is None,
        },
{
    if file == ALUSTA {
        match bit {
            0 => Some("C"),
            1 => Some("DC"),
            2 => Some("Z"),
            3 => Some("OV"),
            4 => Some("FS0"),
            5 => Some("FS1"),
            6 => Some("FS2"),
            7 => Some("FS3"),
            _ => None,
        }
    } else if file == CPUSTA {
        match bit {
            2 => Some("PD"),
            3 => Some("TO"),
            4 => Some("GLINTD"),
            5 => Some("STKAV"),
            _ => None,
        }
    } else if file == INTSTA {
        match bit {
            0 => Some("INTE"),
            1 => Some("T0IE"),
            2 => Some("T0CKIE"),
            3 => Some("PEIE"),
            4 => Some("INTF"),
            5 => Some("T0IF"),
            6 => Some("T0CKIF"),
            7 => Some("PEIF"),
            _ => None,
        }
    } else {
        None
    }
}

/// The contexts of a program, by address: what the user stated, what
/// analysis computed, and the comments that analysis attached.
pub struct MergedContextTable {
    user_contexts: HashMap<u16, PartialContext>,
    computed_contexts: HashMap<u16, ComputedContext>,
    comments: HashMap<u16, String>,
}

impl MergedContextTable {
    /// What the user stated, by address.
    pub closed spec fn user(&self) -> Map<u16, PartialContext> {
        self.user_contexts@
    }

    /// What analysis computed, by address.
    pub closed spec fn computed(&self) -> Map<u16, ComputedContext> {
        self.computed_contexts@
    }

    /// The comments that analysis attached, by address.
    pub closed spec fn comments(&self) -> Map<u16, Seq<char>> {
        self.comments@.map_values(|comment: String| comment@)
    }

    /// A table that knows nothing.
    pub fn new() -> (table: MergedContextTable)
        ensures
            table.user() == Map::<u16, PartialContext>::empty(),
            table.computed() == Map::<u16, ComputedContext>::empty(),
            table.comments() == Map::<u16, Seq<char>>::empty(),
    {
        let table = MergedContextTable {
            user_contexts: HashMap::new(),
            computed_contexts: HashMap::new(),
            comments: HashMap::new(),
        };
        assert(table.comments() =~= Map::<u16, Seq<char>>::empty());
        table
    }

    /// States what holds at `address`, in place of what was stated there
    /// before.
    pub fn declare(&mut self, address: u16, ctx: PartialContext)
        ensures
            final(self).user() == old(self).user().insert(address, ctx),
            final(self).computed() == old(self).computed(),
            final(self).comments() == old(self).comments(),
    {
        self.user_contexts.insert(address, ctx);
    }

    /// The comment attached to `address`, if there is one.
    pub fn comment(&self, address: u16) -> (comment: Option<&String>)
        ensures
            match comment {
                Some(comment) => self.comments().contains_key(address) && self.comments()[address]
                    == comment@,
                None => !self.comments().contains_key(address),
            },
    {
        self.comments.get(&address)
    }
}

impl ContextRead<u16, MergedContext> for MergedContextTable {
    open spec fn spec_at(&self, address: u16) -> MergedContext {
        MergedContext {
            computed: if self.computed().contains_key(address) {
                Some(self.computed()[address])
            } else {
                None
            },
            user: if self.user().contains_key(address) {
                Some(self.user()[address])
            } else {
                None
            },
        }
    }

    fn at(&self, address: &u16) -> (ctx: MergedContext) {
        let computed = match self.computed_contexts.get(address) {
            Some(ctx) => Some(*ctx),
            None => None,
        };
        let user = match self.user_contexts.get(address) {
            Some(ctx) => Some(*ctx),
            None => None,
        };
        MergedContext { computed, user }
    }
}

impl ContextWrite<u16, StateUpdate> for MergedContextTable {
    /// A full context replaces what was computed at the address; a comment
    /// replaces the comment there. What the user stated stays.
    open spec fn written(&self, after: &Self, address: u16, update: StateUpdate) -> bool {
        &&& after.user() == self.user()
        &&& match update {
            StateUpdate::FullContext(ctx) => {
                &&& after.computed() == self.computed().insert(address, ctx)
                &&& after.comments() == self.comments()
            },
            StateUpdate::ComputedComment(comment) => {
                &&& after.computed() == self.computed()
                &&& after.comments() == self.comments().insert(address, comment@)
            },
        }
    }

    fn put(&mut self, address: u16, update: StateUpdate) {
        match update {
            StateUpdate::FullContext(ctx) => {
                self.computed_contexts.insert(address, ctx);
            },
            StateUpdate::ComputedComment(comment) => {
                let ghost text = comment@;
                self.comments.insert(address, comment);
                assert(self.comments() =~= old(self).comments().insert(address, text));
            },
        }
    }
}

/// A table only grows: after an update, every address that had a stated
/// context, a computed context or a comment still has one.
pub proof fn lemma_put_keeps_what_is_known(
    before: MergedContextTable,
    after: MergedContextTable,
    address: u16,
    update: StateUpdate,
)
    requires
        before.written(&after, address, update),
    ensures
        before.user().dom().subset_of(after.user().dom()),
        before.computed().dom().subset_of(after.computed().dom()),
        before.comments().dom().subset_of(after.comments().dom()),
{
}

/// An update is read back: after a full context was put at an address, the
/// table answers with it as the computed context there, and with what it
/// answered before everywhere else.
pub proof fn lemma_put_then_at(
    before: MergedContextTable,
    after: MergedContextTable,
    address: u16,
    ctx: ComputedContext,
    other: u16,
)
    requires
        before.written(&after, address, StateUpdate::FullContext(ctx)),
        other != address,
    ensures
        after.spec_at(address).computed == Some(ctx),
        after.spec_at(address).user == before.spec_at(address).user,
        after.spec_at(other) == before.spec_at(other),
{
}

} // verus!
