//! What one instruction tells about the addresses after it.
//!
//! Every analysis answers with addressed state updates: facts to be put into
//! the context table later, by whoever decides how facts merge. None of them
//! changes the table it reads.

use vstd::prelude::*;

use crate::analyses::control_flow::Effect;
use crate::arch::pic17::cpu::{spec_try_debank, try_debank};
use crate::arch::pic17::{
    bit_name, compute_state, spec_bit_name, spec_compute_state, update_views, Instruction,
    MergedContext, MergedContextTable, Operand, StateUpdate, StateUpdateView,
};
use crate::ContextRead;

verus! {

/// The name of the bit that `instr` works on, under the context `ctx`: a
/// bit operation on a file register whose bank is known names a bit, and the
/// bit may have a name.
pub open spec fn spec_bit_comment(instr: Instruction, ctx: MergedContext) -> Option<Seq<char>> {
    if instr.opcode.spec_is_bit_operation() {
        match (instr.operands[0], instr.operands[1]) {
            (Operand::File(f), Operand::ImmediateU8(bit)) => match spec_try_debank(f, Some(ctx)) {
                Some(file) => spec_bit_name(file, bit),
                None => None,
            },
            _ => None,
        }
    } else {
        None
    }
}

/// The name of the bit that `instr` works on, under the context `ctx`.
pub fn bit_comment(instr: &Instruction, ctx: &MergedContext) -> (name: Option<&'static str>)
    requires
        instr.well_formed(),
    ensures
        match name {
            Some(name) => spec_bit_comment(*instr, *ctx) == Some(name@),
            None => spec_bit_comment(*instr, *ctx) is None,
        },
{
    if instr.opcode.is_bit_operation() {
        match (instr.operands[0], instr.operands[1]) {
            (Operand::File(file_value), Operand::ImmediateU8(bit_num)) => {
                match try_debank(file_value, Some(ctx)) {
                    Some(file) => bit_name(file, bit_num),
                    None => None,
                }
            },
            _ => None,
        }
    } else {
        None
    }
}

/// The update that names the bit `instr` works on: a computed comment at the
/// address after the instruction, where the bit has a name.
pub open spec fn bit_name_updates(instr: Instruction, address: u16, ctx: MergedContext) -> Seq<
    (u16, StateUpdateView),
> {
    match spec_bit_comment(instr, ctx) {
        Some(name) => seq![
            ((address + instr.spec_len()) as u16, StateUpdateView::ComputedComment(name)),
        ],
        None => seq![],
    }
}

/// The update that carries the context past `instr`: the context after the
/// instruction, at the address after it, unless execution stops there.
pub open spec fn next_state_updates(
    instr: Instruction,
    address: u16,
    stop: bool,
    ctx: MergedContext,
) -> Seq<(u16, StateUpdateView)> {
    if stop {
        seq![]
    } else {
        seq![
            (
                (address + instr.spec_len()) as u16,
                StateUpdateView::FullContext(spec_compute_state(instr, ctx)),
            ),
        ]
    }
}

/// Runs every analysis on one instruction and returns their updates: first
/// the name of the bit it works on, then what it tells about functions, then
/// the context after it.
pub fn all_instruction_analyses(
    instr: &Instruction,
    address: u16,
    effect: &Effect<u16>,
    ctxs: &MergedContextTable,
) -> (results: Vec<(u16, StateUpdate)>)
    requires
        instr.well_formed(),
        spec_bit_comment(*instr, ctxs.spec_at(address)) is Some || !effect.stop_after ==> address
            + instr.spec_len() <= u16::MAX,
    ensures
        update_views(results@) == bit_name_updates(*instr, address, ctxs.spec_at(address))
            + next_state_updates(*instr, address, effect.stop_after, ctxs.spec_at(address)),
{
    let mut results = compute_bit_name(instr, address, effect, ctxs);
    let mut hints = collect_function_hint(instr, address, effect, ctxs);
    let mut next = compute_next_state(instr, address, effect, ctxs);
    let ghost names = results@;
    let ghost states = next@;
    results.append(&mut hints);
    results.append(&mut next);
    proof {
        assert(results@ =~= names + states);
        assert(update_views(names + states) =~= update_views(names) + update_views(states));
    }
    results
}

/// The context after `instr`, as an update for the address after it. An
/// instruction after which execution stops has no such address.
///
/// The update is computed from the context recorded at `address`. Where the
/// instruction ends its block, the address after it belongs to another
/// block, whose recorded context may be older than this update.
pub fn compute_next_state(
    instr: &Instruction,
    address: u16,
    effect: &Effect<u16>,
    ctxs: &MergedContextTable,
) -> (results: Vec<(u16, StateUpdate)>)
    requires
        instr.well_formed(),
        !effect.stop_after ==> address + instr.spec_len() <= u16::MAX,
    ensures
        update_views(results@) == next_state_updates(
            *instr,
            address,
            effect.stop_after,
            ctxs.spec_at(address),
        ),
{
    let ctx = compute_state(instr, &ctxs.at(&address));
    let mut results: Vec<(u16, StateUpdate)> = Vec::new();
    if !effect.is_stop() {
        results.push((address + instr.len(), StateUpdate::FullContext(ctx)));
    }
    proof {
        assert(update_views(results@) =~= next_state_updates(
            *instr,
            address,
            effect.stop_after,
            ctxs.spec_at(address),
        ));
    }
    results
}

/// What `instr` tells about where functions start. Nothing, for now.
pub fn collect_function_hint(
    _instr: &Instruction,
    _address: u16,
    _effect: &Effect<u16>,
    _ctxs: &MergedContextTable,
) -> (results: Vec<(u16, StateUpdate)>)
    ensures
        results@ == Seq::<(u16, StateUpdate)>::empty(),
{
    Vec::new()
}

/// The name of the bit that `instr` works on, as a computed comment for the
/// address after the instruction.
pub fn compute_bit_name(
    instr: &Instruction,
    address: u16,
    _effect: &Effect<u16>,
    ctxs: &MergedContextTable,
) -> (results: Vec<(u16, StateUpdate)>)
    requires
        instr.well_formed(),
        spec_bit_comment(*instr, ctxs.spec_at(address)) is Some ==> address + instr.spec_len()
            <= u16::MAX,
    ensures
        update_views(results@) == bit_name_updates(*instr, address, ctxs.spec_at(address)),
{
    let comment = bit_comment(instr, &ctxs.at(&address));
    let mut results: Vec<(u16, StateUpdate)> = Vec::new();
    match comment {
        Some(comment) => {
            results.push((address + instr.len(), StateUpdate::ComputedComment(comment.to_owned())));
        },
        None => {},
    }
    proof {
        assert(update_views(results@) =~= bit_name_updates(
            *instr,
            address,
            ctxs.spec_at(address),
        ));
    }
    results
}

} // verus!
