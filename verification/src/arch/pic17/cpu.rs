//! The register file of the processor.

use vstd::prelude::*;

use crate::arch::pic17::MergedContext;

verus! {

/// The first file register whose meaning depends on the selected bank of
/// peripheral registers.
pub const BANKED_SFR_START: u8 = 0x10;

/// The first file register after the banked peripheral registers.
pub const BANKED_SFR_END: u8 = 0x18;

/// The first file register whose meaning depends on the selected bank of
/// general-purpose registers.
pub const BANKED_GPR_START: u8 = 0x20;

/// The register that `file` names in bank `bank`: the bank above the number.
pub open spec fn banked(bank: u8, file: u8) -> u16 {
    (bank * 256 + file) as u16
}

/// The register that the number `f` names under the banks selected in `ctx`:
/// the register itself where it is the same in every bank, the register in
/// its bank where the bank is known, and nothing where the bank is not known.
pub open spec fn spec_try_debank(f: u8, ctx: Option<MergedContext>) -> Option<u16> {
    if f < BANKED_SFR_START || (BANKED_SFR_END <= f && f < BANKED_GPR_START) {
        Some(f as u16)
    } else {
        let bank = match ctx {
            Some(ctx) => if f < BANKED_SFR_END {
                ctx.spec_bsr_sfr()
            } else {
                ctx.spec_bsr_gpr()
            },
            None => None,
        };
        match bank {
            Some(bank) => Some(banked(bank, f)),
            None => None,
        }
    }
}

/// The register that the number `f` names under the banks selected in `ctx`.
pub fn try_debank(f: u8, ctx: Option<&MergedContext>) -> (file: Option<u16>)
    ensures
        file == spec_try_debank(
            f,
            match ctx {
                Some(ctx) => Some(*ctx),
                None => None,
            },
        ),
{
    if f < BANKED_SFR_START || (BANKED_SFR_END <= f && f < BANKED_GPR_START) {
        Some(f as u16)
    } else {
        let bank = match ctx {
            Some(ctx) => if f < BANKED_SFR_END {
                ctx.bsr_sfr()
            } else {
                ctx.bsr_gpr()
            },
            None => None,
        };
        match bank {
            Some(bank) => Some(bank as u16 * 256 + f as u16),
            None => None,
        }
    }
}

} // verus!
