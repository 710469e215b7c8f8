//! The layer's addressing and accessor laws, stated over the spec functions
//! the entry points' contracts use and proved once for all inputs.

use vstd::prelude::*;
use crate::arch::{
    AddressingMode, OperandType, Register8, Register16, SegmentOverride, ea_offset, ea_segment,
    mode_base, mode_disp, mode_uses_bp,
};
use crate::addr::spec_linear_address;
use crate::cpu::Cpu;
use crate::cpu_addressing::{
    CpuError, spec_read_operand8, spec_read_operand16, spec_write_operand8, spec_write_operand16,
};

verus! {

/// The effective offset of every memory addressing mode is the sum of its
/// base register(s) and displacement reduced modulo 2^16, so `0xFFFF` plus
/// a displacement of 1 wraps to `0x0000`.
pub proof fn lemma_offset_wraps_mod_65536(cpu: Cpu, mode: AddressingMode)
    requires
        !(mode is RegisterMode),
    ensures
        ea_offset(cpu, mode) == (mode_base(cpu, mode) + mode_disp(mode)) % 0x10000,
{
}

/// Every BP-based addressing mode resolves to SS when no override is given,
/// and to the overridden segment register otherwise, whichever of the four
/// overrides is chosen.
pub proof fn lemma_bp_modes_resolve_segment(cpu: Cpu, mode: AddressingMode, so: SegmentOverride)
    requires
        mode_uses_bp(mode),
    ensures
        so is NoOverride ==> ea_segment(cpu, mode, so) == cpu.ss,
        so is SegmentES ==> ea_segment(cpu, mode, so) == cpu.es,
        so is SegmentCS ==> ea_segment(cpu, mode, so) == cpu.cs,
        so is SegmentSS ==> ea_segment(cpu, mode, so) == cpu.ss,
        so is SegmentDS ==> ea_segment(cpu, mode, so) == cpu.ds,
{
}

/// Every non-BP-based addressing mode resolves to DS when no override is
/// given.
pub proof fn lemma_non_bp_modes_default_to_ds(cpu: Cpu, mode: AddressingMode, so: SegmentOverride)
    requires
        !mode_uses_bp(mode),
        so is NoOverride,
    ensures
        ea_segment(cpu, mode, so) == cpu.ds,
{
}

/// Linear-address folding is `(segment * 16 + offset) % 2^20`.
pub proof fn lemma_linear_address_folds(segment: u16, offset: u16)
    ensures
        spec_linear_address(segment, offset) == (segment * 16 + offset) % 0x100000,
{
}

/// Writing an 8-bit register and reading the same identity back yields the
/// written value.
pub proof fn lemma_reg8_round_trip(cpu: Cpu, r: Register8, v: u8)
    ensures
        cpu.with_reg8(r, v).reg8(r) == v,
{
}

/// Writing an 8-bit register leaves every other 8-bit register unchanged —
/// in particular, writing a high half never corrupts the low half of the
/// same backing register, and vice versa.
pub proof fn lemma_reg8_write_independent(cpu: Cpu, r1: Register8, r2: Register8, v: u8)
    requires
        r1 != r2,
    ensures
        cpu.with_reg8(r1, v).reg8(r2) == cpu.reg8(r2),
{
}

/// Writing a 16-bit register and reading the same identity back yields the
/// written value.
pub proof fn lemma_reg16_round_trip(cpu: Cpu, r: Register16, v: u16)
    ensures
        cpu.with_reg16(r, v).reg16(r) == v,
{
}

/// Writing a 16-bit register leaves every other 16-bit register unchanged.
pub proof fn lemma_reg16_write_independent(cpu: Cpu, r1: Register16, r2: Register16, v: u16)
    requires
        r1 != r2,
    ensures
        cpu.with_reg16(r1, v).reg16(r2) == cpu.reg16(r2),
{
}

/// A byte read of any operand kind that is not 8-bit-meaningful yields an
/// absent value: a normal kind/width-mismatch outcome, never an error.
pub proof fn lemma_read8_mismatch_is_absent(
    cpu: Cpu,
    mem: Seq<u8>,
    cost: u32,
    op: OperandType,
    so: SegmentOverride,
)
    requires
        !(op is Immediate8),
        !(op is Relative8),
        !(op is Register8),
        !(op is AddressingMode),
    ensures
        spec_read_operand8(cpu, mem, cost, op, so) == Ok::<Option<(u8, u32)>, CpuError>(None),
{
}

/// A word read of any operand kind that is not 16-bit-meaningful yields an
/// absent value.
pub proof fn lemma_read16_mismatch_is_absent(
    cpu: Cpu,
    mem: Seq<u8>,
    cost: u32,
    op: OperandType,
    so: SegmentOverride,
)
    requires
        !(op is Immediate16),
        !(op is Relative16),
        !(op is Register16),
        !(op is AddressingMode),
    ensures
        spec_read_operand16(cpu, mem, cost, op, so) == Ok::<Option<(u16, u32)>, CpuError>(None),
{
}

/// A byte write through any operand kind that is not a writable 8-bit
/// target is a no-op: register state and memory are untouched, no bus
/// access happens, and the reported cost is zero.
pub proof fn lemma_write8_non_target_is_noop(
    cpu: Cpu,
    mem: Seq<u8>,
    cost: u32,
    op: OperandType,
    so: SegmentOverride,
    value: u8,
)
    requires
        !(op is Register8),
        !(op is AddressingMode),
    ensures
        spec_write_operand8(cpu, mem, cost, op, so, value) == ((cpu, mem, Ok::<u32, CpuError>(0u32))),
{
}

/// A word write through any operand kind that is not a writable 16-bit
/// target is a no-op.
pub proof fn lemma_write16_non_target_is_noop(
    cpu: Cpu,
    mem: Seq<u8>,
    cost: u32,
    op: OperandType,
    so: SegmentOverride,
    value: u16,
)
    requires
        !(op is Register16),
        !(op is AddressingMode),
    ensures
        spec_write_operand16(cpu, mem, cost, op, so, value) == ((cpu, mem, Ok::<u32, CpuError>(0u32))),
{
}

} // verus!
