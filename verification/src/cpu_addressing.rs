//! Effective-address calculation and the operand accessors: the four
//! read/write entry points that resolve a decoded operand to a register,
//! an immediate, or a segment:offset memory location, and perform the
//! access, surfacing the bus's per-access timing cost.

use vstd::prelude::*;
use crate::arch::{
    AddressingMode, DefaultSegment, OperandType, Register8, Register16, SegmentOverride,
    ea_offset, ea_segment, mode_default_segment, resolve_segment,
};
use crate::addr::{
    add_wrap16, add_wrap16_disp8, get_linear_address, lemma_wrap16_compose, lemma_wrap16_id,
    spec_linear_address, to_u8_bits, to_u16_bits, u8_bits, u16_bits, wrap16,
};
use crate::bus::{Bus, BusError, word_of};
use crate::cpu::Cpu;

verus! {

/// An operand-access failure. Kind/width mismatch is not one of these: it is
/// a normal outcome, reported as an absent value.
#[derive(Clone, Copy, Debug, PartialEq, Eq, Structural)]
pub enum CpuError {
    /// A decoder-contract violation: a register-direct addressing mode
    /// reached effective-address calculation. Unrecoverable; the offending
    /// mode is carried as the diagnostic.
    InvariantViolation(AddressingMode),
    /// A failed bus access, propagated so the caller can raise a bus-error
    /// trap instead of treating memory as infallible.
    Bus(BusError),
}

/// What `read_operand8` returns: the byte an operand denotes together with
/// the bus access cost (zero when no bus access is made), an absent value
/// for every operand kind that is not 8-bit-meaningful, or an error.
pub open spec fn spec_read_operand8(
    cpu: Cpu,
    mem: Seq<u8>,
    cost: u32,
    op: OperandType,
    so: SegmentOverride,
) -> Result<Option<(u8, u32)>, CpuError> {
    match op {
        OperandType::Immediate8(v) => Ok(Some((v, 0u32))),
        OperandType::Immediate16(_) => Ok(None),
        OperandType::Relative8(v) => Ok(Some((u8_bits(v), 0u32))),
        OperandType::Relative16(_) => Ok(None),
        OperandType::Offset8(_) => Ok(None),
        OperandType::Offset16(_) => Ok(None),
        OperandType::Register8(r) => Ok(Some((cpu.reg8(r), 0u32))),
        OperandType::Register16(_) => Ok(None),
        OperandType::AddressingMode(mode) => if mode is RegisterMode {
            Err(CpuError::InvariantViolation(mode))
        } else {
            let lin = spec_linear_address(ea_segment(cpu, mode, so), ea_offset(cpu, mode));
            if lin < mem.len() {
                Ok(Some((mem[lin], cost)))
            } else {
                Err(CpuError::Bus(BusError::OutOfRange))
            }
        },
        OperandType::NearAddress(_) => Ok(None),
        OperandType::FarAddress(_, _) => Ok(None),
        OperandType::NoOperand => Ok(None),
        OperandType::InvalidOperand => Ok(None),
    }
}

/// What `read_operand16` returns, symmetric to `spec_read_operand8` at
/// 16-bit width; memory reads are little-endian words.
pub open spec fn spec_read_operand16(
    cpu: Cpu,
    mem: Seq<u8>,
    cost: u32,
    op: OperandType,
    so: SegmentOverride,
) -> Result<Option<(u16, u32)>, CpuError> {
    match op {
        OperandType::Immediate8(_) => Ok(None),
        OperandType::Immediate16(v) => Ok(Some((v, 0u32))),
        OperandType::Relative8(_) => Ok(None),
        OperandType::Relative16(v) => Ok(Some((u16_bits(v), 0u32))),
        OperandType::Offset8(_) => Ok(None),
        OperandType::Offset16(_) => Ok(None),
        OperandType::Register8(_) => Ok(None),
        OperandType::Register16(r) => Ok(Some((cpu.reg16(r), 0u32))),
        OperandType::AddressingMode(mode) => if mode is RegisterMode {
            Err(CpuError::InvariantViolation(mode))
        } else {
            let lin = spec_linear_address(ea_segment(cpu, mode, so), ea_offset(cpu, mode));
            if lin + 1 < mem.len() {
                Ok(Some((word_of(mem[lin], mem[lin + 1]), cost)))
            } else {
                Err(CpuError::Bus(BusError::OutOfRange))
            }
        },
        OperandType::NearAddress(_) => Ok(None),
        OperandType::FarAddress(_, _) => Ok(None),
        OperandType::NoOperand => Ok(None),
        OperandType::InvalidOperand => Ok(None),
    }
}

/// What `write_operand8` does: the register file and memory after the write,
/// and its result — the bus access cost on success (zero when no bus access
/// is made; a silent no-op for every kind that is not a writable 8-bit
/// target), or an error.
pub open spec fn spec_write_operand8(
    cpu: Cpu,
    mem: Seq<u8>,
    cost: u32,
    op: OperandType,
    so: SegmentOverride,
    value: u8,
) -> (Cpu, Seq<u8>, Result<u32, CpuError>) {
    match op {
        OperandType::Register8(r) => (cpu.with_reg8(r, value), mem, Ok(0u32)),
        OperandType::AddressingMode(mode) => if mode is RegisterMode {
            (cpu, mem, Err(CpuError::InvariantViolation(mode)))
        } else {
            let lin = spec_linear_address(ea_segment(cpu, mode, so), ea_offset(cpu, mode));
            if lin < mem.len() {
                (cpu, mem.update(lin, value), Ok(cost))
            } else {
                (cpu, mem, Err(CpuError::Bus(BusError::OutOfRange)))
            }
        },
        _ => (cpu, mem, Ok(0u32)),
    }
}

/// What `write_operand16` does, symmetric to `spec_write_operand8` at
/// 16-bit width. All twelve 16-bit register identities are writable here,
/// the segment registers included; memory writes are little-endian words.
pub open spec fn spec_write_operand16(
    cpu: Cpu,
    mem: Seq<u8>,
    cost: u32,
    op: OperandType,
    so: SegmentOverride,
    value: u16,
) -> (Cpu, Seq<u8>, Result<u32, CpuError>) {
    match op {
        OperandType::Register16(r) => (cpu.with_reg16(r, value), mem, Ok(0u32)),
        OperandType::AddressingMode(mode) => if mode is RegisterMode {
            (cpu, mem, Err(CpuError::InvariantViolation(mode)))
        } else {
            let lin = spec_linear_address(ea_segment(cpu, mode, so), ea_offset(cpu, mode));
            if lin + 1 < mem.len() {
                (
                    cpu,
                    mem.update(lin, (value % 0x100) as u8).update(lin + 1, (value / 0x100) as u8),
                    Ok(cost),
                )
            } else {
                (cpu, mem, Err(CpuError::Bus(BusError::OutOfRange)))
            }
        },
        _ => (cpu, mem, Ok(0u32)),
    }
}

impl Cpu {
    /// Whether a decoded addressing mode is the register-direct form, which
    /// must never reach effective-address calculation.
    pub fn is_register_mode(mode: AddressingMode) -> (r: bool)
        ensures
            r == (mode is RegisterMode),
    {
        match mode {
            AddressingMode::RegisterMode => true,
            _ => false,
        }
    }

    /// The segment resolver: yields the override's register when a prefix is
    /// present, else the register the default kind names.
    pub fn resolve_segment_value(&self, default_kind: DefaultSegment, so: SegmentOverride) -> (r:
        u16)
        ensures
            r == resolve_segment(*self, default_kind, so),
    {
        match so {
            SegmentOverride::NoOverride => match default_kind {
                DefaultSegment::DataSegment => self.ds,
                DefaultSegment::StackSegment => self.ss,
            },
            SegmentOverride::SegmentES => self.es,
            SegmentOverride::SegmentCS => self.cs,
            SegmentOverride::SegmentSS => self.ss,
            SegmentOverride::SegmentDS => self.ds,
        }
    }

    /// The effective-address calculator: dispatches on the addressing mode,
    /// sums its base register(s) and displacement with 16-bit wraparound,
    /// and resolves the segment (BP-based modes default to SS, all others
    /// to DS, an override always winning). Handing it the register-direct
    /// mode is a decoder-contract violation and yields the invariant error.
    pub fn calc_effective_address(&self, mode: AddressingMode, segment: SegmentOverride) -> (r:
        Result<(u16, u16), CpuError>)
        ensures
            mode is RegisterMode ==> r == Err::<(u16, u16), CpuError>(
                CpuError::InvariantViolation(mode),
            ),
            !(mode is RegisterMode) ==> r == Ok::<(u16, u16), CpuError>(
                (ea_segment(*self, mode, segment), ea_offset(*self, mode)),
            ),
    {
        if let AddressingMode::RegisterMode = mode {
            return Err(CpuError::InvariantViolation(mode));
        }
        let seg: u16 = if Self::mode_uses_bp_exec(mode) {
            self.resolve_segment_value(DefaultSegment::StackSegment, segment)
        } else {
            self.resolve_segment_value(DefaultSegment::DataSegment, segment)
        };
        let offset: u16 = match mode {
            AddressingMode::BxSi => add_wrap16(self.bx, self.si),
            AddressingMode::BxDi => add_wrap16(self.bx, self.di),
            AddressingMode::BpSi => add_wrap16(self.bp, self.si),
            AddressingMode::BpDi => add_wrap16(self.bp, self.di),
            AddressingMode::Si => {
                proof {
                    lemma_wrap16_id(self.si);
                }
                self.si
            },
            AddressingMode::Di => {
                proof {
                    lemma_wrap16_id(self.di);
                }
                self.di
            },
            AddressingMode::Disp16(d) => {
                proof {
                    lemma_wrap16_id(d);
                }
                d
            },
            AddressingMode::Bx => {
                proof {
                    lemma_wrap16_id(self.bx);
                }
                self.bx
            },
            AddressingMode::BxSiDisp8(d) => {
                proof {
                    lemma_wrap16_compose(self.bx + self.si, d as int);
                }
                add_wrap16_disp8(add_wrap16(self.bx, self.si), d)
            },
            AddressingMode::BxDiDisp8(d) => {
                proof {
                    lemma_wrap16_compose(self.bx + self.di, d as int);
                }
                add_wrap16_disp8(add_wrap16(self.bx, self.di), d)
            },
            AddressingMode::BpSiDisp8(d) => {
                proof {
                    lemma_wrap16_compose(self.bp + self.si, d as int);
                }
                add_wrap16_disp8(add_wrap16(self.bp, self.si), d)
            },
            AddressingMode::BpDiDisp8(d) => {
                proof {
                    lemma_wrap16_compose(self.bp + self.di, d as int);
                }
                add_wrap16_disp8(add_wrap16(self.bp, self.di), d)
            },
            AddressingMode::SiDisp8(d) => add_wrap16_disp8(self.si, d),
            AddressingMode::DiDisp8(d) => add_wrap16_disp8(self.di, d),
            AddressingMode::BpDisp8(d) => add_wrap16_disp8(self.bp, d),
            AddressingMode::BxDisp8(d) => add_wrap16_disp8(self.bx, d),
            AddressingMode::BxSiDisp16(d) => {
                proof {
                    lemma_wrap16_compose(self.bx + self.si, d as int);
                }
                add_wrap16(add_wrap16(self.bx, self.si), d)
            },
            AddressingMode::BxDiDisp16(d) => {
                proof {
                    lemma_wrap16_compose(self.bx + self.di, d as int);
                }
                add_wrap16(add_wrap16(self.bx, self.di), d)
            },
            AddressingMode::BpSiDisp16(d) => {
                proof {
                    lemma_wrap16_compose(self.bp + self.si, d as int);
                }
                add_wrap16(add_wrap16(self.bp, self.si), d)
            },
            AddressingMode::BpDiDisp16(d) => {
                proof {
                    lemma_wrap16_compose(self.bp + self.di, d as int);
                }
                add_wrap16(add_wrap16(self.bp, self.di), d)
            },
            AddressingMode::SiDisp16(d) => add_wrap16(self.si, d),
            AddressingMode::DiDisp16(d) => add_wrap16(self.di, d),
            AddressingMode::BpDisp16(d) => add_wrap16(self.bp, d),
            AddressingMode::BxDisp16(d) => add_wrap16(self.bx, d),
            AddressingMode::RegisterMode => {
                return Err(CpuError::InvariantViolation(mode));
            },
        };
        Ok((seg, offset))
    }

    /// Exec twin of `mode_uses_bp`.
    fn mode_uses_bp_exec(mode: AddressingMode) -> (r: bool)
        ensures
            r == crate::arch::mode_uses_bp(mode),
    {
        match mode {
            AddressingMode::BpSi => true,
            AddressingMode::BpDi => true,
            AddressingMode::BpSiDisp8(_) => true,
            AddressingMode::BpDiDisp8(_) => true,
            AddressingMode::BpDisp8(_) => true,
            AddressingMode::BpSiDisp16(_) => true,
            AddressingMode::BpDiDisp16(_) => true,
            AddressingMode::BpDisp16(_) => true,
            _ => false,
        }
    }

    /// Reads an operand as a byte. Immediates and sign-preserving relative
    /// bytes come back directly, 8-bit registers from the register file,
    /// and memory operands through EA calculation, linear-address folding
    /// and a single bus byte read whose timing cost is surfaced. Every kind
    /// that is not 8-bit-meaningful yields an absent value.
    pub fn read_operand8(
        &mut self,
        bus: &mut Bus,
        operand: OperandType,
        seg_override: SegmentOverride,
    ) -> (r: Result<Option<(u8, u32)>, CpuError>)
        ensures
            *final(self) == *old(self),
            final(bus).mem@ == old(bus).mem@,
            final(bus).access_cost == old(bus).access_cost,
            r == spec_read_operand8(
                *old(self),
                old(bus).mem@,
                old(bus).access_cost,
                operand,
                seg_override,
            ),
    {
        match operand {
            OperandType::Immediate8(imm8) => Ok(Some((imm8, 0))),
            OperandType::Immediate16(_) => Ok(None),
            OperandType::Relative8(rel8) => Ok(Some((to_u8_bits(rel8), 0))),
            OperandType::Relative16(_) => Ok(None),
            OperandType::Offset8(_) => Ok(None),
            OperandType::Offset16(_) => Ok(None),
            OperandType::Register8(reg8) => Ok(Some((self.get_register8(reg8), 0))),
            OperandType::Register16(_) => Ok(None),
            OperandType::AddressingMode(mode) => {
                match self.calc_effective_address(mode, seg_override) {
                    Ok((segment, offset)) => {
                        let flat_addr = get_linear_address(segment, offset);
                        match bus.read_u8(flat_addr as usize) {
                            Ok((byte, read_cost)) => Ok(Some((byte, read_cost))),
                            Err(e) => Err(CpuError::Bus(e)),
                        }
                    },
                    Err(e) => Err(e),
                }
            },
            OperandType::NearAddress(_) => Ok(None),
            OperandType::FarAddress(_, _) => Ok(None),
            OperandType::NoOperand => Ok(None),
            OperandType::InvalidOperand => Ok(None),
        }
    }

    /// Reads an operand as a 16-bit word, symmetric to `read_operand8`.
    /// All twelve 16-bit register identities are legal read targets; memory
    /// operands read a little-endian word through the bus.
    pub fn read_operand16(
        &mut self,
        bus: &mut Bus,
        operand: OperandType,
        seg_override: SegmentOverride,
    ) -> (r: Result<Option<(u16, u32)>, CpuError>)
        ensures
            *final(self) == *old(self),
            final(bus).mem@ == old(bus).mem@,
            final(bus).access_cost == old(bus).access_cost,
            r == spec_read_operand16(
                *old(self),
                old(bus).mem@,
                old(bus).access_cost,
                operand,
                seg_override,
            ),
    {
        match operand {
            OperandType::Immediate8(_) => Ok(None),
            OperandType::Immediate16(imm16) => Ok(Some((imm16, 0))),
            OperandType::Relative8(_) => Ok(None),
            OperandType::Relative16(rel16) => Ok(Some((to_u16_bits(rel16), 0))),
            OperandType::Offset8(_) => Ok(None),
            OperandType::Offset16(_) => Ok(None),
            OperandType::Register8(_) => Ok(None),
            OperandType::Register16(reg16) => Ok(Some((self.get_register16(reg16), 0))),
            OperandType::AddressingMode(mode) => {
                match self.calc_effective_address(mode, seg_override) {
                    Ok((segment, offset)) => {
                        let flat_addr = get_linear_address(segment, offset);
                        match bus.read_u16(flat_addr as usize) {
                            Ok((word, read_cost)) => Ok(Some((word, read_cost))),
                            Err(e) => Err(CpuError::Bus(e)),
                        }
                    },
                    Err(e) => Err(e),
                }
            },
            OperandType::NearAddress(_) => Ok(None),
            OperandType::FarAddress(_, _) => Ok(None),
            OperandType::NoOperand => Ok(None),
            OperandType::InvalidOperand => Ok(None),
        }
    }

    /// Writes a byte through an operand. 8-bit register targets mutate the
    /// register file by identity; memory targets go through EA calculation
    /// and a bus byte write whose timing cost is surfaced. Every other kind
    /// describes instruction encoding, not a storable location, so the
    /// write is a silent no-op with zero cost.
    pub fn write_operand8(
        &mut self,
        bus: &mut Bus,
        operand: OperandType,
        seg_override: SegmentOverride,
        value: u8,
    ) -> (r: Result<u32, CpuError>)
        ensures
            final(bus).access_cost == old(bus).access_cost,
            ({
                let (cpu2, mem2, res) = spec_write_operand8(
                    *old(self),
                    old(bus).mem@,
                    old(bus).access_cost,
                    operand,
                    seg_override,
                    value,
                );
                &&& *final(self) == cpu2
                &&& final(bus).mem@ == mem2
                &&& r == res
            }),
    {
        match operand {
            OperandType::Immediate8(_) => Ok(0),
            OperandType::Immediate16(_) => Ok(0),
            OperandType::Relative8(_) => Ok(0),
            OperandType::Relative16(_) => Ok(0),
            OperandType::Offset8(_) => Ok(0),
            OperandType::Offset16(_) => Ok(0),
            OperandType::Register8(reg8) => {
                self.set_register8(reg8, value);
                Ok(0)
            },
            OperandType::Register16(_) => Ok(0),
            OperandType::AddressingMode(mode) => {
                match self.calc_effective_address(mode, seg_override) {
                    Ok((segment, offset)) => {
                        let flat_addr = get_linear_address(segment, offset);
                        match bus.write_u8(flat_addr as usize, value) {
                            Ok(write_cost) => Ok(write_cost),
                            Err(e) => Err(CpuError::Bus(e)),
                        }
                    },
                    Err(e) => Err(e),
                }
            },
            OperandType::NearAddress(_) => Ok(0),
            OperandType::FarAddress(_, _) => Ok(0),
            OperandType::NoOperand => Ok(0),
            OperandType::InvalidOperand => Ok(0),
        }
    }

    /// Writes a 16-bit word through an operand, symmetric to
    /// `write_operand8`. All twelve 16-bit register identities are legal
    /// targets here, the segment registers included: which instructions may
    /// load a segment register is an upstream decoder/execution concern.
    pub fn write_operand16(
        &mut self,
        bus: &mut Bus,
        operand: OperandType,
        seg_override: SegmentOverride,
        value: u16,
    ) -> (r: Result<u32, CpuError>)
        ensures
            final(bus).access_cost == old(bus).access_cost,
            ({
                let (cpu2, mem2, res) = spec_write_operand16(
                    *old(self),
                    old(bus).mem@,
                    old(bus).access_cost,
                    operand,
                    seg_override,
                    value,
                );
                &&& *final(self) == cpu2
                &&& final(bus).mem@ == mem2
                &&& r == res
            }),
    {
        match operand {
            OperandType::Immediate8(_) => Ok(0),
            OperandType::Immediate16(_) => Ok(0),
            OperandType::Relative8(_) => Ok(0),
            OperandType::Relative16(_) => Ok(0),
            OperandType::Offset8(_) => Ok(0),
            OperandType::Offset16(_) => Ok(0),
            OperandType::Register8(_) => Ok(0),
            OperandType::Register16(reg16) => {
                self.set_register16(reg16, value);
                Ok(0)
            },
            OperandType::AddressingMode(mode) => {
                match self.calc_effective_address(mode, seg_override) {
                    Ok((segment, offset)) => {
                        let flat_addr = get_linear_address(segment, offset);
                        match bus.write_u16(flat_addr as usize, value) {
                            Ok(write_cost) => Ok(write_cost),
                            Err(e) => Err(CpuError::Bus(e)),
                        }
                    },
                    Err(e) => Err(e),
                }
            },
            OperandType::NearAddress(_) => Ok(0),
            OperandType::FarAddress(_, _) => Ok(0),
            OperandType::NoOperand => Ok(0),
            OperandType::InvalidOperand => Ok(0),
        }
    }
}

} // verus!
