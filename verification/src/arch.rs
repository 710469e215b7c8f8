//! Decoded-instruction vocabulary: register identities, segment overrides,
//! ModRM addressing modes and operand descriptors, with the spec-level
//! meaning of each addressing mode (default segment and effective offset).

use vstd::prelude::*;
use crate::cpu::Cpu;
use crate::addr::wrap16;

verus! {

/// Identity of an 8-bit general register (a high or low half of AX..DX).
#[derive(Clone, Copy, Debug, PartialEq, Eq, Structural)]
pub enum Register8 {
    AH,
    AL,
    BH,
    BL,
    CH,
    CL,
    DH,
    DL,
}

/// Identity of a 16-bit register. The four segment registers are ordinary
/// 16-bit storage at this layer; which instructions may load them is an
/// upstream concern.
#[derive(Clone, Copy, Debug, PartialEq, Eq, Structural)]
pub enum Register16 {
    AX,
    CX,
    DX,
    BX,
    SP,
    BP,
    SI,
    DI,
    ES,
    CS,
    SS,
    DS,
}

/// An instruction-prefix segment override. `NoOverride` means the addressing
/// mode's implicit default segment applies.
#[derive(Clone, Copy, Debug, PartialEq, Eq, Structural)]
pub enum SegmentOverride {
    NoOverride,
    SegmentES,
    SegmentCS,
    SegmentSS,
    SegmentDS,
}

/// A ModRM memory addressing form: the base/index combination crossed with
/// the displacement width. `RegisterMode` is the register-direct encoding,
/// which the decoder must normalize into `Register8`/`Register16` operands
/// before it reaches effective-address calculation.
#[derive(Clone, Copy, Debug, PartialEq, Eq, Structural)]
pub enum AddressingMode {
    BxSi,
    BxDi,
    BpSi,
    BpDi,
    Si,
    Di,
    Disp16(u16),
    Bx,
    BxSiDisp8(i8),
    BxDiDisp8(i8),
    BpSiDisp8(i8),
    BpDiDisp8(i8),
    SiDisp8(i8),
    DiDisp8(i8),
    BpDisp8(i8),
    BxDisp8(i8),
    BxSiDisp16(u16),
    BxDiDisp16(u16),
    BpSiDisp16(u16),
    BpDiDisp16(u16),
    SiDisp16(u16),
    DiDisp16(u16),
    BpDisp16(u16),
    BxDisp16(u16),
    RegisterMode,
}

/// What a decoded instruction operand refers to.
#[derive(Clone, Copy, Debug, PartialEq, Eq, Structural)]
pub enum OperandType {
    Immediate8(u8),
    Immediate16(u16),
    Relative8(i8),
    Relative16(i16),
    Offset8(u16),
    Offset16(u16),
    Register8(Register8),
    Register16(Register16),
    AddressingMode(AddressingMode),
    NearAddress(u16),
    FarAddress(u16, u16),
    NoOperand,
    InvalidOperand,
}

/// The implicit segment a memory addressing mode uses when no override
/// prefix is present.
#[derive(Clone, Copy, Debug, PartialEq, Eq, Structural)]
pub enum DefaultSegment {
    DataSegment,
    StackSegment,
}

/// Whether the mode names BP as a base register. BP-based modes default to
/// the stack segment; every other mode defaults to the data segment.
pub open spec fn mode_uses_bp(mode: AddressingMode) -> bool {
    match mode {
        AddressingMode::BpSi => true,
        AddressingMode::BpDi => true,
        AddressingMode::BpSiDisp8(_) => true,
        AddressingMode::BpDiDisp8(_) => true,
        AddressingMode::BpDisp8(_) => true,
        AddressingMode::BpSiDisp16(_) => true,
        AddressingMode::BpDiDisp16(_) => true,
        AddressingMode::BpDisp16(_) => true,
        _ => false,
    }
}

/// The sum of the base and index registers the mode names, before any
/// displacement and before 16-bit wraparound.
pub open spec fn mode_base(cpu: Cpu, mode: AddressingMode) -> int {
    match mode {
        AddressingMode::BxSi => cpu.bx + cpu.si,
        AddressingMode::BxDi => cpu.bx + cpu.di,
        AddressingMode::BpSi => cpu.bp + cpu.si,
        AddressingMode::BpDi => cpu.bp + cpu.di,
        AddressingMode::Si => cpu.si as int,
        AddressingMode::Di => cpu.di as int,
        AddressingMode::Disp16(_) => 0,
        AddressingMode::Bx => cpu.bx as int,
        AddressingMode::BxSiDisp8(_) => cpu.bx + cpu.si,
        AddressingMode::BxDiDisp8(_) => cpu.bx + cpu.di,
        AddressingMode::BpSiDisp8(_) => cpu.bp + cpu.si,
        AddressingMode::BpDiDisp8(_) => cpu.bp + cpu.di,
        AddressingMode::SiDisp8(_) => cpu.si as int,
        AddressingMode::DiDisp8(_) => cpu.di as int,
        AddressingMode::BpDisp8(_) => cpu.bp as int,
        AddressingMode::BxDisp8(_) => cpu.bx as int,
        AddressingMode::BxSiDisp16(_) => cpu.bx + cpu.si,
        AddressingMode::BxDiDisp16(_) => cpu.bx + cpu.di,
        AddressingMode::BpSiDisp16(_) => cpu.bp + cpu.si,
        AddressingMode::BpDiDisp16(_) => cpu.bp + cpu.di,
        AddressingMode::SiDisp16(_) => cpu.si as int,
        AddressingMode::DiDisp16(_) => cpu.di as int,
        AddressingMode::BpDisp16(_) => cpu.bp as int,
        AddressingMode::BxDisp16(_) => cpu.bx as int,
        AddressingMode::RegisterMode => 0,
    }
}

/// The mode's displacement as a signed mathematical value: zero for the
/// no-displacement forms, the sign-extended byte for the 8-bit forms, and
/// the raw word for the 16-bit forms (the direct-address form included).
pub open spec fn mode_disp(mode: AddressingMode) -> int {
    match mode {
        AddressingMode::Disp16(d) => d as int,
        AddressingMode::BxSiDisp8(d) => d as int,
        AddressingMode::BxDiDisp8(d) => d as int,
        AddressingMode::BpSiDisp8(d) => d as int,
        AddressingMode::BpDiDisp8(d) => d as int,
        AddressingMode::SiDisp8(d) => d as int,
        AddressingMode::DiDisp8(d) => d as int,
        AddressingMode::BpDisp8(d) => d as int,
        AddressingMode::BxDisp8(d) => d as int,
        AddressingMode::BxSiDisp16(d) => d as int,
        AddressingMode::BxDiDisp16(d) => d as int,
        AddressingMode::BpSiDisp16(d) => d as int,
        AddressingMode::BpDiDisp16(d) => d as int,
        AddressingMode::SiDisp16(d) => d as int,
        AddressingMode::DiDisp16(d) => d as int,
        AddressingMode::BpDisp16(d) => d as int,
        AddressingMode::BxDisp16(d) => d as int,
        _ => 0,
    }
}

/// The effective offset of a memory addressing mode: base plus index plus
/// displacement, wrapped to 16 bits.
pub open spec fn ea_offset(cpu: Cpu, mode: AddressingMode) -> u16 {
    wrap16(mode_base(cpu, mode) + mode_disp(mode))
}

/// The default segment kind of a memory addressing mode: StackSegment for
/// every BP-based form, DataSegment for all others (the no-base direct form
/// and pure BX included).
pub open spec fn mode_default_segment(mode: AddressingMode) -> DefaultSegment {
    if mode_uses_bp(mode) {
        DefaultSegment::StackSegment
    } else {
        DefaultSegment::DataSegment
    }
}

/// The segment value in force for a memory access: the override's register
/// when one is given, otherwise SS for a stack-segment default and DS for a
/// data-segment default. An override always replaces the default whole.
pub open spec fn resolve_segment(cpu: Cpu, default_kind: DefaultSegment, so: SegmentOverride) -> u16 {
    match so {
        SegmentOverride::NoOverride => match default_kind {
            DefaultSegment::DataSegment => cpu.ds,
            DefaultSegment::StackSegment => cpu.ss,
        },
        SegmentOverride::SegmentES => cpu.es,
        SegmentOverride::SegmentCS => cpu.cs,
        SegmentOverride::SegmentSS => cpu.ss,
        SegmentOverride::SegmentDS => cpu.ds,
    }
}

/// The segment a memory addressing mode resolves to under an override.
pub open spec fn ea_segment(cpu: Cpu, mode: AddressingMode, so: SegmentOverride) -> u16 {
    resolve_segment(cpu, mode_default_segment(mode), so)
}

} // verus!
