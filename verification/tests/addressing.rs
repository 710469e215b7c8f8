use ea86::arch::{AddressingMode, SegmentOverride};
use ea86::arch::Register16;
use ea86::addr::get_linear_address;
use ea86::cpu::Cpu;
use ea86::cpu_addressing::CpuError;

fn cpu_with_segments() -> Cpu {
    let mut cpu = Cpu::new();
    cpu.set_register16(Register16::ES, 0x4000);
    cpu.set_register16(Register16::CS, 0x5000);
    cpu.set_register16(Register16::SS, 0x2000);
    cpu.set_register16(Register16::DS, 0x3000);
    cpu
}

#[test]
fn offset_wraps_at_16_bits() {
    let mut cpu = cpu_with_segments();
    cpu.set_register16(Register16::BX, 0xFFFF);
    cpu.set_register16(Register16::SI, 0x0001);
    let r = cpu.calc_effective_address(AddressingMode::BxSi, SegmentOverride::NoOverride);
    assert_eq!(r, Ok((0x3000, 0x0000)));
}

#[test]
fn negative_displacement_wraps() {
    let mut cpu = cpu_with_segments();
    cpu.set_register16(Register16::BP, 0x1000);
    let r = cpu.calc_effective_address(AddressingMode::BpDisp8(-4), SegmentOverride::NoOverride);
    assert_eq!(r, Ok((0x2000, 0x0FFC)));

    cpu.set_register16(Register16::SI, 0x0002);
    let r = cpu.calc_effective_address(AddressingMode::SiDisp8(-5), SegmentOverride::NoOverride);
    assert_eq!(r, Ok((0x3000, 0xFFFD)));
}

#[test]
fn bp_modes_default_to_stack_segment() {
    let mut cpu = cpu_with_segments();
    cpu.set_register16(Register16::BP, 0x0100);
    cpu.set_register16(Register16::SI, 0x0020);
    cpu.set_register16(Register16::DI, 0x0003);
    let modes = [
        AddressingMode::BpSi,
        AddressingMode::BpDi,
        AddressingMode::BpSiDisp8(1),
        AddressingMode::BpDiDisp8(1),
        AddressingMode::BpDisp8(1),
        AddressingMode::BpSiDisp16(1),
        AddressingMode::BpDiDisp16(1),
        AddressingMode::BpDisp16(1),
    ];
    for mode in modes {
        let (segment, _) = cpu
            .calc_effective_address(mode, SegmentOverride::NoOverride)
            .unwrap();
        assert_eq!(segment, 0x2000);
    }
}

#[test]
fn bp_modes_accept_every_override() {
    let mut cpu = cpu_with_segments();
    cpu.set_register16(Register16::BP, 0x0100);
    let cases = [
        (SegmentOverride::SegmentES, 0x4000),
        (SegmentOverride::SegmentCS, 0x5000),
        (SegmentOverride::SegmentSS, 0x2000),
        (SegmentOverride::SegmentDS, 0x3000),
    ];
    for (so, expected) in cases {
        let (segment, offset) = cpu.calc_effective_address(AddressingMode::BpDisp8(2), so).unwrap();
        assert_eq!(segment, expected);
        assert_eq!(offset, 0x0102);
    }
}

#[test]
fn non_bp_modes_default_to_data_segment() {
    let mut cpu = cpu_with_segments();
    cpu.set_register16(Register16::BX, 0x0010);
    cpu.set_register16(Register16::SI, 0x0020);
    cpu.set_register16(Register16::DI, 0x0030);
    let modes = [
        AddressingMode::BxSi,
        AddressingMode::BxDi,
        AddressingMode::Si,
        AddressingMode::Di,
        AddressingMode::Disp16(0x0040),
        AddressingMode::Bx,
        AddressingMode::BxSiDisp8(1),
        AddressingMode::BxDiDisp8(1),
        AddressingMode::SiDisp8(1),
        AddressingMode::DiDisp8(1),
        AddressingMode::BxDisp8(1),
        AddressingMode::BxSiDisp16(1),
        AddressingMode::BxDiDisp16(1),
        AddressingMode::SiDisp16(1),
        AddressingMode::DiDisp16(1),
        AddressingMode::BxDisp16(1),
    ];
    for mode in modes {
        let (segment, _) = cpu
            .calc_effective_address(mode, SegmentOverride::NoOverride)
            .unwrap();
        assert_eq!(segment, 0x3000);
    }
}

#[test]
fn direct_address_form_uses_raw_displacement() {
    let cpu = cpu_with_segments();
    let r = cpu.calc_effective_address(AddressingMode::Disp16(0xBEEF), SegmentOverride::NoOverride);
    assert_eq!(r, Ok((0x3000, 0xBEEF)));
}

#[test]
fn linear_address_folds_and_wraps() {
    assert_eq!(get_linear_address(0xFFFF, 0x0010), 0x00000);
    assert_eq!(get_linear_address(0x0000, 0x0010), 0x00010);
    assert_eq!(get_linear_address(0x2000, 0x1004), 0x21004);
}

#[test]
fn bp_disp8_scenario() {
    let mut cpu = cpu_with_segments();
    cpu.set_register16(Register16::BP, 0x1000);
    let (segment, offset) = cpu
        .calc_effective_address(AddressingMode::BpDisp8(4), SegmentOverride::NoOverride)
        .unwrap();
    assert_eq!(segment, 0x2000);
    assert_eq!(offset, 0x1004);
    assert_eq!(get_linear_address(segment, offset), 0x2000 * 16 + 0x1004);

    let (segment, offset) = cpu
        .calc_effective_address(AddressingMode::BpDisp8(4), SegmentOverride::SegmentDS)
        .unwrap();
    assert_eq!(segment, 0x3000);
    assert_eq!(offset, 0x1004);
}

#[test]
fn bx_si_es_override_scenario() {
    let mut cpu = cpu_with_segments();
    cpu.set_register16(Register16::BX, 0x0200);
    cpu.set_register16(Register16::SI, 0x0050);
    let r = cpu.calc_effective_address(AddressingMode::BxSi, SegmentOverride::SegmentES);
    assert_eq!(r, Ok((0x4000, 0x0250)));
}

#[test]
fn register_mode_is_invariant_violation() {
    let cpu = cpu_with_segments();
    let r = cpu.calc_effective_address(AddressingMode::RegisterMode, SegmentOverride::NoOverride);
    assert_eq!(r, Err(CpuError::InvariantViolation(AddressingMode::RegisterMode)));
    assert!(Cpu::is_register_mode(AddressingMode::RegisterMode));
    assert!(!Cpu::is_register_mode(AddressingMode::BxSi));
}
