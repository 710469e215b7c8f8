use ea86::arch::{Register8, Register16};
use ea86::cpu::Cpu;

#[test]
fn new_cpu_is_zeroed() {
    let cpu = Cpu::new();
    let regs16 = [
        Register16::AX,
        Register16::CX,
        Register16::DX,
        Register16::BX,
        Register16::SP,
        Register16::BP,
        Register16::SI,
        Register16::DI,
        Register16::ES,
        Register16::CS,
        Register16::SS,
        Register16::DS,
    ];
    for r in regs16 {
        assert_eq!(cpu.get_register16(r), 0);
    }
    let regs8 = [
        Register8::AH,
        Register8::AL,
        Register8::BH,
        Register8::BL,
        Register8::CH,
        Register8::CL,
        Register8::DH,
        Register8::DL,
    ];
    for r in regs8 {
        assert_eq!(cpu.get_register8(r), 0);
    }
}

#[test]
fn al_round_trip() {
    let mut cpu = Cpu::new();
    cpu.set_register8(Register8::AL, 0x5A);
    assert_eq!(cpu.get_register8(Register8::AL), 0x5A);
}

#[test]
fn high_and_low_halves_are_independent() {
    let mut cpu = Cpu::new();
    cpu.set_register16(Register16::AX, 0x1234);
    assert_eq!(cpu.get_register8(Register8::AH), 0x12);
    assert_eq!(cpu.get_register8(Register8::AL), 0x34);

    cpu.set_register8(Register8::AH, 0xAB);
    assert_eq!(cpu.get_register8(Register8::AL), 0x34);
    assert_eq!(cpu.get_register16(Register16::AX), 0xAB34);

    cpu.set_register8(Register8::AL, 0xCD);
    assert_eq!(cpu.get_register8(Register8::AH), 0xAB);
    assert_eq!(cpu.get_register16(Register16::AX), 0xABCD);
}

#[test]
fn every_half_register_maps_to_its_backing_word() {
    let mut cpu = Cpu::new();
    cpu.set_register8(Register8::BH, 0x11);
    cpu.set_register8(Register8::BL, 0x22);
    cpu.set_register8(Register8::CH, 0x33);
    cpu.set_register8(Register8::CL, 0x44);
    cpu.set_register8(Register8::DH, 0x55);
    cpu.set_register8(Register8::DL, 0x66);
    assert_eq!(cpu.get_register16(Register16::BX), 0x1122);
    assert_eq!(cpu.get_register16(Register16::CX), 0x3344);
    assert_eq!(cpu.get_register16(Register16::DX), 0x5566);
}

#[test]
fn reg16_round_trips() {
    let cases = [
        (Register16::AX, 0x0102),
        (Register16::CX, 0x0304),
        (Register16::DX, 0x0506),
        (Register16::BX, 0x0708),
        (Register16::SP, 0x090A),
        (Register16::BP, 0x0B0C),
        (Register16::SI, 0x0D0E),
        (Register16::DI, 0x0F10),
        (Register16::ES, 0x1112),
        (Register16::CS, 0x1314),
        (Register16::SS, 0x1516),
        (Register16::DS, 0x1718),
    ];
    let mut cpu = Cpu::new();
    for (r, v) in cases {
        cpu.set_register16(r, v);
    }
    for (r, v) in cases {
        assert_eq!(cpu.get_register16(r), v);
    }
}
