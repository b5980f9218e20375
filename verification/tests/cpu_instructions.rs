use greenstone::nes::cpu::opcode::{AddressingMode, Mnemonic, Opcode};
use greenstone::nes::cpu::CPU;

/// A register of the CPU that a case sets before the instruction or checks
/// after it.
#[derive(Clone, Copy, Debug)]
enum Reg {
    A,
    X,
    Y,
    Status,
    StackPointer,
    ProgramCounter,
    ClockCounter,
}

fn set(cpu: &mut CPU, reg: Reg, value: u64) {
    match reg {
        Reg::A => cpu.a = value as u8,
        Reg::X => cpu.x = value as u8,
        Reg::Y => cpu.y = value as u8,
        Reg::Status => cpu.status = value as u8,
        Reg::StackPointer => cpu.stack_pointer = value as u8,
        Reg::ProgramCounter => cpu.program_counter = value as u16,
        Reg::ClockCounter => cpu.clock_counter = value,
    }
}

/// Runs one instruction the way the emulator's own test cases do: the
/// opcode for `mnemonic` in `mode` followed by `bytes` is loaded at $0000,
/// the CPU reset, the registers in `start` set, `builder` run; then one
/// instruction is processed and the status mask, the registers in
/// `expected`, the cycle count and the memory against `returned` checked.
fn check(
    mnemonic: Mnemonic,
    mode: AddressingMode,
    bytes: &[u8],
    start: &[(Reg, u64)],
    returned: &[u8],
    expected: &[(Reg, u64)],
    builder: Option<fn(&mut CPU)>,
) {
    let opcode: Opcode = Opcode::find(mnemonic, mode)
        .unwrap_or_else(|| panic!("{:?} doesn't work with addressing mode {:?}", mnemonic, mode));
    let mut cpu = CPU::new();
    let mut program = bytes.to_vec();
    program.insert(0, opcode.code);
    cpu.load(program);
    cpu.reset();
    for &(reg, value) in start {
        set(&mut cpu, reg, value);
    }
    let start_cc = cpu.clock_counter;
    let start_status = cpu.status;
    if let Some(build) = builder {
        build(&mut cpu);
    }
    cpu.process_instruction();
    let violations = (cpu.status ^ start_status) & !opcode.status_mask;
    assert!(
        violations == 0,
        "opcode {:#04X} violated the status mask {:#010b}: start {:#010b}, actual {:#010b}",
        opcode.code,
        opcode.status_mask,
        start_status,
        cpu.status
    );
    let mut expected_cycles = opcode.cycles;
    for &(reg, value) in expected {
        match reg {
            Reg::ClockCounter => expected_cycles = value as u8,
            Reg::ProgramCounter => assert_eq!(
                cpu.program_counter as u64, value,
                "opcode {:#04X}: program counter",
                opcode.code
            ),
            Reg::A => assert_eq!(cpu.a, value as u8, "opcode {:#04X}: a", opcode.code),
            Reg::X => assert_eq!(cpu.x, value as u8, "opcode {:#04X}: x", opcode.code),
            Reg::Y => assert_eq!(cpu.y, value as u8, "opcode {:#04X}: y", opcode.code),
            Reg::Status => {
                assert_eq!(cpu.status, value as u8, "opcode {:#04X}: status", opcode.code)
            }
            Reg::StackPointer => assert_eq!(
                cpu.stack_pointer, value as u8,
                "opcode {:#04X}: stack pointer",
                opcode.code
            ),
        }
    }
    let actual_cycles = (cpu.clock_counter - start_cc) as u8;
    assert_eq!(expected_cycles, actual_cycles, "opcode {:#04X}: cycles", opcode.code);
    let mut expected_memory = returned.to_vec();
    expected_memory.insert(0, opcode.code);
    for (i, &byte) in expected_memory.iter().enumerate() {
        let actual = cpu.unclocked_read_u8(i as u16);
        assert_eq!(actual, byte, "opcode {:#04X}: memory at {:#06X}", opcode.code, i);
    }
}

use AddressingMode::{
    Absolute, AbsoluteX, AbsoluteY, Immediate, Implied, Indirect, IndirectX, IndirectY, Relative,
    ZeroPage, ZeroPageX, ZeroPageY,
};
use Mnemonic as M;
use Reg::{ClockCounter, ProgramCounter, StackPointer, Status, A, X, Y};

#[test]
fn test_adc() {
    check(M::Adc, Immediate, &[3], &[(A, 2), (Status, 1)], &[], &[(A, 6)], None);
    check(M::Adc, Immediate, &[255], &[(A, 1), (Status, 0x00)], &[], &[(A, 0x00), (Status, 0b00000011)], None);
    check(M::Adc, Immediate, &[127], &[(A, 1), (Status, 0x00)], &[], &[(A, 128), (Status, 0b11000000)], None);
    check(M::Adc, Immediate, &[200], &[(A, 100)], &[], &[(A, 44)], None);
    check(M::Adc, ZeroPage, &[0x02, 0x90], &[(A, 1)], &[], &[(A, 0x91)], None);
    check(M::Adc, ZeroPageX, &[0x02, 0x00, 0x90], &[(X, 1), (A, 1)], &[], &[(A, 0x91)], None);
    check(M::Adc, Absolute, &[0x04, 0x00, 0x00, 0x90], &[(A, 1)], &[], &[(A, 0x91)], None);
    check(M::Adc, AbsoluteX, &[0x03, 0x00, 0x00, 0x90], &[(X, 1), (A, 1)], &[], &[(A, 0x91)], None);
    check(M::Adc, AbsoluteY, &[0x03, 0x00, 0x00, 0x90], &[(Y, 1), (A, 1)], &[], &[(A, 0x91)], None);
    check(M::Adc, IndirectX, &[0x02, 0x00, 0x05, 0x00, 0x90], &[(X, 1), (A, 1)], &[], &[(A, 0x91)], None);
    check(M::Adc, IndirectY, &[0x02, 0x04, 0x00, 0x00, 0x90], &[(Y, 1), (A, 1)], &[], &[(A, 0x91)], None);
}

#[test]
fn test_and() {
    check(M::And, Immediate, &[0b00001111], &[(A, 0b01010101)], &[], &[(A, 0b00000101), (Status, 0b00000000)], None);
    check(M::And, Immediate, &[0b10001111], &[(A, 0b11010101)], &[], &[(A, 0b10000101), (Status, 0b10000000)], None);
    check(M::And, Immediate, &[0x00], &[(A, 0b11010101)], &[], &[(A, 0x00), (Status, 0b00000010)], None);
    check(M::And, ZeroPage, &[0x02, 0xFF], &[(A, 0xF0)], &[], &[(A, 0xF0)], None);
    check(M::And, ZeroPageX, &[0x02, 0x00, 0xFF], &[(X, 1), (A, 0xF0)], &[], &[(A, 0xF0)], None);
    check(M::And, Absolute, &[0x04, 0x00, 0x00, 0xFF], &[(A, 0xF0)], &[], &[(A, 0xF0)], None);
    check(M::And, IndirectX, &[0x02, 0x00, 0x05, 0x00, 0xFF], &[(X, 1), (A, 0xF0)], &[], &[(A, 0xF0)], None);
    check(M::And, IndirectY, &[0x02, 0x04, 0x00, 0x00, 0xFF], &[(Y, 1), (A, 0xF0)], &[], &[(A, 0xF0)], None);
    check(M::And, AbsoluteX, &[0x03, 0x00, 0x00, 0xFF], &[(X, 1), (A, 0xF0)], &[], &[(A, 0xF0)], None);
    check(M::And, AbsoluteY, &[0x03, 0x00, 0x00, 0xFF], &[(Y, 1), (A, 0xF0)], &[], &[(A, 0xF0)], None);
}

#[test]
fn test_asl() {
    check(M::Asl, ZeroPage, &[0x02, 0xFF], &[(Status, 1)], &[0x02, 0xFE], &[(Status, 0b10000001)], None);
    check(M::Asl, ZeroPage, &[0x02, 0xFF], &[(Status, 0)], &[0x02, 0xFE], &[(Status, 0b10000001)], None);
    check(M::Asl, ZeroPage, &[0x02, 0b10000000], &[], &[0x02, 0x00], &[(Status, 0b00000011)], None);
    check(M::Asl, ZeroPageX, &[0x02, 0x00, 0x01], &[(X, 1)], &[0x02, 0x00, 0x02], &[], None);
    check(M::Asl, Absolute, &[0x03, 0x00, 0x01], &[], &[0x03, 0x00, 0x02], &[], None);
    check(M::Asl, Implied, &[], &[(A, 1)], &[], &[(A, 2)], None);
    check(M::Asl, AbsoluteX, &[0x03, 0x00, 0x00, 0x01], &[(X, 1)], &[0x03, 0x00, 0x00, 0x02], &[], None);
}

#[test]
fn test_bcs() {
    check(M::Bcs, Relative, &[0x10], &[(Status, 0b00000000)], &[], &[(ProgramCounter, 2), (ClockCounter, 2)], None);
    check(M::Bcs, Relative, &[0x10], &[(Status, 0b10000001)], &[], &[(ProgramCounter, 17), (ClockCounter, 3)], None);
}

#[test]
fn test_bit() {
    check(M::Bit, ZeroPage, &[0x02, 0x00], &[(A, 0x0F)], &[], &[(Status, 0b00000010)], None);
    check(M::Bit, ZeroPage, &[0x02, 0xF0], &[(A, 0xFF)], &[], &[(Status, 0b11000000)], None);
    check(M::Bit, Absolute, &[0x03, 0x00, 0xF0], &[(A, 0xFF)], &[], &[(Status, 0b11000000)], None);
}

fn branch_over_page_far(cpu: &mut CPU, opcode: u8) {
    cpu.program_counter = 0x00FD;
    cpu.unclocked_write_u8(0x00FD, opcode);
    cpu.unclocked_write_u16(0x00FE, 5);
}

fn branch_over_page_near(cpu: &mut CPU, opcode: u8) {
    cpu.program_counter = 0x00FD;
    cpu.unclocked_write_u8(0x00FD, opcode);
    cpu.unclocked_write_u16(0x00FE, 2);
}

#[test]
fn test_bmi() {
    check(M::Bmi, Relative, &[0x10], &[(Status, 0b00000000)], &[], &[(ProgramCounter, 2), (ClockCounter, 2)], None);
    check(M::Bmi, Relative, &[0x10], &[(Status, 0b10000000)], &[], &[(ProgramCounter, 17), (ClockCounter, 3)], None);
    check(M::Bmi, Relative, &[0x00], &[(Status, 0b10000000)], &[], &[(ProgramCounter, 0x0103), (ClockCounter, 4)],
        Some(|cpu: &mut CPU| branch_over_page_far(cpu, 0x30)));
    check(M::Bmi, Relative, &[0x00], &[(Status, 0b10000000)], &[], &[(ProgramCounter, 0x0100), (ClockCounter, 4)],
        Some(|cpu: &mut CPU| branch_over_page_near(cpu, 0x30)));
    check(M::Bmi, Relative, &[0x00], &[(Status, 0b00000000)], &[], &[(ProgramCounter, 0x00FF), (ClockCounter, 2)],
        Some(|cpu: &mut CPU| branch_over_page_far(cpu, 0x30)));
}

/// BCS counts a backward offset from the offset byte too: $FC (-4) from
/// $0001 lands at $FFFD, in another page.
#[test]
fn bcs_backward_across_a_page() {
    check(M::Bcs, Relative, &[0xFC], &[(Status, 0b00000001)], &[], &[(ProgramCounter, 0xFFFD), (ClockCounter, 4)], None);
}

#[test]
fn test_bpl() {
    check(M::Bpl, Relative, &[0x10], &[(Status, 0b10000000)], &[], &[(ProgramCounter, 2), (ClockCounter, 2)], None);
    check(M::Bpl, Relative, &[0x10], &[(Status, 0b00000000)], &[], &[(ProgramCounter, 18), (ClockCounter, 3)], None);
    check(M::Bpl, Relative, &[0x00], &[(Status, 0b00000000)], &[], &[(ProgramCounter, 0x0104), (ClockCounter, 4)],
        Some(|cpu: &mut CPU| branch_over_page_far(cpu, 0x10)));
    check(M::Bpl, Relative, &[0x00], &[(Status, 0b00000000)], &[], &[(ProgramCounter, 0x0101), (ClockCounter, 4)],
        Some(|cpu: &mut CPU| branch_over_page_near(cpu, 0x10)));
    check(M::Bpl, Relative, &[0x00], &[(Status, 0b10000000)], &[], &[(ProgramCounter, 0x00FF), (ClockCounter, 2)],
        Some(|cpu: &mut CPU| branch_over_page_far(cpu, 0x10)));
}

#[test]
fn test_brk() {
    check(M::Brk, Implied, &[0x00, 0x00], &[(A, 0x00), (Status, 0x00)], &[], &[(A, 0x00)], None);
}

#[test]
fn test_cld() {
    check(M::Cld, Implied, &[], &[(Status, 0b11111111)], &[], &[(Status, 0b11110111)], None);
    check(M::Cld, Implied, &[], &[(Status, 0b11110111)], &[], &[(Status, 0b11110111)], None);
}

#[test]
fn test_cli() {
    check(M::Cli, Implied, &[], &[(Status, 0b11111111)], &[], &[(Status, 0b11111011)], None);
    check(M::Cli, Implied, &[], &[(Status, 0b11111011)], &[], &[(Status, 0b11111011)], None);
}

#[test]
fn test_clv() {
    check(M::Clv, Implied, &[], &[(Status, 0b11111111)], &[], &[(Status, 0b10111111)], None);
    check(M::Clv, Implied, &[], &[(Status, 0b10111111)], &[], &[(Status, 0b10111111)], None);
}

#[test]
fn test_cmp() {
    check(M::Cmp, Immediate, &[10], &[(A, 10)], &[], &[(Status, 0b00000011)], None);
    check(M::Cmp, Immediate, &[100], &[(A, 10)], &[], &[(Status, 0b10000000)], None);
    check(M::Cmp, Immediate, &[10], &[(A, 100)], &[], &[(Status, 0b00000001)], None);
    check(M::Cmp, ZeroPage, &[0x02, 10], &[(A, 10)], &[], &[(Status, 0b00000011)], None);
    check(M::Cmp, ZeroPageX, &[0x02, 0x00, 10], &[(X, 1), (A, 10)], &[], &[(Status, 0b00000011)], None);
    check(M::Cmp, Absolute, &[0x04, 0x00, 0x00, 10], &[(A, 10)], &[], &[(Status, 0b00000011)], None);
    check(M::Cmp, IndirectX, &[0x02, 0x00, 0x05, 0x00, 10], &[(X, 1), (A, 10)], &[], &[(Status, 0b00000011)], None);
    check(M::Cmp, IndirectY, &[0x02, 0x04, 0x00, 0x00, 10], &[(Y, 1), (A, 10)], &[], &[(Status, 0b00000011)], None);
    check(M::Cmp, AbsoluteX, &[0x03, 0x00, 0x00, 10], &[(X, 1), (A, 10)], &[], &[(Status, 0b00000011)], None);
    check(M::Cmp, AbsoluteY, &[0x03, 0x00, 0x00, 10], &[(Y, 1), (A, 10)], &[], &[(Status, 0b00000011)], None);
}

#[test]
fn cpx_test_cpx() {
    check(M::Cpx, Immediate, &[10], &[(X, 10)], &[], &[(Status, 0b00000011)], None);
    check(M::Cpx, Immediate, &[100], &[(X, 10)], &[], &[(Status, 0b10000000)], None);
    check(M::Cpx, Immediate, &[10], &[(X, 100)], &[], &[(Status, 0b00000001)], None);
    check(M::Cpx, ZeroPage, &[0x02, 10], &[(X, 10)], &[], &[(Status, 0b00000011)], None);
    check(M::Cpx, Absolute, &[0x04, 0x00, 0x00, 10], &[(X, 10)], &[], &[(Status, 0b00000011)], None);
}

#[test]
fn cpy_test_cpx() {
    check(M::Cpy, Immediate, &[10], &[(Y, 10)], &[], &[(Status, 0b00000011)], None);
    check(M::Cpy, Immediate, &[100], &[(Y, 10)], &[], &[(Status, 0b10000000)], None);
    check(M::Cpy, Immediate, &[10], &[(Y, 100)], &[], &[(Status, 0b00000001)], None);
    check(M::Cpy, ZeroPage, &[0x02, 10], &[(Y, 10)], &[], &[(Status, 0b00000011)], None);
    check(M::Cpy, Absolute, &[0x04, 0x00, 0x00, 10], &[(Y, 10)], &[], &[(Status, 0b00000011)], None);
}

#[test]
fn test_dcp() {}

#[test]
fn test_dec() {
    check(M::Dec, ZeroPage, &[0x02, 0x00], &[], &[0x02, 0xFF], &[(Status, 0b10000000)], None);
    check(M::Dec, ZeroPage, &[0x02, 0x01], &[], &[0x02, 0x00], &[(Status, 0b00000010)], None);
    check(M::Dec, ZeroPageX, &[0x02, 0x00, 0x02], &[(X, 1)], &[0x02, 0x00, 0x01], &[], None);
    check(M::Dec, Absolute, &[0x03, 0x00, 0x02], &[], &[0x03, 0x00, 0x01], &[], None);
    check(M::Dec, AbsoluteX, &[0x03, 0x00, 0x00, 0x02], &[(X, 1)], &[0x03, 0x00, 0x00, 0x01], &[], None);
}

#[test]
fn test_dex() {
    check(M::Dex, Implied, &[], &[(X, 1)], &[], &[(X, 0), (Status, 0b00000010)], None);
    check(M::Dex, Implied, &[], &[(X, 0)], &[], &[(X, 255), (Status, 0b10000000)], None);
}

#[test]
fn test_dey() {
    check(M::Dey, Implied, &[], &[(Y, 1)], &[], &[(Y, 0), (Status, 0b00000010)], None);
    check(M::Dey, Implied, &[], &[(Y, 0)], &[], &[(Y, 255), (Status, 0b10000000)], None);
}

#[test]
fn test_eor() {
    check(M::Eor, Immediate, &[0b00001111], &[(A, 0b01010101)], &[], &[(A, 0b01011010), (Status, 0b00000000)], None);
    check(M::Eor, Immediate, &[0b10001111], &[(A, 0b01010101)], &[], &[(A, 0b11011010), (Status, 0b10000000)], None);
    check(M::Eor, Immediate, &[0xFF], &[(A, 0xFF)], &[], &[(A, 0x00), (Status, 0b00000010)], None);
    check(M::Eor, ZeroPage, &[0x02, 0xFF], &[(A, 0xF0)], &[], &[(A, 0x0F)], None);
    check(M::Eor, ZeroPageX, &[0x02, 0x00, 0xFF], &[(X, 1), (A, 0xF0)], &[], &[(A, 0x0F)], None);
    check(M::Eor, Absolute, &[0x04, 0x00, 0x00, 0xFF], &[(A, 0xF0)], &[], &[(A, 0x0F)], None);
    check(M::Eor, AbsoluteX, &[0x03, 0x00, 0x00, 0xFF], &[(X, 1), (A, 0xF0)], &[], &[(A, 0x0F)], None);
    check(M::Eor, AbsoluteY, &[0x03, 0x00, 0x00, 0xFF], &[(Y, 1), (A, 0xF0)], &[], &[(A, 0x0F)], None);
    check(M::Eor, IndirectX, &[0x02, 0x00, 0x05, 0x00, 0xFF], &[(X, 1), (A, 0xF0)], &[], &[(A, 0x0F)], None);
    check(M::Eor, IndirectY, &[0x02, 0x04, 0x00, 0x00, 0xFF], &[(Y, 1), (A, 0xF0)], &[], &[(A, 0x0F)], None);
}

#[test]
fn test_inc() {
    check(M::Inc, ZeroPage, &[0x02, 255], &[], &[0x02, 0], &[(Status, 0b00000010)], None);
    check(M::Inc, ZeroPage, &[0x02, 127], &[], &[0x02, 128], &[(Status, 0b10000000)], None);
}

#[test]
fn test_inx() {
    check(M::Inx, Implied, &[], &[(X, 255)], &[], &[(X, 0), (Status, 0b00000010)], None);
    check(M::Inx, Implied, &[], &[(X, 127)], &[], &[(X, 128), (Status, 0b10000000)], None);
}

#[test]
fn test_iny() {
    check(M::Iny, Implied, &[], &[(Y, 255)], &[], &[(Y, 0), (Status, 0b00000010)], None);
    check(M::Iny, Implied, &[], &[(Y, 127)], &[], &[(Y, 128), (Status, 0b10000000)], None);
}

#[test]
fn test_isb() {
    check(M::Isb, ZeroPage, &[0x02, 255], &[], &[0x02, 0], &[(Status, 0b10000000)], None);
    check(M::Isb, ZeroPage, &[0x02, 127], &[], &[0x02, 128], &[(Status, 0b00000000)], None);
    check(M::Isb, ZeroPageX, &[0x02, 0x00, 0x02], &[(X, 1)], &[0x02, 0x00, 0x03], &[], None);
    check(M::Isb, Absolute, &[0x03, 0x00, 0x02], &[], &[0x03, 0x00, 0x03], &[], None);
    check(M::Isb, AbsoluteX, &[0x03, 0x00, 0x00, 0x02], &[(X, 1)], &[0x03, 0x00, 0x00, 0x03], &[], None);
    check(M::Isb, AbsoluteY, &[0x03, 0x00, 0x00, 0x02], &[(Y, 1)], &[0x03, 0x00, 0x00, 0x03], &[], None);
    check(M::Isb, IndirectX, &[0x02, 0x00, 0x05, 0x00, 0x90], &[(X, 1), (A, 1)], &[], &[(A, 0x6F)], None);
    check(M::Isb, IndirectY, &[0x02, 0x04, 0x00, 0x00, 0x90], &[(Y, 1), (A, 1)], &[], &[(A, 0x6F)], None);
}

#[test]
fn test_jmp() {
    check(M::Jmp, Absolute, &[0x0A, 0x00], &[], &[], &[(ProgramCounter, 10)], None);
    check(M::Jmp, Indirect, &[0x03, 0x00, 0x0A, 0x00], &[], &[], &[(ProgramCounter, 10)], None);
    check(M::Jmp, Indirect, &[0xFF, 0x01], &[(Status, 0b10000000)], &[], &[(ProgramCounter, 0x2211)],
        Some(|cpu: &mut CPU| {
            cpu.unclocked_write_u8(0x01FF, 0x11);
            cpu.unclocked_write_u8(0x0100, 0x22);
            cpu.unclocked_write_u8(0x0200, 0x33);
        }));
}

#[test]
fn test_jsr() {
    check(M::Jsr, Absolute, &[0x0A, 0x00], &[], &[],
        &[(ClockCounter, 6), (ProgramCounter, 10), (StackPointer, 0xFD)],
        Some(|cpu: &mut CPU| cpu.unclocked_write_u16(0x000A, 0x60)));
}

#[test]
fn test_lax() {
    check(M::Lax, ZeroPage, &[0x02, 0x90], &[], &[], &[(A, 0x90), (X, 0x90)], None);
    check(M::Lax, ZeroPageY, &[0x02, 0, 0x90], &[(Y, 1)], &[], &[(A, 0x90), (X, 0x90)], None);
    check(M::Lax, Absolute, &[0x04, 0, 0, 0x90], &[], &[], &[(A, 0x90), (X, 0x90)], None);
    check(M::Lax, IndirectX, &[0x02, 0, 0x05, 0, 0x90], &[(X, 1)], &[], &[(A, 0x90), (X, 0x90)], None);
    check(M::Lax, IndirectY, &[0x02, 0x04, 0, 0, 0x90], &[(Y, 1)], &[], &[(A, 0x90), (X, 0x90)], None);
    check(M::Lax, AbsoluteY, &[0x03, 0, 0, 0x90], &[(Y, 1)], &[], &[(A, 0x90), (X, 0x90)], None);
}

#[test]
fn test_lda() {
    check(M::Lda, Immediate, &[0x00], &[], &[], &[(A, 0x00), (Status, 0b00000010)], None);
    check(M::Lda, Immediate, &[0xFF], &[], &[], &[(A, 0xFF), (Status, 0b10000000)], None);
    check(M::Lda, Immediate, &[0x20], &[], &[], &[(A, 0x20), (Status, 0)], None);
    check(M::Lda, ZeroPage, &[0x02, 0x90], &[], &[], &[(A, 0x90)], None);
    check(M::Lda, ZeroPageX, &[0x02, 0, 0x90], &[(X, 1)], &[], &[(A, 0x90)], None);
    check(M::Lda, Absolute, &[0x04, 0, 0, 0x90], &[(X, 1)], &[], &[(A, 0x90)], None);
    check(M::Lda, AbsoluteX, &[0x03, 0, 0, 0x90], &[(X, 1)], &[], &[(A, 0x90)], None);
    check(M::Lda, AbsoluteY, &[0x03, 0, 0, 0x90], &[(Y, 1)], &[], &[(A, 0x90)], None);
    check(M::Lda, IndirectX, &[0x02, 0, 0x05, 0, 0x90], &[(X, 1)], &[], &[(A, 0x90)], None);
    check(M::Lda, IndirectY, &[0x02, 0x04, 0, 0, 0x90], &[(Y, 1)], &[], &[(A, 0x90)], None);
}

#[test]
fn test_ldx() {
    check(M::Ldx, Immediate, &[0x00], &[], &[], &[(X, 0x00), (Status, 0b00000010)], None);
    check(M::Ldx, Immediate, &[0xFF], &[], &[], &[(X, 0xFF), (Status, 0b10000000)], None);
    check(M::Ldx, Immediate, &[0x20], &[], &[], &[(X, 0x20), (Status, 0b00000000)], None);
    check(M::Ldx, ZeroPage, &[0x02, 0x90], &[], &[], &[(X, 0x90)], None);
    check(M::Ldx, ZeroPageY, &[0x02, 0x00, 0x90], &[(Y, 1)], &[], &[(X, 0x90)], None);
    check(M::Ldx, Absolute, &[0x04, 0x00, 0x00, 0x90], &[], &[], &[(X, 0x90)], None);
    check(M::Ldx, AbsoluteY, &[0x03, 0x00, 0x00, 0x90], &[(Y, 1)], &[], &[(X, 0x90)], None);
}

#[test]
fn test_ldy() {
    check(M::Ldy, Immediate, &[0x00], &[], &[], &[(Y, 0x00), (Status, 0b00000010)], None);
    check(M::Ldy, Immediate, &[0xFF], &[], &[], &[(Y, 0xFF), (Status, 0b10000000)], None);
    check(M::Ldy, Immediate, &[0x20], &[], &[], &[(Y, 0x20), (Status, 0b00000000)], None);
    check(M::Ldy, ZeroPage, &[0x02, 0x90], &[], &[], &[(Y, 0x90)], None);
    check(M::Ldy, ZeroPageX, &[0x02, 0x00, 0x90], &[(X, 1)], &[], &[(Y, 0x90)], None);
    check(M::Ldy, Absolute, &[0x04, 0x00, 0x00, 0x90], &[], &[], &[(Y, 0x90)], None);
}

#[test]
fn test_nop() {
    check(M::Nop, Implied, &[], &[], &[], &[], None);
}

#[test]
fn test_ora() {
    check(M::Ora, Immediate, &[0b00001111], &[(A, 0b01010101)], &[], &[(A, 0b01011111), (Status, 0b00000000)], None);
    check(M::Ora, Immediate, &[0b10001111], &[(A, 0b01010101)], &[], &[(A, 0b11011111), (Status, 0b10000000)], None);
    check(M::Ora, Immediate, &[0x00], &[(A, 0)], &[], &[(A, 0x00), (Status, 0b00000010)], None);
    check(M::Ora, ZeroPage, &[0x02, 0xFF], &[(A, 0xF0)], &[], &[(A, 0xFF)], None);
}

#[test]
fn test_php() {
    check(M::Php, Implied, &[], &[], &[], &[], None);
}

#[test]
fn test_plp() {
    check(M::Plp, Implied, &[], &[], &[], &[], None);
}
