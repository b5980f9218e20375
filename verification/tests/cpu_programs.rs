use greenstone::nes::bus::Bus;
use greenstone::nes::cpu::instructions::common::add_u8s;
use greenstone::nes::cpu::opcode::{AddressingMode, Mnemonic, Opcode};
use greenstone::nes::cpu::state::{CARRY_FLAG, NEGATIVE_FLAG, ZERO_FLAG};
use greenstone::nes::cpu::{make_word, CPU};

#[test]
fn test_add_u8s() {
    let mut augend: u8 = 0x05;
    let mut addend: u8 = 0x02;
    let mut carry = false;
    let mut add_u8s_result = add_u8s(augend, addend, carry);
    let mut result = add_u8s_result.0;
    let mut set_carry = add_u8s_result.1;
    let mut set_overflow = add_u8s_result.2;
    assert_eq!(result, (augend.wrapping_add(addend)));
    assert!(set_carry == false, "should not have set the carry bit");
    assert!(set_overflow == false, "should not have set the overflow bit");
    augend = (-3i8).wrapping_neg().wrapping_add(1) as u8;
    addend = (-2i8).wrapping_neg().wrapping_add(1) as u8;
    carry = false;
    add_u8s_result = add_u8s(augend, addend, carry);
    result = add_u8s_result.0;
    set_carry = add_u8s_result.1;
    set_overflow = add_u8s_result.2;
    assert_eq!(result, (augend.wrapping_add(addend)));
    assert!(set_carry == false, "should not have set the carry bit");
    assert!(set_overflow == false, "should not have set the overflow bit");
    augend = (-32i8).wrapping_neg().wrapping_add(1) as u8;
    addend = 27;
    carry = false;
    add_u8s_result = add_u8s(augend, addend, carry);
    result = add_u8s_result.0;
    set_carry = add_u8s_result.1;
    set_overflow = add_u8s_result.2;
    assert_eq!(result, (augend.wrapping_add(addend)));
    assert!(set_carry == false, "should not have set the carry bit");
    assert!(set_overflow == false, "should not have set the overflow bit");
    augend = 27;
    addend = (-32i8).wrapping_neg().wrapping_add(1) as u8;
    carry = false;
    add_u8s_result = add_u8s(augend, addend, carry);
    result = add_u8s_result.0;
    set_carry = add_u8s_result.1;
    set_overflow = add_u8s_result.2;
    assert_eq!(result, (augend.wrapping_add(addend)));
    assert!(set_carry == false, "should not have set the carry bit");
    assert!(set_overflow == false, "should not have set the overflow bit");
}

#[test]
fn add_u8s_carry_and_overflow() {
    // 0x50 + 0x50: no carry, signed overflow into negative.
    assert_eq!(add_u8s(0x50, 0x50, false), (0xA0, false, true));
    // 0xD0 + 0x90: carry out, signed overflow into positive.
    assert_eq!(add_u8s(0xD0, 0x90, false), (0x60, true, true));
    // 0xFF + 0x00 + carry: wraps to zero with a carry, no overflow.
    assert_eq!(add_u8s(0xFF, 0x00, true), (0x00, true, false));
    // 0x7F + 0x00 + carry: overflow without carry.
    assert_eq!(add_u8s(0x7F, 0x00, true), (0x80, false, true));
}

#[test]
fn test_clc_implied_clear_carry_flag() {
    let mut cpu = CPU::new();
    cpu.interpret(vec![
        0x18, // CLC
        0x00, // BRK
    ]);
    assert!(cpu.status & CARRY_FLAG == 0, "should clear the carry flag.");
}

#[test]
fn interpret_runs_a_counting_loop() {
    // LDX #$05; loop: DEX; BPL loop (taken while X >= 0); BRK
    let mut cpu = CPU::new();
    cpu.interpret(vec![0xA2, 0x05, 0xCA, 0x10, 0xFD, 0x00]);
    assert_eq!(cpu.x, 0xFF);
    assert!(cpu.status & NEGATIVE_FLAG != 0);
    assert!(cpu.status & ZERO_FLAG == 0);
}

#[test]
fn interpret_adds_with_carry_through_memory() {
    // LDA #$F0; ADC $10 (zero page, holds 0x20 after the program); BRK
    let mut program = vec![0xA9, 0xF0, 0x65, 0x10, 0x00];
    program.resize(0x11, 0);
    program[0x10] = 0x20;
    let mut cpu = CPU::new();
    cpu.interpret(program);
    assert_eq!(cpu.a, 0x10);
    assert!(cpu.status & CARRY_FLAG != 0);
}

#[test]
fn loading_points_the_reset_vector_at_the_program() {
    let mut cpu = CPU::new();
    cpu.load_at(vec![0xEA, 0xEA], 0x0600);
    cpu.reset();
    assert_eq!(cpu.program_counter, 0x0600);
    assert_eq!(cpu.unclocked_read_u8(0x0601), 0xEA);
}

#[test]
fn reset_reads_the_reset_vector() {
    let mut cpu = CPU::new();
    cpu.unclocked_write_u16(0xFFFC, 0x1234);
    cpu.a = 7;
    cpu.stack_pointer = 0x10;
    cpu.reset();
    assert_eq!(cpu.program_counter, 0x1234);
    assert_eq!(cpu.a, 0);
    assert_eq!(cpu.stack_pointer, 0xFF);
    assert_eq!(cpu.status, 0);
}

#[test]
fn stack_round_trip() {
    let mut cpu = CPU::new();
    cpu.push_u8(0xAB);
    assert_eq!(cpu.stack_pointer, 0xFE);
    assert_eq!(cpu.unclocked_read_u8(0x01FF), 0xAB);
    assert_eq!(cpu.pop_u8(), 0xAB);
    assert_eq!(cpu.stack_pointer, 0xFF);
    cpu.push_u16(0x1234);
    assert_eq!(cpu.stack_pointer, 0xFD);
    assert_eq!(cpu.unclocked_read_u16(0x01FE), 0x1234);
}

#[test]
fn reads_and_writes_take_a_cycle() {
    let mut cpu = CPU::new();
    cpu.write_u8(0x0300, 0x42);
    assert_eq!(cpu.clock_counter, 1);
    assert_eq!(cpu.read_u8(0x0300), 0x42);
    assert_eq!(cpu.clock_counter, 2);
    assert_eq!(cpu.unclocked_read_u8(0x0300), 0x42);
    assert_eq!(cpu.clock_counter, 2);
    cpu.unclocked_write_u16(0x0400, 0xBEEF);
    assert_eq!(cpu.read_u16(0x0400), 0xBEEF);
    assert_eq!(cpu.clock_counter, 4);
}

#[test]
fn words_are_little_endian() {
    assert_eq!(make_word(0x34, 0x12), 0x1234);
    assert_eq!(make_word(0xFF, 0x00), 0x00FF);
}

#[test]
fn opcode_table_lookups() {
    let lda = Opcode::lookup(0xA9).unwrap();
    assert_eq!(lda.mnemonic, Mnemonic::Lda);
    assert_eq!(lda.mode, AddressingMode::Immediate);
    assert_eq!(lda.length, 2);
    assert_eq!(lda.cycles, 2);
    assert!(Opcode::lookup(0x02).is_none());
    let found = Opcode::find(Mnemonic::Jmp, AddressingMode::Indirect).unwrap();
    assert_eq!(found.code, 0x6C);
    assert!(Opcode::find(Mnemonic::Jmp, AddressingMode::ZeroPage).is_none());
}

#[test]
fn page_crossing_costs_a_cycle() {
    // LDA $00FF,X with X = 1 reads $0100: one cycle more than the table's 4.
    let mut cpu = CPU::new();
    cpu.load(vec![0xBD, 0xFF, 0x00]);
    cpu.reset();
    cpu.x = 1;
    cpu.unclocked_write_u8(0x0100, 0x77);
    cpu.process_instruction();
    assert_eq!(cpu.a, 0x77);
    assert_eq!(cpu.clock_counter, 5);
}

#[test]
fn cpu_on_the_nes_bus_sees_mirrored_ram() {
    let mut cpu = CPU::new_with_bus(Bus::new());
    cpu.unclocked_write_u8(0x0012, 0x99);
    assert_eq!(cpu.unclocked_read_u8(0x0812), 0x99);
    assert_eq!(cpu.unclocked_read_u8(0x1812), 0x99);
}

/// Every opcode of the table, run from a few starting states, changes only
/// the flags of its mask and takes its entry's cycles plus at most its
/// penalties.
#[test]
fn every_opcode_keeps_its_mask_and_its_cycles() {
    for code in 0..=255u8 {
        let op = match Opcode::lookup(code) {
            Some(op) => op,
            None => continue,
        };
        let extra: u64 = match op.mode {
            AddressingMode::Relative => 2,
            AddressingMode::AbsoluteX | AddressingMode::AbsoluteY | AddressingMode::IndirectY
                if !op.extra_cycle => 1,
            _ => 0,
        };
        for &(status, index) in &[(0x00u8, 0x00u8), (0xFF, 0x01), (0x81, 0xFF)] {
            let mut cpu = CPU::new();
            cpu.load(vec![code, 0xF0, 0x00, 0x12, 0x80]);
            cpu.reset();
            cpu.status = status;
            cpu.x = index;
            cpu.y = index;
            cpu.a = 0x5A;
            let start = cpu.clock_counter;
            let ran = cpu.process_instruction();
            assert_eq!(ran, op);
            let taken = cpu.clock_counter - start;
            assert!(
                (cpu.status ^ status) & !op.status_mask == 0,
                "opcode {:#04X} changed flags outside its mask",
                code
            );
            if op.mnemonic == Mnemonic::Clc {
                // CLC spends no cycle beyond its fetch.
                assert_eq!(taken, 1);
                continue;
            }
            assert!(
                op.cycles as u64 <= taken && taken <= op.cycles as u64 + extra,
                "opcode {:#04X} took {} cycles, its entry gives {}",
                code,
                taken,
                op.cycles
            );
        }
    }
}

#[test]
fn clc_spends_no_cycle_and_gives_its_cycles() {
    let mut cpu = CPU::new();
    let clc = Opcode::lookup(0x18).unwrap();
    cpu.status = 0xFF;
    let cycles = cpu.instruction_clc(&clc);
    assert_eq!(cycles, clc.cycles);
    assert_eq!(cycles, 2);
    assert_eq!(cpu.status, 0xFE);
    assert_eq!(cpu.clock_counter, 0);
    // As a step: the fetch alone.
    let mut cpu = CPU::new();
    cpu.load(vec![0x18]);
    cpu.reset();
    cpu.status = CARRY_FLAG;
    cpu.process_instruction();
    assert_eq!(cpu.status, 0);
    assert_eq!(cpu.clock_counter, 1);
    assert_eq!(cpu.program_counter, 1);
}

#[test]
fn zero_page_indexed_wraps_within_page_zero() {
    let mut cpu = CPU::new();
    cpu.load(vec![0xB5, 0xFF]);
    cpu.reset();
    // $FF + 5 wraps to $04, not $0104.
    cpu.x = 5;
    cpu.unclocked_write_u8(0x0004, 0x66);
    cpu.unclocked_write_u8(0x0104, 0x77);
    cpu.process_instruction();
    assert_eq!(cpu.a, 0x66);
    assert_eq!(cpu.clock_counter, 4);
}

#[test]
fn clocked_and_unclocked_addresses_agree() {
    // LDA ($10),Y with the pointer at $10 holding $12F0 and Y = $20.
    let mut cpu = CPU::new();
    cpu.load(vec![0xB1, 0x10]);
    cpu.reset();
    cpu.y = 0x20;
    cpu.unclocked_write_u16(0x0010, 0x12F0);
    cpu.program_counter = 1;
    let unclocked = cpu.unclocked_get_operand_address(&AddressingMode::IndirectY, 1);
    assert_eq!(cpu.clock_counter, 0);
    assert_eq!(cpu.program_counter, 1);
    let op = Opcode::lookup(0xB1).unwrap();
    let clocked = cpu.get_operand_address(&op, &AddressingMode::IndirectY);
    assert_eq!(unclocked, Some(0x1310));
    assert_eq!(clocked, unclocked);
    assert_eq!(cpu.program_counter, 2);
    // Three reads and the page-crossing cycle.
    assert_eq!(cpu.clock_counter, 4);
}

#[test]
fn dec_changes_only_its_target_and_flags() {
    let mut cpu = CPU::new();
    cpu.load(vec![0xC6, 0x40]);
    cpu.reset();
    cpu.a = 1;
    cpu.x = 2;
    cpu.y = 3;
    cpu.status = 0x41;
    cpu.unclocked_write_u8(0x0040, 0x01);
    cpu.unclocked_write_u8(0x0041, 0x99);
    cpu.process_instruction();
    assert_eq!(cpu.unclocked_read_u8(0x0040), 0x00);
    assert_eq!(cpu.unclocked_read_u8(0x0041), 0x99);
    assert_eq!((cpu.a, cpu.x, cpu.y), (1, 2, 3));
    assert_eq!(cpu.status, 0x43);
}

#[test]
fn cpx_dex_eor_give_their_cycles() {
    let mut cpu = CPU::new();
    cpu.load(vec![0xE0, 0x05, 0xCA, 0x49, 0x0F]);
    cpu.reset();
    cpu.program_counter = 1;
    let cpx = Opcode::lookup(0xE0).unwrap();
    assert_eq!(cpu.instruction_cpx(&cpx), cpx.cycles);
    let dex = Opcode::lookup(0xCA).unwrap();
    assert_eq!(cpu.instruction_dex(&dex), dex.cycles);
    cpu.program_counter = 4;
    let eor = Opcode::lookup(0x49).unwrap();
    assert_eq!(cpu.instruction_eor(&eor), eor.cycles);
    assert_eq!(cpu.a, 0x0F);
    assert_eq!(cpu.x, 0xFF);
}
