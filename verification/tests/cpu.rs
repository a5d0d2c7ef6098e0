use gameboy::bit::{bit7h, bit7l};
use gameboy::cpu::{Cpu, ExecError};
use gameboy::mmu::Memory;
use gameboy::registers::CpuFlag;

fn make_cpu(program: &[u8]) -> Cpu {
    let mut rom = vec![0u8; 0x8000];
    for (i, b) in program.iter().enumerate() {
        rom[0x0100 + i] = *b;
    }
    Cpu::new(Memory::new(rom).unwrap())
}

#[test]
fn bit_test_on_set_bit_clears_zero() {
    let mut c = make_cpu(&[]);
    c.registers.h = 0x80;
    bit7h(&mut c);
    assert!(!c.registers.getflag(CpuFlag::Z));
    assert!(c.registers.getflag(CpuFlag::H));
    assert!(!c.registers.getflag(CpuFlag::N));
}

#[test]
fn bit_test_on_clear_bit_sets_zero() {
    let mut c = make_cpu(&[]);
    c.registers.h = 0x00;
    bit7h(&mut c);
    assert!(c.registers.getflag(CpuFlag::Z));
    assert!(c.registers.getflag(CpuFlag::H));
    assert!(!c.registers.getflag(CpuFlag::N));
}

#[test]
fn bit_test_leaves_carry_alone() {
    let mut c = make_cpu(&[]);
    c.registers.flag(CpuFlag::C, true);
    c.registers.l = 0x00;
    bit7l(&mut c);
    assert!(c.registers.getflag(CpuFlag::C));
    c.registers.flag(CpuFlag::C, false);
    bit7l(&mut c);
    assert!(!c.registers.getflag(CpuFlag::C));
    assert_eq!(c.registers.f & 0x0F, 0);
}

#[test]
fn interrupt_priority_picks_vertical_blank_first() {
    let mut c = make_cpu(&[]);
    // Vertical blank, timer and input all pending and enabled, master on.
    c.memory.intf = 0b1_0101;
    c.memory.inte = 0x1F;
    c.registers.ime = 1;
    let cycles = c.step().unwrap();
    assert_eq!(cycles, 20);
    assert_eq!(c.registers.pc, 0x40);
    assert_eq!(c.registers.ime, 0);
    // Only the serviced source's request bit was cleared.
    assert_eq!(c.memory.intf & 0x1F, 0b1_0100);
    // The return address is on the stack.
    assert_eq!(c.memory.rw(c.registers.sp), 0x0100);
}

#[test]
fn halt_blocks_until_a_request_is_pending() {
    let mut c = make_cpu(&[0x76, 0x3C]); // HALT; INC A
    c.registers.ime = 1;
    c.memory.inte = 0x04;
    let a0 = c.registers.a;
    c.step().unwrap();
    assert!(c.halted);
    assert_eq!(c.registers.pc, 0x0101);
    // With nothing pending the program counter does not move.
    for _ in 0..5 {
        assert_eq!(c.step().unwrap(), 4);
        assert_eq!(c.registers.pc, 0x0101);
        assert!(c.halted);
    }
    assert_eq!(c.registers.a, a0);
    // A request wakes the interpreter; with the master flag on it is
    // serviced, and the pushed return address is the instruction after
    // the halt.
    c.memory.intf = 0x04;
    assert_eq!(c.step().unwrap(), 20);
    assert!(!c.halted);
    assert_eq!(c.registers.pc, 0x50);
    assert_eq!(c.memory.rw(c.registers.sp), 0x0101);
}

#[test]
fn halt_without_master_flag_resumes_at_the_next_instruction() {
    let mut c = make_cpu(&[0x76, 0x3C, 0x00]); // HALT; INC A; NOP
    c.registers.ime = 0;
    c.memory.inte = 0x04;
    c.step().unwrap();
    assert!(c.halted);
    c.memory.intf = 0x04;
    let a0 = c.registers.a;
    c.step().unwrap();
    assert!(!c.halted);
    assert_eq!(c.registers.a, a0.wrapping_add(1));
}

#[test]
fn halt_with_request_already_pending_fetches_twice() {
    // The quirk: halting with the master flag clear and a request already
    // pending executes the following byte twice.
    let mut c = make_cpu(&[0x76, 0x3C, 0x00]); // HALT; INC A; NOP
    c.registers.ime = 0;
    c.memory.inte = 0x04;
    c.memory.intf = 0x04;
    let a0 = c.registers.a;
    c.step().unwrap();
    assert!(!c.halted);
    c.step().unwrap();
    c.step().unwrap();
    assert_eq!(c.registers.a, a0.wrapping_add(2));
    assert_eq!(c.registers.pc, 0x0102);
}

#[test]
fn undefined_opcode_is_a_reported_fault() {
    let mut c = make_cpu(&[0xD3]);
    let r = c.step();
    assert_eq!(r, Err(ExecError::UndefinedOpcode { pc: 0x0100, opcode: 0xD3 }));
}

#[test]
fn add_sets_zero_half_and_carry() {
    let mut c = make_cpu(&[0xC6, 0xC6]); // ADD A, 0xC6
    c.registers.a = 0x3A;
    c.registers.pc = 0x0100;
    c.step().unwrap();
    assert_eq!(c.registers.a, 0x00);
    assert!(c.registers.getflag(CpuFlag::Z));
    assert!(c.registers.getflag(CpuFlag::H));
    assert!(c.registers.getflag(CpuFlag::C));
    assert!(!c.registers.getflag(CpuFlag::N));
}

#[test]
fn sub_sets_subtract_and_borrow() {
    let mut c = make_cpu(&[0xD6, 0x20]); // SUB 0x20
    c.registers.a = 0x10;
    c.step().unwrap();
    assert_eq!(c.registers.a, 0xF0);
    assert!(c.registers.getflag(CpuFlag::N));
    assert!(c.registers.getflag(CpuFlag::C));
    assert!(!c.registers.getflag(CpuFlag::Z));
}

#[test]
fn extended_table_bit_test_matches_the_rule() {
    // CB 7C: BIT 7,H with H = 0x80 clears Zero; with H = 0 sets it.
    let mut c = make_cpu(&[0xCB, 0x7C, 0xCB, 0x7C]);
    c.registers.h = 0x80;
    assert_eq!(c.step().unwrap(), 8);
    assert!(!c.registers.getflag(CpuFlag::Z));
    c.registers.h = 0x00;
    c.step().unwrap();
    assert!(c.registers.getflag(CpuFlag::Z));
    assert!(c.registers.getflag(CpuFlag::H));
}

#[test]
fn loads_jumps_and_stack_work_together() {
    // LD BC,0x1234; PUSH BC; POP DE; JP 0x0110
    let mut c = make_cpu(&[0x01, 0x34, 0x12, 0xC5, 0xD1, 0xC3, 0x10, 0x01]);
    c.step().unwrap();
    assert_eq!(c.registers.bc(), 0x1234);
    c.step().unwrap();
    c.step().unwrap();
    assert_eq!(c.registers.de(), 0x1234);
    c.step().unwrap();
    assert_eq!(c.registers.pc, 0x0110);
}

#[test]
fn relative_jump_goes_backwards() {
    // NOP; JR -3 lands back on the NOP.
    let mut c = make_cpu(&[0x00, 0x18, 0xFD]);
    c.step().unwrap();
    assert_eq!(c.step().unwrap(), 12);
    assert_eq!(c.registers.pc, 0x0100);
}

#[test]
fn enabling_interrupts_is_delayed_one_instruction() {
    let mut c = make_cpu(&[0xFB, 0x00, 0x00]); // EI; NOP; NOP
    c.memory.inte = 0x01;
    c.memory.intf = 0x01;
    c.step().unwrap(); // EI
    assert_eq!(c.registers.ime, 0);
    c.step().unwrap(); // NOP completes; the master flag turns on after it
    assert_eq!(c.registers.ime, 1);
    // The next step services the pending interrupt.
    assert_eq!(c.step().unwrap(), 20);
    assert_eq!(c.registers.pc, 0x40);
}

#[test]
fn memory_operand_goes_through_hl() {
    // LD (HL),n then INC (HL) through working RAM.
    let mut c = make_cpu(&[0x36, 0x41, 0x34]); // LD (HL),0x41; INC (HL)
    c.registers.set_hl(0xC800);
    assert_eq!(c.step().unwrap(), 12);
    assert_eq!(c.memory.rb(0xC800), 0x41);
    assert_eq!(c.step().unwrap(), 12);
    assert_eq!(c.memory.rb(0xC800), 0x42);
}

#[test]
fn rotate_through_carry() {
    let mut c = make_cpu(&[0x17, 0x17]); // RLA twice
    c.registers.a = 0x80;
    c.registers.flag(CpuFlag::C, false);
    c.step().unwrap();
    assert_eq!(c.registers.a, 0x00);
    assert!(c.registers.getflag(CpuFlag::C));
    c.step().unwrap();
    assert_eq!(c.registers.a, 0x01);
    assert!(!c.registers.getflag(CpuFlag::C));
}
