use crate::mmu::{plain_ram, wb_post, Memory};
use crate::ppu::{dist_to_vblank, frame_pos, lemma_frame_cycle_budget, lemma_vblank_distance, timing_advance, FRAME_CYCLES};
use crate::registers::{power_on_registers, CpuFlag, Registers};
use vstd::prelude::*;

verus! {

/// The instruction interpreter: the register file, the memory bus, the
/// halt state, the delayed effect of the interrupt-enabling instruction,
/// and the double-fetch quirk flag.
pub struct Cpu {
    pub registers: Registers,
    pub memory: Memory,
    /// The interpreter is waiting for an interrupt request.
    pub halted: bool,
    /// Countdown until the interrupt-enabling instruction takes effect:
    /// it enables the master flag only after the following instruction.
    pub ei_delay: u8,
    /// The next opcode fetch must not advance the program counter: the
    /// halt instruction ran with interrupts masked and a request already
    /// pending.
    pub halt_bug: bool,
    /// Whether the double-fetch quirk above is reproduced at all.
    pub compat_halt_bug: bool,
}

/// A byte's low nibble is at most fifteen.
pub proof fn lemma_low_nibble(x: u8)
    ensures
        x & 0x0F <= 0x0F,
{
    assert(x & 0x0F <= 0x0F) by (bit_vector);
}

/// A word's low twelve bits are at most 0x0FFF.
pub proof fn lemma_low_12(x: u16)
    ensures
        x & 0x0FFF <= 0x0FFF,
{
    assert(x & 0x0FFF <= 0x0FFF) by (bit_vector);
}

impl Cpu {
    /// The interpreter invariant: the register file keeps its flags
    /// invariant and the bus its shape.
    pub open spec fn wf(self) -> bool {
        &&& self.registers.flags_wf()
        &&& self.memory.wf()
    }

    /// Everything but the register file is as it was.
    pub open spec fn only_registers_changed(self, pre: Cpu) -> bool {
        self == (Cpu { registers: self.registers, ..pre })
    }

    /// Only the flags register differs from `pre`, and the rest of the
    /// machine is untouched.
    pub open spec fn only_flags_changed(self, pre: Cpu) -> bool {
        &&& self.only_registers_changed(pre)
        &&& self.registers == (Registers { f: self.registers.f, ..pre.registers })
    }

    /// Only A and the flags differ from `pre`.
    pub open spec fn only_a_flags_changed(self, pre: Cpu) -> bool {
        &&& self.only_registers_changed(pre)
        &&& self.registers == (Registers {
            a: self.registers.a,
            f: self.registers.f,
            ..pre.registers
        })
    }

    /// A fresh interpreter over a bus: power-on registers, not halted.
    pub fn new(memory: Memory) -> (c: Cpu)
        requires
            memory.wf(),
        ensures
            c.wf(),
            c.memory == memory,
            c.registers == power_on_registers(),
            c.registers.pc == 0x0100,
            c.registers.ime == 0,
            !c.halted,
            c.ei_delay == 0,
            !c.halt_bug,
            c.compat_halt_bug,
    {
        Cpu {
            registers: Registers::new(),
            memory,
            halted: false,
            ei_delay: 0,
            halt_bug: false,
            compat_halt_bug: true,
        }
    }

    /// The flag update shared by the bit-test operations: Zero is set
    /// exactly when the tested value is zero, Subtract follows the second
    /// argument, Half-carry is always set, and Carry is left unchanged.
    pub fn fz(&mut self, value: u8, subtract: u8)
        requires
            old(self).wf(),
        ensures
            final(self).wf(),
            final(self).only_flags_changed(*old(self)),
            final(self).registers.zf() == (value == 0),
            final(self).registers.nf() == (subtract != 0),
            final(self).registers.hf(),
            final(self).registers.cf() == old(self).registers.cf(),
    {
        self.registers.flag(CpuFlag::Z, value == 0);
        self.registers.flag(CpuFlag::N, subtract != 0);
        self.registers.flag(CpuFlag::H, true);
    }

    /// Fetch the byte at the program counter and step past it.
    pub fn fetch_byte(&mut self) -> (v: u8)
        requires
            old(self).wf(),
        ensures
            final(self).wf(),
            v == old(self).memory.spec_rb(old(self).registers.pc),
            final(self).only_registers_changed(*old(self)),
            final(self).registers == (Registers {
                pc: old(self).registers.pc.wrapping_add(1),
                ..old(self).registers
            }),
    {
        let v: u8 = self.memory.rb(self.registers.pc);
        self.registers.pc = self.registers.pc.wrapping_add(1);
        v
    }

    /// Fetch a 16-bit operand at the program counter, low byte first.
    pub fn fetch_word(&mut self) -> (v: u16)
        requires
            old(self).wf(),
        ensures
            final(self).wf(),
            v == old(self).memory.spec_rb(old(self).registers.pc) + old(self).memory.spec_rb(
                old(self).registers.pc.wrapping_add(1),
            ) * 0x100,
            final(self).only_registers_changed(*old(self)),
            final(self).registers == (Registers {
                pc: old(self).registers.pc.wrapping_add(2),
                ..old(self).registers
            }),
    {
        let lo: u8 = self.fetch_byte();
        let hi: u8 = self.fetch_byte();
        lo as u16 + (hi as u16) * 0x100
    }

    /// Add into A: Zero from the result, Subtract cleared, Half-carry
    /// from bit 3, Carry from bit 7.
    pub fn alu_add(&mut self, b: u8)
        requires
            old(self).wf(),
        ensures
            final(self).wf(),
            final(self).only_a_flags_changed(*old(self)),
            final(self).registers.a == old(self).registers.a.wrapping_add(b),
            final(self).registers.zf() == (old(self).registers.a.wrapping_add(b) == 0),
            !final(self).registers.nf(),
            final(self).registers.hf() == ((old(self).registers.a & 0x0F) + (b & 0x0F) > 0x0F),
            final(self).registers.cf() == (old(self).registers.a + b > 0xFF),
    {
        proof {
            lemma_low_nibble(old(self).registers.a);
            lemma_low_nibble(b);
        }
        let a: u8 = self.registers.a;
        let r: u8 = a.wrapping_add(b);
        self.registers.flag(CpuFlag::Z, r == 0);
        self.registers.flag(CpuFlag::H, (a & 0x0F) + (b & 0x0F) > 0x0F);
        self.registers.flag(CpuFlag::N, false);
        self.registers.flag(CpuFlag::C, (a as u16) + (b as u16) > 0xFF);
        self.registers.a = r;
    }

    /// Add with carry into A.
    pub fn alu_adc(&mut self, b: u8)
        requires
            old(self).wf(),
        ensures
            final(self).wf(),
            final(self).only_a_flags_changed(*old(self)),
            final(self).registers.a == old(self).registers.a.wrapping_add(b).wrapping_add(
                if old(self).registers.cf() {
                    1u8
                } else {
                    0u8
                },
            ),
            final(self).registers.zf() == (final(self).registers.a == 0),
            !final(self).registers.nf(),
            final(self).registers.hf() == ((old(self).registers.a & 0x0F) + (b & 0x0F) + (if old(self).registers.cf() {
                1int
            } else {
                0int
            }) > 0x0F),
            final(self).registers.cf() == (old(self).registers.a + b + (if old(self).registers.cf() {
                1int
            } else {
                0int
            }) > 0xFF),
    {
        proof {
            lemma_low_nibble(old(self).registers.a);
            lemma_low_nibble(b);
        }
        let c: u8 = if self.registers.getflag(CpuFlag::C) {
            1
        } else {
            0
        };
        let a: u8 = self.registers.a;
        let r: u8 = a.wrapping_add(b).wrapping_add(c);
        self.registers.flag(CpuFlag::Z, r == 0);
        self.registers.flag(CpuFlag::H, (a & 0x0F) + (b & 0x0F) + c > 0x0F);
        self.registers.flag(CpuFlag::N, false);
        self.registers.flag(CpuFlag::C, (a as u16) + (b as u16) + (c as u16) > 0xFF);
        self.registers.a = r;
    }

    /// Subtract from A: Zero from the result, Subtract set, Half-carry
    /// from a borrow out of bit 3, Carry from a full borrow.
    pub fn alu_sub(&mut self, b: u8)
        requires
            old(self).wf(),
        ensures
            final(self).wf(),
            final(self).only_a_flags_changed(*old(self)),
            final(self).registers.a == old(self).registers.a.wrapping_sub(b),
            final(self).registers.zf() == (old(self).registers.a == b),
            final(self).registers.nf(),
            final(self).registers.hf() == ((old(self).registers.a & 0x0F) < (b & 0x0F)),
            final(self).registers.cf() == (old(self).registers.a < b),
    {
        let a: u8 = self.registers.a;
        let r: u8 = a.wrapping_sub(b);
        self.registers.flag(CpuFlag::Z, r == 0);
        self.registers.flag(CpuFlag::H, (a & 0x0F) < (b & 0x0F));
        self.registers.flag(CpuFlag::N, true);
        self.registers.flag(CpuFlag::C, a < b);
        self.registers.a = r;
    }

    /// Subtract with borrow from A.
    pub fn alu_sbc(&mut self, b: u8)
        requires
            old(self).wf(),
        ensures
            final(self).wf(),
            final(self).only_a_flags_changed(*old(self)),
            final(self).registers.a == old(self).registers.a.wrapping_sub(b).wrapping_sub(
                if old(self).registers.cf() {
                    1u8
                } else {
                    0u8
                },
            ),
            final(self).registers.zf() == (final(self).registers.a == 0),
            final(self).registers.nf(),
            final(self).registers.hf() == ((old(self).registers.a & 0x0F) < (b & 0x0F) + (if old(self).registers.cf() {
                1int
            } else {
                0int
            })),
            final(self).registers.cf() == (old(self).registers.a < b + (if old(self).registers.cf() {
                1int
            } else {
                0int
            })),
    {
        proof {
            lemma_low_nibble(b);
        }
        let c: u8 = if self.registers.getflag(CpuFlag::C) {
            1
        } else {
            0
        };
        let a: u8 = self.registers.a;
        let r: u8 = a.wrapping_sub(b).wrapping_sub(c);
        self.registers.flag(CpuFlag::Z, r == 0);
        self.registers.flag(CpuFlag::H, (a & 0x0F) < (b & 0x0F) + c);
        self.registers.flag(CpuFlag::N, true);
        self.registers.flag(CpuFlag::C, (a as u16) < (b as u16) + (c as u16));
        self.registers.a = r;
    }

    /// Bitwise and into A: Half-carry set, Subtract and Carry cleared.
    pub fn alu_and(&mut self, b: u8)
        requires
            old(self).wf(),
        ensures
            final(self).wf(),
            final(self).only_a_flags_changed(*old(self)),
            final(self).registers.a == (old(self).registers.a & b),
            final(self).registers.zf() == (old(self).registers.a & b == 0),
            !final(self).registers.nf(),
            final(self).registers.hf(),
            !final(self).registers.cf(),
    {
        let r: u8 = self.registers.a & b;
        self.registers.flag(CpuFlag::Z, r == 0);
        self.registers.flag(CpuFlag::H, true);
        self.registers.flag(CpuFlag::N, false);
        self.registers.flag(CpuFlag::C, false);
        self.registers.a = r;
    }

    /// Bitwise or into A: Subtract, Half-carry and Carry cleared.
    pub fn alu_or(&mut self, b: u8)
        requires
            old(self).wf(),
        ensures
            final(self).wf(),
            final(self).only_a_flags_changed(*old(self)),
            final(self).registers.a == (old(self).registers.a | b),
            final(self).registers.zf() == (old(self).registers.a | b == 0),
            !final(self).registers.nf(),
            !final(self).registers.hf(),
            !final(self).registers.cf(),
    {
        let r: u8 = self.registers.a | b;
        self.registers.flag(CpuFlag::Z, r == 0);
        self.registers.flag(CpuFlag::H, false);
        self.registers.flag(CpuFlag::N, false);
        self.registers.flag(CpuFlag::C, false);
        self.registers.a = r;
    }

    /// Bitwise exclusive-or into A: Subtract, Half-carry and Carry
    /// cleared.
    pub fn alu_xor(&mut self, b: u8)
        requires
            old(self).wf(),
        ensures
            final(self).wf(),
            final(self).only_a_flags_changed(*old(self)),
            final(self).registers.a == (old(self).registers.a ^ b),
            final(self).registers.zf() == (old(self).registers.a ^ b == 0),
            !final(self).registers.nf(),
            !final(self).registers.hf(),
            !final(self).registers.cf(),
    {
        let r: u8 = self.registers.a ^ b;
        self.registers.flag(CpuFlag::Z, r == 0);
        self.registers.flag(CpuFlag::H, false);
        self.registers.flag(CpuFlag::N, false);
        self.registers.flag(CpuFlag::C, false);
        self.registers.a = r;
    }

    /// Compare A with the operand: the flags of the subtraction, with A
    /// left alone.
    pub fn alu_cp(&mut self, b: u8)
        requires
            old(self).wf(),
        ensures
            final(self).wf(),
            final(self).only_flags_changed(*old(self)),
            final(self).registers.zf() == (old(self).registers.a == b),
            final(self).registers.nf(),
            final(self).registers.hf() == ((old(self).registers.a & 0x0F) < (b & 0x0F)),
            final(self).registers.cf() == (old(self).registers.a < b),
    {
        let a: u8 = self.registers.a;
        let r: u8 = a.wrapping_sub(b);
        self.registers.flag(CpuFlag::Z, r == 0);
        self.registers.flag(CpuFlag::H, (a & 0x0F) < (b & 0x0F));
        self.registers.flag(CpuFlag::N, true);
        self.registers.flag(CpuFlag::C, a < b);
    }

    /// Increment a value: Zero from the result, Subtract cleared,
    /// Half-carry from bit 3, Carry untouched.
    pub fn alu_inc(&mut self, v: u8) -> (r: u8)
        requires
            old(self).wf(),
        ensures
            final(self).wf(),
            final(self).only_flags_changed(*old(self)),
            r == v.wrapping_add(1),
            final(self).registers.zf() == (r == 0),
            !final(self).registers.nf(),
            final(self).registers.hf() == (v & 0x0F == 0x0F),
            final(self).registers.cf() == old(self).registers.cf(),
    {
        let r: u8 = v.wrapping_add(1);
        self.registers.flag(CpuFlag::Z, r == 0);
        self.registers.flag(CpuFlag::H, v & 0x0F == 0x0F);
        self.registers.flag(CpuFlag::N, false);
        r
    }

    /// Decrement a value: Zero from the result, Subtract set, Half-carry
    /// from a borrow out of bit 3, Carry untouched.
    pub fn alu_dec(&mut self, v: u8) -> (r: u8)
        requires
            old(self).wf(),
        ensures
            final(self).wf(),
            final(self).only_flags_changed(*old(self)),
            r == v.wrapping_sub(1),
            final(self).registers.zf() == (r == 0),
            final(self).registers.nf(),
            final(self).registers.hf() == (v & 0x0F == 0),
            final(self).registers.cf() == old(self).registers.cf(),
    {
        let r: u8 = v.wrapping_sub(1);
        self.registers.flag(CpuFlag::Z, r == 0);
        self.registers.flag(CpuFlag::H, v & 0x0F == 0);
        self.registers.flag(CpuFlag::N, true);
        r
    }

    /// Sixteen-bit add into HL: Subtract cleared, Half-carry from bit 11,
    /// Carry from bit 15, Zero untouched.
    pub fn alu_add16(&mut self, b: u16)
        requires
            old(self).wf(),
        ensures
            final(self).wf(),
            final(self).only_registers_changed(*old(self)),
            final(self).registers == (Registers {
                h: final(self).registers.h,
                l: final(self).registers.l,
                f: final(self).registers.f,
                ..old(self).registers
            }),
            final(self).registers.spec_hl() == old(self).registers.spec_hl().wrapping_add(b),
            final(self).registers.zf() == old(self).registers.zf(),
            !final(self).registers.nf(),
            final(self).registers.hf() == ((old(self).registers.spec_hl() & 0x0FFF) + (b & 0x0FFF)
                > 0x0FFF),
            final(self).registers.cf() == (old(self).registers.spec_hl() + b > 0xFFFF),
    {
        proof {
            lemma_low_12(old(self).registers.spec_hl());
            lemma_low_12(b);
        }
        let hl: u16 = self.registers.hl();
        let r: u16 = hl.wrapping_add(b);
        self.registers.flag(CpuFlag::H, (hl & 0x0FFF) + (b & 0x0FFF) > 0x0FFF);
        self.registers.flag(CpuFlag::N, false);
        self.registers.flag(CpuFlag::C, (hl as u32) + (b as u32) > 0xFFFF);
        self.registers.set_hl(r);
    }

    /// Rotate left, bit 7 into both bit 0 and Carry; Zero from the
    /// result only when asked (the extended table's form), else cleared.
    pub fn alu_rlc(&mut self, v: u8, with_z: bool) -> (r: u8)
        requires
            old(self).wf(),
        ensures
            final(self).wf(),
            final(self).only_flags_changed(*old(self)),
            r == ((v << 1) | (v >> 7)),
            final(self).registers.zf() == (with_z && r == 0),
            !final(self).registers.nf(),
            !final(self).registers.hf(),
            final(self).registers.cf() == (v & 0x80 != 0),
    {
        let r: u8 = (v << 1) | (v >> 7);
        self.registers.flag(CpuFlag::Z, with_z && r == 0);
        self.registers.flag(CpuFlag::H, false);
        self.registers.flag(CpuFlag::N, false);
        self.registers.flag(CpuFlag::C, v & 0x80 != 0);
        r
    }

    /// Rotate right, bit 0 into both bit 7 and Carry.
    pub fn alu_rrc(&mut self, v: u8, with_z: bool) -> (r: u8)
        requires
            old(self).wf(),
        ensures
            final(self).wf(),
            final(self).only_flags_changed(*old(self)),
            r == ((v >> 1) | (v << 7)),
            final(self).registers.zf() == (with_z && r == 0),
            !final(self).registers.nf(),
            !final(self).registers.hf(),
            final(self).registers.cf() == (v & 0x01 != 0),
    {
        let r: u8 = (v >> 1) | (v << 7);
        self.registers.flag(CpuFlag::Z, with_z && r == 0);
        self.registers.flag(CpuFlag::H, false);
        self.registers.flag(CpuFlag::N, false);
        self.registers.flag(CpuFlag::C, v & 0x01 != 0);
        r
    }

    /// Rotate left through Carry: Carry into bit 0, bit 7 out into Carry.
    pub fn alu_rl(&mut self, v: u8, with_z: bool) -> (r: u8)
        requires
            old(self).wf(),
        ensures
            final(self).wf(),
            final(self).only_flags_changed(*old(self)),
            r == ((v << 1) | (if old(self).registers.cf() {
                1u8
            } else {
                0u8
            })),
            final(self).registers.zf() == (with_z && r == 0),
            !final(self).registers.nf(),
            !final(self).registers.hf(),
            final(self).registers.cf() == (v & 0x80 != 0),
    {
        let c: u8 = if self.registers.getflag(CpuFlag::C) {
            1
        } else {
            0
        };
        let r: u8 = (v << 1) | c;
        self.registers.flag(CpuFlag::Z, with_z && r == 0);
        self.registers.flag(CpuFlag::H, false);
        self.registers.flag(CpuFlag::N, false);
        self.registers.flag(CpuFlag::C, v & 0x80 != 0);
        r
    }

    /// Rotate right through Carry: Carry into bit 7, bit 0 out into
    /// Carry.
    pub fn alu_rr(&mut self, v: u8, with_z: bool) -> (r: u8)
        requires
            old(self).wf(),
        ensures
            final(self).wf(),
            final(self).only_flags_changed(*old(self)),
            r == ((v >> 1) | (if old(self).registers.cf() {
                0x80u8
            } else {
                0u8
            })),
            final(self).registers.zf() == (with_z && r == 0),
            !final(self).registers.nf(),
            !final(self).registers.hf(),
            final(self).registers.cf() == (v & 0x01 != 0),
    {
        let c: u8 = if self.registers.getflag(CpuFlag::C) {
            0x80
        } else {
            0
        };
        let r: u8 = (v >> 1) | c;
        self.registers.flag(CpuFlag::Z, with_z && r == 0);
        self.registers.flag(CpuFlag::H, false);
        self.registers.flag(CpuFlag::N, false);
        self.registers.flag(CpuFlag::C, v & 0x01 != 0);
        r
    }

    /// Shift left into Carry, bit 0 cleared.
    pub fn alu_sla(&mut self, v: u8) -> (r: u8)
        requires
            old(self).wf(),
        ensures
            final(self).wf(),
            final(self).only_flags_changed(*old(self)),
            r == (v << 1),
            final(self).registers.zf() == (r == 0),
            !final(self).registers.nf(),
            !final(self).registers.hf(),
            final(self).registers.cf() == (v & 0x80 != 0),
    {
        let r: u8 = v << 1;
        self.registers.flag(CpuFlag::Z, r == 0);
        self.registers.flag(CpuFlag::H, false);
        self.registers.flag(CpuFlag::N, false);
        self.registers.flag(CpuFlag::C, v & 0x80 != 0);
        r
    }

    /// Arithmetic shift right: bit 7 kept, bit 0 into Carry.
    pub fn alu_sra(&mut self, v: u8) -> (r: u8)
        requires
            old(self).wf(),
        ensures
            final(self).wf(),
            final(self).only_flags_changed(*old(self)),
            r == ((v >> 1) | (v & 0x80)),
            final(self).registers.zf() == (r == 0),
            !final(self).registers.nf(),
            !final(self).registers.hf(),
            final(self).registers.cf() == (v & 0x01 != 0),
    {
        let r: u8 = (v >> 1) | (v & 0x80);
        self.registers.flag(CpuFlag::Z, r == 0);
        self.registers.flag(CpuFlag::H, false);
        self.registers.flag(CpuFlag::N, false);
        self.registers.flag(CpuFlag::C, v & 0x01 != 0);
        r
    }

    /// Logical shift right: bit 7 cleared, bit 0 into Carry.
    pub fn alu_srl(&mut self, v: u8) -> (r: u8)
        requires
            old(self).wf(),
        ensures
            final(self).wf(),
            final(self).only_flags_changed(*old(self)),
            r == (v >> 1),
            final(self).registers.zf() == (r == 0),
            !final(self).registers.nf(),
            !final(self).registers.hf(),
            final(self).registers.cf() == (v & 0x01 != 0),
    {
        let r: u8 = v >> 1;
        self.registers.flag(CpuFlag::Z, r == 0);
        self.registers.flag(CpuFlag::H, false);
        self.registers.flag(CpuFlag::N, false);
        self.registers.flag(CpuFlag::C, v & 0x01 != 0);
        r
    }

    /// Swap the nibbles; Subtract, Half-carry and Carry cleared.
    pub fn alu_swap(&mut self, v: u8) -> (r: u8)
        requires
            old(self).wf(),
        ensures
            final(self).wf(),
            final(self).only_flags_changed(*old(self)),
            r == ((v << 4) | (v >> 4)),
            final(self).registers.zf() == (r == 0),
            !final(self).registers.nf(),
            !final(self).registers.hf(),
            !final(self).registers.cf(),
    {
        let r: u8 = (v << 4) | (v >> 4);
        self.registers.flag(CpuFlag::Z, r == 0);
        self.registers.flag(CpuFlag::H, false);
        self.registers.flag(CpuFlag::N, false);
        self.registers.flag(CpuFlag::C, false);
        r
    }

    /// Decimal adjust after a binary-coded-decimal addition or
    /// subtraction: Zero from the adjusted result, Half-carry cleared,
    /// Subtract kept.
    pub fn alu_daa(&mut self)
        requires
            old(self).wf(),
        ensures
            final(self).wf(),
            final(self).only_a_flags_changed(*old(self)),
            final(self).registers.zf() == (final(self).registers.a == 0),
            final(self).registers.nf() == old(self).registers.nf(),
            !final(self).registers.hf(),
    {
        let mut adjust: u8 = if self.registers.getflag(CpuFlag::C) {
            0x60
        } else {
            0x00
        };
        if self.registers.getflag(CpuFlag::H) {
            adjust = adjust | 0x06;
        }
        let mut a: u8 = self.registers.a;
        if !self.registers.getflag(CpuFlag::N) {
            if a & 0x0F > 0x09 {
                adjust = adjust | 0x06;
            }
            if a > 0x99 {
                adjust = adjust | 0x60;
            }
            a = a.wrapping_add(adjust);
        } else {
            a = a.wrapping_sub(adjust);
        }
        self.registers.flag(CpuFlag::C, adjust & 0x60 != 0);
        self.registers.flag(CpuFlag::H, false);
        self.registers.flag(CpuFlag::Z, a == 0);
        self.registers.a = a;
    }

    /// The sources both pending and enabled, one bit each in the low
    /// five.
    pub open spec fn spec_pending(self) -> u8 {
        self.memory.inte & self.memory.intf & 0x1F
    }

    /// Read the pending-and-enabled mask.
    pub fn pending(&self) -> (p: u8)
        ensures
            p == self.spec_pending(),
    {
        self.memory.inte & self.memory.intf & 0x1F
    }

    /// The four quirk-state fields nothing but the halt and
    /// interrupt-enable instructions touch.
    pub open spec fn ctrl_unchanged(self, pre: Cpu) -> bool {
        &&& self.halted == pre.halted
        &&& self.ei_delay == pre.ei_delay
        &&& self.halt_bug == pre.halt_bug
        &&& self.compat_halt_bug == pre.compat_halt_bug
    }

    /// Read the 8-bit register an opcode's three-bit field selects; the
    /// seventh selection reads memory at HL.
    fn reg_get(&self, idx: u8) -> (v: u8)
        requires
            self.wf(),
            idx < 8,
        ensures
            v == self.spec_reg8(idx),
    {
        if idx == 0 {
            self.registers.b
        } else if idx == 1 {
            self.registers.c
        } else if idx == 2 {
            self.registers.d
        } else if idx == 3 {
            self.registers.e
        } else if idx == 4 {
            self.registers.h
        } else if idx == 5 {
            self.registers.l
        } else if idx == 6 {
            self.memory.rb(self.registers.hl())
        } else {
            self.registers.a
        }
    }

    /// The value `reg_get` returns.
    pub open spec fn spec_reg8(self, idx: u8) -> u8 {
        if idx == 0 {
            self.registers.b
        } else if idx == 1 {
            self.registers.c
        } else if idx == 2 {
            self.registers.d
        } else if idx == 3 {
            self.registers.e
        } else if idx == 4 {
            self.registers.h
        } else if idx == 5 {
            self.registers.l
        } else if idx == 6 {
            self.memory.spec_rb(self.registers.spec_hl())
        } else {
            self.registers.a
        }
    }

    /// Write the 8-bit register an opcode's three-bit field selects; the
    /// seventh selection writes memory at HL.
    fn reg_set(&mut self, idx: u8, v: u8)
        requires
            old(self).wf(),
            idx < 8,
        ensures
            final(self).wf(),
            final(self).ctrl_unchanged(*old(self)),
            idx != 6 ==> final(self).only_registers_changed(*old(self)) && final(self).registers
                == reg8_set(old(self).registers, idx, v),
            idx == 6 ==> final(self).registers == old(self).registers && wb_post(
                old(self).memory,
                final(self).memory,
                old(self).registers.spec_hl(),
                v,
            ),
            idx != 6 ==> final(self).spec_reg8(idx) == v,
    {
        if idx == 0 {
            self.registers.b = v;
        } else if idx == 1 {
            self.registers.c = v;
        } else if idx == 2 {
            self.registers.d = v;
        } else if idx == 3 {
            self.registers.e = v;
        } else if idx == 4 {
            self.registers.h = v;
        } else if idx == 5 {
            self.registers.l = v;
        } else if idx == 6 {
            let addr: u16 = self.registers.hl();
            self.memory.wb(addr, v);
        } else {
            self.registers.a = v;
        }
    }

    /// Push a word onto the stack.
    fn push(&mut self, w: u16)
        requires
            old(self).wf(),
        ensures
            final(self).wf(),
            final(self).ctrl_unchanged(*old(self)),
            final(self).registers == (Registers {
                sp: old(self).registers.sp.wrapping_sub(2),
                ..old(self).registers
            }),
            final(self).memory.rom@ == old(self).memory.rom@,
            final(self).memory.gpu.timing() == old(self).memory.gpu.timing(),
            final(self).memory.gpu.fb@ == old(self).memory.gpu.fb@,
            final(self).memory.intf == (if old(self).registers.sp.wrapping_sub(1) == 0xFF0F {
                (w >> 8) as u8
            } else if old(self).registers.sp.wrapping_sub(2) == 0xFF0F {
                (w & 0xFF) as u8
            } else {
                old(self).memory.intf
            }),
            plain_ram(old(self).registers.sp.wrapping_sub(2)) && plain_ram(
                old(self).registers.sp.wrapping_sub(1),
            ) ==> mem_regs_same(final(self).memory, old(self).memory) && final(self).memory.spec_rb(
                old(self).registers.sp.wrapping_sub(2),
            ) == (w & 0xFF) as u8 && final(self).memory.spec_rb(
                old(self).registers.sp.wrapping_sub(1),
            ) == (w >> 8) as u8,
    {
        self.registers.sp = self.registers.sp.wrapping_sub(2);
        let sp: u16 = self.registers.sp;
        self.memory.wb(sp, (w & 0xFF) as u8);
        proof {
            let s = old(self).registers.sp;
            assert(s.wrapping_sub(2).wrapping_add(1) == s.wrapping_sub(1)) by (bit_vector);
        }
        self.memory.wb(sp.wrapping_add(1), (w >> 8) as u8);
        proof {
            let a1 = old(self).registers.sp.wrapping_sub(2);
            let a2 = old(self).registers.sp.wrapping_sub(1);
            if plain_ram(a1) && plain_ram(a2) {
                assert(a2 == a1 + 1);
                assert(self.memory.spec_rb(a1) == (w & 0xFF) as u8);
                assert(self.memory.spec_rb(a2) == (w >> 8) as u8);
            }
        }
    }

    /// Pop a word off the stack.
    fn pop(&mut self) -> (w: u16)
        requires
            old(self).wf(),
        ensures
            final(self).wf(),
            final(self).ctrl_unchanged(*old(self)),
            final(self).only_registers_changed(*old(self)),
            final(self).registers == (Registers {
                sp: old(self).registers.sp.wrapping_add(2),
                ..old(self).registers
            }),
            w == old(self).memory.spec_rb(old(self).registers.sp) + old(self).memory.spec_rb(
                old(self).registers.sp.wrapping_add(1),
            ) * 0x100,
    {
        let w: u16 = self.memory.rw(self.registers.sp);
        self.registers.sp = self.registers.sp.wrapping_add(2);
        w
    }

    /// Service the highest-priority pending interrupt: its request bit is
    /// cleared (unless the stack push itself lands on the request mask),
    /// the master enable drops, the return address is pushed, and control
    /// moves to the source's vector.
    fn dispatch_interrupt(&mut self)
        requires
            old(self).wf(),
            old(self).spec_pending() != 0,
        ensures
            final(self).wf(),
            final(self).registers.ime == 0,
            !final(self).halted,
            final(self).ei_delay == old(self).ei_delay,
            final(self).halt_bug == old(self).halt_bug,
            final(self).compat_halt_bug == old(self).compat_halt_bug,
            final(self).memory.gpu.timing() == old(self).memory.gpu.timing(),
            final(self).registers.pc == int_vector(lowest_bit(old(self).spec_pending())),
            final(self).registers.sp == old(self).registers.sp.wrapping_sub(2),
            old(self).registers.sp.wrapping_sub(1) != 0xFF0F && old(self).registers.sp.wrapping_sub(2) != 0xFF0F ==> final(self).memory.intf == (old(self).memory.intf & !(1u8 << lowest_bit(old(self).spec_pending()))),
            plain_ram(old(self).registers.sp.wrapping_sub(2)) && plain_ram(
                old(self).registers.sp.wrapping_sub(1),
            ) ==> mem_regs_same(final(self).memory, old(self).memory) && final(self).memory.intf
                == (old(self).memory.intf & !(1u8 << lowest_bit(old(self).spec_pending()))) && final(self).memory.spec_rb(
                old(self).registers.sp.wrapping_sub(2),
            ) == (old(self).registers.pc & 0xFF) as u8 && final(self).memory.spec_rb(
                old(self).registers.sp.wrapping_sub(1),
            ) == (old(self).registers.pc >> 8) as u8,
    {
        let p: u8 = self.pending();
        let i: u8 = if p & 0x01 != 0 {
            0
        } else if p & 0x02 != 0 {
            1
        } else if p & 0x04 != 0 {
            2
        } else if p & 0x08 != 0 {
            3
        } else {
            4
        };
        self.memory.intf = self.memory.intf & !(1u8 << i);
        self.registers.ime = 0;
        self.halted = false;
        let pc: u16 = self.registers.pc;
        self.push(pc);
        self.registers.pc = 0x40 + 8 * (i as u16);
    }

    /// Move the program counter by a signed 8-bit displacement.
    fn jump_rel(&mut self, n: u8)
        requires
            old(self).wf(),
        ensures
            final(self).wf(),
            final(self).ctrl_unchanged(*old(self)),
            final(self).only_registers_changed(*old(self)),
            final(self).registers == (Registers {
                pc: old(self).registers.pc.wrapping_add((n as i8) as u16),
                ..old(self).registers
            }),
    {
        self.registers.pc = self.registers.pc.wrapping_add((n as i8) as u16);
    }

    /// Add a signed 8-bit displacement to the stack pointer, into either
    /// the stack pointer itself or HL: Zero and Subtract cleared,
    /// Half-carry and Carry from the low byte of the addition.
    fn add_sp_rel(&mut self, n: u8, to_sp: bool)
        requires
            old(self).wf(),
        ensures
            final(self).wf(),
            final(self).ctrl_unchanged(*old(self)),
            final(self).only_registers_changed(*old(self)),
            final(self).registers.pc == old(self).registers.pc,
            to_sp ==> final(self).registers == (Registers {
                sp: final(self).registers.sp,
                f: final(self).registers.f,
                ..old(self).registers
            }),
            !to_sp ==> final(self).registers == (Registers {
                h: final(self).registers.h,
                l: final(self).registers.l,
                f: final(self).registers.f,
                ..old(self).registers
            }),
            to_sp ==> final(self).registers.sp == old(self).registers.sp.wrapping_add(
                (n as i8) as u16,
            ),
            !to_sp ==> final(self).registers.sp == old(self).registers.sp,
            !to_sp ==> final(self).registers.spec_hl() == old(self).registers.sp.wrapping_add(
                (n as i8) as u16,
            ),
            !final(self).registers.zf(),
            !final(self).registers.nf(),
            final(self).registers.hf() == ((old(self).registers.sp & 0x0F) + (n & 0x0F) > 0x0F),
            final(self).registers.cf() == ((old(self).registers.sp & 0xFF) + n > 0xFF),
    {
        proof {
            lemma_u16_masks(old(self).registers.sp);
            lemma_low_nibble(n);
        }
        let sp: u16 = self.registers.sp;
        self.registers.flag(CpuFlag::Z, false);
        self.registers.flag(CpuFlag::N, false);
        self.registers.flag(CpuFlag::H, (sp & 0x0F) + ((n as u16) & 0x0F) > 0x0F);
        self.registers.flag(CpuFlag::C, (sp & 0xFF) + (n as u16) > 0xFF);
        let r: u16 = sp.wrapping_add((n as i8) as u16);
        if to_sp {
            self.registers.sp = r;
        } else {
            self.registers.set_hl(r);
        }
    }

    /// Execute one opcode of the first quarter of the base table: the
    /// 16-bit loads and steps, the 8-bit increments, decrements and
    /// immediate loads, the accumulator rotates, the relative jumps, and
    /// the flag instructions. All of these are defined; the cycle count
    /// is returned.
    #[verifier::rlimit(80)]
    fn exec_low(&mut self, op: u8) -> (cycles: u32)
        requires
            old(self).wf(),
            op < 0x40,
        ensures
            final(self).wf(),
            final(self).ctrl_unchanged(*old(self)),
            final(self).memory.gpu.timing() == old(self).memory.gpu.timing(),
            final(self).registers.ime == old(self).registers.ime,
            4 <= cycles <= 20,
            (op == 0x04 || op == 0x0C || op == 0x14 || op == 0x1C || op == 0x24 || op == 0x2C || op
                == 0x34 || op == 0x3C) ==> cb_value_post(
                *old(self),
                *final(self),
                (op >> 3) & 0x07,
                old(self).spec_reg8((op >> 3) & 0x07).wrapping_add(1),
            ) && final(self).registers.zf() == (old(self).spec_reg8((op >> 3) & 0x07).wrapping_add(
                1,
            ) == 0) && !final(self).registers.nf() && final(self).registers.hf() == (old(self).spec_reg8((op >> 3) & 0x07) & 0x0F == 0x0F) && final(self).registers.cf() == old(self).registers.cf(),
            (op == 0x05 || op == 0x0D || op == 0x15 || op == 0x1D || op == 0x25 || op == 0x2D || op
                == 0x35 || op == 0x3D) ==> cb_value_post(
                *old(self),
                *final(self),
                (op >> 3) & 0x07,
                old(self).spec_reg8((op >> 3) & 0x07).wrapping_sub(1),
            ) && final(self).registers.zf() == (old(self).spec_reg8((op >> 3) & 0x07).wrapping_sub(
                1,
            ) == 0) && final(self).registers.nf() && final(self).registers.hf() == (old(self).spec_reg8((op >> 3) & 0x07) & 0x0F == 0) && final(self).registers.cf() == old(self).registers.cf(),
            (op == 0x06 || op == 0x0E || op == 0x16 || op == 0x1E || op == 0x26 || op == 0x2E || op
                == 0x36 || op == 0x3E) ==> cb_value_post(
                Cpu {
                    registers: (Registers {
                        pc: old(self).registers.pc.wrapping_add(1),
                        ..old(self).registers
                    }),
                    ..*old(self)
                },
                *final(self),
                (op >> 3) & 0x07,
                old(self).memory.spec_rb(old(self).registers.pc),
            ) && final(self).registers.f == old(self).registers.f,
            op == 0x01 ==> final(self).memory == old(self).memory && final(self).registers == (
            Registers {
                b: final(self).registers.b,
                c: final(self).registers.c,
                pc: old(self).registers.pc.wrapping_add(2),
                ..old(self).registers
            }) && final(self).registers.spec_bc() == old(self).memory.spec_rb(
                old(self).registers.pc,
            ) + old(self).memory.spec_rb(old(self).registers.pc.wrapping_add(1)) * 0x100,
            op == 0x11 ==> final(self).memory == old(self).memory && final(self).registers == (
            Registers {
                d: final(self).registers.d,
                e: final(self).registers.e,
                pc: old(self).registers.pc.wrapping_add(2),
                ..old(self).registers
            }) && final(self).registers.spec_de() == old(self).memory.spec_rb(
                old(self).registers.pc,
            ) + old(self).memory.spec_rb(old(self).registers.pc.wrapping_add(1)) * 0x100,
            op == 0x21 ==> final(self).memory == old(self).memory && final(self).registers == (
            Registers {
                h: final(self).registers.h,
                l: final(self).registers.l,
                pc: old(self).registers.pc.wrapping_add(2),
                ..old(self).registers
            }) && final(self).registers.spec_hl() == old(self).memory.spec_rb(
                old(self).registers.pc,
            ) + old(self).memory.spec_rb(old(self).registers.pc.wrapping_add(1)) * 0x100,
            op == 0x31 ==> final(self).memory == old(self).memory && final(self).registers == (
            Registers {
                sp: (old(self).memory.spec_rb(old(self).registers.pc) + old(self).memory.spec_rb(
                    old(self).registers.pc.wrapping_add(1),
                ) * 0x100) as u16,
                pc: old(self).registers.pc.wrapping_add(2),
                ..old(self).registers
            }),
            op == 0x03 ==> final(self).memory == old(self).memory && final(self).registers == (
            Registers { b: final(self).registers.b, c: final(self).registers.c, ..old(self).registers }) && final(self).registers.spec_bc() == old(self).registers.spec_bc().wrapping_add(1),
            op == 0x13 ==> final(self).memory == old(self).memory && final(self).registers == (
            Registers { d: final(self).registers.d, e: final(self).registers.e, ..old(self).registers }) && final(self).registers.spec_de() == old(self).registers.spec_de().wrapping_add(1),
            op == 0x23 ==> final(self).memory == old(self).memory && final(self).registers == (
            Registers { h: final(self).registers.h, l: final(self).registers.l, ..old(self).registers }) && final(self).registers.spec_hl() == old(self).registers.spec_hl().wrapping_add(1),
            op == 0x33 ==> final(self).memory == old(self).memory && final(self).registers == (
            Registers { sp: old(self).registers.sp.wrapping_add(1), ..old(self).registers }),
            op == 0x0B ==> final(self).memory == old(self).memory && final(self).registers == (
            Registers { b: final(self).registers.b, c: final(self).registers.c, ..old(self).registers }) && final(self).registers.spec_bc() == old(self).registers.spec_bc().wrapping_sub(1),
            op == 0x1B ==> final(self).memory == old(self).memory && final(self).registers == (
            Registers { d: final(self).registers.d, e: final(self).registers.e, ..old(self).registers }) && final(self).registers.spec_de() == old(self).registers.spec_de().wrapping_sub(1),
            op == 0x2B ==> final(self).memory == old(self).memory && final(self).registers == (
            Registers { h: final(self).registers.h, l: final(self).registers.l, ..old(self).registers }) && final(self).registers.spec_hl() == old(self).registers.spec_hl().wrapping_sub(1),
            op == 0x3B ==> final(self).memory == old(self).memory && final(self).registers == (
            Registers { sp: old(self).registers.sp.wrapping_sub(1), ..old(self).registers }),
            (op == 0x09 || op == 0x19 || op == 0x29 || op == 0x39) ==> final(self).memory == old(self).memory && final(self).registers == (Registers {
                h: final(self).registers.h,
                l: final(self).registers.l,
                f: final(self).registers.f,
                ..old(self).registers
            }) && final(self).registers.spec_hl() == old(self).registers.spec_hl().wrapping_add(
                if op == 0x09 {
                    old(self).registers.spec_bc()
                } else if op == 0x19 {
                    old(self).registers.spec_de()
                } else if op == 0x29 {
                    old(self).registers.spec_hl()
                } else {
                    old(self).registers.sp
                },
            ) && final(self).registers.zf() == old(self).registers.zf() && !final(self).registers.nf(),
            (op == 0x07 || op == 0x0F || op == 0x17 || op == 0x1F) ==> final(self).memory == old(self).memory && final(self).registers == (Registers {
                a: rot_result(
                    (op >> 3) & 0x07,
                    old(self).registers.a,
                    old(self).registers.cf(),
                ),
                f: final(self).registers.f,
                ..old(self).registers
            }) && !final(self).registers.zf() && !final(self).registers.nf() && !final(self).registers.hf() && final(self).registers.cf() == rot_carry(
                (op >> 3) & 0x07,
                old(self).registers.a,
            ),
            op == 0x02 ==> final(self).registers == old(self).registers && wb_post(
                old(self).memory,
                final(self).memory,
                old(self).registers.spec_bc(),
                old(self).registers.a,
            ),
            op == 0x12 ==> final(self).registers == old(self).registers && wb_post(
                old(self).memory,
                final(self).memory,
                old(self).registers.spec_de(),
                old(self).registers.a,
            ),
            (op == 0x22 || op == 0x32) ==> final(self).registers == (Registers {
                h: final(self).registers.h,
                l: final(self).registers.l,
                ..old(self).registers
            }) && final(self).registers.spec_hl() == (if op == 0x22 {
                old(self).registers.spec_hl().wrapping_add(1)
            } else {
                old(self).registers.spec_hl().wrapping_sub(1)
            }) && wb_post(
                old(self).memory,
                final(self).memory,
                old(self).registers.spec_hl(),
                old(self).registers.a,
            ),
            op == 0x0A ==> final(self).memory == old(self).memory && final(self).registers == (
            Registers {
                a: old(self).memory.spec_rb(old(self).registers.spec_bc()),
                ..old(self).registers
            }),
            op == 0x1A ==> final(self).memory == old(self).memory && final(self).registers == (
            Registers {
                a: old(self).memory.spec_rb(old(self).registers.spec_de()),
                ..old(self).registers
            }),
            (op == 0x2A || op == 0x3A) ==> final(self).memory == old(self).memory && final(self).registers == (Registers {
                a: old(self).memory.spec_rb(old(self).registers.spec_hl()),
                h: final(self).registers.h,
                l: final(self).registers.l,
                ..old(self).registers
            }) && final(self).registers.spec_hl() == (if op == 0x2A {
                old(self).registers.spec_hl().wrapping_add(1)
            } else {
                old(self).registers.spec_hl().wrapping_sub(1)
            }),
            op == 0x18 ==> final(self).memory == old(self).memory && final(self).registers == (
            Registers {
                pc: old(self).registers.pc.wrapping_add(1).wrapping_add(
                    (old(self).memory.spec_rb(old(self).registers.pc) as i8) as u16,
                ),
                ..old(self).registers
            }),
            (op == 0x20 || op == 0x28 || op == 0x30 || op == 0x38) ==> final(self).memory == old(self).memory && final(self).registers == (Registers {
                pc: if (if op == 0x20 {
                    !old(self).registers.zf()
                } else if op == 0x28 {
                    old(self).registers.zf()
                } else if op == 0x30 {
                    !old(self).registers.cf()
                } else {
                    old(self).registers.cf()
                }) {
                    old(self).registers.pc.wrapping_add(1).wrapping_add(
                        (old(self).memory.spec_rb(old(self).registers.pc) as i8) as u16,
                    )
                } else {
                    old(self).registers.pc.wrapping_add(1)
                },
                ..old(self).registers
            }),
            op == 0x10 ==> final(self).memory == old(self).memory && final(self).registers == (
            Registers { pc: old(self).registers.pc.wrapping_add(1), ..old(self).registers }),
            op == 0x27 ==> final(self).memory == old(self).memory && final(self).registers == (
            Registers {
                a: final(self).registers.a,
                f: final(self).registers.f,
                ..old(self).registers
            }) && final(self).registers.zf() == (final(self).registers.a == 0) && final(self).registers.nf() == old(self).registers.nf() && !final(self).registers.hf(),
            op == 0x2F ==> final(self).memory == old(self).memory && final(self).registers == (
            Registers {
                a: !old(self).registers.a,
                f: final(self).registers.f,
                ..old(self).registers
            }) && final(self).registers.nf() && final(self).registers.hf() && final(self).registers.zf() == old(self).registers.zf() && final(self).registers.cf() == old(self).registers.cf(),
            op == 0x37 ==> final(self).memory == old(self).memory && final(self).registers == (
            Registers { f: final(self).registers.f, ..old(self).registers }) && final(self).registers.cf() && !final(self).registers.nf() && !final(self).registers.hf()
                && final(self).registers.zf() == old(self).registers.zf(),
            op == 0x3F ==> final(self).memory == old(self).memory && final(self).registers == (
            Registers { f: final(self).registers.f, ..old(self).registers }) && final(self).registers.cf() == !old(self).registers.cf() && !final(self).registers.nf() && !final(self).registers.hf() && final(self).registers.zf() == old(self).registers.zf(),
    {
        proof {
            lemma_low_rows();
        }
        match op {
            0x00 => 4,
            0x01 => {
                let w: u16 = self.fetch_word();
                self.registers.set_bc(w);
                12
            },
            0x02 => {
                let a: u8 = self.registers.a;
                let addr: u16 = self.registers.bc();
                self.memory.wb(addr, a);
                8
            },
            0x03 => {
                let w: u16 = self.registers.bc().wrapping_add(1);
                self.registers.set_bc(w);
                8
            },
            0x04 => {
                let v: u8 = self.registers.b;
                let r: u8 = self.alu_inc(v);
                self.registers.b = r;
                4
            },
            0x05 => {
                let v: u8 = self.registers.b;
                let r: u8 = self.alu_dec(v);
                self.registers.b = r;
                4
            },
            0x06 => {
                let v: u8 = self.fetch_byte();
                self.registers.b = v;
                8
            },
            0x07 => {
                let a: u8 = self.registers.a;
                let r: u8 = self.alu_rlc(a, false);
                self.registers.a = r;
                4
            },
            0x08 => {
                let addr: u16 = self.fetch_word();
                let sp: u16 = self.registers.sp;
                self.memory.ww(addr, sp);
                20
            },
            0x09 => {
                let b: u16 = self.registers.bc();
                self.alu_add16(b);
                8
            },
            0x0A => {
                let addr: u16 = self.registers.bc();
                let v: u8 = self.memory.rb(addr);
                self.registers.a = v;
                8
            },
            0x0B => {
                let w: u16 = self.registers.bc().wrapping_sub(1);
                self.registers.set_bc(w);
                8
            },
            0x0C => {
                let v: u8 = self.registers.c;
                let r: u8 = self.alu_inc(v);
                self.registers.c = r;
                4
            },
            0x0D => {
                let v: u8 = self.registers.c;
                let r: u8 = self.alu_dec(v);
                self.registers.c = r;
                4
            },
            0x0E => {
                let v: u8 = self.fetch_byte();
                self.registers.c = v;
                8
            },
            0x0F => {
                let a: u8 = self.registers.a;
                let r: u8 = self.alu_rrc(a, false);
                self.registers.a = r;
                4
            },
            0x10 => {
                let _pad: u8 = self.fetch_byte();
                4
            },
            0x11 => {
                let w: u16 = self.fetch_word();
                self.registers.set_de(w);
                12
            },
            0x12 => {
                let a: u8 = self.registers.a;
                let addr: u16 = self.registers.de();
                self.memory.wb(addr, a);
                8
            },
            0x13 => {
                let w: u16 = self.registers.de().wrapping_add(1);
                self.registers.set_de(w);
                8
            },
            0x14 => {
                let v: u8 = self.registers.d;
                let r: u8 = self.alu_inc(v);
                self.registers.d = r;
                4
            },
            0x15 => {
                let v: u8 = self.registers.d;
                let r: u8 = self.alu_dec(v);
                self.registers.d = r;
                4
            },
            0x16 => {
                let v: u8 = self.fetch_byte();
                self.registers.d = v;
                8
            },
            0x17 => {
                let a: u8 = self.registers.a;
                let r: u8 = self.alu_rl(a, false);
                self.registers.a = r;
                4
            },
            0x18 => {
                let n: u8 = self.fetch_byte();
                self.jump_rel(n);
                12
            },
            0x19 => {
                let b: u16 = self.registers.de();
                self.alu_add16(b);
                8
            },
            0x1A => {
                let addr: u16 = self.registers.de();
                let v: u8 = self.memory.rb(addr);
                self.registers.a = v;
                8
            },
            0x1B => {
                let w: u16 = self.registers.de().wrapping_sub(1);
                self.registers.set_de(w);
                8
            },
            0x1C => {
                let v: u8 = self.registers.e;
                let r: u8 = self.alu_inc(v);
                self.registers.e = r;
                4
            },
            0x1D => {
                let v: u8 = self.registers.e;
                let r: u8 = self.alu_dec(v);
                self.registers.e = r;
                4
            },
            0x1E => {
                let v: u8 = self.fetch_byte();
                self.registers.e = v;
                8
            },
            0x1F => {
                let a: u8 = self.registers.a;
                let r: u8 = self.alu_rr(a, false);
                self.registers.a = r;
                4
            },
            0x20 => {
                let n: u8 = self.fetch_byte();
                if !self.registers.getflag(CpuFlag::Z) {
                    self.jump_rel(n);
                    12
                } else {
                    8
                }
            },
            0x21 => {
                let w: u16 = self.fetch_word();
                self.registers.set_hl(w);
                12
            },
            0x22 => {
                let a: u8 = self.registers.a;
                let hl: u16 = self.registers.hl();
                self.memory.wb(hl, a);
                self.registers.set_hl(hl.wrapping_add(1));
                8
            },
            0x23 => {
                let w: u16 = self.registers.hl().wrapping_add(1);
                self.registers.set_hl(w);
                8
            },
            0x24 => {
                let v: u8 = self.registers.h;
                let r: u8 = self.alu_inc(v);
                self.registers.h = r;
                4
            },
            0x25 => {
                let v: u8 = self.registers.h;
                let r: u8 = self.alu_dec(v);
                self.registers.h = r;
                4
            },
            0x26 => {
                let v: u8 = self.fetch_byte();
                self.registers.h = v;
                8
            },
            0x27 => {
                self.alu_daa();
                4
            },
            0x28 => {
                let n: u8 = self.fetch_byte();
                if self.registers.getflag(CpuFlag::Z) {
                    self.jump_rel(n);
                    12
                } else {
                    8
                }
            },
            0x29 => {
                let b: u16 = self.registers.hl();
                self.alu_add16(b);
                8
            },
            0x2A => {
                let hl: u16 = self.registers.hl();
                let v: u8 = self.memory.rb(hl);
                self.registers.a = v;
                self.registers.set_hl(hl.wrapping_add(1));
                8
            },
            0x2B => {
                let w: u16 = self.registers.hl().wrapping_sub(1);
                self.registers.set_hl(w);
                8
            },
            0x2C => {
                let v: u8 = self.registers.l;
                let r: u8 = self.alu_inc(v);
                self.registers.l = r;
                4
            },
            0x2D => {
                let v: u8 = self.registers.l;
                let r: u8 = self.alu_dec(v);
                self.registers.l = r;
                4
            },
            0x2E => {
                let v: u8 = self.fetch_byte();
                self.registers.l = v;
                8
            },
            0x2F => {
                let a: u8 = self.registers.a;
                self.registers.a = !a;
                self.registers.flag(CpuFlag::H, true);
                self.registers.flag(CpuFlag::N, true);
                4
            },
            0x30 => {
                let n: u8 = self.fetch_byte();
                if !self.registers.getflag(CpuFlag::C) {
                    self.jump_rel(n);
                    12
                } else {
                    8
                }
            },
            0x31 => {
                let w: u16 = self.fetch_word();
                self.registers.sp = w;
                12
            },
            0x32 => {
                let a: u8 = self.registers.a;
                let hl: u16 = self.registers.hl();
                self.memory.wb(hl, a);
                self.registers.set_hl(hl.wrapping_sub(1));
                8
            },
            0x33 => {
                self.registers.sp = self.registers.sp.wrapping_add(1);
                8
            },
            0x34 => {
                let hl: u16 = self.registers.hl();
                let v: u8 = self.memory.rb(hl);
                let r: u8 = self.alu_inc(v);
                self.memory.wb(hl, r);
                12
            },
            0x35 => {
                let hl: u16 = self.registers.hl();
                let v: u8 = self.memory.rb(hl);
                let r: u8 = self.alu_dec(v);
                self.memory.wb(hl, r);
                12
            },
            0x36 => {
                let n: u8 = self.fetch_byte();
                let hl: u16 = self.registers.hl();
                self.memory.wb(hl, n);
                12
            },
            0x37 => {
                self.registers.flag(CpuFlag::C, true);
                self.registers.flag(CpuFlag::N, false);
                self.registers.flag(CpuFlag::H, false);
                4
            },
            0x38 => {
                let n: u8 = self.fetch_byte();
                if self.registers.getflag(CpuFlag::C) {
                    self.jump_rel(n);
                    12
                } else {
                    8
                }
            },
            0x39 => {
                let sp: u16 = self.registers.sp;
                self.alu_add16(sp);
                8
            },
            0x3A => {
                let hl: u16 = self.registers.hl();
                let v: u8 = self.memory.rb(hl);
                self.registers.a = v;
                self.registers.set_hl(hl.wrapping_sub(1));
                8
            },
            0x3B => {
                self.registers.sp = self.registers.sp.wrapping_sub(1);
                8
            },
            0x3C => {
                let v: u8 = self.registers.a;
                let r: u8 = self.alu_inc(v);
                self.registers.a = r;
                4
            },
            0x3D => {
                let v: u8 = self.registers.a;
                let r: u8 = self.alu_dec(v);
                self.registers.a = r;
                4
            },
            0x3E => {
                let v: u8 = self.fetch_byte();
                self.registers.a = v;
                8
            },
            _ => {
                let c: bool = self.registers.getflag(CpuFlag::C);
                self.registers.flag(CpuFlag::C, !c);
                self.registers.flag(CpuFlag::N, false);
                self.registers.flag(CpuFlag::H, false);
                4
            },
        }
    }

    /// Execute one opcode of the last quarter of the base table: the
    /// returns, jumps, calls, stack operations, immediate arithmetic,
    /// restart vectors, the high-page loads, and interrupt masking. The
    /// eleven bytes with no decoding report the fault.
    #[verifier::rlimit(100)]
    fn exec_high(&mut self, op: u8) -> (r: Result<u32, ExecError>)
        requires
            old(self).wf(),
            op >= 0xC0,
        ensures
            final(self).wf(),
            final(self).halted == old(self).halted,
            final(self).memory.gpu.timing() == old(self).memory.gpu.timing(),
            final(self).registers.ime == (if op == 0xF3 {
                0u8
            } else if op == 0xD9 {
                1u8
            } else {
                old(self).registers.ime
            }),
            final(self).ei_delay == (if op == 0xFB {
                2u8
            } else if op == 0xF3 || op == 0xD9 {
                0u8
            } else {
                old(self).ei_delay
            }),
            r is Ok ==> 4 <= r->Ok_0 <= 24,
            r is Err <==> !spec_defined_opcode(op),
            r is Err ==> *final(self) == *old(self),
            (op == 0xC6 || op == 0xCE || op == 0xD6 || op == 0xDE || op == 0xE6 || op == 0xEE
                || op == 0xF6 || op == 0xFE) ==> alu_post(
                Cpu {
                    registers: (Registers {
                        pc: old(self).registers.pc.wrapping_add(1),
                        ..old(self).registers
                    }),
                    ..*old(self)
                },
                *final(self),
                (op >> 3) & 0x07,
                old(self).memory.spec_rb(old(self).registers.pc),
            ),
            op == 0xCB ==> cb_effect(
                Cpu {
                    registers: (Registers {
                        pc: old(self).registers.pc.wrapping_add(1),
                        ..old(self).registers
                    }),
                    ..*old(self)
                },
                *final(self),
                old(self).memory.spec_rb(old(self).registers.pc),
            ),
            (op == 0xC7 || op == 0xCF || op == 0xD7 || op == 0xDF || op == 0xE7 || op == 0xEF || op
                == 0xF7 || op == 0xFF) ==> final(self).registers.pc == 8 * (((op >> 3)
                & 0x07) as u16) && final(self).registers.sp == old(self).registers.sp.wrapping_sub(
                2,
            ) && (plain_ram(old(self).registers.sp.wrapping_sub(2)) && plain_ram(
                old(self).registers.sp.wrapping_sub(1),
            ) ==> final(self).memory.spec_rb(old(self).registers.sp.wrapping_sub(2)) == (old(self).registers.pc & 0xFF) as u8 && final(self).memory.spec_rb(
                old(self).registers.sp.wrapping_sub(1),
            ) == (old(self).registers.pc >> 8) as u8),
            op == 0xC3 ==> final(self).memory == old(self).memory && final(self).registers.pc
                == old(self).memory.spec_rb(old(self).registers.pc) + old(self).memory.spec_rb(
                old(self).registers.pc.wrapping_add(1),
            ) * 0x100 && final(self).registers.sp == old(self).registers.sp,
            op == 0xC9 ==> final(self).memory == old(self).memory && final(self).registers.pc
                == old(self).memory.spec_rb(old(self).registers.sp) + old(self).memory.spec_rb(
                old(self).registers.sp.wrapping_add(1),
            ) * 0x100 && final(self).registers.sp == old(self).registers.sp.wrapping_add(2),
            op == 0xCD ==> final(self).registers.pc == old(self).memory.spec_rb(
                old(self).registers.pc,
            ) + old(self).memory.spec_rb(old(self).registers.pc.wrapping_add(1)) * 0x100 && final(self).registers.sp == old(self).registers.sp.wrapping_sub(2) && (plain_ram(
                old(self).registers.sp.wrapping_sub(2),
            ) && plain_ram(old(self).registers.sp.wrapping_sub(1)) ==> final(self).memory.spec_rb(
                old(self).registers.sp.wrapping_sub(2),
            ) == (old(self).registers.pc.wrapping_add(2) & 0xFF) as u8 && final(self).memory.spec_rb(old(self).registers.sp.wrapping_sub(1)) == (old(self).registers.pc.wrapping_add(2) >> 8) as u8),
            (op == 0xC1 || op == 0xD1 || op == 0xE1 || op == 0xF1) ==> final(self).memory == old(self).memory && final(self).registers == (Registers {
                b: if op == 0xC1 {
                    old(self).memory.spec_rb(old(self).registers.sp.wrapping_add(1))
                } else {
                    old(self).registers.b
                },
                c: if op == 0xC1 {
                    old(self).memory.spec_rb(old(self).registers.sp)
                } else {
                    old(self).registers.c
                },
                d: if op == 0xD1 {
                    old(self).memory.spec_rb(old(self).registers.sp.wrapping_add(1))
                } else {
                    old(self).registers.d
                },
                e: if op == 0xD1 {
                    old(self).memory.spec_rb(old(self).registers.sp)
                } else {
                    old(self).registers.e
                },
                h: if op == 0xE1 {
                    old(self).memory.spec_rb(old(self).registers.sp.wrapping_add(1))
                } else {
                    old(self).registers.h
                },
                l: if op == 0xE1 {
                    old(self).memory.spec_rb(old(self).registers.sp)
                } else {
                    old(self).registers.l
                },
                a: if op == 0xF1 {
                    old(self).memory.spec_rb(old(self).registers.sp.wrapping_add(1))
                } else {
                    old(self).registers.a
                },
                f: if op == 0xF1 {
                    old(self).memory.spec_rb(old(self).registers.sp) & 0xF0
                } else {
                    old(self).registers.f
                },
                sp: old(self).registers.sp.wrapping_add(2),
                ..old(self).registers
            }),
            op == 0xE9 ==> final(self).memory == old(self).memory && final(self).registers == (
            Registers { pc: old(self).registers.spec_hl(), ..old(self).registers }),
            op == 0xF9 ==> final(self).memory == old(self).memory && final(self).registers == (
            Registers { sp: old(self).registers.spec_hl(), ..old(self).registers }),
            op == 0xE0 ==> final(self).registers == (Registers {
                pc: old(self).registers.pc.wrapping_add(1),
                ..old(self).registers
            }) && wb_post(
                old(self).memory,
                final(self).memory,
                (0xFF00 + old(self).memory.spec_rb(old(self).registers.pc)) as u16,
                old(self).registers.a,
            ),
            op == 0xF0 ==> final(self).memory == old(self).memory && final(self).registers == (
            Registers {
                a: old(self).memory.spec_rb(
                    (0xFF00 + old(self).memory.spec_rb(old(self).registers.pc)) as u16,
                ),
                pc: old(self).registers.pc.wrapping_add(1),
                ..old(self).registers
            }),
            op == 0xE2 ==> final(self).registers == old(self).registers && wb_post(
                old(self).memory,
                final(self).memory,
                (0xFF00 + old(self).registers.c) as u16,
                old(self).registers.a,
            ),
            op == 0xF2 ==> final(self).memory == old(self).memory && final(self).registers == (
            Registers {
                a: old(self).memory.spec_rb((0xFF00 + old(self).registers.c) as u16),
                ..old(self).registers
            }),
            op == 0xEA ==> final(self).registers == (Registers {
                pc: old(self).registers.pc.wrapping_add(2),
                ..old(self).registers
            }) && wb_post(
                old(self).memory,
                final(self).memory,
                (old(self).memory.spec_rb(old(self).registers.pc) + old(self).memory.spec_rb(
                    old(self).registers.pc.wrapping_add(1),
                ) * 0x100) as u16,
                old(self).registers.a,
            ),
            op == 0xFA ==> final(self).memory == old(self).memory && final(self).registers == (
            Registers {
                a: old(self).memory.spec_rb(
                    (old(self).memory.spec_rb(old(self).registers.pc) + old(self).memory.spec_rb(
                        old(self).registers.pc.wrapping_add(1),
                    ) * 0x100) as u16,
                ),
                pc: old(self).registers.pc.wrapping_add(2),
                ..old(self).registers
            }),
            (op == 0xC2 || op == 0xCA || op == 0xD2 || op == 0xDA) ==> final(self).memory == old(self).memory && final(self).registers == (Registers {
                pc: if (if op == 0xC2 {
                    !old(self).registers.zf()
                } else if op == 0xCA {
                    old(self).registers.zf()
                } else if op == 0xD2 {
                    !old(self).registers.cf()
                } else {
                    old(self).registers.cf()
                }) {
                    (old(self).memory.spec_rb(old(self).registers.pc) + old(self).memory.spec_rb(
                        old(self).registers.pc.wrapping_add(1),
                    ) * 0x100) as u16
                } else {
                    old(self).registers.pc.wrapping_add(2)
                },
                ..old(self).registers
            }),
            (op == 0xC0 || op == 0xC8 || op == 0xD0 || op == 0xD8) ==> final(self).memory == old(self).memory && final(self).registers == (Registers {
                pc: if (if op == 0xC0 {
                    !old(self).registers.zf()
                } else if op == 0xC8 {
                    old(self).registers.zf()
                } else if op == 0xD0 {
                    !old(self).registers.cf()
                } else {
                    old(self).registers.cf()
                }) {
                    (old(self).memory.spec_rb(old(self).registers.sp) + old(self).memory.spec_rb(
                        old(self).registers.sp.wrapping_add(1),
                    ) * 0x100) as u16
                } else {
                    old(self).registers.pc
                },
                sp: if (if op == 0xC0 {
                    !old(self).registers.zf()
                } else if op == 0xC8 {
                    old(self).registers.zf()
                } else if op == 0xD0 {
                    !old(self).registers.cf()
                } else {
                    old(self).registers.cf()
                }) {
                    old(self).registers.sp.wrapping_add(2)
                } else {
                    old(self).registers.sp
                },
                ..old(self).registers
            }),
            (op == 0xC4 || op == 0xCC || op == 0xD4 || op == 0xDC) && !(if op == 0xC4 {
                !old(self).registers.zf()
            } else if op == 0xCC {
                old(self).registers.zf()
            } else if op == 0xD4 {
                !old(self).registers.cf()
            } else {
                old(self).registers.cf()
            }) ==> final(self).memory == old(self).memory && final(self).registers == (Registers {
                pc: old(self).registers.pc.wrapping_add(2),
                ..old(self).registers
            }),
            (op == 0xC4 || op == 0xCC || op == 0xD4 || op == 0xDC) && (if op == 0xC4 {
                !old(self).registers.zf()
            } else if op == 0xCC {
                old(self).registers.zf()
            } else if op == 0xD4 {
                !old(self).registers.cf()
            } else {
                old(self).registers.cf()
            }) ==> final(self).registers == (Registers {
                pc: (old(self).memory.spec_rb(old(self).registers.pc) + old(self).memory.spec_rb(
                    old(self).registers.pc.wrapping_add(1),
                ) * 0x100) as u16,
                sp: old(self).registers.sp.wrapping_sub(2),
                ..old(self).registers
            }) && (plain_ram(old(self).registers.sp.wrapping_sub(2)) && plain_ram(
                old(self).registers.sp.wrapping_sub(1),
            ) ==> final(self).memory.spec_rb(old(self).registers.sp.wrapping_sub(2)) == (old(self).registers.pc.wrapping_add(2) & 0xFF) as u8 && final(self).memory.spec_rb(
                old(self).registers.sp.wrapping_sub(1),
            ) == (old(self).registers.pc.wrapping_add(2) >> 8) as u8),
            op == 0xF5 ==> final(self).registers == (Registers {
                sp: old(self).registers.sp.wrapping_sub(2),
                ..old(self).registers
            }) && (plain_ram(old(self).registers.sp.wrapping_sub(2)) && plain_ram(
                old(self).registers.sp.wrapping_sub(1),
            ) ==> final(self).memory.spec_rb(old(self).registers.sp.wrapping_sub(2)) == old(self).registers.f && final(self).memory.spec_rb(old(self).registers.sp.wrapping_sub(1))
                == old(self).registers.a),
            op == 0xE8 ==> final(self).memory == old(self).memory && final(self).registers == (
            Registers {
                sp: old(self).registers.sp.wrapping_add(
                    (old(self).memory.spec_rb(old(self).registers.pc) as i8) as u16,
                ),
                f: final(self).registers.f,
                pc: old(self).registers.pc.wrapping_add(1),
                ..old(self).registers
            }) && !final(self).registers.zf() && !final(self).registers.nf(),
            op == 0xF8 ==> final(self).memory == old(self).memory && final(self).registers == (
            Registers {
                h: final(self).registers.h,
                l: final(self).registers.l,
                f: final(self).registers.f,
                pc: old(self).registers.pc.wrapping_add(1),
                ..old(self).registers
            }) && final(self).registers.spec_hl() == old(self).registers.sp.wrapping_add(
                (old(self).memory.spec_rb(old(self).registers.pc) as i8) as u16,
            ) && !final(self).registers.zf() && !final(self).registers.nf(),
            (op == 0xC5 || op == 0xD5 || op == 0xE5) ==> final(self).registers == (Registers {
                sp: old(self).registers.sp.wrapping_sub(2),
                ..old(self).registers
            }) && (plain_ram(old(self).registers.sp.wrapping_sub(2)) && plain_ram(
                old(self).registers.sp.wrapping_sub(1),
            ) ==> final(self).memory.spec_rb(old(self).registers.sp.wrapping_sub(2)) == (if op
                == 0xC5 {
                old(self).registers.c
            } else if op == 0xD5 {
                old(self).registers.e
            } else {
                old(self).registers.l
            }) && final(self).memory.spec_rb(old(self).registers.sp.wrapping_sub(1)) == (if op
                == 0xC5 {
                old(self).registers.b
            } else if op == 0xD5 {
                old(self).registers.d
            } else {
                old(self).registers.h
            })),
    {
        proof {
            lemma_3bit(op >> 3);
            lemma_imm_alu_rows();
            lemma_op_row(op);
        }
        match op {
            0xC0 => {
                if !self.registers.getflag(CpuFlag::Z) {
                    let w: u16 = self.pop();
                    self.registers.pc = w;
                    Ok(20)
                } else {
                    Ok(8)
                }
            },
            0xC1 => {
                let w: u16 = self.pop();
                proof {
                    lemma_pair_bytes(
                        old(self).memory.spec_rb(old(self).registers.sp.wrapping_add(1)),
                        old(self).memory.spec_rb(old(self).registers.sp),
                    );
                }
                self.registers.set_bc(w);
                Ok(12)
            },
            0xC2 => {
                let w: u16 = self.fetch_word();
                if !self.registers.getflag(CpuFlag::Z) {
                    self.registers.pc = w;
                    Ok(16)
                } else {
                    Ok(12)
                }
            },
            0xC3 => {
                let w: u16 = self.fetch_word();
                self.registers.pc = w;
                Ok(16)
            },
            0xC4 => {
                let w: u16 = self.fetch_word();
                if !self.registers.getflag(CpuFlag::Z) {
                    let pc: u16 = self.registers.pc;
                    self.push(pc);
                    self.registers.pc = w;
                    Ok(24)
                } else {
                    Ok(12)
                }
            },
            0xC5 => {
                let w: u16 = self.registers.bc();
                proof {
                    lemma_pair_bytes(self.registers.b, self.registers.c);
                }
                self.push(w);
                Ok(16)
            },
            0xC6 => {
                let n: u8 = self.fetch_byte();
                self.alu_add(n);
                Ok(8)
            },
            0xC7 => {
                let pc: u16 = self.registers.pc;
                self.push(pc);
                self.registers.pc = 0x00;
                Ok(16)
            },
            0xC8 => {
                if self.registers.getflag(CpuFlag::Z) {
                    let w: u16 = self.pop();
                    self.registers.pc = w;
                    Ok(20)
                } else {
                    Ok(8)
                }
            },
            0xC9 => {
                let w: u16 = self.pop();
                self.registers.pc = w;
                Ok(16)
            },
            0xCA => {
                let w: u16 = self.fetch_word();
                if self.registers.getflag(CpuFlag::Z) {
                    self.registers.pc = w;
                    Ok(16)
                } else {
                    Ok(12)
                }
            },
            0xCB => {
                let op2: u8 = self.fetch_byte();
                let c: u32 = self.exec_cb(op2);
                Ok(c)
            },
            0xCC => {
                let w: u16 = self.fetch_word();
                if self.registers.getflag(CpuFlag::Z) {
                    let pc: u16 = self.registers.pc;
                    self.push(pc);
                    self.registers.pc = w;
                    Ok(24)
                } else {
                    Ok(12)
                }
            },
            0xCD => {
                let w: u16 = self.fetch_word();
                let pc: u16 = self.registers.pc;
                self.push(pc);
                self.registers.pc = w;
                Ok(24)
            },
            0xCE => {
                let n: u8 = self.fetch_byte();
                self.alu_adc(n);
                Ok(8)
            },
            0xCF => {
                let pc: u16 = self.registers.pc;
                self.push(pc);
                self.registers.pc = 0x08;
                Ok(16)
            },
            0xD0 => {
                if !self.registers.getflag(CpuFlag::C) {
                    let w: u16 = self.pop();
                    self.registers.pc = w;
                    Ok(20)
                } else {
                    Ok(8)
                }
            },
            0xD1 => {
                let w: u16 = self.pop();
                proof {
                    lemma_pair_bytes(
                        old(self).memory.spec_rb(old(self).registers.sp.wrapping_add(1)),
                        old(self).memory.spec_rb(old(self).registers.sp),
                    );
                }
                self.registers.set_de(w);
                Ok(12)
            },
            0xD2 => {
                let w: u16 = self.fetch_word();
                if !self.registers.getflag(CpuFlag::C) {
                    self.registers.pc = w;
                    Ok(16)
                } else {
                    Ok(12)
                }
            },
            0xD4 => {
                let w: u16 = self.fetch_word();
                if !self.registers.getflag(CpuFlag::C) {
                    let pc: u16 = self.registers.pc;
                    self.push(pc);
                    self.registers.pc = w;
                    Ok(24)
                } else {
                    Ok(12)
                }
            },
            0xD5 => {
                let w: u16 = self.registers.de();
                proof {
                    lemma_pair_bytes(self.registers.d, self.registers.e);
                }
                self.push(w);
                Ok(16)
            },
            0xD6 => {
                let n: u8 = self.fetch_byte();
                self.alu_sub(n);
                Ok(8)
            },
            0xD7 => {
                let pc: u16 = self.registers.pc;
                self.push(pc);
                self.registers.pc = 0x10;
                Ok(16)
            },
            0xD8 => {
                if self.registers.getflag(CpuFlag::C) {
                    let w: u16 = self.pop();
                    self.registers.pc = w;
                    Ok(20)
                } else {
                    Ok(8)
                }
            },
            0xD9 => {
                let w: u16 = self.pop();
                self.registers.pc = w;
                self.registers.ime = 1;
                self.ei_delay = 0;
                Ok(16)
            },
            0xDA => {
                let w: u16 = self.fetch_word();
                if self.registers.getflag(CpuFlag::C) {
                    self.registers.pc = w;
                    Ok(16)
                } else {
                    Ok(12)
                }
            },
            0xDC => {
                let w: u16 = self.fetch_word();
                if self.registers.getflag(CpuFlag::C) {
                    let pc: u16 = self.registers.pc;
                    self.push(pc);
                    self.registers.pc = w;
                    Ok(24)
                } else {
                    Ok(12)
                }
            },
            0xDE => {
                let n: u8 = self.fetch_byte();
                self.alu_sbc(n);
                Ok(8)
            },
            0xDF => {
                let pc: u16 = self.registers.pc;
                self.push(pc);
                self.registers.pc = 0x18;
                Ok(16)
            },
            0xE0 => {
                let n: u8 = self.fetch_byte();
                let a: u8 = self.registers.a;
                self.memory.wb(0xFF00 + n as u16, a);
                Ok(12)
            },
            0xE1 => {
                let w: u16 = self.pop();
                proof {
                    lemma_pair_bytes(
                        old(self).memory.spec_rb(old(self).registers.sp.wrapping_add(1)),
                        old(self).memory.spec_rb(old(self).registers.sp),
                    );
                }
                self.registers.set_hl(w);
                Ok(12)
            },
            0xE2 => {
                let a: u8 = self.registers.a;
                let c: u8 = self.registers.c;
                self.memory.wb(0xFF00 + c as u16, a);
                Ok(8)
            },
            0xE5 => {
                let w: u16 = self.registers.hl();
                proof {
                    lemma_pair_bytes(self.registers.h, self.registers.l);
                }
                self.push(w);
                Ok(16)
            },
            0xE6 => {
                let n: u8 = self.fetch_byte();
                self.alu_and(n);
                Ok(8)
            },
            0xE7 => {
                let pc: u16 = self.registers.pc;
                self.push(pc);
                self.registers.pc = 0x20;
                Ok(16)
            },
            0xE8 => {
                let n: u8 = self.fetch_byte();
                self.add_sp_rel(n, true);
                Ok(16)
            },
            0xE9 => {
                let hl: u16 = self.registers.hl();
                self.registers.pc = hl;
                Ok(4)
            },
            0xEA => {
                let w: u16 = self.fetch_word();
                let a: u8 = self.registers.a;
                self.memory.wb(w, a);
                Ok(16)
            },
            0xEE => {
                let n: u8 = self.fetch_byte();
                self.alu_xor(n);
                Ok(8)
            },
            0xEF => {
                let pc: u16 = self.registers.pc;
                self.push(pc);
                self.registers.pc = 0x28;
                Ok(16)
            },
            0xF0 => {
                let n: u8 = self.fetch_byte();
                let v: u8 = self.memory.rb(0xFF00 + n as u16);
                self.registers.a = v;
                Ok(12)
            },
            0xF1 => {
                let w: u16 = self.pop();
                proof {
                    lemma_pair_bytes(
                        old(self).memory.spec_rb(old(self).registers.sp.wrapping_add(1)),
                        old(self).memory.spec_rb(old(self).registers.sp),
                    );
                }
                self.registers.set_af(w);
                Ok(12)
            },
            0xF2 => {
                let c: u8 = self.registers.c;
                let v: u8 = self.memory.rb(0xFF00 + c as u16);
                self.registers.a = v;
                Ok(8)
            },
            0xF3 => {
                self.registers.ime = 0;
                self.ei_delay = 0;
                Ok(4)
            },
            0xF5 => {
                let w: u16 = self.registers.af();
                proof {
                    lemma_pair_bytes(self.registers.a, self.registers.f);
                }
                self.push(w);
                Ok(16)
            },
            0xF6 => {
                let n: u8 = self.fetch_byte();
                self.alu_or(n);
                Ok(8)
            },
            0xF7 => {
                let pc: u16 = self.registers.pc;
                self.push(pc);
                self.registers.pc = 0x30;
                Ok(16)
            },
            0xF8 => {
                let n: u8 = self.fetch_byte();
                self.add_sp_rel(n, false);
                Ok(12)
            },
            0xF9 => {
                let hl: u16 = self.registers.hl();
                self.registers.sp = hl;
                Ok(8)
            },
            0xFA => {
                let w: u16 = self.fetch_word();
                let v: u8 = self.memory.rb(w);
                self.registers.a = v;
                Ok(16)
            },
            0xFB => {
                self.ei_delay = 2;
                Ok(4)
            },
            0xFE => {
                let n: u8 = self.fetch_byte();
                self.alu_cp(n);
                Ok(8)
            },
            0xFF => {
                let pc: u16 = self.registers.pc;
                self.push(pc);
                self.registers.pc = 0x38;
                Ok(16)
            },
            _ => {
                Err(
                    ExecError::UndefinedOpcode {
                        pc: self.registers.pc.wrapping_sub(1),
                        opcode: op,
                    },
                )
            },
        }
    }

    /// Execute one opcode of the extended table: rotates and shifts, the
    /// nibble swap, and the bit test, reset and set families, each over
    /// the register its low three bits select. Every extended byte is
    /// defined; the cycle count is returned.
    fn exec_cb(&mut self, op: u8) -> (cycles: u32)
        requires
            old(self).wf(),
        ensures
            final(self).wf(),
            final(self).ctrl_unchanged(*old(self)),
            final(self).memory.gpu.timing() == old(self).memory.gpu.timing(),
            final(self).registers.ime == old(self).registers.ime,
            cb_effect(*old(self), *final(self), op),
            4 <= cycles <= 16,
    {
        proof {
            lemma_3bit(op);
            lemma_3bit(op >> 3);
        }
        let idx: u8 = op & 0x07;
        let n: u8 = (op >> 3) & 0x07;
        let v: u8 = self.reg_get(idx);
        if op < 0x40 {
            let r: u8 = if n == 0 {
                self.alu_rlc(v, true)
            } else if n == 1 {
                self.alu_rrc(v, true)
            } else if n == 2 {
                self.alu_rl(v, true)
            } else if n == 3 {
                self.alu_rr(v, true)
            } else if n == 4 {
                self.alu_sla(v)
            } else if n == 5 {
                self.alu_sra(v)
            } else if n == 6 {
                self.alu_swap(v)
            } else {
                self.alu_srl(v)
            };
            self.reg_set(idx, r);
            if idx == 6 {
                16
            } else {
                8
            }
        } else if op < 0x80 {
            self.fz(v & (1u8 << n), 0);
            if idx == 6 {
                12
            } else {
                8
            }
        } else if op < 0xC0 {
            self.reg_set(idx, v & !(1u8 << n));
            if idx == 6 {
                16
            } else {
                8
            }
        } else {
            self.reg_set(idx, v | (1u8 << n));
            if idx == 6 {
                16
            } else {
                8
            }
        }
    }

    /// Execute the opcode already fetched: the low quarter, the halt
    /// instruction, the register-to-register load block, the
    /// register-operand arithmetic block, or the high quarter. The result
    /// is the cycle cost, or the fault for a byte with no decoding.
    #[verifier::rlimit(80)]
    pub fn exec(&mut self, op: u8) -> (r: Result<u32, ExecError>)
        requires
            old(self).wf(),
        ensures
            final(self).wf(),
            final(self).memory.gpu.timing() == old(self).memory.gpu.timing(),
            r is Ok ==> 4 <= r->Ok_0 <= 24,
            r is Err <==> !spec_defined_opcode(op),
            r is Err ==> *final(self) == *old(self),
            final(self).halted ==> old(self).halted || op == 0x76,
            final(self).registers.ime == (if op == 0xF3 {
                0u8
            } else if op == 0xD9 {
                1u8
            } else {
                old(self).registers.ime
            }),
            final(self).ei_delay == (if op == 0xFB {
                2u8
            } else if op == 0xF3 || op == 0xD9 {
                0u8
            } else {
                old(self).ei_delay
            }),
            op == 0x76 ==> final(self).memory == old(self).memory && final(self).registers == old(self).registers && r == Result::<u32, ExecError>::Ok(4),
            op == 0x76 && (old(self).registers.ime != 0 || old(self).spec_pending() == 0) ==> final(self).halted && final(self).halt_bug == old(self).halt_bug,
            op == 0x76 && old(self).registers.ime == 0 && old(self).spec_pending() != 0 ==> final(self).halted == old(self).halted && final(self).halt_bug == (old(self).halt_bug || old(self).compat_halt_bug),
            0x40 <= op < 0x80 && op != 0x76 ==> ld_effect(*old(self), *final(self), op),
            0x80 <= op < 0xC0 ==> alu_post(
                *old(self),
                *final(self),
                (op >> 3) & 0x07,
                old(self).spec_reg8(op & 0x07),
            ),
            op == 0xCB ==> cb_effect(
                Cpu {
                    registers: (Registers {
                        pc: old(self).registers.pc.wrapping_add(1),
                        ..old(self).registers
                    }),
                    ..*old(self)
                },
                *final(self),
                old(self).memory.spec_rb(old(self).registers.pc),
            ),
    {
        proof {
            lemma_3bit(op);
            lemma_3bit(op >> 3);
        }
        if op < 0x40 {
            let c: u32 = self.exec_low(op);
            Ok(c)
        } else if op == 0x76 {
            let pending: u8 = self.pending();
            if self.registers.ime == 0 && pending != 0 {
                if self.compat_halt_bug {
                    self.halt_bug = true;
                }
            } else {
                self.halted = true;
            }
            Ok(4)
        } else if op < 0x80 {
            let src: u8 = op & 0x07;
            let dst: u8 = (op >> 3) & 0x07;
            let v: u8 = self.reg_get(src);
            self.reg_set(dst, v);
            Ok(
                if src == 6 || dst == 6 {
                    8
                } else {
                    4
                },
            )
        } else if op < 0xC0 {
            let v: u8 = self.reg_get(op & 0x07);
            let which: u8 = (op >> 3) & 0x07;
            if which == 0 {
                self.alu_add(v);
            } else if which == 1 {
                self.alu_adc(v);
            } else if which == 2 {
                self.alu_sub(v);
            } else if which == 3 {
                self.alu_sbc(v);
            } else if which == 4 {
                self.alu_and(v);
            } else if which == 5 {
                self.alu_xor(v);
            } else if which == 6 {
                self.alu_or(v);
            } else {
                self.alu_cp(v);
            }
            Ok(
                if op & 0x07 == 6 {
                    8
                } else {
                    4
                },
            )
        } else {
            self.exec_high(op)
        }
    }

    /// One step of the interpreter. A pending enabled interrupt with the
    /// master flag set is serviced instead of fetching; a halted
    /// interpreter with nothing pending burns one machine cycle without
    /// moving; otherwise the byte at the program counter is fetched,
    /// decoded and executed. The timer and the pixel engine advance by
    /// the step's cycle cost, and a byte with no decoding is a fault
    /// reported to the caller, exactly then.
    #[verifier::rlimit(80)]
    pub fn step(&mut self) -> (r: Result<u32, ExecError>)
        requires
            old(self).wf(),
        ensures
            final(self).wf(),
            r is Ok ==> 4 <= r->Ok_0 <= 24,
            old(self).halted && old(self).spec_pending() == 0 ==> r == Result::<
                u32,
                ExecError,
            >::Ok(4) && final(self).registers.pc == old(self).registers.pc && final(self).halted,
            old(self).registers.ime != 0 && old(self).spec_pending() != 0 ==> r == Result::<
                u32,
                ExecError,
            >::Ok(20) && final(self).registers.ime == 0 && !final(self).halted,
            old(self).registers.ime != 0 && old(self).spec_pending() != 0
                ==> final(self).registers.pc == int_vector(lowest_bit(old(self).spec_pending())),
            r is Err <==> (!(old(self).registers.ime != 0 && old(self).spec_pending() != 0) && !(
            old(self).halted && old(self).spec_pending() == 0) && !spec_defined_opcode(
                old(self).memory.spec_rb(old(self).registers.pc),
            )),
            old(self).halted && old(self).spec_pending() != 0 && old(self).registers.ime == 0
                && final(self).halted ==> old(self).memory.spec_rb(old(self).registers.pc) == 0x76,
            old(self).registers.ime != 0 && old(self).spec_pending() != 0 ==> final(self).registers.sp == old(self).registers.sp.wrapping_sub(2),
            old(self).registers.ime != 0 && old(self).spec_pending() != 0 && plain_ram(
                old(self).registers.sp.wrapping_sub(2),
            ) && plain_ram(old(self).registers.sp.wrapping_sub(1)) ==> final(self).memory.spec_rb(
                old(self).registers.sp.wrapping_sub(2),
            ) == (old(self).registers.pc & 0xFF) as u8 && final(self).memory.spec_rb(
                old(self).registers.sp.wrapping_sub(1),
            ) == (old(self).registers.pc >> 8) as u8,
            old(self).registers.ime != 0 && old(self).spec_pending() != 0 && plain_ram(
                old(self).registers.sp.wrapping_sub(2),
            ) && plain_ram(old(self).registers.sp.wrapping_sub(1)) ==> final(self).memory.intf == ((
            old(self).memory.intf & !(1u8 << lowest_bit(old(self).spec_pending()))) | ((
            if timing_advance(
                old(self).memory.gpu.timing(),
                old(self).memory.gpu.stat,
                old(self).memory.gpu.lyc,
                20,
            ).irq_vblank {
                1u8
            } else {
                0u8
            }) | (if timing_advance(
                old(self).memory.gpu.timing(),
                old(self).memory.gpu.stat,
                old(self).memory.gpu.lyc,
                20,
            ).irq_stat {
                2u8
            } else {
                0u8
            }) | (if crate::timer::timer_advance(old(self).memory.timer, 20).irq {
                4u8
            } else {
                0u8
            }))),
            !(old(self).registers.ime != 0 && old(self).spec_pending() != 0) && !(old(self).halted
                && old(self).spec_pending() == 0) && old(self).memory.spec_rb(
                old(self).registers.pc,
            ) == 0x76 && (old(self).registers.ime != 0 || old(self).spec_pending() == 0) ==> final(self).halted && r == Result::<u32, ExecError>::Ok(4),
            !(old(self).registers.ime != 0 && old(self).spec_pending() != 0) && !(old(self).halted
                && old(self).spec_pending() == 0) && old(self).memory.spec_rb(
                old(self).registers.pc,
            ) == 0xFB ==> final(self).registers.ime == old(self).registers.ime && final(self).ei_delay == 1,
            !(old(self).registers.ime != 0 && old(self).spec_pending() != 0) && !(old(self).halted
                && old(self).spec_pending() == 0) && r is Ok && old(self).ei_delay == 1 && old(self).memory.spec_rb(old(self).registers.pc) != 0xFB && old(self).memory.spec_rb(
                old(self).registers.pc,
            ) != 0xF3 ==> final(self).registers.ime == 1,
            r is Err ==> r == Result::<u32, ExecError>::Err(
                ExecError::UndefinedOpcode {
                    pc: old(self).registers.pc,
                    opcode: old(self).memory.spec_rb(old(self).registers.pc),
                },
            ),
            r is Err ==> final(self).memory == old(self).memory,
            r is Err ==> final(self).registers.pc == old(self).registers.pc || final(self).registers.pc == old(self).registers.pc.wrapping_add(1),
            r is Ok ==> frame_pos(final(self).memory.gpu.timing()) == (frame_pos(
                old(self).memory.gpu.timing(),
            ) + r->Ok_0) % (FRAME_CYCLES as int),
            r is Ok ==> final(self).memory.gpu.frame_flag == (old(self).memory.gpu.frame_flag
                || r->Ok_0 >= dist_to_vblank(old(self).memory.gpu.timing())),
            r is Ok && r->Ok_0 < dist_to_vblank(old(self).memory.gpu.timing()) ==> dist_to_vblank(
                final(self).memory.gpu.timing(),
            ) == dist_to_vblank(old(self).memory.gpu.timing()) - r->Ok_0,
    {
        let pending: u8 = self.pending();
        if self.halted {
            if pending == 0 {
                proof {
                    lemma_vblank_distance(
                        self.memory.gpu.timing(),
                        self.memory.gpu.stat,
                        self.memory.gpu.lyc,
                        4,
                    );
                    lemma_frame_cycle_budget(
                        self.memory.gpu.timing(),
                        self.memory.gpu.stat,
                        self.memory.gpu.lyc,
                        4,
                    );
                }
                self.memory.advance(4);
                return Ok(4);
            }
            self.halted = false;
        }
        if self.registers.ime != 0 && pending != 0 {
            self.dispatch_interrupt();
            proof {
                lemma_vblank_distance(
                    self.memory.gpu.timing(),
                    self.memory.gpu.stat,
                    self.memory.gpu.lyc,
                    20,
                );
                lemma_frame_cycle_budget(
                    self.memory.gpu.timing(),
                    self.memory.gpu.stat,
                    self.memory.gpu.lyc,
                    20,
                );
            }
            self.memory.advance(20);
            return Ok(20);
        }
        let addr: u16 = self.registers.pc;
        let op: u8 = self.memory.rb(addr);
        if self.halt_bug {
            self.halt_bug = false;
        } else {
            self.registers.pc = self.registers.pc.wrapping_add(1);
        }
        match self.exec(op) {
            Ok(cycles) => {
                if self.ei_delay == 2 {
                    self.ei_delay = 1;
                } else if self.ei_delay == 1 {
                    self.ei_delay = 0;
                    self.registers.ime = 1;
                }
                proof {
                    lemma_vblank_distance(
                        self.memory.gpu.timing(),
                        self.memory.gpu.stat,
                        self.memory.gpu.lyc,
                        cycles as nat,
                    );
                    lemma_frame_cycle_budget(
                        self.memory.gpu.timing(),
                        self.memory.gpu.stat,
                        self.memory.gpu.lyc,
                        cycles as nat,
                    );
                }
                self.memory.advance(cycles);
                Ok(cycles)
            },
            Err(_) => Err(ExecError::UndefinedOpcode { pc: addr, opcode: op }),
        }
    }
}

/// Two bus states that agree on everything the stack pushes cannot reach:
/// the cartridge, banking, video and object memory, the video registers,
/// the timer, the keypad and the enable mask.
pub open spec fn mem_regs_same(a: Memory, b: Memory) -> bool {
    &&& a.rom@ == b.rom@
    &&& a.bank == b.bank
    &&& a.eram@ == b.eram@
    &&& a.gpu.vram@ == b.gpu.vram@
    &&& a.gpu.oam@ == b.gpu.oam@
    &&& a.gpu.lcdc == b.gpu.lcdc
    &&& a.gpu.stat == b.gpu.stat
    &&& a.gpu.scy == b.gpu.scy
    &&& a.gpu.scx == b.gpu.scx
    &&& a.gpu.lyc == b.gpu.lyc
    &&& a.gpu.bgp == b.gpu.bgp
    &&& a.gpu.obp0 == b.gpu.obp0
    &&& a.gpu.obp1 == b.gpu.obp1
    &&& a.gpu.wy == b.gpu.wy
    &&& a.gpu.wx == b.gpu.wx
    &&& a.timer == b.timer
    &&& a.keypad == b.keypad
    &&& a.inte == b.inte
    &&& a.dma_reg == b.dma_reg
}

/// The register row selected by each opcode of the low quarter's 8-bit
/// increment, decrement and immediate-load columns.
pub proof fn lemma_low_rows()
    ensures
        forall|op: u8| op < 0x40 ==> #[trigger] ((op >> 3) & 0x07) == op / 8,
{
    assert(forall|op: u8| op < 0x40 ==> #[trigger] ((op >> 3) & 0x07) == op / 8) by (bit_vector);
}

/// The three-bit row field of an opcode, as plain arithmetic.
pub proof fn lemma_op_row(op: u8)
    ensures
        (op >> 3) & 0x07 == (op / 8) % 8,
{
    assert((op >> 3) & 0x07 == (op / 8) % 8) by (bit_vector);
}

/// A 16-bit pair splits back into the bytes it was built from.
pub proof fn lemma_pair_bytes(hi: u8, lo: u8)
    ensures
        (((hi as u16) * 0x100 + (lo as u16)) as u16) >> 8 == hi,
        (((hi as u16) * 0x100 + (lo as u16)) as u16) & 0xFF == lo,
{
    assert((((hi as u16) * 0x100 + (lo as u16)) as u16) >> 8 == hi as u16 && (((hi as u16) * 0x100
        + (lo as u16)) as u16) & 0xFF == lo as u16) by (bit_vector);
}

/// The arithmetic-group row selected by each immediate-operand opcode.
pub proof fn lemma_imm_alu_rows()
    ensures
        (0xC6u8 >> 3) & 0x07 == 0,
        (0xCEu8 >> 3) & 0x07 == 1,
        (0xD6u8 >> 3) & 0x07 == 2,
        (0xDEu8 >> 3) & 0x07 == 3,
        (0xE6u8 >> 3) & 0x07 == 4,
        (0xEEu8 >> 3) & 0x07 == 5,
        (0xF6u8 >> 3) & 0x07 == 6,
        (0xFEu8 >> 3) & 0x07 == 7,
{
    assert((0xC6u8 >> 3) & 0x07 == 0 && (0xCEu8 >> 3) & 0x07 == 1 && (0xD6u8 >> 3) & 0x07 == 2 && (
    0xDEu8 >> 3) & 0x07 == 3 && (0xE6u8 >> 3) & 0x07 == 4 && (0xEEu8 >> 3) & 0x07 == 5 && (0xF6u8
        >> 3) & 0x07 == 6 && (0xFEu8 >> 3) & 0x07 == 7) by (bit_vector);
}

/// A three-bit field is below eight.
pub proof fn lemma_3bit(x: u8)
    ensures
        x & 0x07 < 8,
{
    assert(x & 0x07 < 8) by (bit_vector);
}

/// Low nibble and low byte of a word are bounded by their masks.
pub proof fn lemma_u16_masks(x: u16)
    ensures
        x & 0x0F <= 0x0F,
        x & 0xFF <= 0xFF,
{
    assert(x & 0x0F <= 0x0F && x & 0xFF <= 0xFF) by (bit_vector);
}

/// Whether a base-table opcode byte has a decoding at all.
pub open spec fn spec_defined_opcode(op: u8) -> bool {
    !(op == 0xD3 || op == 0xDB || op == 0xDD || op == 0xE3 || op == 0xE4 || op == 0xEB || op
        == 0xEC || op == 0xED || op == 0xF4 || op == 0xFC || op == 0xFD)
}

/// A fatal execution fault: the interpreter met a byte with no decoding
/// and stops rather than guessing.
#[derive(Copy, Clone, PartialEq, Eq, Structural, Debug)]
pub enum ExecError {
    /// The byte at the given address has no entry in the base table.
    UndefinedOpcode { pc: u16, opcode: u8 },
}

/// Which source an interrupt-arbitration mask selects: the lowest set
/// bit, vertical blank first, then status, timer, serial, input.
pub open spec fn lowest_bit(p: u8) -> u8 {
    if p & 0x01 != 0 {
        0
    } else if p & 0x02 != 0 {
        1
    } else if p & 0x04 != 0 {
        2
    } else if p & 0x08 != 0 {
        3
    } else {
        4
    }
}

/// The fixed handler address of an interrupt source.
pub open spec fn int_vector(i: u8) -> u16 {
    (0x40 + 8 * i) as u16
}

/// A register file with one 8-bit register replaced, selected by the
/// three-bit field the opcodes use (the seventh selection is the memory
/// operand and is handled separately).
pub open spec fn reg8_set(r: Registers, idx: u8, v: u8) -> Registers {
    if idx == 0 {
        Registers { b: v, ..r }
    } else if idx == 1 {
        Registers { c: v, ..r }
    } else if idx == 2 {
        Registers { d: v, ..r }
    } else if idx == 3 {
        Registers { e: v, ..r }
    } else if idx == 4 {
        Registers { h: v, ..r }
    } else if idx == 5 {
        Registers { l: v, ..r }
    } else {
        Registers { a: v, ..r }
    }
}

/// The accumulator value produced by each entry of the eight-operation
/// arithmetic group: add, add with carry, subtract, subtract with borrow,
/// and, exclusive-or, or; the compare entry computes the difference its
/// flags are taken from.
pub open spec fn alu8_result(which: u8, a: u8, c: bool, b: u8) -> u8 {
    let cv: u8 = if c {
        1
    } else {
        0
    };
    if which == 0 {
        a.wrapping_add(b)
    } else if which == 1 {
        a.wrapping_add(b).wrapping_add(cv)
    } else if which == 2 {
        a.wrapping_sub(b)
    } else if which == 3 {
        a.wrapping_sub(b).wrapping_sub(cv)
    } else if which == 4 {
        a & b
    } else if which == 5 {
        a ^ b
    } else if which == 6 {
        a | b
    } else {
        a.wrapping_sub(b)
    }
}

/// The Half-carry flag of each arithmetic-group entry.
pub open spec fn alu8_h(which: u8, a: u8, c: bool, b: u8) -> bool {
    let cv: int = if c {
        1
    } else {
        0
    };
    if which == 0 {
        (a & 0x0F) + (b & 0x0F) > 0x0F
    } else if which == 1 {
        (a & 0x0F) + (b & 0x0F) + cv > 0x0F
    } else if which == 2 || which == 7 {
        (a & 0x0F) < (b & 0x0F)
    } else if which == 3 {
        (a & 0x0F) < (b & 0x0F) + cv
    } else if which == 4 {
        true
    } else {
        false
    }
}

/// The Carry flag of each arithmetic-group entry.
pub open spec fn alu8_c(which: u8, a: u8, c: bool, b: u8) -> bool {
    let cv: int = if c {
        1
    } else {
        0
    };
    if which == 0 {
        a + b > 0xFF
    } else if which == 1 {
        a + b + cv > 0xFF
    } else if which == 2 || which == 7 {
        a < b
    } else if which == 3 {
        a < b + cv
    } else {
        false
    }
}

/// The full effect of one arithmetic-group opcode on the machine: only A
/// and the flags move (A itself only outside the compare entry), and each
/// flag follows its table entry.
pub open spec fn alu_post(pre: Cpu, post: Cpu, which: u8, b: u8) -> bool {
    &&& post.only_a_flags_changed(pre)
    &&& post.registers.a == (if which == 7 {
        pre.registers.a
    } else {
        alu8_result(which, pre.registers.a, pre.registers.cf(), b)
    })
    &&& post.registers.zf() == (alu8_result(which, pre.registers.a, pre.registers.cf(), b) == 0)
    &&& post.registers.nf() == (which == 2 || which == 3 || which == 7)
    &&& post.registers.hf() == alu8_h(which, pre.registers.a, pre.registers.cf(), b)
    &&& post.registers.cf() == alu8_c(which, pre.registers.a, pre.registers.cf(), b)
}

/// The full effect of a register-to-register (or memory-operand) load:
/// the selected source value lands in the selected destination and
/// nothing else moves.
pub open spec fn ld_effect(pre: Cpu, post: Cpu, op: u8) -> bool {
    let src = op & 0x07;
    let dst = (op >> 3) & 0x07;
    let v = pre.spec_reg8(src);
    if dst == 6 {
        &&& post.registers == pre.registers
        &&& wb_post(pre.memory, post.memory, pre.registers.spec_hl(), v)
    } else {
        &&& post.memory == pre.memory
        &&& post.registers == reg8_set(pre.registers, dst, v)
    }
}

/// The value produced by each entry of the extended table's rotate and
/// shift group.
pub open spec fn rot_result(n: u8, v: u8, c: bool) -> u8 {
    if n == 0 {
        (v << 1) | (v >> 7)
    } else if n == 1 {
        (v >> 1) | (v << 7)
    } else if n == 2 {
        (v << 1) | (if c {
            1u8
        } else {
            0u8
        })
    } else if n == 3 {
        (v >> 1) | (if c {
            0x80u8
        } else {
            0u8
        })
    } else if n == 4 {
        v << 1
    } else if n == 5 {
        (v >> 1) | (v & 0x80)
    } else if n == 6 {
        (v << 4) | (v >> 4)
    } else {
        v >> 1
    }
}

/// The Carry flag of each rotate-and-shift entry: the bit shifted out,
/// and never set by the nibble swap.
pub open spec fn rot_carry(n: u8, v: u8) -> bool {
    if n == 0 || n == 2 || n == 4 {
        v & 0x80 != 0
    } else if n == 6 {
        false
    } else {
        v & 0x01 != 0
    }
}

/// A value landing in the register (or memory operand) an extended-table
/// opcode selects, with the flags byte left to the opcode's own clauses.
pub open spec fn cb_value_post(pre: Cpu, post: Cpu, idx: u8, r: u8) -> bool {
    if idx == 6 {
        &&& post.registers == (Registers { f: post.registers.f, ..pre.registers })
        &&& wb_post(pre.memory, post.memory, pre.registers.spec_hl(), r)
    } else {
        &&& post.memory == pre.memory
        &&& post.registers == reg8_set(
            Registers { f: post.registers.f, ..pre.registers },
            idx,
            r,
        )
    }
}

/// The full effect of one extended-table opcode: the rotate-and-shift
/// group writes its result back and sets its flags; the bit-test group
/// follows the bit-test flag rule; the reset and set groups move one bit
/// of the operand and leave the flags alone.
pub open spec fn cb_effect(pre: Cpu, post: Cpu, op: u8) -> bool {
    let idx = op & 0x07;
    let n = (op >> 3) & 0x07;
    let v = pre.spec_reg8(idx);
    if op < 0x40 {
        &&& cb_value_post(pre, post, idx, rot_result(n, v, pre.registers.cf()))
        &&& post.registers.zf() == (rot_result(n, v, pre.registers.cf()) == 0)
        &&& !post.registers.nf()
        &&& !post.registers.hf()
        &&& post.registers.cf() == rot_carry(n, v)
    } else if op < 0x80 {
        crate::bit::bit_test_post(pre, post, v, 1u8 << n)
    } else if op < 0xC0 {
        &&& cb_value_post(pre, post, idx, v & !(1u8 << n))
        &&& post.registers.f == pre.registers.f
    } else {
        &&& cb_value_post(pre, post, idx, v | (1u8 << n))
        &&& post.registers.f == pre.registers.f
    }
}

/// With vertical blank, timer and input all pending and all enabled, the
/// arbiter selects vertical blank, whose vector is the first.
pub proof fn lemma_interrupt_priority(inte: u8, intf: u8)
    requires
        inte & 0x01 != 0,
        intf & 0x01 != 0,
    ensures
        lowest_bit(inte & intf & 0x1F) == 0,
        int_vector(0) == 0x40,
{
    assert(inte & 0x01 != 0 && intf & 0x01 != 0 ==> (inte & intf & 0x1F) & 0x01 != 0)
        by (bit_vector);
}

} // verus!
