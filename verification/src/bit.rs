use crate::cpu::Cpu;
use vstd::prelude::*;

verus! {

/// What every bit-test opcode leaves behind: Zero set exactly when the
/// tested bit of the source value is clear, Half-carry set, Subtract
/// cleared, Carry as it was, and nothing else moved.
pub open spec fn bit_test_post(pre: Cpu, post: Cpu, source: u8, mask: u8) -> bool {
    &&& post.only_flags_changed(pre)
    &&& post.registers.zf() == (source & mask == 0)
    &&& post.registers.hf()
    &&& !post.registers.nf()
    &&& post.registers.cf() == pre.registers.cf()
}

/// Test bit 0 of B.
pub fn bit0b(c: &mut Cpu)
    requires
        old(c).wf(),
    ensures
        final(c).wf(),
        bit_test_post(*old(c), *final(c), old(c).registers.b, 0x01),
{
    let v: u8 = c.registers.b & 0x01;
    c.fz(v, 0);
}

/// Test bit 0 of C.
pub fn bit0c(c: &mut Cpu)
    requires
        old(c).wf(),
    ensures
        final(c).wf(),
        bit_test_post(*old(c), *final(c), old(c).registers.c, 0x01),
{
    let v: u8 = c.registers.c & 0x01;
    c.fz(v, 0);
}

/// Test bit 0 of D.
pub fn bit0d(c: &mut Cpu)
    requires
        old(c).wf(),
    ensures
        final(c).wf(),
        bit_test_post(*old(c), *final(c), old(c).registers.d, 0x01),
{
    let v: u8 = c.registers.d & 0x01;
    c.fz(v, 0);
}

/// Test bit 0 of E.
pub fn bit0e(c: &mut Cpu)
    requires
        old(c).wf(),
    ensures
        final(c).wf(),
        bit_test_post(*old(c), *final(c), old(c).registers.e, 0x01),
{
    let v: u8 = c.registers.e & 0x01;
    c.fz(v, 0);
}

/// Test bit 0 of H.
pub fn bit0h(c: &mut Cpu)
    requires
        old(c).wf(),
    ensures
        final(c).wf(),
        bit_test_post(*old(c), *final(c), old(c).registers.h, 0x01),
{
    let v: u8 = c.registers.h & 0x01;
    c.fz(v, 0);
}

/// Test bit 0 of L.
pub fn bit0l(c: &mut Cpu)
    requires
        old(c).wf(),
    ensures
        final(c).wf(),
        bit_test_post(*old(c), *final(c), old(c).registers.l, 0x01),
{
    let v: u8 = c.registers.l & 0x01;
    c.fz(v, 0);
}

/// Test bit 0 of A.
pub fn bit0a(c: &mut Cpu)
    requires
        old(c).wf(),
    ensures
        final(c).wf(),
        bit_test_post(*old(c), *final(c), old(c).registers.a, 0x01),
{
    let v: u8 = c.registers.a & 0x01;
    c.fz(v, 0);
}

/// Test bit 0 of the byte at HL.
pub fn bit0m(c: &mut Cpu)
    requires
        old(c).wf(),
    ensures
        final(c).wf(),
        bit_test_post(
            *old(c),
            *final(c),
            old(c).memory.spec_rb(old(c).registers.spec_hl()),
            0x01,
        ),
{
    let addr: u16 = c.registers.hl();
    let v: u8 = c.memory.rb(addr) & 0x01;
    c.fz(v, 0);
}

/// Test bit 1 of B.
pub fn bit1b(c: &mut Cpu)
    requires
        old(c).wf(),
    ensures
        final(c).wf(),
        bit_test_post(*old(c), *final(c), old(c).registers.b, 0x02),
{
    let v: u8 = c.registers.b & 0x02;
    c.fz(v, 0);
}

/// Test bit 1 of C.
pub fn bit1c(c: &mut Cpu)
    requires
        old(c).wf(),
    ensures
        final(c).wf(),
        bit_test_post(*old(c), *final(c), old(c).registers.c, 0x02),
{
    let v: u8 = c.registers.c & 0x02;
    c.fz(v, 0);
}

/// Test bit 1 of D.
pub fn bit1d(c: &mut Cpu)
    requires
        old(c).wf(),
    ensures
        final(c).wf(),
        bit_test_post(*old(c), *final(c), old(c).registers.d, 0x02),
{
    let v: u8 = c.registers.d & 0x02;
    c.fz(v, 0);
}

/// Test bit 1 of E.
pub fn bit1e(c: &mut Cpu)
    requires
        old(c).wf(),
    ensures
        final(c).wf(),
        bit_test_post(*old(c), *final(c), old(c).registers.e, 0x02),
{
    let v: u8 = c.registers.e & 0x02;
    c.fz(v, 0);
}

/// Test bit 1 of H.
pub fn bit1h(c: &mut Cpu)
    requires
        old(c).wf(),
    ensures
        final(c).wf(),
        bit_test_post(*old(c), *final(c), old(c).registers.h, 0x02),
{
    let v: u8 = c.registers.h & 0x02;
    c.fz(v, 0);
}

/// Test bit 1 of L.
pub fn bit1l(c: &mut Cpu)
    requires
        old(c).wf(),
    ensures
        final(c).wf(),
        bit_test_post(*old(c), *final(c), old(c).registers.l, 0x02),
{
    let v: u8 = c.registers.l & 0x02;
    c.fz(v, 0);
}

/// Test bit 1 of A.
pub fn bit1a(c: &mut Cpu)
    requires
        old(c).wf(),
    ensures
        final(c).wf(),
        bit_test_post(*old(c), *final(c), old(c).registers.a, 0x02),
{
    let v: u8 = c.registers.a & 0x02;
    c.fz(v, 0);
}

/// Test bit 1 of the byte at HL.
pub fn bit1m(c: &mut Cpu)
    requires
        old(c).wf(),
    ensures
        final(c).wf(),
        bit_test_post(
            *old(c),
            *final(c),
            old(c).memory.spec_rb(old(c).registers.spec_hl()),
            0x02,
        ),
{
    let addr: u16 = c.registers.hl();
    let v: u8 = c.memory.rb(addr) & 0x02;
    c.fz(v, 0);
}

/// Test bit 2 of B.
pub fn bit2b(c: &mut Cpu)
    requires
        old(c).wf(),
    ensures
        final(c).wf(),
        bit_test_post(*old(c), *final(c), old(c).registers.b, 0x04),
{
    let v: u8 = c.registers.b & 0x04;
    c.fz(v, 0);
}

/// Test bit 2 of C.
pub fn bit2c(c: &mut Cpu)
    requires
        old(c).wf(),
    ensures
        final(c).wf(),
        bit_test_post(*old(c), *final(c), old(c).registers.c, 0x04),
{
    let v: u8 = c.registers.c & 0x04;
    c.fz(v, 0);
}

/// Test bit 2 of D.
pub fn bit2d(c: &mut Cpu)
    requires
        old(c).wf(),
    ensures
        final(c).wf(),
        bit_test_post(*old(c), *final(c), old(c).registers.d, 0x04),
{
    let v: u8 = c.registers.d & 0x04;
    c.fz(v, 0);
}

/// Test bit 2 of E.
pub fn bit2e(c: &mut Cpu)
    requires
        old(c).wf(),
    ensures
        final(c).wf(),
        bit_test_post(*old(c), *final(c), old(c).registers.e, 0x04),
{
    let v: u8 = c.registers.e & 0x04;
    c.fz(v, 0);
}

/// Test bit 2 of H.
pub fn bit2h(c: &mut Cpu)
    requires
        old(c).wf(),
    ensures
        final(c).wf(),
        bit_test_post(*old(c), *final(c), old(c).registers.h, 0x04),
{
    let v: u8 = c.registers.h & 0x04;
    c.fz(v, 0);
}

/// Test bit 2 of L.
pub fn bit2l(c: &mut Cpu)
    requires
        old(c).wf(),
    ensures
        final(c).wf(),
        bit_test_post(*old(c), *final(c), old(c).registers.l, 0x04),
{
    let v: u8 = c.registers.l & 0x04;
    c.fz(v, 0);
}

/// Test bit 2 of A.
pub fn bit2a(c: &mut Cpu)
    requires
        old(c).wf(),
    ensures
        final(c).wf(),
        bit_test_post(*old(c), *final(c), old(c).registers.a, 0x04),
{
    let v: u8 = c.registers.a & 0x04;
    c.fz(v, 0);
}

/// Test bit 2 of the byte at HL.
pub fn bit2m(c: &mut Cpu)
    requires
        old(c).wf(),
    ensures
        final(c).wf(),
        bit_test_post(
            *old(c),
            *final(c),
            old(c).memory.spec_rb(old(c).registers.spec_hl()),
            0x04,
        ),
{
    let addr: u16 = c.registers.hl();
    let v: u8 = c.memory.rb(addr) & 0x04;
    c.fz(v, 0);
}

/// Test bit 3 of B.
pub fn bit3b(c: &mut Cpu)
    requires
        old(c).wf(),
    ensures
        final(c).wf(),
        bit_test_post(*old(c), *final(c), old(c).registers.b, 0x08),
{
    let v: u8 = c.registers.b & 0x08;
    c.fz(v, 0);
}

/// Test bit 3 of C.
pub fn bit3c(c: &mut Cpu)
    requires
        old(c).wf(),
    ensures
        final(c).wf(),
        bit_test_post(*old(c), *final(c), old(c).registers.c, 0x08),
{
    let v: u8 = c.registers.c & 0x08;
    c.fz(v, 0);
}

/// Test bit 3 of D.
pub fn bit3d(c: &mut Cpu)
    requires
        old(c).wf(),
    ensures
        final(c).wf(),
        bit_test_post(*old(c), *final(c), old(c).registers.d, 0x08),
{
    let v: u8 = c.registers.d & 0x08;
    c.fz(v, 0);
}

/// Test bit 3 of E.
pub fn bit3e(c: &mut Cpu)
    requires
        old(c).wf(),
    ensures
        final(c).wf(),
        bit_test_post(*old(c), *final(c), old(c).registers.e, 0x08),
{
    let v: u8 = c.registers.e & 0x08;
    c.fz(v, 0);
}

/// Test bit 3 of H.
pub fn bit3h(c: &mut Cpu)
    requires
        old(c).wf(),
    ensures
        final(c).wf(),
        bit_test_post(*old(c), *final(c), old(c).registers.h, 0x08),
{
    let v: u8 = c.registers.h & 0x08;
    c.fz(v, 0);
}

/// Test bit 3 of L.
pub fn bit3l(c: &mut Cpu)
    requires
        old(c).wf(),
    ensures
        final(c).wf(),
        bit_test_post(*old(c), *final(c), old(c).registers.l, 0x08),
{
    let v: u8 = c.registers.l & 0x08;
    c.fz(v, 0);
}

/// Test bit 3 of A.
pub fn bit3a(c: &mut Cpu)
    requires
        old(c).wf(),
    ensures
        final(c).wf(),
        bit_test_post(*old(c), *final(c), old(c).registers.a, 0x08),
{
    let v: u8 = c.registers.a & 0x08;
    c.fz(v, 0);
}

/// Test bit 3 of the byte at HL.
pub fn bit3m(c: &mut Cpu)
    requires
        old(c).wf(),
    ensures
        final(c).wf(),
        bit_test_post(
            *old(c),
            *final(c),
            old(c).memory.spec_rb(old(c).registers.spec_hl()),
            0x08,
        ),
{
    let addr: u16 = c.registers.hl();
    let v: u8 = c.memory.rb(addr) & 0x08;
    c.fz(v, 0);
}

/// Test bit 4 of B.
pub fn bit4b(c: &mut Cpu)
    requires
        old(c).wf(),
    ensures
        final(c).wf(),
        bit_test_post(*old(c), *final(c), old(c).registers.b, 0x10),
{
    let v: u8 = c.registers.b & 0x10;
    c.fz(v, 0);
}

/// Test bit 4 of C.
pub fn bit4c(c: &mut Cpu)
    requires
        old(c).wf(),
    ensures
        final(c).wf(),
        bit_test_post(*old(c), *final(c), old(c).registers.c, 0x10),
{
    let v: u8 = c.registers.c & 0x10;
    c.fz(v, 0);
}

/// Test bit 4 of D.
pub fn bit4d(c: &mut Cpu)
    requires
        old(c).wf(),
    ensures
        final(c).wf(),
        bit_test_post(*old(c), *final(c), old(c).registers.d, 0x10),
{
    let v: u8 = c.registers.d & 0x10;
    c.fz(v, 0);
}

/// Test bit 4 of E.
pub fn bit4e(c: &mut Cpu)
    requires
        old(c).wf(),
    ensures
        final(c).wf(),
        bit_test_post(*old(c), *final(c), old(c).registers.e, 0x10),
{
    let v: u8 = c.registers.e & 0x10;
    c.fz(v, 0);
}

/// Test bit 4 of H.
pub fn bit4h(c: &mut Cpu)
    requires
        old(c).wf(),
    ensures
        final(c).wf(),
        bit_test_post(*old(c), *final(c), old(c).registers.h, 0x10),
{
    let v: u8 = c.registers.h & 0x10;
    c.fz(v, 0);
}

/// Test bit 4 of L.
pub fn bit4l(c: &mut Cpu)
    requires
        old(c).wf(),
    ensures
        final(c).wf(),
        bit_test_post(*old(c), *final(c), old(c).registers.l, 0x10),
{
    let v: u8 = c.registers.l & 0x10;
    c.fz(v, 0);
}

/// Test bit 4 of A.
pub fn bit4a(c: &mut Cpu)
    requires
        old(c).wf(),
    ensures
        final(c).wf(),
        bit_test_post(*old(c), *final(c), old(c).registers.a, 0x10),
{
    let v: u8 = c.registers.a & 0x10;
    c.fz(v, 0);
}

/// Test bit 4 of the byte at HL.
pub fn bit4m(c: &mut Cpu)
    requires
        old(c).wf(),
    ensures
        final(c).wf(),
        bit_test_post(
            *old(c),
            *final(c),
            old(c).memory.spec_rb(old(c).registers.spec_hl()),
            0x10,
        ),
{
    let addr: u16 = c.registers.hl();
    let v: u8 = c.memory.rb(addr) & 0x10;
    c.fz(v, 0);
}

/// Test bit 5 of B.
pub fn bit5b(c: &mut Cpu)
    requires
        old(c).wf(),
    ensures
        final(c).wf(),
        bit_test_post(*old(c), *final(c), old(c).registers.b, 0x20),
{
    let v: u8 = c.registers.b & 0x20;
    c.fz(v, 0);
}

/// Test bit 5 of C.
pub fn bit5c(c: &mut Cpu)
    requires
        old(c).wf(),
    ensures
        final(c).wf(),
        bit_test_post(*old(c), *final(c), old(c).registers.c, 0x20),
{
    let v: u8 = c.registers.c & 0x20;
    c.fz(v, 0);
}

/// Test bit 5 of D.
pub fn bit5d(c: &mut Cpu)
    requires
        old(c).wf(),
    ensures
        final(c).wf(),
        bit_test_post(*old(c), *final(c), old(c).registers.d, 0x20),
{
    let v: u8 = c.registers.d & 0x20;
    c.fz(v, 0);
}

/// Test bit 5 of E.
pub fn bit5e(c: &mut Cpu)
    requires
        old(c).wf(),
    ensures
        final(c).wf(),
        bit_test_post(*old(c), *final(c), old(c).registers.e, 0x20),
{
    let v: u8 = c.registers.e & 0x20;
    c.fz(v, 0);
}

/// Test bit 5 of H.
pub fn bit5h(c: &mut Cpu)
    requires
        old(c).wf(),
    ensures
        final(c).wf(),
        bit_test_post(*old(c), *final(c), old(c).registers.h, 0x20),
{
    let v: u8 = c.registers.h & 0x20;
    c.fz(v, 0);
}

/// Test bit 5 of L.
pub fn bit5l(c: &mut Cpu)
    requires
        old(c).wf(),
    ensures
        final(c).wf(),
        bit_test_post(*old(c), *final(c), old(c).registers.l, 0x20),
{
    let v: u8 = c.registers.l & 0x20;
    c.fz(v, 0);
}

/// Test bit 5 of A.
pub fn bit5a(c: &mut Cpu)
    requires
        old(c).wf(),
    ensures
        final(c).wf(),
        bit_test_post(*old(c), *final(c), old(c).registers.a, 0x20),
{
    let v: u8 = c.registers.a & 0x20;
    c.fz(v, 0);
}

/// Test bit 5 of the byte at HL.
pub fn bit5m(c: &mut Cpu)
    requires
        old(c).wf(),
    ensures
        final(c).wf(),
        bit_test_post(
            *old(c),
            *final(c),
            old(c).memory.spec_rb(old(c).registers.spec_hl()),
            0x20,
        ),
{
    let addr: u16 = c.registers.hl();
    let v: u8 = c.memory.rb(addr) & 0x20;
    c.fz(v, 0);
}

/// Test bit 6 of B.
pub fn bit6b(c: &mut Cpu)
    requires
        old(c).wf(),
    ensures
        final(c).wf(),
        bit_test_post(*old(c), *final(c), old(c).registers.b, 0x40),
{
    let v: u8 = c.registers.b & 0x40;
    c.fz(v, 0);
}

/// Test bit 6 of C.
pub fn bit6c(c: &mut Cpu)
    requires
        old(c).wf(),
    ensures
        final(c).wf(),
        bit_test_post(*old(c), *final(c), old(c).registers.c, 0x40),
{
    let v: u8 = c.registers.c & 0x40;
    c.fz(v, 0);
}

/// Test bit 6 of D.
pub fn bit6d(c: &mut Cpu)
    requires
        old(c).wf(),
    ensures
        final(c).wf(),
        bit_test_post(*old(c), *final(c), old(c).registers.d, 0x40),
{
    let v: u8 = c.registers.d & 0x40;
    c.fz(v, 0);
}

/// Test bit 6 of E.
pub fn bit6e(c: &mut Cpu)
    requires
        old(c).wf(),
    ensures
        final(c).wf(),
        bit_test_post(*old(c), *final(c), old(c).registers.e, 0x40),
{
    let v: u8 = c.registers.e & 0x40;
    c.fz(v, 0);
}

/// Test bit 6 of H.
pub fn bit6h(c: &mut Cpu)
    requires
        old(c).wf(),
    ensures
        final(c).wf(),
        bit_test_post(*old(c), *final(c), old(c).registers.h, 0x40),
{
    let v: u8 = c.registers.h & 0x40;
    c.fz(v, 0);
}

/// Test bit 6 of L.
pub fn bit6l(c: &mut Cpu)
    requires
        old(c).wf(),
    ensures
        final(c).wf(),
        bit_test_post(*old(c), *final(c), old(c).registers.l, 0x40),
{
    let v: u8 = c.registers.l & 0x40;
    c.fz(v, 0);
}

/// Test bit 6 of A.
pub fn bit6a(c: &mut Cpu)
    requires
        old(c).wf(),
    ensures
        final(c).wf(),
        bit_test_post(*old(c), *final(c), old(c).registers.a, 0x40),
{
    let v: u8 = c.registers.a & 0x40;
    c.fz(v, 0);
}

/// Test bit 6 of the byte at HL.
pub fn bit6m(c: &mut Cpu)
    requires
        old(c).wf(),
    ensures
        final(c).wf(),
        bit_test_post(
            *old(c),
            *final(c),
            old(c).memory.spec_rb(old(c).registers.spec_hl()),
            0x40,
        ),
{
    let addr: u16 = c.registers.hl();
    let v: u8 = c.memory.rb(addr) & 0x40;
    c.fz(v, 0);
}

/// Test bit 7 of B.
pub fn bit7b(c: &mut Cpu)
    requires
        old(c).wf(),
    ensures
        final(c).wf(),
        bit_test_post(*old(c), *final(c), old(c).registers.b, 0x80),
{
    let v: u8 = c.registers.b & 0x80;
    c.fz(v, 0);
}

/// Test bit 7 of C.
pub fn bit7c(c: &mut Cpu)
    requires
        old(c).wf(),
    ensures
        final(c).wf(),
        bit_test_post(*old(c), *final(c), old(c).registers.c, 0x80),
{
    let v: u8 = c.registers.c & 0x80;
    c.fz(v, 0);
}

/// Test bit 7 of D.
pub fn bit7d(c: &mut Cpu)
    requires
        old(c).wf(),
    ensures
        final(c).wf(),
        bit_test_post(*old(c), *final(c), old(c).registers.d, 0x80),
{
    let v: u8 = c.registers.d & 0x80;
    c.fz(v, 0);
}

/// Test bit 7 of E.
pub fn bit7e(c: &mut Cpu)
    requires
        old(c).wf(),
    ensures
        final(c).wf(),
        bit_test_post(*old(c), *final(c), old(c).registers.e, 0x80),
{
    let v: u8 = c.registers.e & 0x80;
    c.fz(v, 0);
}

/// Test bit 7 of H.
pub fn bit7h(c: &mut Cpu)
    requires
        old(c).wf(),
    ensures
        final(c).wf(),
        bit_test_post(*old(c), *final(c), old(c).registers.h, 0x80),
{
    let v: u8 = c.registers.h & 0x80;
    c.fz(v, 0);
}

/// Test bit 7 of L.
pub fn bit7l(c: &mut Cpu)
    requires
        old(c).wf(),
    ensures
        final(c).wf(),
        bit_test_post(*old(c), *final(c), old(c).registers.l, 0x80),
{
    let v: u8 = c.registers.l & 0x80;
    c.fz(v, 0);
}

/// Test bit 7 of A.
pub fn bit7a(c: &mut Cpu)
    requires
        old(c).wf(),
    ensures
        final(c).wf(),
        bit_test_post(*old(c), *final(c), old(c).registers.a, 0x80),
{
    let v: u8 = c.registers.a & 0x80;
    c.fz(v, 0);
}

/// Test bit 7 of the byte at HL.
pub fn bit7m(c: &mut Cpu)
    requires
        old(c).wf(),
    ensures
        final(c).wf(),
        bit_test_post(
            *old(c),
            *final(c),
            old(c).memory.spec_rb(old(c).registers.spec_hl()),
            0x80,
        ),
{
    let addr: u16 = c.registers.hl();
    let v: u8 = c.memory.rb(addr) & 0x80;
    c.fz(v, 0);
}

} // verus!
