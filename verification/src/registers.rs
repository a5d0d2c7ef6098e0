use vstd::prelude::*;

verus! {

/// Accumulated cycle counts: `m` machine cycles, `t` clock ticks.
pub struct Clock {
    pub m: u32,
    pub t: u32,
}

impl Clock {
    pub fn set_t(&mut self, t: u32)
        ensures
            final(self).t == t,
            final(self).m == old(self).m,
    {
        self.t = t;
    }

    pub fn set_m(&mut self, m: u32)
        ensures
            final(self).m == m,
            final(self).t == old(self).t,
    {
        self.m = m;
    }

    /// Add `t` ticks to the running tick total, wrapping at the word width.
    pub fn inc_t(&mut self, t: u16)
        ensures
            final(self).t == old(self).t.wrapping_add(t as u32),
            final(self).m == old(self).m,
    {
        let at: u32 = t as u32;
        self.t = self.t.wrapping_add(at);
    }

    /// Add `m` machine cycles to the running tick total, wrapping at the
    /// word width; the machine-cycle total itself is left alone.
    pub fn inc_m(&mut self, m: u16)
        ensures
            final(self).t == old(self).t.wrapping_add(m as u32),
            final(self).m == old(self).m,
    {
        let am: u32 = m as u32;
        self.t = self.t.wrapping_add(am);
    }
}

/// The four condition flags held in the high nibble of the F register.
#[derive(Copy, Clone)]
pub enum CpuFlag {
    /// Carry out of bit 7 (or bit 15 for 16-bit arithmetic).
    C,
    /// Half-carry out of bit 3 (or bit 11).
    H,
    /// The last arithmetic operation was a subtraction.
    N,
    /// The last operation produced zero.
    Z,
}

impl CpuFlag {
    /// The bit this flag occupies inside the F register.
    pub open spec fn spec_mask(self) -> u8 {
        match self {
            CpuFlag::C => 0x10,
            CpuFlag::H => 0x20,
            CpuFlag::N => 0x40,
            CpuFlag::Z => 0x80,
        }
    }

    #[verifier::when_used_as_spec(spec_mask)]
    pub fn mask(self) -> (m: u8)
        ensures
            m == self.spec_mask(),
    {
        match self {
            CpuFlag::C => 0x10,
            CpuFlag::H => 0x20,
            CpuFlag::N => 0x40,
            CpuFlag::Z => 0x80,
        }
    }
}

/// Whether the flag bit selected by `mask` is set in an F register value.
pub open spec fn flag_set(f: u8, mask: u8) -> bool {
    f & mask != 0
}

/// The F register after setting or clearing one flag bit: the requested bit
/// is written and the low nibble is forced back to zero.
pub open spec fn apply_flag(f: u8, mask: u8, set: bool) -> u8 {
    if set {
        (f | mask) & 0xF0
    } else {
        (f & !mask) & 0xF0
    }
}

/// The register values the console powers on with.
pub open spec fn power_on_registers() -> Registers {
    Registers {
        a: 0x11,
        f: 0xB0,
        b: 0x00,
        c: 0x13,
        d: 0x00,
        e: 0xD8,
        h: 0x01,
        l: 0x4D,
        pc: 0x0100,
        sp: 0xFFFE,
        m: 0,
        t: 0,
        ime: 0,
    }
}

/// The register file: eight 8-bit registers (pairable into BC, DE, HL),
/// the flags register F, the interrupt master enable, the program counter,
/// the stack pointer, and the cycle cost of the last instruction.
pub struct Registers {
    pub a: u8,
    pub b: u8,
    pub c: u8,
    pub d: u8,
    pub e: u8,
    pub h: u8,
    pub l: u8,
    /// Interrupt master enable: nonzero gates interrupt delivery on.
    pub ime: u8,
    /// The flags register; only the high nibble ever holds data.
    pub f: u8,
    /// Machine cycles taken by the last instruction.
    pub m: u16,
    /// Clock ticks taken by the last instruction.
    pub t: u16,
    pub pc: u16,
    pub sp: u16,
}

impl Registers {
    /// The invariant every operation keeps: F's low nibble is zero.
    pub open spec fn flags_wf(self) -> bool {
        self.f & 0x0F == 0
    }

    /// The Zero flag.
    pub open spec fn zf(self) -> bool {
        flag_set(self.f, 0x80)
    }

    /// The Subtract flag.
    pub open spec fn nf(self) -> bool {
        flag_set(self.f, 0x40)
    }

    /// The Half-carry flag.
    pub open spec fn hf(self) -> bool {
        flag_set(self.f, 0x20)
    }

    /// The Carry flag.
    pub open spec fn cf(self) -> bool {
        flag_set(self.f, 0x10)
    }

    /// The BC pair.
    pub open spec fn spec_bc(&self) -> u16 {
        (self.b * 0x100 + self.c) as u16
    }

    /// The DE pair.
    pub open spec fn spec_de(&self) -> u16 {
        (self.d * 0x100 + self.e) as u16
    }

    /// The HL pair.
    pub open spec fn spec_hl(&self) -> u16 {
        (self.h * 0x100 + self.l) as u16
    }

    #[verifier::when_used_as_spec(spec_bc)]
    pub fn bc(&self) -> (v: u16)
        ensures
            v == self.spec_bc(),
    {
        (self.b as u16) * 0x100 + self.c as u16
    }

    #[verifier::when_used_as_spec(spec_de)]
    pub fn de(&self) -> (v: u16)
        ensures
            v == self.spec_de(),
    {
        (self.d as u16) * 0x100 + self.e as u16
    }

    #[verifier::when_used_as_spec(spec_hl)]
    pub fn hl(&self) -> (v: u16)
        ensures
            v == self.spec_hl(),
    {
        (self.h as u16) * 0x100 + self.l as u16
    }

    /// The AF pair: A over the flags byte.
    pub fn af(&self) -> (v: u16)
        ensures
            v == self.a * 0x100 + self.f,
    {
        (self.a as u16) * 0x100 + self.f as u16
    }

    /// Write the BC pair.
    pub fn set_bc(&mut self, v: u16)
        ensures
            *final(self) == (Registers { b: (v >> 8) as u8, c: (v & 0xFF) as u8, ..*old(self) }),
            final(self).spec_bc() == v,
    {
        self.b = (v >> 8) as u8;
        self.c = (v & 0xFF) as u8;
        proof {
            assert(((v >> 8) as u8) * 0x100 + ((v & 0xFF) as u8) == v) by (bit_vector);
        }
    }

    /// Write the DE pair.
    pub fn set_de(&mut self, v: u16)
        ensures
            *final(self) == (Registers { d: (v >> 8) as u8, e: (v & 0xFF) as u8, ..*old(self) }),
            final(self).spec_de() == v,
    {
        self.d = (v >> 8) as u8;
        self.e = (v & 0xFF) as u8;
        proof {
            assert(((v >> 8) as u8) * 0x100 + ((v & 0xFF) as u8) == v) by (bit_vector);
        }
    }

    /// Write the HL pair.
    pub fn set_hl(&mut self, v: u16)
        ensures
            *final(self) == (Registers { h: (v >> 8) as u8, l: (v & 0xFF) as u8, ..*old(self) }),
            final(self).spec_hl() == v,
    {
        self.h = (v >> 8) as u8;
        self.l = (v & 0xFF) as u8;
        proof {
            assert(((v >> 8) as u8) * 0x100 + ((v & 0xFF) as u8) == v) by (bit_vector);
        }
    }

    /// Write the AF pair; the low nibble of F is forced to zero.
    pub fn set_af(&mut self, v: u16)
        ensures
            *final(self) == (Registers {
                a: (v >> 8) as u8,
                f: ((v & 0xFF) as u8) & 0xF0,
                ..*old(self)
            }),
            final(self).flags_wf(),
    {
        self.a = (v >> 8) as u8;
        self.f = ((v & 0xFF) as u8) & 0xF0;
        proof {
            assert((((v & 0xFF) as u8) & 0xF0) & 0x0F == 0) by (bit_vector);
        }
    }

    /// Power-on register values.
    pub fn new() -> (r: Registers)
        ensures
            r.flags_wf(),
            r == power_on_registers(),
            r.a == 0x11,
            r.f == 0xB0,
            r.b == 0x00,
            r.c == 0x13,
            r.d == 0x00,
            r.e == 0xD8,
            r.h == 0x01,
            r.l == 0x4D,
            r.pc == 0x0100,
            r.sp == 0xFFFE,
            r.m == 0,
            r.t == 0,
            r.ime == 0,
    {
        let r = Registers {
            a: 0x11,
            f: 0xB0,
            b: 0x00,
            c: 0x13,
            d: 0x00,
            e: 0xD8,
            h: 0x01,
            l: 0x4D,
            pc: 0x0100,
            sp: 0xFFFE,
            m: 0,
            t: 0,
            ime: 0,
        };
        proof {
            assert(0xB0u8 & 0x0F == 0) by (bit_vector);
        }
        r
    }

    /// Set or clear one flag; every other register field is untouched and
    /// the low nibble of F comes out zero.
    pub fn flag(&mut self, flags: CpuFlag, set: bool)
        ensures
            final(self).f == apply_flag(old(self).f, flags.spec_mask(), set),
            final(self).flags_wf(),
            flag_set(final(self).f, flags.spec_mask()) == set,
            (forall|m: u8|
                (m == 0x10 || m == 0x20 || m == 0x40 || m == 0x80) && m != flags.spec_mask()
                    ==> flag_set(final(self).f, m) == flag_set(old(self).f, m)),
            *final(self) == (Registers { f: final(self).f, ..*old(self) }),
    {
        let mask: u8 = flags.mask();
        match set {
            true => self.f |= mask,
            false => self.f &= !mask,
        }
        self.f &= 0xF0;
        proof {
            lemma_apply_flag(old(self).f, mask, set);
            assert(mask == 0x10 || mask == 0x20 || mask == 0x40 || mask == 0x80);
            assert forall|m: u8|
                (m == 0x10 || m == 0x20 || m == 0x40 || m == 0x80) && m
                    != flags.spec_mask() implies flag_set(self.f, m) == flag_set(
                old(self).f,
                m,
            ) by {
                lemma_apply_flag_other(old(self).f, mask, m, set);
            }
        }
    }

    /// Read one flag bit out of F.
    pub fn getflag(&self, flags: CpuFlag) -> (r: bool)
        ensures
            r == flag_set(self.f, flags.spec_mask()),
    {
        let mask: u8 = flags.mask();
        self.f & mask > 0
    }
}

/// After `apply_flag` the low nibble is zero and the targeted bit equals
/// the request, for each of the four flag masks.
proof fn lemma_apply_flag(f: u8, mask: u8, set: bool)
    requires
        mask == 0x10 || mask == 0x20 || mask == 0x40 || mask == 0x80,
    ensures
        apply_flag(f, mask, set) & 0x0F == 0,
        flag_set(apply_flag(f, mask, set), mask) == set,
        apply_flag(f, mask, set) == if set {
            (f | mask) & 0xF0
        } else {
            (f & !mask) & 0xF0
        },
{
    assert(((f | mask) & 0xF0) & 0x0F == 0 && ((f & !mask) & 0xF0) & 0x0F == 0) by (bit_vector);
    assert((mask == 0x10 || mask == 0x20 || mask == 0x40 || mask == 0x80) ==> (((f | mask) & 0xF0)
        & mask != 0 && ((f & !mask) & 0xF0) & mask == 0)) by (bit_vector);
}

/// Setting or clearing one of the four flag bits leaves the other three as
/// they were.
proof fn lemma_apply_flag_other(f: u8, mask: u8, other: u8, set: bool)
    requires
        mask == 0x10 || mask == 0x20 || mask == 0x40 || mask == 0x80,
        other == 0x10 || other == 0x20 || other == 0x40 || other == 0x80,
        other != mask,
    ensures
        flag_set(apply_flag(f, mask, set), other) == flag_set(f, other),
{
    assert((mask == 0x10 || mask == 0x20 || mask == 0x40 || mask == 0x80) && (other == 0x10
        || other == 0x20 || other == 0x40 || other == 0x80) && other != mask ==> ((((f | mask)
        & 0xF0) & other != 0) == (f & other != 0)) && ((((f & !mask) & 0xF0) & other != 0) == (f
        & other != 0))) by (bit_vector);
}

} // verus!
