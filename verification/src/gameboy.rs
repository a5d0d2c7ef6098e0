use crate::cpu::{spec_defined_opcode, Cpu, ExecError};
use crate::ppu::{dist_to_vblank, frame_pos, LINE_CYCLES, VBLANK_LINE};
use crate::input::{Keypad, KeypadKey};
use crate::mmu::{header_ok, mbc_of, LoadError, Memory};
use vstd::prelude::*;

verus! {

/// The console: the instruction interpreter (which owns the bus, the
/// pixel engine, the timer and the keypad) plus the output geometry a
/// frontend reads.
pub struct Gameboy {
    pub cpu: Cpu,
    /// Framebuffer width in pixels.
    pub width: u32,
    /// Framebuffer height in pixels.
    pub height: u32,
}

impl Gameboy {
    pub open spec fn wf(self) -> bool {
        &&& self.cpu.wf()
        &&& self.width == 160
        &&& self.height == 144
    }

    /// Power the console on around a cartridge image. Loading fails
    /// exactly when the header is rejected: an image too short for a
    /// header, an unknown bank-controller byte, or a size code out of
    /// range, each with its own error.
    pub fn new(data: Vec<u8>) -> (r: Result<Gameboy, LoadError>)
        ensures
            r is Ok <==> header_ok(data@),
            data@.len() < 0x0150 ==> r == Result::<Gameboy, LoadError>::Err(
                LoadError::ImageTooShort,
            ),
            data@.len() >= 0x0150 && mbc_of(data@[0x0147]) is None ==> r == Result::<
                Gameboy,
                LoadError,
            >::Err(LoadError::UnsupportedController(data@[0x0147])),
            r is Ok ==> r->Ok_0.wf() && r->Ok_0.cpu.memory.rom@ == data@
                && r->Ok_0.cpu.registers == crate::registers::power_on_registers()
                && r->Ok_0.cpu.registers.pc == 0x0100 && !r->Ok_0.cpu.halted,
    {
        match Memory::new(data) {
            Ok(m) => Ok(Gameboy { cpu: Cpu::new(m), width: 160, height: 144 }),
            Err(e) => Err(e),
        }
    }

    /// Run the interpreter until the pixel engine reports a completed
    /// frame, consuming that report; the framebuffer then holds the
    /// frame and the engine sits within one instruction of the entry
    /// into the vertical blank. A fetched byte with no decoding stops
    /// the run instead: the reported fault names the address and the
    /// undecodable byte the bus holds there.
    pub fn frame(&mut self) -> (r: Result<(), ExecError>)
        requires
            old(self).wf(),
        ensures
            final(self).wf(),
            r is Ok ==> !final(self).cpu.memory.gpu.frame_flag,
            r is Ok ==> VBLANK_LINE * LINE_CYCLES <= frame_pos(final(self).cpu.memory.gpu.timing())
                < VBLANK_LINE * LINE_CYCLES + 24,
            r is Err ==> !spec_defined_opcode(r->Err_0->UndefinedOpcode_opcode),
            r is Err ==> final(self).cpu.memory.spec_rb(r->Err_0->UndefinedOpcode_pc)
                == r->Err_0->UndefinedOpcode_opcode,
            r is Err ==> final(self).cpu.registers.pc == r->Err_0->UndefinedOpcode_pc || final(self).cpu.registers.pc == r->Err_0->UndefinedOpcode_pc.wrapping_add(1),
    {
        self.cpu.memory.gpu.frame_flag = false;
        loop
            invariant
                self.wf(),
                !self.cpu.memory.gpu.frame_flag,
            decreases dist_to_vblank(self.cpu.memory.gpu.timing()),
        {
            let ghost pre = *self;
            match self.cpu.step() {
                Ok(_) => {},
                Err(e) => {
                    return Err(e);
                },
            }
            if self.cpu.memory.gpu.frame_flag {
                proof {
                    let t0 = pre.cpu.memory.gpu.timing();
                    let t1 = self.cpu.memory.gpu.timing();
                    assert(frame_pos(t0) < VBLANK_LINE * LINE_CYCLES ==> frame_pos(t0) + (
                    VBLANK_LINE * LINE_CYCLES - frame_pos(t0)) < crate::ppu::FRAME_CYCLES);
                    assert(VBLANK_LINE * LINE_CYCLES <= frame_pos(t1) < VBLANK_LINE * LINE_CYCLES
                        + 24);
                }
                self.cpu.memory.gpu.frame_flag = false;
                return Ok(());
            }
        }
    }

    /// The most recently completed frame: packed RGBA, row-major, at the
    /// console's native resolution.
    pub fn image(&self) -> (fb: &Vec<u8>)
        requires
            self.wf(),
        ensures
            fb@ == self.cpu.memory.gpu.fb@,
            fb@.len() == 160 * 144 * 4,
    {
        &self.cpu.memory.gpu.fb
    }

    /// Press a key: the key's row bit goes high and the input interrupt
    /// is requested.
    pub fn keydown(&mut self, key: KeypadKey)
        requires
            old(self).wf(),
        ensures
            final(self).wf(),
            final(self).cpu.memory.keypad == (Keypad {
                dir: if key.spec_is_direction() {
                    old(self).cpu.memory.keypad.dir | key.spec_mask()
                } else {
                    old(self).cpu.memory.keypad.dir
                },
                btn: if key.spec_is_direction() {
                    old(self).cpu.memory.keypad.btn
                } else {
                    old(self).cpu.memory.keypad.btn | key.spec_mask()
                },
                select: old(self).cpu.memory.keypad.select,
                irq: false,
            }),
            final(self).cpu.memory.intf == (old(self).cpu.memory.intf | 0x10),
    {
        self.cpu.memory.keypad.keydown(key);
        self.cpu.memory.keypad.irq = false;
        self.cpu.memory.intf = self.cpu.memory.intf | 0x10;
    }

    /// Release a key: the key's row bit goes low.
    pub fn keyup(&mut self, key: KeypadKey)
        requires
            old(self).wf(),
        ensures
            final(self).wf(),
            final(self).cpu.memory.keypad == (Keypad {
                dir: if key.spec_is_direction() {
                    old(self).cpu.memory.keypad.dir & !key.spec_mask()
                } else {
                    old(self).cpu.memory.keypad.dir
                },
                btn: if key.spec_is_direction() {
                    old(self).cpu.memory.keypad.btn
                } else {
                    old(self).cpu.memory.keypad.btn & !key.spec_mask()
                },
                ..old(self).cpu.memory.keypad
            }),
    {
        self.cpu.memory.keypad.keyup(key);
    }
}

/// Drop the alpha channel of a packed RGBA buffer: each pixel keeps its
/// three colour bytes, in order.
pub fn rgba_to_rgb(input: &Vec<u8>) -> (out: Vec<u8>)
    requires
        input@.len() % 4 == 0,
    ensures
        out@.len() == input@.len() / 4 * 3,
        forall|i: int| 0 <= i < out@.len() ==> out@[i] == input@[(i / 3) * 4 + i % 3],
{
    let mut out: Vec<u8> = Vec::new();
    let mut i: usize = 0;
    while i < input.len()
        invariant
            i <= input@.len(),
            i % 4 == 0,
            input@.len() % 4 == 0,
            out@.len() * 4 == i * 3,
            out@.len() == i / 4 * 3,
            forall|j: int| 0 <= j < out@.len() ==> out@[j] == input@[(j / 3) * 4 + j % 3],
        decreases input@.len() - i,
    {
        proof {
            assert(i + 3 < input@.len());
        }
        out.push(input[i]);
        out.push(input[i + 1]);
        out.push(input[i + 2]);
        i = i + 4;
    }
    out
}

} // verus!
