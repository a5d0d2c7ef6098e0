use crate::input::{joyp_value, Keypad};
use crate::ppu::{timing_advance, Ppu, PpuTiming};
use crate::timer::{timer_advance, Timer};
use vstd::prelude::*;

verus! {

/// The bank-controller families the bus recognizes.
#[derive(Copy, Clone)]
pub enum MbcKind {
    /// No controller: a plain 32 KiB image, writes to the ROM window do
    /// nothing.
    NoMbc,
    Mbc1,
    Mbc3,
    Mbc5,
}

/// Bank-switching state owned by the bus: the controller family, the
/// active ROM and RAM bank indices, the RAM-enable flag, and the banking
/// mode of the first controller family.
#[derive(Copy, Clone)]
pub struct BankState {
    pub kind: MbcKind,
    pub rom_bank: u16,
    pub ram_bank: u8,
    pub ram_on: bool,
    pub mode: u8,
}

/// The effect of a write into the ROM window (the controller's own
/// registers): which bank index, enable flag or mode it moves, by family.
pub open spec fn ctrl_write(b: BankState, addr: u16, v: u8) -> BankState {
    match b.kind {
        MbcKind::NoMbc => b,
        MbcKind::Mbc1 => {
            if addr < 0x2000 {
                BankState { ram_on: v & 0x0F == 0x0A, ..b }
            } else if addr < 0x4000 {
                let low = if v & 0x1F == 0 {
                    1u8
                } else {
                    v & 0x1F
                };
                BankState { rom_bank: ((b.rom_bank & 0x60) | low as u16) as u16, ..b }
            } else if addr < 0x6000 {
                if b.mode == 0 {
                    BankState {
                        rom_bank: ((b.rom_bank & 0x1F) | (((v & 0x03) as u16) << 5)) as u16,
                        ..b
                    }
                } else {
                    BankState { ram_bank: v & 0x03, ..b }
                }
            } else {
                BankState { mode: v & 0x01, ..b }
            }
        },
        MbcKind::Mbc3 => {
            if addr < 0x2000 {
                BankState { ram_on: v & 0x0F == 0x0A, ..b }
            } else if addr < 0x4000 {
                let low = if v & 0x7F == 0 {
                    1u8
                } else {
                    v & 0x7F
                };
                BankState { rom_bank: low as u16, ..b }
            } else if addr < 0x6000 {
                BankState { ram_bank: v & 0x0F, ..b }
            } else {
                b
            }
        },
        MbcKind::Mbc5 => {
            if addr < 0x2000 {
                BankState { ram_on: v & 0x0F == 0x0A, ..b }
            } else if addr < 0x3000 {
                BankState { rom_bank: ((b.rom_bank & 0x100) | v as u16) as u16, ..b }
            } else if addr < 0x4000 {
                BankState {
                    rom_bank: ((b.rom_bank & 0x0FF) | (((v & 0x01) as u16) << 8)) as u16,
                    ..b
                }
            } else if addr < 0x6000 {
                BankState { ram_bank: v & 0x0F, ..b }
            } else {
                b
            }
        },
    }
}

/// The RAM bank the external-RAM window reaches: the first family pins it
/// to bank zero while in simple mode.
pub open spec fn eff_ram_bank(b: BankState) -> u8 {
    match b.kind {
        MbcKind::Mbc1 => if b.mode == 0 {
            0
        } else {
            b.ram_bank
        },
        _ => b.ram_bank,
    }
}

/// Offset into cartridge RAM that an external-RAM-window address reaches.
pub open spec fn eram_index(b: BankState, addr: u16) -> int {
    eff_ram_bank(b) * 0x2000 + (addr - 0xA000)
}

/// The cartridge-RAM subsystem seen on its own: banking state plus the
/// RAM contents. The bus's reads and writes of the external-RAM window
/// are specified over this view.
pub struct RamPort {
    pub bank: BankState,
    pub eram: Seq<u8>,
}

/// What a read of the external-RAM window returns: the banked byte when
/// RAM is enabled and backed, the sentinel otherwise.
pub open spec fn ram_read(p: RamPort, addr: u16) -> u8 {
    if p.bank.ram_on && 0 <= eram_index(p.bank, addr) < p.eram.len() {
        p.eram[eram_index(p.bank, addr)]
    } else {
        0xFF
    }
}

/// What a write to the external-RAM window leaves behind: the banked byte
/// when RAM is enabled and backed, nothing otherwise.
pub open spec fn ram_write(p: RamPort, addr: u16, v: u8) -> RamPort {
    if p.bank.ram_on && 0 <= eram_index(p.bank, addr) < p.eram.len() {
        RamPort { bank: p.bank, eram: p.eram.update(eram_index(p.bank, addr), v) }
    } else {
        p
    }
}

/// Why a cartridge image was rejected at load time.
#[derive(Copy, Clone, PartialEq, Eq, Structural, Debug)]
pub enum LoadError {
    /// The image is too short to hold the header.
    ImageTooShort,
    /// The header names a bank-controller variant the bus does not
    /// support; the byte is carried along.
    UnsupportedController(u8),
    /// The header's ROM-size code is out of range; the byte is carried
    /// along.
    UnsupportedRomSize(u8),
    /// The header's RAM-size code is out of range; the byte is carried
    /// along.
    UnsupportedRamSize(u8),
}

/// The controller family a header byte selects, if any.
pub open spec fn mbc_of(code: u8) -> Option<MbcKind> {
    if code == 0x00 {
        Some(MbcKind::NoMbc)
    } else if 0x01 <= code <= 0x03 {
        Some(MbcKind::Mbc1)
    } else if 0x0F <= code <= 0x13 {
        Some(MbcKind::Mbc3)
    } else if 0x19 <= code <= 0x1E {
        Some(MbcKind::Mbc5)
    } else {
        None
    }
}

/// Cartridge RAM bytes for a header RAM-size code.
pub open spec fn ram_size_of(code: u8) -> int {
    if code == 0 {
        0
    } else if code == 1 {
        0x800
    } else if code == 2 {
        0x2000
    } else if code == 3 {
        0x8000
    } else if code == 4 {
        0x20000
    } else {
        0x10000
    }
}

/// A loadable header: long enough, a known controller, size codes in
/// range.
pub open spec fn header_ok(rom: Seq<u8>) -> bool {
    &&& rom.len() >= 0x0150
    &&& mbc_of(rom[0x0147]) is Some
    &&& rom[0x0148] <= 8
    &&& rom[0x0149] <= 5
}

/// Addresses whose writes land in plain byte storage (working RAM, its
/// echo, or high RAM), touching no register and no other region.
pub open spec fn plain_ram(addr: u16) -> bool {
    (0xC000 <= addr < 0xFE00) || (0xFF80 <= addr < 0xFFFF)
}

/// The complete effect of one byte written to the bus: each field of the
/// post state as a function of the pre state, region by region.
pub open spec fn wb_post(m0: Memory, m1: Memory, addr: u16, v: u8) -> bool {
    &&& m1.rom@ == m0.rom@
    &&& m1.bank == (if addr < 0x8000 {
        ctrl_write(m0.bank, addr, v)
    } else {
        m0.bank
    })
    &&& m1.gpu.vram@ == (if 0x8000 <= addr < 0xA000 {
        m0.gpu.vram@.update(addr - 0x8000, v)
    } else {
        m0.gpu.vram@
    })
    &&& m1.eram@ == (if 0xA000 <= addr < 0xC000 {
        ram_write(m0.ram_port(), addr, v).eram
    } else {
        m0.eram@
    })
    &&& m1.wram@ == (if 0xC000 <= addr < 0xE000 {
        m0.wram@.update(addr - 0xC000, v)
    } else if 0xE000 <= addr < 0xFE00 {
        m0.wram@.update(addr - 0xE000, v)
    } else {
        m0.wram@
    })
    &&& m1.gpu.oam@ == (if 0xFE00 <= addr < 0xFEA0 {
        m0.gpu.oam@.update(addr - 0xFE00, v)
    } else if addr == 0xFF46 && v <= 0xDF {
        Seq::new(0xA0, |j: int| m0.spec_rb((v * 0x100 + j) as u16))
    } else {
        m0.gpu.oam@
    })
    &&& m1.hram@ == (if 0xFF80 <= addr < 0xFFFF {
        m0.hram@.update(addr - 0xFF80, v)
    } else {
        m0.hram@
    })
    &&& m1.intf == (if addr == 0xFF0F {
        v
    } else {
        m0.intf
    })
    &&& m1.inte == (if addr == 0xFFFF {
        v
    } else {
        m0.inte
    })
    &&& m1.timer == (if addr == 0xFF04 {
        Timer { div: 0, acc: 0, ..m0.timer }
    } else if addr == 0xFF05 {
        Timer { tima: v, ..m0.timer }
    } else if addr == 0xFF06 {
        Timer { tma: v, ..m0.timer }
    } else if addr == 0xFF07 {
        Timer { tac: v & 0x07, ..m0.timer }
    } else {
        m0.timer
    })
    &&& m1.keypad == (if addr == 0xFF00 {
        Keypad { select: v & 0x30, ..m0.keypad }
    } else {
        m0.keypad
    })
    &&& m1.gpu.lcdc == (if addr == 0xFF40 {
        v
    } else {
        m0.gpu.lcdc
    })
    &&& m1.gpu.stat == (if addr == 0xFF41 {
        v & 0x78
    } else {
        m0.gpu.stat
    })
    &&& m1.gpu.scy == (if addr == 0xFF42 {
        v
    } else {
        m0.gpu.scy
    })
    &&& m1.gpu.scx == (if addr == 0xFF43 {
        v
    } else {
        m0.gpu.scx
    })
    &&& m1.gpu.lyc == (if addr == 0xFF45 {
        v
    } else {
        m0.gpu.lyc
    })
    &&& m1.gpu.bgp == (if addr == 0xFF47 {
        v
    } else {
        m0.gpu.bgp
    })
    &&& m1.gpu.obp0 == (if addr == 0xFF48 {
        v
    } else {
        m0.gpu.obp0
    })
    &&& m1.gpu.obp1 == (if addr == 0xFF49 {
        v
    } else {
        m0.gpu.obp1
    })
    &&& m1.gpu.wy == (if addr == 0xFF4A {
        v
    } else {
        m0.gpu.wy
    })
    &&& m1.gpu.wx == (if addr == 0xFF4B {
        v
    } else {
        m0.gpu.wx
    })
    &&& m1.dma_reg == (if addr == 0xFF46 {
        v
    } else {
        m0.dma_reg
    })
    &&& m1.gpu.timing() == m0.gpu.timing()
    &&& m1.gpu.fb@ == m0.gpu.fb@
}

/// The memory bus: the cartridge image and its banking state, cartridge
/// RAM, working and high RAM, the pixel engine, the timer, the keypad,
/// and the two interrupt masks.
pub struct Memory {
    /// The cartridge image; never written.
    pub rom: Vec<u8>,
    pub bank: BankState,
    /// Cartridge RAM, sized by the header.
    pub eram: Vec<u8>,
    /// Working RAM, also reachable through the echo region.
    pub wram: Vec<u8>,
    /// High RAM.
    pub hram: Vec<u8>,
    pub gpu: Ppu,
    pub timer: Timer,
    pub keypad: Keypad,
    /// The interrupt request mask.
    pub intf: u8,
    /// The interrupt enable mask.
    pub inte: u8,
    /// The last value written to the transfer-trigger register.
    pub dma_reg: u8,
}

impl Memory {
    pub open spec fn wf(self) -> bool {
        &&& self.wram@.len() == 0x2000
        &&& self.hram@.len() == 0x7F
        &&& self.gpu.wf()
        &&& self.timer.wf()
        &&& self.eram@.len() <= 0x20000
    }

    /// The cartridge-RAM subsystem of this bus.
    pub open spec fn ram_port(self) -> RamPort {
        RamPort { bank: self.bank, eram: self.eram@ }
    }

    /// What a read at `addr` returns: the byte of the owning region, with
    /// the echo region aliasing working RAM, disabled or unbacked
    /// external RAM reading as the sentinel, and unmapped addresses too.
    pub open spec fn spec_rb(self, addr: u16) -> u8 {
        if addr < 0x4000 {
            if addr < self.rom@.len() {
                self.rom@[addr as int]
            } else {
                0xFF
            }
        } else if addr < 0x8000 {
            let idx = self.bank.rom_bank * 0x4000 + (addr - 0x4000);
            if 0 <= idx < self.rom@.len() {
                self.rom@[idx]
            } else {
                0xFF
            }
        } else if addr < 0xA000 {
            self.gpu.vram@[addr - 0x8000]
        } else if addr < 0xC000 {
            ram_read(self.ram_port(), addr)
        } else if addr < 0xE000 {
            self.wram@[addr - 0xC000]
        } else if addr < 0xFE00 {
            self.wram@[addr - 0xE000]
        } else if addr < 0xFEA0 {
            self.gpu.oam@[addr - 0xFE00]
        } else if addr < 0xFF00 {
            0xFF
        } else if addr == 0xFF00 {
            joyp_value(self.keypad.select, self.keypad.dir, self.keypad.btn)
        } else if addr == 0xFF04 {
            self.timer.div
        } else if addr == 0xFF05 {
            self.timer.tima
        } else if addr == 0xFF06 {
            self.timer.tma
        } else if addr == 0xFF07 {
            self.timer.tac
        } else if addr == 0xFF0F {
            self.intf
        } else if addr == 0xFF40 {
            self.gpu.lcdc
        } else if addr == 0xFF41 {
            (0x80u8 | (self.gpu.stat & 0x78) | (if self.gpu.line == self.gpu.lyc {
                4u8
            } else {
                0u8
            }) | crate::ppu::mode_of(self.gpu.line, self.gpu.dot)) as u8
        } else if addr == 0xFF42 {
            self.gpu.scy
        } else if addr == 0xFF43 {
            self.gpu.scx
        } else if addr == 0xFF44 {
            self.gpu.line
        } else if addr == 0xFF45 {
            self.gpu.lyc
        } else if addr == 0xFF46 {
            self.dma_reg
        } else if addr == 0xFF47 {
            self.gpu.bgp
        } else if addr == 0xFF48 {
            self.gpu.obp0
        } else if addr == 0xFF49 {
            self.gpu.obp1
        } else if addr == 0xFF4A {
            self.gpu.wy
        } else if addr == 0xFF4B {
            self.gpu.wx
        } else if 0xFF80 <= addr && addr < 0xFFFF {
            self.hram@[addr - 0xFF80]
        } else if addr == 0xFFFF {
            self.inte
        } else {
            0xFF
        }
    }

    /// Build a bus from a cartridge image. The header is validated first:
    /// the result is an error exactly when the image cannot hold a
    /// header, the controller byte is unknown, or a size code is out of
    /// range, and each case names its own error.
    pub fn new(rom: Vec<u8>) -> (r: Result<Memory, LoadError>)
        ensures
            r is Ok <==> header_ok(rom@),
            rom@.len() < 0x0150 ==> r == Result::<Memory, LoadError>::Err(LoadError::ImageTooShort),
            rom@.len() >= 0x0150 && mbc_of(rom@[0x0147]) is None ==> r == Result::<
                Memory,
                LoadError,
            >::Err(LoadError::UnsupportedController(rom@[0x0147])),
            rom@.len() >= 0x0150 && mbc_of(rom@[0x0147]) is Some && rom@[0x0148] > 8 ==> r
                == Result::<Memory, LoadError>::Err(LoadError::UnsupportedRomSize(rom@[0x0148])),
            rom@.len() >= 0x0150 && mbc_of(rom@[0x0147]) is Some && rom@[0x0148] <= 8
                && rom@[0x0149] > 5 ==> r == Result::<Memory, LoadError>::Err(
                LoadError::UnsupportedRamSize(rom@[0x0149]),
            ),
            r is Ok ==> {
                let m = r->Ok_0;
                &&& m.wf()
                &&& m.rom@ == rom@
                &&& m.bank == (BankState {
                    kind: mbc_of(rom@[0x0147])->Some_0,
                    rom_bank: 1,
                    ram_bank: 0,
                    ram_on: false,
                    mode: 0,
                })
                &&& m.eram@.len() == ram_size_of(rom@[0x0149])
                &&& (forall|i: int| 0 <= i < m.eram@.len() ==> m.eram@[i] == 0)
                &&& (forall|i: int| 0 <= i < m.wram@.len() ==> m.wram@[i] == 0)
                &&& m.intf == 0
                &&& m.inte == 0
                &&& m.timer == (Timer {
                    div: 0,
                    tima: 0,
                    tma: 0,
                    tac: 0,
                    acc: 0,
                    reloading: false,
                    irq: false,
                })
                &&& m.gpu.timing() == (PpuTiming {
                    line: 0,
                    dot: 0,
                    irq_vblank: false,
                    irq_stat: false,
                    frame_flag: false,
                })
            },
    {
        if rom.len() < 0x0150 {
            return Err(LoadError::ImageTooShort);
        }
        let ctrl: u8 = rom[0x0147];
        let kind: MbcKind = if ctrl == 0x00 {
            MbcKind::NoMbc
        } else if 0x01 <= ctrl && ctrl <= 0x03 {
            MbcKind::Mbc1
        } else if 0x0F <= ctrl && ctrl <= 0x13 {
            MbcKind::Mbc3
        } else if 0x19 <= ctrl && ctrl <= 0x1E {
            MbcKind::Mbc5
        } else {
            return Err(LoadError::UnsupportedController(ctrl));
        };
        let rom_code: u8 = rom[0x0148];
        if rom_code > 8 {
            return Err(LoadError::UnsupportedRomSize(rom_code));
        }
        let ram_code: u8 = rom[0x0149];
        if ram_code > 5 {
            return Err(LoadError::UnsupportedRamSize(ram_code));
        }
        let ram_len: usize = if ram_code == 0 {
            0
        } else if ram_code == 1 {
            0x800
        } else if ram_code == 2 {
            0x2000
        } else if ram_code == 3 {
            0x8000
        } else if ram_code == 4 {
            0x20000
        } else {
            0x10000
        };
        let mut eram: Vec<u8> = Vec::new();
        eram.resize(ram_len, 0u8);
        let mut wram: Vec<u8> = Vec::new();
        wram.resize(0x2000, 0u8);
        let mut hram: Vec<u8> = Vec::new();
        hram.resize(0x7F, 0u8);
        Ok(
            Memory {
                rom,
                bank: BankState { kind, rom_bank: 1, ram_bank: 0, ram_on: false, mode: 0 },
                eram,
                wram,
                hram,
                gpu: Ppu::new(),
                timer: Timer::new(),
                keypad: Keypad::new(),
                intf: 0,
                inte: 0,
                dma_reg: 0,
            },
        )
    }

    /// Read one byte.
    pub fn rb(&self, addr: u16) -> (v: u8)
        requires
            self.wf(),
        ensures
            v == self.spec_rb(addr),
            !self.bank.ram_on && 0xA000 <= addr < 0xC000 ==> v == 0xFF,
    {
        if addr < 0x4000 {
            let a: usize = addr as usize;
            if a < self.rom.len() {
                self.rom[a]
            } else {
                0xFF
            }
        } else if addr < 0x8000 {
            let idx: usize = (self.bank.rom_bank as usize) * 0x4000 + (addr as usize - 0x4000);
            if idx < self.rom.len() {
                self.rom[idx]
            } else {
                0xFF
            }
        } else if addr < 0xA000 {
            self.gpu.vram[addr as usize - 0x8000]
        } else if addr < 0xC000 {
            let bank: u8 = match self.bank.kind {
                MbcKind::Mbc1 => if self.bank.mode == 0 {
                    0
                } else {
                    self.bank.ram_bank
                },
                _ => self.bank.ram_bank,
            };
            let idx: usize = (bank as usize) * 0x2000 + (addr as usize - 0xA000);
            if self.bank.ram_on && idx < self.eram.len() {
                self.eram[idx]
            } else {
                0xFF
            }
        } else if addr < 0xE000 {
            self.wram[addr as usize - 0xC000]
        } else if addr < 0xFE00 {
            self.wram[addr as usize - 0xE000]
        } else if addr < 0xFEA0 {
            self.gpu.oam[addr as usize - 0xFE00]
        } else if addr < 0xFF00 {
            0xFF
        } else if addr == 0xFF00 {
            self.keypad.rb()
        } else if addr == 0xFF04 {
            self.timer.div
        } else if addr == 0xFF05 {
            self.timer.tima
        } else if addr == 0xFF06 {
            self.timer.tma
        } else if addr == 0xFF07 {
            self.timer.tac
        } else if addr == 0xFF0F {
            self.intf
        } else if addr == 0xFF40 {
            self.gpu.lcdc
        } else if addr == 0xFF41 {
            self.gpu.stat_value()
        } else if addr == 0xFF42 {
            self.gpu.scy
        } else if addr == 0xFF43 {
            self.gpu.scx
        } else if addr == 0xFF44 {
            self.gpu.line
        } else if addr == 0xFF45 {
            self.gpu.lyc
        } else if addr == 0xFF46 {
            self.dma_reg
        } else if addr == 0xFF47 {
            self.gpu.bgp
        } else if addr == 0xFF48 {
            self.gpu.obp0
        } else if addr == 0xFF49 {
            self.gpu.obp1
        } else if addr == 0xFF4A {
            self.gpu.wy
        } else if addr == 0xFF4B {
            self.gpu.wx
        } else if 0xFF80 <= addr && addr < 0xFFFF {
            self.hram[addr as usize - 0xFF80]
        } else if addr == 0xFFFF {
            self.inte
        } else {
            0xFF
        }
    }

    /// Read a 16-bit value, low byte first.
    pub fn rw(&self, addr: u16) -> (v: u16)
        requires
            self.wf(),
        ensures
            v == self.spec_rb(addr) + self.spec_rb(addr.wrapping_add(1)) * 0x100,
    {
        let lo: u8 = self.rb(addr);
        let hi: u8 = self.rb(addr.wrapping_add(1));
        lo as u16 + (hi as u16) * 0x100
    }

    /// Write a 16-bit value, low byte first: the low byte lands at `addr`
    /// and the high byte at the following address, each with the full
    /// per-region effect of a byte write, through the intermediate state
    /// the first write leaves.
    pub fn ww(&mut self, addr: u16, w: u16)
        requires
            old(self).wf(),
        ensures
            final(self).wf(),
            (exists|mid: Memory|
                #[trigger] wb_post(*old(self), mid, addr, (w & 0xFF) as u8) && wb_post(
                    mid,
                    *final(self),
                    addr.wrapping_add(1),
                    (w >> 8) as u8,
                )),
            final(self).rom@ == old(self).rom@,
            final(self).gpu.timing() == old(self).gpu.timing(),
            final(self).gpu.fb@ == old(self).gpu.fb@,
            final(self).inte == (if addr.wrapping_add(1) == 0xFFFF {
                (w >> 8) as u8
            } else if addr == 0xFFFF {
                (w & 0xFF) as u8
            } else {
                old(self).inte
            }),
            final(self).intf == (if addr.wrapping_add(1) == 0xFF0F {
                (w >> 8) as u8
            } else if addr == 0xFF0F {
                (w & 0xFF) as u8
            } else {
                old(self).intf
            }),
    {
        self.wb(addr, (w & 0xFF) as u8);
        let ghost mid = *self;
        self.wb(addr.wrapping_add(1), (w >> 8) as u8);
        proof {
            assert(wb_post(*old(self), mid, addr, (w & 0xFF) as u8) && wb_post(
                mid,
                *self,
                addr.wrapping_add(1),
                (w >> 8) as u8,
            ));
        }
    }

    /// Write one byte. Each region's clause says exactly what the write
    /// leaves behind: controller registers move the banking state, ROM
    /// contents are never touched, the echo region lands in working RAM,
    /// disabled external RAM swallows the write, a write to the
    /// transfer-trigger register copies a 160-byte block into
    /// object-attribute memory, and unmapped addresses do nothing.
    pub fn wb(&mut self, addr: u16, v: u8)
        requires
            old(self).wf(),
        ensures
            final(self).wf(),
            final(self).rom@ == old(self).rom@,
            final(self).bank == (if addr < 0x8000 {
                ctrl_write(old(self).bank, addr, v)
            } else {
                old(self).bank
            }),
            final(self).gpu.vram@ == (if 0x8000 <= addr < 0xA000 {
                old(self).gpu.vram@.update(addr - 0x8000, v)
            } else {
                old(self).gpu.vram@
            }),
            final(self).eram@ == (if 0xA000 <= addr < 0xC000 {
                ram_write(old(self).ram_port(), addr, v).eram
            } else {
                old(self).eram@
            }),
            final(self).wram@ == (if 0xC000 <= addr < 0xE000 {
                old(self).wram@.update(addr - 0xC000, v)
            } else if 0xE000 <= addr < 0xFE00 {
                old(self).wram@.update(addr - 0xE000, v)
            } else {
                old(self).wram@
            }),
            final(self).gpu.oam@ == (if 0xFE00 <= addr < 0xFEA0 {
                old(self).gpu.oam@.update(addr - 0xFE00, v)
            } else if addr == 0xFF46 && v <= 0xDF {
                Seq::new(0xA0, |j: int| old(self).spec_rb((v * 0x100 + j) as u16))
            } else {
                old(self).gpu.oam@
            }),
            final(self).hram@ == (if 0xFF80 <= addr < 0xFFFF {
                old(self).hram@.update(addr - 0xFF80, v)
            } else {
                old(self).hram@
            }),
            final(self).intf == (if addr == 0xFF0F {
                v
            } else {
                old(self).intf
            }),
            final(self).inte == (if addr == 0xFFFF {
                v
            } else {
                old(self).inte
            }),
            final(self).timer == (if addr == 0xFF04 {
                Timer { div: 0, acc: 0, ..old(self).timer }
            } else if addr == 0xFF05 {
                Timer { tima: v, ..old(self).timer }
            } else if addr == 0xFF06 {
                Timer { tma: v, ..old(self).timer }
            } else if addr == 0xFF07 {
                Timer { tac: v & 0x07, ..old(self).timer }
            } else {
                old(self).timer
            }),
            final(self).keypad == (if addr == 0xFF00 {
                Keypad { select: v & 0x30, ..old(self).keypad }
            } else {
                old(self).keypad
            }),
            final(self).gpu.lcdc == (if addr == 0xFF40 {
                v
            } else {
                old(self).gpu.lcdc
            }),
            final(self).gpu.stat == (if addr == 0xFF41 {
                v & 0x78
            } else {
                old(self).gpu.stat
            }),
            final(self).gpu.scy == (if addr == 0xFF42 {
                v
            } else {
                old(self).gpu.scy
            }),
            final(self).gpu.scx == (if addr == 0xFF43 {
                v
            } else {
                old(self).gpu.scx
            }),
            final(self).gpu.lyc == (if addr == 0xFF45 {
                v
            } else {
                old(self).gpu.lyc
            }),
            final(self).gpu.bgp == (if addr == 0xFF47 {
                v
            } else {
                old(self).gpu.bgp
            }),
            final(self).gpu.obp0 == (if addr == 0xFF48 {
                v
            } else {
                old(self).gpu.obp0
            }),
            final(self).gpu.obp1 == (if addr == 0xFF49 {
                v
            } else {
                old(self).gpu.obp1
            }),
            final(self).gpu.wy == (if addr == 0xFF4A {
                v
            } else {
                old(self).gpu.wy
            }),
            final(self).gpu.wx == (if addr == 0xFF4B {
                v
            } else {
                old(self).gpu.wx
            }),
            final(self).dma_reg == (if addr == 0xFF46 {
                v
            } else {
                old(self).dma_reg
            }),
            final(self).gpu.timing() == old(self).gpu.timing(),
            final(self).gpu.fb@ == old(self).gpu.fb@,
            wb_post(*old(self), *final(self), addr, v),
    {
        if addr < 0x8000 {
            self.apply_ctrl(addr, v);
        } else if addr < 0xA000 {
            self.gpu.vram.set(addr as usize - 0x8000, v);
        } else if addr < 0xC000 {
            let bank: u8 = match self.bank.kind {
                MbcKind::Mbc1 => if self.bank.mode == 0 {
                    0
                } else {
                    self.bank.ram_bank
                },
                _ => self.bank.ram_bank,
            };
            let idx: usize = (bank as usize) * 0x2000 + (addr as usize - 0xA000);
            if self.bank.ram_on && idx < self.eram.len() {
                self.eram.set(idx, v);
            }
        } else if addr < 0xE000 {
            self.wram.set(addr as usize - 0xC000, v);
        } else if addr < 0xFE00 {
            self.wram.set(addr as usize - 0xE000, v);
        } else if addr < 0xFEA0 {
            self.gpu.oam.set(addr as usize - 0xFE00, v);
        } else if addr < 0xFF00 {
        } else if addr == 0xFF00 {
            self.keypad.wb(v);
        } else if addr == 0xFF04 {
            self.timer.div = 0;
            self.timer.acc = 0;
        } else if addr == 0xFF05 {
            self.timer.tima = v;
        } else if addr == 0xFF06 {
            self.timer.tma = v;
        } else if addr == 0xFF07 {
            self.timer.tac = v & 0x07;
        } else if addr == 0xFF0F {
            self.intf = v;
        } else if addr == 0xFF40 {
            self.gpu.lcdc = v;
        } else if addr == 0xFF41 {
            self.gpu.stat = v & 0x78;
        } else if addr == 0xFF42 {
            self.gpu.scy = v;
        } else if addr == 0xFF43 {
            self.gpu.scx = v;
        } else if addr == 0xFF45 {
            self.gpu.lyc = v;
        } else if addr == 0xFF46 {
            self.dma_transfer(v);
        } else if addr == 0xFF47 {
            self.gpu.bgp = v;
        } else if addr == 0xFF48 {
            self.gpu.obp0 = v;
        } else if addr == 0xFF49 {
            self.gpu.obp1 = v;
        } else if addr == 0xFF4A {
            self.gpu.wy = v;
        } else if addr == 0xFF4B {
            self.gpu.wx = v;
        } else if 0xFF80 <= addr && addr < 0xFFFF {
            self.hram.set(addr as usize - 0xFF80, v);
        } else if addr == 0xFFFF {
            self.inte = v;
        }
    }

    /// A write into the ROM window: only the banking state moves.
    fn apply_ctrl(&mut self, addr: u16, v: u8)
        requires
            old(self).wf(),
            addr < 0x8000,
        ensures
            *final(self) == (Memory { bank: final(self).bank, ..*old(self) }),
            final(self).bank == ctrl_write(old(self).bank, addr, v),
            final(self).wf(),
    {
        match self.bank.kind {
            MbcKind::NoMbc => {},
            MbcKind::Mbc1 => {
                if addr < 0x2000 {
                    self.bank.ram_on = v & 0x0F == 0x0A;
                } else if addr < 0x4000 {
                    let low: u8 = if v & 0x1F == 0 {
                        1
                    } else {
                        v & 0x1F
                    };
                    self.bank.rom_bank = (self.bank.rom_bank & 0x60) | low as u16;
                } else if addr < 0x6000 {
                    if self.bank.mode == 0 {
                        self.bank.rom_bank = (self.bank.rom_bank & 0x1F) | (((v & 0x03) as u16)
                            << 5);
                    } else {
                        self.bank.ram_bank = v & 0x03;
                    }
                } else {
                    self.bank.mode = v & 0x01;
                }
            },
            MbcKind::Mbc3 => {
                if addr < 0x2000 {
                    self.bank.ram_on = v & 0x0F == 0x0A;
                } else if addr < 0x4000 {
                    let low: u8 = if v & 0x7F == 0 {
                        1
                    } else {
                        v & 0x7F
                    };
                    self.bank.rom_bank = low as u16;
                } else if addr < 0x6000 {
                    self.bank.ram_bank = v & 0x0F;
                }
            },
            MbcKind::Mbc5 => {
                if addr < 0x2000 {
                    self.bank.ram_on = v & 0x0F == 0x0A;
                } else if addr < 0x3000 {
                    self.bank.rom_bank = (self.bank.rom_bank & 0x100) | v as u16;
                } else if addr < 0x4000 {
                    self.bank.rom_bank = (self.bank.rom_bank & 0x0FF) | (((v & 0x01) as u16)
                        << 8);
                } else if addr < 0x6000 {
                    self.bank.ram_bank = v & 0x0F;
                }
            },
        }
    }

    /// The block copy into object-attribute memory: 160 bytes starting at
    /// `v` pages into the address space, for sources below the echo
    /// region; other source pages are ignored.
    fn dma_transfer(&mut self, v: u8)
        requires
            old(self).wf(),
        ensures
            final(self).wf(),
            *final(self) == (Memory {
                dma_reg: v,
                gpu: final(self).gpu,
                ..*old(self)
            }),
            final(self).gpu == (Ppu { oam: final(self).gpu.oam, ..old(self).gpu }),
            final(self).gpu.oam@ == (if v <= 0xDF {
                Seq::new(0xA0, |j: int| old(self).spec_rb((v * 0x100 + j) as u16))
            } else {
                old(self).gpu.oam@
            }),
    {
        self.dma_reg = v;
        if v <= 0xDF {
            let src: u16 = (v as u16) * 0x100;
            let mut i: usize = 0;
            while i < 0xA0
                invariant
                    i <= 0xA0,
                    old(self).wf(),
                    src == v * 0x100,
                    v <= 0xDF,
                    *self == (Memory { dma_reg: v, gpu: self.gpu, ..*old(self) }),
                    self.gpu == (Ppu { oam: self.gpu.oam, ..old(self).gpu }),
                    self.gpu.oam@.len() == 0xA0,
                    forall|j: int|
                        0 <= j < i ==> self.gpu.oam@[j] == old(self).spec_rb(
                            (v * 0x100 + j) as u16,
                        ),
                    forall|j: int| i <= j < 0xA0 ==> self.gpu.oam@[j] == old(self).gpu.oam@[j],
                decreases 0xA0 - i,
            {
                proof {
                    lemma_rb_low_agrees(*old(self), *self, (src + i) as u16);
                }
                let b: u8 = self.rb(src + i as u16);
                self.gpu.oam.set(i, b);
                i = i + 1;
            }
            proof {
                assert(self.gpu.oam@ =~= Seq::new(
                    0xA0,
                    |j: int| old(self).spec_rb((v * 0x100 + j) as u16),
                ));
            }
        }
    }

    /// Advance the timer and the pixel engine together by `cycles`
    /// cycles, then fold the interrupt requests they raised into the
    /// request mask and clear their request lines.
    pub fn advance(&mut self, cycles: u32)
        requires
            old(self).wf(),
        ensures
            final(self).wf(),
            final(self).timer == (Timer {
                irq: false,
                ..timer_advance(old(self).timer, cycles as nat)
            }),
            final(self).gpu.timing() == (PpuTiming {
                irq_vblank: false,
                irq_stat: false,
                ..timing_advance(
                    old(self).gpu.timing(),
                    old(self).gpu.stat,
                    old(self).gpu.lyc,
                    cycles as nat,
                )
            }),
            final(self).intf == (old(self).intf | ((if timing_advance(
                old(self).gpu.timing(),
                old(self).gpu.stat,
                old(self).gpu.lyc,
                cycles as nat,
            ).irq_vblank {
                1u8
            } else {
                0u8
            }) | (if timing_advance(
                old(self).gpu.timing(),
                old(self).gpu.stat,
                old(self).gpu.lyc,
                cycles as nat,
            ).irq_stat {
                2u8
            } else {
                0u8
            }) | (if timer_advance(old(self).timer, cycles as nat).irq {
                4u8
            } else {
                0u8
            }))),
            final(self).gpu.same_regs_and_mem(old(self).gpu),
            final(self).gpu.fb@.len() == old(self).gpu.fb@.len(),
            final(self).rom@ == old(self).rom@,
            final(self).bank == old(self).bank,
            final(self).eram@ == old(self).eram@,
            final(self).wram@ == old(self).wram@,
            final(self).hram@ == old(self).hram@,
            final(self).keypad == old(self).keypad,
            final(self).inte == old(self).inte,
            final(self).dma_reg == old(self).dma_reg,
    {
        self.timer.advance(cycles);
        self.gpu.advance(cycles);
        let pending: u8 = (if self.gpu.irq_vblank {
            1u8
        } else {
            0u8
        }) | (if self.gpu.irq_stat {
            2u8
        } else {
            0u8
        }) | (if self.timer.irq {
            4u8
        } else {
            0u8
        });
        self.intf = self.intf | pending;
        self.gpu.irq_vblank = false;
        self.gpu.irq_stat = false;
        self.timer.irq = false;
    }
}

/// Two bus states that agree on the cartridge, the banking state, video
/// memory, cartridge RAM and working RAM read alike everywhere below the
/// echo region.
pub proof fn lemma_rb_low_agrees(m1: Memory, m2: Memory, addr: u16)
    requires
        addr < 0xE000,
        m1.rom@ == m2.rom@,
        m1.bank == m2.bank,
        m1.gpu.vram@ == m2.gpu.vram@,
        m1.eram@ == m2.eram@,
        m1.wram@ == m2.wram@,
    ensures
        m1.spec_rb(addr) == m2.spec_rb(addr),
{
    assert(m1.ram_port() == m2.ram_port());
}

/// The spec-level check that a controller family has a RAM-enable
/// register at all.
pub open spec fn ctrl_has_ram_enable(k: MbcKind) -> bool {
    match k {
        MbcKind::NoMbc => false,
        _ => true,
    }
}

/// The RAM-enable round trip. For a controller with a RAM-enable
/// register: while RAM is disabled, reads of the external-RAM window
/// return the sentinel and writes into it are swallowed; after writing
/// the enable value into the enable range, a write into the window is
/// read back, provided the banked offset is backed by cartridge RAM.
pub proof fn lemma_ram_enable_round_trip(p: RamPort, en_addr: u16, addr: u16, v: u8)
    requires
        ctrl_has_ram_enable(p.bank.kind),
        en_addr < 0x2000,
        0xA000 <= addr < 0xC000,
        0 <= eram_index(ctrl_write(p.bank, en_addr, 0x0A), addr) < p.eram.len(),
    ensures
        !p.bank.ram_on ==> ram_read(p, addr) == 0xFF,
        !p.bank.ram_on ==> ram_write(p, addr, v) == p,
        ram_read(
            ram_write(
                RamPort { bank: ctrl_write(p.bank, en_addr, 0x0A), eram: p.eram },
                addr,
                v,
            ),
            addr,
        ) == v,
{
    assert(0x0Au8 & 0x0F == 0x0A) by (bit_vector);
    let b2 = ctrl_write(p.bank, en_addr, 0x0A);
    assert(b2.ram_on);
    assert(eff_ram_bank(b2) == eff_ram_bank(p.bank));
}

} // verus!
