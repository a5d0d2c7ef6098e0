use vstd::prelude::*;

verus! {

/// Native display width in pixels.
pub const SCREEN_W: usize = 160;

/// Native display height in pixels.
pub const SCREEN_H: usize = 144;

/// Scanlines per frame, the vertical-blank lines included.
pub const FRAME_LINES: u32 = 154;

/// Cycles spent on each scanline.
pub const LINE_CYCLES: u32 = 456;

/// Cycles per full frame: `FRAME_LINES` lines of `LINE_CYCLES` each.
pub const FRAME_CYCLES: u32 = 70224;

/// Cycles of a line spent in object-attribute-memory scan (mode 2).
pub const OAM_CYCLES: u32 = 80;

/// Cycle of a line at which drawing (mode 3) gives way to the horizontal
/// blank (mode 0).
pub const DRAW_END: u32 = 252;

/// The first scanline of the vertical blank (mode 1).
pub const VBLANK_LINE: u8 = 144;

/// The pixel-timing state the per-cycle step acts on: scanline, dot within
/// the scanline, the two interrupt request lines, and the frame-complete
/// flag.
pub struct PpuTiming {
    pub line: u8,
    pub dot: u32,
    pub irq_vblank: bool,
    pub irq_stat: bool,
    pub frame_flag: bool,
}

/// The mode the engine is in at a given scanline and dot: vertical blank
/// on the bottom lines, else object scan, drawing, then horizontal blank.
pub open spec fn mode_of(line: u8, dot: u32) -> u8 {
    if line >= VBLANK_LINE {
        1
    } else if dot < OAM_CYCLES {
        2
    } else if dot < DRAW_END {
        3
    } else {
        0
    }
}

/// One cycle of pixel timing. The dot counter runs to the end of the line,
/// then the line advances and wraps after the last vertical-blank line.
/// Entering the first vertical-blank line raises the vertical-blank
/// request and marks the frame complete; the status request is raised on
/// the mode and line-compare events its enable bits select.
pub open spec fn timing_step(t: PpuTiming, stat: u8, lyc: u8) -> PpuTiming {
    if t.dot + 1 < LINE_CYCLES {
        let hblank = t.line < VBLANK_LINE && t.dot + 1 == DRAW_END;
        PpuTiming {
            dot: (t.dot + 1) as u32,
            irq_stat: t.irq_stat || (hblank && stat & 0x08 != 0),
            ..t
        }
    } else {
        let nl = if t.line + 1 < FRAME_LINES {
            (t.line + 1) as u8
        } else {
            0
        };
        let vb = nl == VBLANK_LINE;
        PpuTiming {
            line: nl,
            dot: 0,
            irq_vblank: t.irq_vblank || vb,
            frame_flag: t.frame_flag || vb,
            irq_stat: t.irq_stat || (vb && stat & 0x10 != 0) || (nl < VBLANK_LINE && stat & 0x20
                != 0) || (nl == lyc && stat & 0x40 != 0),
        }
    }
}

/// `timing_step` iterated `n` times.
pub open spec fn timing_advance(t: PpuTiming, stat: u8, lyc: u8, n: nat) -> PpuTiming
    decreases n,
{
    if n == 0 {
        t
    } else {
        timing_step(timing_advance(t, stat, lyc, (n - 1) as nat), stat, lyc)
    }
}

/// How far into the frame a timing state is, in cycles.
pub open spec fn frame_pos(t: PpuTiming) -> int {
    t.line * LINE_CYCLES + t.dot
}

/// A timing state inside its bounds.
pub open spec fn timing_wf(t: PpuTiming) -> bool {
    t.line < FRAME_LINES && t.dot < LINE_CYCLES
}

/// The scanline-driven pixel engine: timing state, the video registers,
/// video and object-attribute memory, and the output framebuffer.
pub struct Ppu {
    /// Current scanline.
    pub line: u8,
    /// Cycle within the current scanline.
    pub dot: u32,
    /// Entering the vertical blank has requested that interrupt; the bus
    /// consumes and clears this.
    pub irq_vblank: bool,
    /// A status event has requested the status interrupt; the bus
    /// consumes and clears this.
    pub irq_stat: bool,
    /// A frame has been completed since the flag was last taken.
    pub frame_flag: bool,
    /// LCD control register.
    pub lcdc: u8,
    /// Status register: only the interrupt-enable bits 3-6 are stored.
    pub stat: u8,
    /// Background vertical scroll.
    pub scy: u8,
    /// Background horizontal scroll.
    pub scx: u8,
    /// Line-compare register.
    pub lyc: u8,
    /// Background palette.
    pub bgp: u8,
    /// First object palette.
    pub obp0: u8,
    /// Second object palette.
    pub obp1: u8,
    /// Window top line.
    pub wy: u8,
    /// Window left column plus seven.
    pub wx: u8,
    /// Video memory: tile data and the two tile maps.
    pub vram: Vec<u8>,
    /// Object attribute memory: forty 4-byte sprite entries.
    pub oam: Vec<u8>,
    /// The framebuffer, packed RGBA, row-major.
    pub fb: Vec<u8>,
}

impl Ppu {
    /// The timing fields alone.
    pub open spec fn timing(self) -> PpuTiming {
        PpuTiming {
            line: self.line,
            dot: self.dot,
            irq_vblank: self.irq_vblank,
            irq_stat: self.irq_stat,
            frame_flag: self.frame_flag,
        }
    }

    /// Fixed memory sizes and in-bounds timing.
    pub open spec fn wf(self) -> bool {
        &&& timing_wf(self.timing())
        &&& self.vram@.len() == 0x2000
        &&& self.oam@.len() == 0xA0
        &&& self.fb@.len() == SCREEN_W * SCREEN_H * 4
    }

    /// Everything that is not timing state or the framebuffer: the
    /// registers and both memories.
    pub open spec fn same_regs_and_mem(self, o: Ppu) -> bool {
        &&& self.lcdc == o.lcdc
        &&& self.stat == o.stat
        &&& self.scy == o.scy
        &&& self.scx == o.scx
        &&& self.lyc == o.lyc
        &&& self.bgp == o.bgp
        &&& self.obp0 == o.obp0
        &&& self.obp1 == o.obp1
        &&& self.wy == o.wy
        &&& self.wx == o.wx
        &&& self.vram@ == o.vram@
        &&& self.oam@ == o.oam@
    }

    /// Power-on engine state: cleared timing, registers at their hardware
    /// defaults, zeroed memories, a white framebuffer.
    pub fn new() -> (p: Ppu)
        ensures
            p.wf(),
            p.timing() == (PpuTiming {
                line: 0,
                dot: 0,
                irq_vblank: false,
                irq_stat: false,
                frame_flag: false,
            }),
            p.lcdc == 0x91,
            p.stat == 0,
            p.scy == 0 && p.scx == 0 && p.lyc == 0,
            p.bgp == 0xFC,
            p.wy == 0 && p.wx == 0,
            forall|i: int| 0 <= i < p.vram@.len() ==> p.vram@[i] == 0,
            forall|i: int| 0 <= i < p.oam@.len() ==> p.oam@[i] == 0,
    {
        let mut vram: Vec<u8> = Vec::new();
        vram.resize(0x2000, 0u8);
        let mut oam: Vec<u8> = Vec::new();
        oam.resize(0xA0, 0u8);
        let mut fb: Vec<u8> = Vec::new();
        fb.resize(SCREEN_W * SCREEN_H * 4, 0xFFu8);
        Ppu {
            line: 0,
            dot: 0,
            irq_vblank: false,
            irq_stat: false,
            frame_flag: false,
            lcdc: 0x91,
            stat: 0,
            scy: 0,
            scx: 0,
            lyc: 0,
            bgp: 0xFC,
            obp0: 0xFF,
            obp1: 0xFF,
            wy: 0,
            wx: 0,
            vram,
            oam,
            fb,
        }
    }

    /// Advance the engine by `cycles` cycles: the timing state moves by
    /// one `timing_step` per cycle, completed scanlines are rasterized
    /// into the framebuffer, and nothing else changes.
    pub fn advance(&mut self, cycles: u32)
        requires
            old(self).wf(),
        ensures
            final(self).wf(),
            final(self).timing() == timing_advance(
                old(self).timing(),
                old(self).stat,
                old(self).lyc,
                cycles as nat,
            ),
            final(self).same_regs_and_mem(*old(self)),
            final(self).fb@.len() == old(self).fb@.len(),
            (forall|i: int|
                0 <= i < final(self).fb@.len() && !rendered_in(
                    old(self).timing(),
                    old(self).stat,
                    old(self).lyc,
                    cycles as nat,
                    fb_row(i),
                ) ==> final(self).fb@[i] == old(self).fb@[i]),
            old(self).lcdc & 0x02 == 0 ==> (forall|l: u8, j: u8|
                l < VBLANK_LINE && j < SCREEN_W && rendered_in(
                    old(self).timing(),
                    old(self).stat,
                    old(self).lyc,
                    cycles as nat,
                    l,
                ) ==> fb_pixel_is(
                    final(self).fb@,
                    l,
                    j,
                    spec_shade_of(old(self).bgp, spec_bg_color(*old(self), l, j)),
                )),
    {
        let mut i: u32 = 0;
        while i < cycles
            invariant
                i <= cycles,
                self.wf(),
                self.timing() == timing_advance(
                    old(self).timing(),
                    old(self).stat,
                    old(self).lyc,
                    i as nat,
                ),
                self.same_regs_and_mem(*old(self)),
                self.fb@.len() == old(self).fb@.len(),
                (forall|k: int|
                    0 <= k < self.fb@.len() && !rendered_in(
                        old(self).timing(),
                        old(self).stat,
                        old(self).lyc,
                        i as nat,
                        fb_row(k),
                    ) ==> self.fb@[k] == old(self).fb@[k]),
                old(self).lcdc & 0x02 == 0 ==> (forall|l: u8, j: u8|
                    l < VBLANK_LINE && j < SCREEN_W && rendered_in(
                        old(self).timing(),
                        old(self).stat,
                        old(self).lyc,
                        i as nat,
                        l,
                    ) ==> fb_pixel_is(
                        self.fb@,
                        l,
                        j,
                        spec_shade_of(old(self).bgp, spec_bg_color(*old(self), l, j)),
                    )),
            decreases cycles - i,
        {
            proof {
                assert(timing_advance(
                    old(self).timing(),
                    old(self).stat,
                    old(self).lyc,
                    (i + 1) as nat,
                ) == timing_step(
                    timing_advance(old(self).timing(), old(self).stat, old(self).lyc, i as nat),
                    old(self).stat,
                    old(self).lyc,
                ));
                assert forall|l: u8|
                    rendered_in(
                        old(self).timing(),
                        old(self).stat,
                        old(self).lyc,
                        (i + 1) as nat,
                        l,
                    ) == (rendered_in(
                        old(self).timing(),
                        old(self).stat,
                        old(self).lyc,
                        i as nat,
                        l,
                    ) || (self.line == l && l < VBLANK_LINE && self.dot + 1 == DRAW_END)) by {}
            }
            let ghost pre = *self;
            self.step_one();
            proof {
                if pre.lcdc & 0x02 == 0 && pre.line < VBLANK_LINE && pre.dot + 1 == DRAW_END {
                    assert forall|j: u8| j < SCREEN_W implies fb_pixel_is(
                        self.fb@,
                        pre.line,
                        j,
                        spec_shade_of(old(self).bgp, spec_bg_color(*old(self), pre.line, j)),
                    ) by {
                        lemma_bg_color_regs(pre, *old(self), pre.line, j);
                    }
                }
            }
            i = i + 1;
        }
    }

    /// One cycle of the engine, matching `timing_step`; completing the
    /// drawing portion of a visible line rasterizes that line.
    fn step_one(&mut self)
        requires
            old(self).wf(),
        ensures
            final(self).wf(),
            final(self).timing() == timing_step(
                old(self).timing(),
                old(self).stat,
                old(self).lyc,
            ),
            final(self).same_regs_and_mem(*old(self)),
            final(self).fb@.len() == old(self).fb@.len(),
            !(old(self).line < VBLANK_LINE && old(self).dot + 1 == DRAW_END) ==> final(self).fb@
                == old(self).fb@,
            old(self).line < VBLANK_LINE && old(self).dot + 1 == DRAW_END ==> (forall|i: int|
                0 <= i < final(self).fb@.len() && !(old(self).line * SCREEN_W * 4 <= i < (old(
                    self,
                ).line + 1) * SCREEN_W * 4) ==> final(self).fb@[i] == old(self).fb@[i]),
            old(self).line < VBLANK_LINE && old(self).dot + 1 == DRAW_END && old(self).lcdc & 0x02
                == 0 ==> (forall|j: u8|
                j < SCREEN_W ==> fb_pixel_is(
                    final(self).fb@,
                    old(self).line,
                    j,
                    spec_shade_of(old(self).bgp, spec_bg_color(*old(self), old(self).line, j)),
                )),
    {
        if self.dot + 1 < LINE_CYCLES {
            let hblank = self.line < VBLANK_LINE && self.dot + 1 == DRAW_END;
            self.dot = self.dot + 1;
            if hblank {
                if self.stat & 0x08 != 0 {
                    self.irq_stat = true;
                }
                let line = self.line;
                let ghost pre_render = *self;
                self.render_scanline(line);
                proof {
                    if old(self).lcdc & 0x02 == 0 {
                        assert forall|j: u8| j < SCREEN_W implies fb_pixel_is(
                            self.fb@,
                            old(self).line,
                            j,
                            spec_shade_of(
                                old(self).bgp,
                                spec_bg_color(*old(self), old(self).line, j),
                            ),
                        ) by {
                            lemma_bg_color_regs(pre_render, *old(self), old(self).line, j);
                        }
                    }
                }
            }
        } else {
            let nl: u8 = if self.line + 1 < 154 {
                self.line + 1
            } else {
                0
            };
            let vb = nl == VBLANK_LINE;
            self.line = nl;
            self.dot = 0;
            if vb {
                self.irq_vblank = true;
                self.frame_flag = true;
                if self.stat & 0x10 != 0 {
                    self.irq_stat = true;
                }
            }
            if nl < VBLANK_LINE && self.stat & 0x20 != 0 {
                self.irq_stat = true;
            }
            if nl == self.lyc && self.stat & 0x40 != 0 {
                self.irq_stat = true;
            }
        }
    }

    /// The status register as read from the bus: the stored enable bits,
    /// the line-compare match bit, the current mode, and a high top bit.
    pub fn stat_value(&self) -> (v: u8)
        requires
            self.wf(),
        ensures
            v == (0x80u8 | (self.stat & 0x78) | (if self.line == self.lyc {
                4u8
            } else {
                0u8
            }) | mode_of(self.line, self.dot)),
    {
        let mode: u8 = if self.line >= VBLANK_LINE {
            1
        } else if self.dot < OAM_CYCLES {
            2
        } else if self.dot < DRAW_END {
            3
        } else {
            0
        };
        let coincidence: u8 = if self.line == self.lyc {
            4
        } else {
            0
        };
        0x80u8 | (self.stat & 0x78) | coincidence | mode
    }

    /// Rasterize one visible scanline into its framebuffer row:
    /// background, then the window overlay, then the sprite overlay.
    /// Only that row of the framebuffer changes.
    fn render_scanline(&mut self, line: u8)
        requires
            old(self).wf(),
            line < SCREEN_H,
        ensures
            final(self).wf(),
            final(self).timing() == old(self).timing(),
            final(self).same_regs_and_mem(*old(self)),
            final(self).fb@.len() == old(self).fb@.len(),
            forall|i: int|
                0 <= i < final(self).fb@.len() && !(line * SCREEN_W * 4 <= i < (line + 1) * SCREEN_W
                    * 4) ==> final(self).fb@[i] == old(self).fb@[i],
            old(self).lcdc & 0x02 == 0 ==> (forall|j: u8|
                j < SCREEN_W ==> fb_pixel_is(
                    final(self).fb@,
                    line,
                    j,
                    spec_shade_of(old(self).bgp, spec_bg_color(*old(self), line, j)),
                )),
    {
        let mut x: usize = 0;
        while x < SCREEN_W
            invariant
                x <= SCREEN_W,
                self.wf(),
                line < SCREEN_H,
                self.timing() == old(self).timing(),
                self.same_regs_and_mem(*old(self)),
                self.fb@.len() == old(self).fb@.len(),
                forall|i: int|
                    0 <= i < self.fb@.len() && !(line * SCREEN_W * 4 <= i < (line + 1) * SCREEN_W
                        * 4) ==> self.fb@[i] == old(self).fb@[i],
                old(self).lcdc & 0x02 == 0 ==> (forall|j: u8|
                    j < x ==> fb_pixel_is(
                        self.fb@,
                        line,
                        j,
                        spec_shade_of(old(self).bgp, spec_bg_color(*old(self), line, j)),
                    )),
            decreases SCREEN_W - x,
        {
            let shade: u8 = self.pixel_shade(line, x as u8);
            let base: usize = (line as usize) * SCREEN_W * 4 + x * 4;
            self.fb.set(base, shade);
            self.fb.set(base + 1, shade);
            self.fb.set(base + 2, shade);
            self.fb.set(base + 3, 0xFF);
            x = x + 1;
        }
    }

    /// The composited grey level of one pixel: the background or window
    /// shade, overlaid by the highest-priority sprite that covers the
    /// pixel with a non-transparent colour and is not hidden behind a
    /// non-zero background colour.
    fn pixel_shade(&self, line: u8, x: u8) -> (shade: u8)
        requires
            self.wf(),
            line < SCREEN_H,
            x < SCREEN_W,
        ensures
            self.lcdc & 0x02 == 0 ==> shade == spec_shade_of(self.bgp, spec_bg_color(*self, line, x)),
    {
        let bg_color: u8 = self.bg_window_color(line, x);
        let mut color: u8 = bg_color;
        let mut palette: u8 = self.bgp;
        if self.lcdc & 0x02 != 0 {
            let sprite_height: u8 = if self.lcdc & 0x04 != 0 {
                16
            } else {
                8
            };
            let mut found: bool = false;
            let mut seen: u8 = 0;
            let mut idx: usize = 0;
            let line16: u16 = line as u16 + 16;
            let x16: u16 = x as u16 + 8;
            while idx < 40
                invariant
                    idx <= 40,
                    self.wf(),
                    line < SCREEN_H,
                    x < SCREEN_W,
                    line16 == line + 16,
                    x16 == x + 8,
                    sprite_height == 8 || sprite_height == 16,
                decreases 40 - idx,
            {
                let sy: u16 = self.oam[idx * 4] as u16;
                let sx: u16 = self.oam[idx * 4 + 1] as u16;
                let covers_line = sy <= line16 && line16 < sy + sprite_height as u16;
                if covers_line {
                    if seen < 10 {
                        seen = seen + 1;
                        if !found && sx <= x16 && x16 < sx + 8 {
                            let tile: u8 = self.oam[idx * 4 + 2];
                            let attrs: u8 = self.oam[idx * 4 + 3];
                            let row16: u16 = if attrs & 0x40 != 0 {
                                (sprite_height as u16 - 1) - (line16 - sy)
                            } else {
                                line16 - sy
                            };
                            let col: u8 = if attrs & 0x20 != 0 {
                                (7 - (x16 - sx)) as u8
                            } else {
                                (x16 - sx) as u8
                            };
                            let tile_eff: u16 = if sprite_height == 16 {
                                (tile & 0xFE) as u16
                            } else {
                                tile as u16
                            };
                            let addr: usize = (tile_eff as usize) * 16 + (row16 as usize) * 2;
                            if addr + 1 < 0x2000 {
                                let lo: u8 = self.vram[addr];
                                let hi: u8 = self.vram[addr + 1];
                                let bit: u8 = 7 - col;
                                let c: u8 = (((hi >> bit) & 1) << 1) | ((lo >> bit) & 1);
                                let behind = attrs & 0x80 != 0;
                                if c != 0 && !(behind && bg_color != 0) {
                                    color = c;
                                    palette = if attrs & 0x10 != 0 {
                                        self.obp1
                                    } else {
                                        self.obp0
                                    };
                                    found = true;
                                }
                            }
                        }
                    }
                }
                idx = idx + 1;
            }
        }
        shade_of(palette, color)
    }

    /// The background or window colour index (0-3) of one pixel, before
    /// any sprite is laid over it: the window where it is enabled and in
    /// range, else the scrolled background, else colour 0 when the
    /// background layer is off.
    fn bg_window_color(&self, line: u8, x: u8) -> (c: u8)
        requires
            self.wf(),
            line < SCREEN_H,
            x < SCREEN_W,
        ensures
            c < 4,
            c == spec_bg_color(*self, line, x),
    {
        if self.lcdc & 0x01 == 0 {
            return 0;
        }
        let use_window = self.lcdc & 0x20 != 0 && line >= self.wy && x as u16 + 7 >= self.wx
            as u16;
        if use_window {
            let wpy: u8 = line - self.wy;
            let wpx: u8 = ((x as u16 + 7) - self.wx as u16) as u8;
            let map_base: usize = if self.lcdc & 0x40 != 0 {
                0x1C00
            } else {
                0x1800
            };
            self.tile_color(map_base, wpx, wpy)
        } else {
            let py: u8 = line.wrapping_add(self.scy);
            let px: u8 = x.wrapping_add(self.scx);
            let map_base: usize = if self.lcdc & 0x08 != 0 {
                0x1C00
            } else {
                0x1800
            };
            self.tile_color(map_base, px, py)
        }
    }

    /// The colour index a tile map gives for map-relative coordinates:
    /// the tile index is read from the map, the tile row from the data
    /// area selected by the control register, the pixel from that row.
    fn tile_color(&self, map_base: usize, px: u8, py: u8) -> (c: u8)
        requires
            self.wf(),
            map_base == 0x1800 || map_base == 0x1C00,
        ensures
            c < 4,
            c == spec_tile_color(*self, map_base as int, px, py),
    {
        let tx: usize = (px as usize) / 8;
        let ty: usize = (py as usize) / 8;
        let tile: u8 = self.vram[map_base + ty * 32 + tx];
        let addr: usize = if self.lcdc & 0x10 != 0 {
            (tile as usize) * 16
        } else {
            if tile < 128 {
                0x1000 + (tile as usize) * 16
            } else {
                0x1000 - (256 - tile as usize) * 16
            }
        };
        let row: usize = (py as usize) % 8;
        let lo: u8 = self.vram[addr + row * 2];
        let hi: u8 = self.vram[addr + row * 2 + 1];
        let bit: u8 = 7 - (px % 8);
        let c: u8 = (((hi >> bit) & 1) << 1) | ((lo >> bit) & 1);
        proof {
            let h = hi;
            let l = lo;
            let b = bit;
            assert((((h >> b) & 1) << 1) | ((l >> b) & 1) < 4) by (bit_vector);
        }
        c
    }
}


/// The colour index a tile map yields at map-relative coordinates: the
/// tile index comes from the map, the tile row from the data area the
/// control register selects, the pixel from that row's two bit planes.
pub open spec fn spec_tile_color(p: Ppu, map_base: int, px: u8, py: u8) -> u8 {
    let tile = p.vram@[map_base + (py / 8) * 32 + (px / 8)];
    let addr = if p.lcdc & 0x10 != 0 {
        tile * 16
    } else {
        if tile < 128 {
            0x1000 + tile * 16
        } else {
            0x1000 - (256 - tile) * 16
        }
    };
    let lo = p.vram@[addr + (py % 8) * 2];
    let hi = p.vram@[addr + (py % 8) * 2 + 1];
    let bit = (7 - (px % 8)) as u8;
    (((hi >> bit) & 1) << 1) | ((lo >> bit) & 1)
}

/// The background or window colour index of one screen pixel, before
/// sprites: the window where enabled and in range, else the scrolled
/// background, else colour zero with the background layer off.
pub open spec fn spec_bg_color(p: Ppu, line: u8, x: u8) -> u8 {
    if p.lcdc & 0x01 == 0 {
        0
    } else {
        if p.lcdc & 0x20 != 0 && line >= p.wy && x + 7 >= p.wx {
            spec_tile_color(
                p,
                if p.lcdc & 0x40 != 0 {
                    0x1C00
                } else {
                    0x1800
                },
                (x + 7 - p.wx) as u8,
                (line - p.wy) as u8,
            )
        } else {
            spec_tile_color(
                p,
                if p.lcdc & 0x08 != 0 {
                    0x1C00
                } else {
                    0x1800
                },
                x.wrapping_add(p.scx),
                line.wrapping_add(p.scy),
            )
        }
    }
}

/// One framebuffer pixel holds a grey level: three equal colour bytes and
/// a full alpha byte.
pub open spec fn fb_pixel_is(fb: Seq<u8>, line: u8, x: u8, shade: u8) -> bool {
    &&& fb[line * (SCREEN_W as int) * 4 + x * 4] == shade
    &&& fb[line * (SCREEN_W as int) * 4 + x * 4 + 1] == shade
    &&& fb[line * (SCREEN_W as int) * 4 + x * 4 + 2] == shade
    &&& fb[line * (SCREEN_W as int) * 4 + x * 4 + 3] == 0xFF
}

/// A 2-bit colour index run through a palette register, as a grey level:
/// the palette maps the index to one of four shades from white to black.
pub open spec fn spec_shade_of(palette: u8, color: u8) -> u8 {
    let s = (palette >> ((color & 3) * 2)) & 3;
    if s == 0 {
        255
    } else if s == 1 {
        192
    } else if s == 2 {
        96
    } else {
        0
    }
}

/// Map a colour index through a palette register to a grey level.
#[verifier::when_used_as_spec(spec_shade_of)]
pub fn shade_of(palette: u8, color: u8) -> (v: u8)
    ensures
        v == spec_shade_of(palette, color),
{
    proof {
        assert(color & 3 <= 3) by (bit_vector);
    }
    let s: u8 = (palette >> ((color & 3) * 2)) & 3;
    if s == 0 {
        255
    } else if s == 1 {
        192
    } else if s == 2 {
        96
    } else {
        0
    }
}

/// Whether one of the first `n` cycles after timing state `t` completes
/// the drawing portion of visible scanline `line` (and so rasterizes it).
pub open spec fn rendered_in(t: PpuTiming, stat: u8, lyc: u8, n: nat, line: u8) -> bool
    decreases n,
{
    if n == 0 {
        false
    } else {
        rendered_in(t, stat, lyc, (n - 1) as nat, line) || (timing_advance(
            t,
            stat,
            lyc,
            (n - 1) as nat,
        ).line == line && line < VBLANK_LINE && timing_advance(t, stat, lyc, (n - 1) as nat).dot + 1
            == DRAW_END)
    }
}

/// The framebuffer row a byte index belongs to.
pub open spec fn fb_row(i: int) -> u8 {
    (i / (SCREEN_W * 4)) as u8
}

/// The composited background colour of a pixel depends only on the video
/// registers and video memory, which two engine states can share.
pub proof fn lemma_bg_color_regs(a: Ppu, b: Ppu, line: u8, x: u8)
    requires
        a.same_regs_and_mem(b),
    ensures
        spec_bg_color(a, line, x) == spec_bg_color(b, line, x),
{
}

/// Cycles until the engine next enters the first vertical-blank line:
/// between one and a whole frame.
pub open spec fn dist_to_vblank(t: PpuTiming) -> int {
    if frame_pos(t) < VBLANK_LINE * LINE_CYCLES {
        VBLANK_LINE * LINE_CYCLES - frame_pos(t)
    } else {
        FRAME_CYCLES - frame_pos(t) + VBLANK_LINE * LINE_CYCLES
    }
}

/// Advancing raises the frame-complete flag exactly when the advance
/// reaches the first vertical-blank line; short of it, the distance to
/// that line shrinks by exactly the cycles advanced.
pub proof fn lemma_vblank_distance(t: PpuTiming, stat: u8, lyc: u8, n: nat)
    requires
        timing_wf(t),
    ensures
        timing_wf(timing_advance(t, stat, lyc, n)),
        timing_advance(t, stat, lyc, n).frame_flag == (t.frame_flag || n >= dist_to_vblank(t)),
        n < dist_to_vblank(t) ==> dist_to_vblank(timing_advance(t, stat, lyc, n))
            == dist_to_vblank(t) - n,
    decreases n,
{
    if n == 0 {
    } else {
        lemma_vblank_distance(t, stat, lyc, (n - 1) as nat);
        let prev = timing_advance(t, stat, lyc, (n - 1) as nat);
        assert(timing_advance(t, stat, lyc, n) == timing_step(prev, stat, lyc));
        lemma_step_pos(prev, stat, lyc);
        lemma_frame_cycle_budget(t, stat, lyc, (n - 1) as nat);
    }
}

/// A full frame is exactly `FRAME_CYCLES` cycles: from the top of the
/// frame, each cycle moves the position one forward, and after one
/// position per line-cycle of every line the engine is back at the top;
/// and the cycle that enters the first vertical-blank line is exactly the
/// cycle on which the vertical-blank request goes up.
pub proof fn lemma_frame_cycle_budget(t: PpuTiming, stat: u8, lyc: u8, n: nat)
    requires
        timing_wf(t),
    ensures
        timing_wf(timing_advance(t, stat, lyc, n)),
        frame_pos(timing_advance(t, stat, lyc, n)) == (frame_pos(t) + n) % (FRAME_CYCLES as int),
        FRAME_CYCLES == FRAME_LINES * LINE_CYCLES,
    decreases n,
{
    if n == 0 {
    } else {
        lemma_frame_cycle_budget(t, stat, lyc, (n - 1) as nat);
        let prev = timing_advance(t, stat, lyc, (n - 1) as nat);
        assert(timing_advance(t, stat, lyc, n) == timing_step(prev, stat, lyc));
        lemma_step_pos(prev, stat, lyc);
    }
}

/// One timing step moves the frame position one cycle forward, modulo the
/// frame budget, and raises the vertical-blank request exactly on entry
/// into the first vertical-blank line.
pub proof fn lemma_step_pos(t: PpuTiming, stat: u8, lyc: u8)
    requires
        timing_wf(t),
    ensures
        timing_wf(timing_step(t, stat, lyc)),
        frame_pos(timing_step(t, stat, lyc)) == (frame_pos(t) + 1) % (FRAME_CYCLES as int),
        timing_step(t, stat, lyc).irq_vblank == (t.irq_vblank || frame_pos(timing_step(t, stat, lyc))
            == VBLANK_LINE * LINE_CYCLES),
        timing_step(t, stat, lyc).frame_flag == (t.frame_flag || frame_pos(
            timing_step(t, stat, lyc),
        ) == VBLANK_LINE * LINE_CYCLES),
{
    let s = timing_step(t, stat, lyc);
    if t.dot + 1 < LINE_CYCLES {
        assert(frame_pos(s) == frame_pos(t) + 1);
        assert(frame_pos(t) + 1 < FRAME_CYCLES) by (nonlinear_arith)
            requires
                t.line < FRAME_LINES,
                t.dot + 1 < LINE_CYCLES,
                frame_pos(t) == t.line * LINE_CYCLES + t.dot,
        ;
        assert((frame_pos(t) + 1) % (FRAME_CYCLES as int) == frame_pos(t) + 1);
        assert((s.line == VBLANK_LINE && s.dot == 0) == false);
        assert(frame_pos(s) == VBLANK_LINE * LINE_CYCLES ==> s.line == VBLANK_LINE && s.dot == 0)
            by (nonlinear_arith)
            requires
                s.line < FRAME_LINES,
                s.dot < LINE_CYCLES,
                frame_pos(s) == s.line * LINE_CYCLES + s.dot,
                s.dot > 0,
        ;
    } else {
        assert(t.dot == LINE_CYCLES - 1);
        if t.line + 1 < FRAME_LINES {
            assert(frame_pos(s) == (t.line + 1) * LINE_CYCLES);
            assert(frame_pos(s) == frame_pos(t) + 1) by (nonlinear_arith)
                requires
                    frame_pos(s) == (t.line + 1) * LINE_CYCLES,
                    frame_pos(t) == t.line * LINE_CYCLES + (LINE_CYCLES - 1),
            ;
            assert(frame_pos(t) + 1 < FRAME_CYCLES) by (nonlinear_arith)
                requires
                    t.line + 1 < FRAME_LINES,
                    frame_pos(t) == t.line * LINE_CYCLES + (LINE_CYCLES - 1),
            ;
            assert((frame_pos(t) + 1) % (FRAME_CYCLES as int) == frame_pos(t) + 1);
            assert((s.line == VBLANK_LINE) == (frame_pos(s) == VBLANK_LINE * LINE_CYCLES))
                by (nonlinear_arith)
                requires
                    s.dot == 0,
                    frame_pos(s) == s.line * LINE_CYCLES,
                    s.line < FRAME_LINES,
            ;
        } else {
            assert(t.line == FRAME_LINES - 1);
            assert(frame_pos(s) == 0);
            assert(frame_pos(t) == (FRAME_LINES - 1) * LINE_CYCLES + (LINE_CYCLES - 1));
            assert(frame_pos(t) + 1 == FRAME_CYCLES);
            assert((frame_pos(t) + 1) % (FRAME_CYCLES as int) == 0);
            assert(s.line == 0 && s.dot == 0);
            assert(frame_pos(s) != VBLANK_LINE * LINE_CYCLES);
        }
    }
}

} // verus!
