use gameboy::ppu::Ppu;

#[test]
fn frame_is_exactly_70224_cycles() {
    let mut p = Ppu::new();
    assert_eq!(p.line, 0);
    assert_eq!(p.dot, 0);
    p.advance(70224);
    // All 154 lines of 456 cycles were consumed and the engine is back at
    // the top of the next frame.
    assert_eq!(p.line, 0);
    assert_eq!(p.dot, 0);
    assert!(p.frame_flag);
    assert_eq!(154 * 456, 70224);
}

#[test]
fn one_cycle_short_of_a_frame_is_not_a_frame() {
    let mut p = Ppu::new();
    p.advance(70223);
    assert_eq!(p.line, 153);
    assert_eq!(p.dot, 455);
}

#[test]
fn vblank_entry_coincides_with_interrupt_request() {
    let mut p = Ppu::new();
    p.advance(144 * 456 - 1);
    assert_eq!(p.line, 143);
    assert!(!p.irq_vblank);
    assert!(!p.frame_flag);
    p.advance(1);
    assert_eq!(p.line, 144);
    assert_eq!(p.dot, 0);
    assert!(p.irq_vblank);
    assert!(p.frame_flag);
}

#[test]
fn line_compare_raises_status_request() {
    let mut p = Ppu::new();
    p.lyc = 2;
    p.stat = 0x40;
    p.advance(456);
    assert_eq!(p.line, 1);
    assert!(!p.irq_stat);
    p.advance(456);
    assert_eq!(p.line, 2);
    assert!(p.irq_stat);
}

#[test]
fn background_tile_reaches_framebuffer() {
    let mut p = Ppu::new();
    // Tile 0, row 0: both bit planes solid, colour index 3 everywhere.
    p.vram[0] = 0xFF;
    p.vram[1] = 0xFF;
    // The default palette maps index 3 to black; the map is all tile 0.
    p.advance(456);
    assert_eq!(p.fb[0], 0);
    assert_eq!(p.fb[1], 0);
    assert_eq!(p.fb[2], 0);
    assert_eq!(p.fb[3], 0xFF);
}

#[test]
fn background_off_renders_palette_zero() {
    let mut p = Ppu::new();
    p.vram[0] = 0xFF;
    p.vram[1] = 0xFF;
    p.lcdc = 0x90; // background layer disabled
    p.advance(456);
    // Colour index 0 through the default palette is white.
    assert_eq!(p.fb[0], 255);
    assert_eq!(p.fb[3], 0xFF);
}

#[test]
fn sprite_overlays_background() {
    let mut p = Ppu::new();
    p.lcdc = 0x93; // background and sprites on
    p.obp0 = 0xE4; // identity-ish palette: index 1 -> shade 1
    // Sprite 0 at top-left: y=16, x=8 covers pixel (0,0); tile 1.
    p.oam[0] = 16;
    p.oam[1] = 8;
    p.oam[2] = 1;
    p.oam[3] = 0;
    // Tile 1 row 0: low plane solid, colour index 1.
    p.vram[16] = 0xFF;
    p.vram[17] = 0x00;
    p.advance(456);
    // Index 1 through obp0 0xE4 is shade 1, grey 192.
    assert_eq!(p.fb[0], 192);
}

#[test]
fn mode_sequence_within_a_line() {
    let mut p = Ppu::new();
    assert_eq!(p.stat_value() & 0x03, 2); // object scan first
    p.advance(80);
    assert_eq!(p.stat_value() & 0x03, 3); // drawing
    p.advance(172);
    assert_eq!(p.stat_value() & 0x03, 0); // horizontal blank
    p.advance(456 - 252);
    assert_eq!(p.line, 1);
    let mut q = Ppu::new();
    q.advance(144 * 456);
    assert_eq!(q.stat_value() & 0x03, 1); // vertical blank
}

#[test]
fn window_overlays_background() {
    let mut p = Ppu::new();
    // Window on, using the second tile map; background uses the first.
    p.lcdc = 0xF1;
    p.wy = 0;
    p.wx = 7;
    // Window map names tile 1; tile 1 row 0 is solid colour 3.
    p.vram[0x1C00] = 1;
    p.vram[16] = 0xFF;
    p.vram[17] = 0xFF;
    p.advance(456);
    // The default palette maps index 3 to black.
    assert_eq!(p.fb[0], 0);
}

#[test]
fn ten_sprites_per_line_is_the_cap() {
    let mut p = Ppu::new();
    p.lcdc = 0x93;
    p.obp0 = 0xE4;
    // Ten sprites cover the line but sit left of every visible pixel.
    for i in 0..10 {
        p.oam[i * 4] = 16; // covers line 0
        p.oam[i * 4 + 1] = 0; // covers no visible column
    }
    // The eleventh would cover pixel zero, but the cap leaves it out.
    p.oam[40] = 16;
    p.oam[41] = 8;
    p.oam[42] = 1;
    p.vram[16] = 0xFF;
    p.advance(456);
    let background = p.fb[0];
    // Drop one blocker: the same sprite is now within the cap and drawn.
    let mut q = Ppu::new();
    q.lcdc = 0x93;
    q.obp0 = 0xE4;
    for i in 0..9 {
        q.oam[i * 4] = 16;
        q.oam[i * 4 + 1] = 0;
    }
    q.oam[40] = 16;
    q.oam[41] = 8;
    q.oam[42] = 1;
    q.vram[16] = 0xFF;
    q.advance(456);
    assert_eq!(background, 255);
    assert_eq!(q.fb[0], 192);
}
