use gameboy::gameboy::{rgba_to_rgb, Gameboy};
use gameboy::input::KeypadKey;
use gameboy::mmu::LoadError;

fn make_console() -> Gameboy {
    // A plain 32 KiB image full of idle instructions.
    Gameboy::new(vec![0u8; 0x8000]).unwrap()
}

#[test]
fn loading_reports_header_errors() {
    assert_eq!(Gameboy::new(vec![0u8; 16]).err(), Some(LoadError::ImageTooShort));
    let mut rom = vec![0u8; 0x8000];
    rom[0x0147] = 0xFC;
    assert_eq!(Gameboy::new(rom).err(), Some(LoadError::UnsupportedController(0xFC)));
}

#[test]
fn a_frame_completes_and_fills_the_image() {
    let mut gb = make_console();
    assert_eq!(gb.width, 160);
    assert_eq!(gb.height, 144);
    gb.frame().unwrap();
    let fb = gb.image();
    assert_eq!(fb.len(), 160 * 144 * 4);
    // Every pixel carries a full alpha byte.
    assert_eq!(fb[3], 0xFF);
    assert_eq!(fb[160 * 144 * 4 - 1], 0xFF);
}

#[test]
fn consecutive_frames_keep_running() {
    let mut gb = make_console();
    gb.frame().unwrap();
    gb.frame().unwrap();
    gb.frame().unwrap();
    // Three frames of idle instructions: each run stops right at the
    // entry into the vertical blank.
    assert_eq!(gb.cpu.memory.gpu.line, 144);
    assert_eq!(gb.cpu.memory.gpu.dot, 0);
}

#[test]
fn keys_reach_the_input_register() {
    let mut gb = make_console();
    gb.keydown(KeypadKey::Right);
    // Select the direction row (bit 4 low) and read.
    gb.cpu.memory.wb(0xFF00, 0x20);
    assert_eq!(gb.cpu.memory.rb(0xFF00), 0xEE);
    gb.keyup(KeypadKey::Right);
    assert_eq!(gb.cpu.memory.rb(0xFF00), 0xEF);
    // The action row sees the Start key.
    gb.keydown(KeypadKey::Start);
    gb.cpu.memory.wb(0xFF00, 0x10);
    assert_eq!(gb.cpu.memory.rb(0xFF00), 0xD7);
}

#[test]
fn keydown_requests_the_input_interrupt() {
    let mut gb = make_console();
    gb.cpu.memory.intf = 0;
    gb.keydown(KeypadKey::A);
    assert!(gb.cpu.memory.intf & 0x10 != 0);
}

#[test]
fn fatal_opcode_surfaces_from_frame() {
    let mut rom = vec![0u8; 0x8000];
    rom[0x0100] = 0xED;
    let mut gb = Gameboy::new(rom).unwrap();
    assert!(gb.frame().is_err());
}

#[test]
fn rgba_repack_drops_the_alpha_byte() {
    let input = vec![1u8, 2, 3, 255, 9, 8, 7, 0];
    let out = rgba_to_rgb(&input);
    assert_eq!(out, vec![1, 2, 3, 9, 8, 7]);
}

#[test]
fn rgba_repack_of_a_frame_has_three_bytes_per_pixel() {
    let mut gb = make_console();
    gb.frame().unwrap();
    let out = rgba_to_rgb(gb.image());
    assert_eq!(out.len(), 160 * 144 * 3);
}
