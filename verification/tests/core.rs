use chip8_core::draw::draw_planes;
use chip8_core::state::{Chip8, Chip8System};

#[test]
fn power_on_state() {
    let c = Chip8::new();
    assert_eq!(c.pc, 0x200);
    assert_eq!(c.i, 0);
    assert_eq!(c.sp, 0);
    assert_eq!(c.plane, 1);
    assert!(c.wait_vblank);
    assert!(c.paused);
    assert!(!c.halted);
    assert_eq!(c.mem.len(), 0x10000);
    assert_eq!(c.vram.len(), 128 * 64);
    assert!(c.vram.iter().all(|&b| b == 0));
    assert_eq!(c.mem[0x50], 0xF0);
    assert_eq!(c.mem[0x51], 0x90);
    assert_eq!(c.mem[0x9f], 0x80);
    assert_eq!(c.mem[0xa0], 0xFF);
    assert_eq!(c.mem[0x13f], 0xC0);
    assert_eq!(c.mem[0x200], 0);
    assert!(matches!(c.system, Chip8System::XOCHIP));
    assert!(!c.quirk_vf_reset);
    assert!(c.quirk_memory);
    assert!(c.quirk_disp_wait);
    assert!(!c.quirk_clipping);
    assert!(!c.quirk_shifting);
    assert!(!c.quirk_jumping);
    assert!(!c.quirk_disp_wait_lores);
    assert!(c.quirk_scroll_full_lores);
    assert!(c.quirk_16_colors);
}

#[test]
fn system_presets() {
    let mut c = Chip8::new();
    c.set_system(Chip8System::CHIP8);
    assert!(c.quirk_vf_reset);
    assert!(c.quirk_memory);
    assert!(c.quirk_clipping);
    assert!(!c.quirk_shifting);
    assert!(!c.quirk_jumping);
    assert!(c.quirk_disp_wait_lores);
    assert!(c.quirk_scroll_full_lores);
    c.set_system(Chip8System::LSCHIP);
    assert!(!c.quirk_vf_reset);
    assert!(!c.quirk_memory);
    assert!(c.quirk_shifting);
    assert!(c.quirk_jumping);
    assert!(!c.quirk_scroll_full_lores);
    c.set_system(Chip8System::MSCHIP);
    assert!(c.quirk_shifting);
    assert!(!c.quirk_disp_wait_lores);
    assert!(c.quirk_scroll_full_lores);
}

#[test]
fn rom_loads_at_0x200() {
    let mut c = Chip8::new();
    let rom = vec![0x60, 0xFF, 0x61, 0x02, 0x80, 0x14];
    c.load_rom(&rom);
    assert_eq!(c.mem[0x200], 0x60);
    assert_eq!(c.mem[0x201], 0xFF);
    assert_eq!(c.mem[0x205], 0x14);
    assert_eq!(c.mem[0x206], 0);
    assert_eq!(c.mem[0x1ff], 0);
}

#[test]
fn sprite_xor_collision() {
    // Draw the small-font glyph '0' twice at the origin: the first draw
    // lights it with no collision, the second clears it and collides.
    let c = Chip8::new();
    let mut vram = vec![0u8; 128 * 64];
    let coll = draw_planes(&c.mem, &mut vram, 1, true, false, 0x50, 5, 1, 0, 0);
    assert!(!coll);
    // glyph '0' row 0 is 0xF0: columns 0..4 lit
    assert_eq!(vram[0], 1);
    assert_eq!(vram[3], 1);
    assert_eq!(vram[4], 0);
    // row 1 is 0x90
    assert_eq!(vram[128], 1);
    assert_eq!(vram[129], 0);
    assert_eq!(vram[131], 1);
    let coll2 = draw_planes(&c.mem, &mut vram, 1, true, false, 0x50, 5, 1, 0, 0);
    assert!(coll2);
    assert!(vram.iter().all(|&b| b == 0));
}

#[test]
fn sprite_lores_draws_double_pixels() {
    let c = Chip8::new();
    let mut vram = vec![0u8; 128 * 64];
    let coll = draw_planes(&c.mem, &mut vram, 1, false, false, 0x50, 5, 1, 0, 0);
    assert!(!coll);
    // 0xF0 in lo-res: bits 0..4 each a 2x2 block: columns 0..8 on rows 0 and 1
    for col in 0..8 {
        assert_eq!(vram[col], 1);
        assert_eq!(vram[128 + col], 1);
    }
    assert_eq!(vram[8], 0);
}

#[test]
fn sprite_clipping_quirk() {
    let c = Chip8::new();
    let mut row = vec![0u8; 0x10000];
    row[0x300] = 0xFF;
    // with clipping on, pixels past the right edge are dropped
    let mut vram = vec![0u8; 128 * 64];
    draw_planes(&row, &mut vram, 1, true, true, 0x300, 1, 1, 124, 0);
    assert_eq!(vram[124], 1);
    assert_eq!(vram[127], 1);
    assert_eq!(vram[0], 0);
    // with clipping off, they wrap to the left edge of the same row
    let mut vram2 = vec![0u8; 128 * 64];
    draw_planes(&row, &mut vram2, 1, true, false, 0x300, 1, 1, 124, 0);
    assert_eq!(vram2[127], 1);
    assert_eq!(vram2[0], 1);
    assert_eq!(vram2[3], 1);
    assert_eq!(vram2[4], 0);
}

#[test]
fn sprite_plane_mask_selects_planes() {
    let c = Chip8::new();
    let mut vram = vec![0u8; 128 * 64];
    // plane mask 0b10: the glyph lands in plane 2, consuming one 5-byte image
    let coll = draw_planes(&c.mem, &mut vram, 2, true, false, 0x50, 5, 1, 0, 0);
    assert!(!coll);
    assert_eq!(vram[0], 2);
    // plane mask 0: nothing drawn, no collision
    let mut vram2 = vec![0u8; 128 * 64];
    let coll2 = draw_planes(&c.mem, &mut vram2, 0, true, false, 0x50, 5, 1, 0, 0);
    assert!(!coll2);
    assert!(vram2.iter().all(|&b| b == 0));
}

#[test]
fn clear_respects_plane_mask() {
    let mut c = Chip8::new();
    c.vram[5] = 0xF;
    c.vram[6] = 0x5;
    c.plane = 0x3;
    c.clear_screen();
    assert_eq!(c.vram[5], 0xC);
    assert_eq!(c.vram[6], 0x4);
}

#[test]
fn scroll_down_moves_rows_and_masks_planes() {
    let mut c = Chip8::new();
    c.vram[0] = 0x3; // planes 1 and 2 lit at the top-left corner
    c.plane = 1;
    c.scroll_down(1);
    // plane 1 cleared at the top and moved one row down; plane 2 untouched
    assert_eq!(c.vram[0], 0x2);
    assert_eq!(c.vram[128], 0x1);
}

#[test]
fn scroll_up_left_right() {
    let mut c = Chip8::new();
    c.plane = 1;
    c.vram[128] = 1; // row 1, column 0
    c.scroll_up(1);
    assert_eq!(c.vram[0], 1);
    assert_eq!(c.vram[128], 0);
    c.scroll_right();
    assert_eq!(c.vram[0], 0);
    assert_eq!(c.vram[4], 1);
    c.scroll_left();
    assert_eq!(c.vram[0], 1);
    assert_eq!(c.vram[4], 0);
}

#[test]
fn palette_two_bit() {
    let mut c = Chip8::new();
    c.quirk_16_colors = false;
    c.vram[0] = 1;
    c.vram[1] = 2;
    c.vram[2] = 3;
    c.vram[3] = 0;
    c.vram[100] = 1;
    let mut frame = vec![0u8; 4 * 128 * 64];
    c.draw(&mut frame);
    assert_eq!(&frame[0..4], &[0xff, 0xff, 0xff, 0xff]);
    assert_eq!(&frame[4..8], &[0x00, 0x44, 0xaa, 0xff]);
    assert_eq!(&frame[8..12], &[0xaa, 0x55, 0x00, 0xff]);
    assert_eq!(&frame[12..16], &[0x22, 0x22, 0x22, 0xff]);
    // the color of a byte does not depend on where it sits
    assert_eq!(&frame[400..404], &[0xff, 0xff, 0xff, 0xff]);
}

#[test]
fn palette_sixteen_colors() {
    let mut c = Chip8::new();
    c.quirk_16_colors = true;
    c.vram[0] = 0x6;
    c.vram[1] = 0xf;
    c.vram[2] = 0x0;
    let mut frame = vec![0u8; 4 * 128 * 64];
    c.draw(&mut frame);
    assert_eq!(&frame[0..4], &[0x00, 0x00, 0xff, 0xff]);
    assert_eq!(&frame[4..8], &[0x00, 0x88, 0x88, 0xff]);
    assert_eq!(&frame[8..12], &[0x00, 0x00, 0x00, 0xff]);
}

#[test]
fn skip_over_long_opcode_advances_four() {
    let mut c = Chip8::new();
    // a long-form opcode at the program counter: the skip steps over
    // all four of its bytes
    c.pc = 0x202;
    c.mem[0x202] = 0xF0;
    c.mem[0x203] = 0x00;
    c.mem[0x204] = 0x02;
    c.mem[0x205] = 0x34;
    c.skip_ins();
    assert_eq!(c.pc, 0x206);
    // an ordinary two-byte opcode is skipped by two
    c.pc = 0x202;
    c.mem[0x203] = 0x11;
    c.skip_ins();
    assert_eq!(c.pc, 0x204);
    // outside the XO-CHIP variant there is no long form
    c.set_system(Chip8System::LSCHIP);
    c.pc = 0x202;
    c.mem[0x203] = 0x00;
    c.skip_ins();
    assert_eq!(c.pc, 0x204);
}

#[test]
fn bcd_digits() {
    let mut c = Chip8::new();
    c.regs[7] = 234;
    c.i = 0x300;
    c.bcd(7);
    assert_eq!(c.mem[0x300], 2);
    assert_eq!(c.mem[0x301], 3);
    assert_eq!(c.mem[0x302], 4);
    c.regs[7] = 7;
    c.bcd(7);
    assert_eq!(c.mem[0x300], 0);
    assert_eq!(c.mem[0x301], 0);
    assert_eq!(c.mem[0x302], 7);
}

#[test]
fn jittable_set() {
    let mut c = Chip8::new();
    // jump, load, add, draw are cacheable; scrolls and the plane load
    // are not
    let cases: &[(u16, bool)] = &[
        (0x00E0, true),
        (0x00EE, true),
        (0x00FB, false),
        (0x00C3, false),
        (0x1234, true),
        (0x6012, true),
        (0x8124, true),
        (0xB123, false),
        (0xC0FF, true),
        (0x5122, true),
        (0x5123, true),
        (0x5121, false),
        (0xD015, true),
        (0xF000, true),
        (0xF101, false),
        (0xF033, true),
        (0xF03A, false),
        (0xF075, false),
    ];
    for &(op, expect) in cases {
        c.mem[0x400] = (op >> 8) as u8;
        c.mem[0x401] = (op & 0xff) as u8;
        assert_eq!(c.jittable(0x400), expect, "opcode {:04x}", op);
    }
}

#[test]
fn alu_add_with_carry() {
    let mut c = Chip8::new();
    c.regs[0] = 0xFF;
    c.regs[1] = 0x02;
    c.alu(0, 1, 4);
    assert_eq!(c.regs[0], 0x01);
    assert_eq!(c.regs[1], 0x02);
    assert_eq!(c.regs[0xf], 1);
    // no carry
    c.regs[2] = 3;
    c.regs[3] = 4;
    c.alu(2, 3, 4);
    assert_eq!(c.regs[2], 7);
    assert_eq!(c.regs[0xf], 0);
}

#[test]
fn alu_shift_with_quirk_off() {
    let mut c = Chip8::new();
    c.regs[1] = 0x80;
    c.regs[2] = 0x01;
    c.quirk_shifting = false;
    c.alu(1, 2, 0xe);
    assert_eq!(c.regs[1], 0x02);
    assert_eq!(c.regs[0xf], 0);
}

#[test]
fn alu_shift_with_quirk_on() {
    let mut c = Chip8::new();
    c.regs[1] = 0x80;
    c.regs[2] = 0x01;
    c.quirk_shifting = true;
    c.alu(1, 2, 0xe);
    assert_eq!(c.regs[1], 0x00);
    assert_eq!(c.regs[0xf], 1);
}

#[test]
fn alu_vf_reset_quirk() {
    let mut c = Chip8::new();
    c.regs[0] = 0x0f;
    c.regs[1] = 0xf0;
    c.regs[0xf] = 7;
    c.quirk_vf_reset = true;
    c.alu(0, 1, 1);
    assert_eq!(c.regs[0], 0xff);
    assert_eq!(c.regs[0xf], 0);
    c.regs[0xf] = 7;
    c.quirk_vf_reset = false;
    c.alu(0, 1, 2);
    assert_eq!(c.regs[0xf], 7);
}

#[test]
fn alu_subtract_not_borrow() {
    let mut c = Chip8::new();
    c.regs[4] = 10;
    c.regs[5] = 3;
    c.alu(4, 5, 5);
    assert_eq!(c.regs[4], 7);
    assert_eq!(c.regs[0xf], 1);
    c.regs[6] = 3;
    c.regs[7] = 10;
    c.alu(6, 7, 5);
    assert_eq!(c.regs[6], 0xf9);
    assert_eq!(c.regs[0xf], 0);
    // reverse subtraction
    c.regs[8] = 3;
    c.regs[9] = 10;
    c.alu(8, 9, 7);
    assert_eq!(c.regs[8], 7);
    assert_eq!(c.regs[0xf], 1);
}

#[test]
fn alu_flag_written_after_result() {
    // a result aimed at VF is overwritten by the flag
    let mut c = Chip8::new();
    c.regs[0xf] = 200;
    c.alu(0xf, 0xf, 4);
    assert_eq!(c.regs[0xf], 1);
}

#[test]
fn save_regs_memory_quirk_advances_i() {
    let mut c = Chip8::new();
    c.regs[0] = 0xaa;
    c.regs[1] = 0xbb;
    c.regs[2] = 0xcc;
    c.i = 0x300;
    c.quirk_memory = true;
    c.save_regs(2);
    assert_eq!(c.mem[0x300], 0xaa);
    assert_eq!(c.mem[0x301], 0xbb);
    assert_eq!(c.mem[0x302], 0xcc);
    assert_eq!(c.mem[0x303], 0);
    assert_eq!(c.i, 0x303);
    // with the quirk off the index register is kept
    c.i = 0x400;
    c.quirk_memory = false;
    c.save_regs(1);
    assert_eq!(c.i, 0x400);
}

#[test]
fn load_regs_memory_quirk_advances_i() {
    let mut c = Chip8::new();
    c.mem[0x300] = 0x11;
    c.mem[0x301] = 0x22;
    c.i = 0x300;
    c.quirk_memory = true;
    c.load_regs(1);
    assert_eq!(c.regs[0], 0x11);
    assert_eq!(c.regs[1], 0x22);
    assert_eq!(c.regs[2], 0);
    assert_eq!(c.i, 0x302);
    c.i = 0x300;
    c.quirk_memory = false;
    c.load_regs(1);
    assert_eq!(c.i, 0x300);
}

#[test]
fn oracle_lists_next_accesses() {
    let mut c = Chip8::new();
    // halted: no accesses
    c.halted = true;
    assert!(c.check_mem_access().is_empty());
    c.halted = false;
    // a sprite draw of five rows over two planes reads ten bytes at I
    c.i = 0x300;
    c.plane = 0b0011;
    c.mem[0x200] = 0xD0;
    c.mem[0x201] = 0x15;
    let acc = c.check_mem_access();
    assert_eq!(acc.len(), 10);
    assert_eq!(acc[0], (0x300, true));
    assert_eq!(acc[9], (0x309, true));
    // a register save of V0..=V2 writes three bytes at I
    c.mem[0x200] = 0xF2;
    c.mem[0x201] = 0x55;
    let acc = c.check_mem_access();
    assert_eq!(acc, vec![(0x300, false), (0x301, false), (0x302, false)]);
    // the decimal store writes three bytes
    c.mem[0x201] = 0x33;
    assert_eq!(c.check_mem_access().len(), 3);
    // a register-range save is XO-CHIP only
    c.mem[0x200] = 0x51;
    c.mem[0x201] = 0x32;
    let acc = c.check_mem_access();
    assert_eq!(acc, vec![(0x300, false), (0x301, false), (0x302, false)]);
    c.set_system(Chip8System::MSCHIP);
    assert!(c.check_mem_access().is_empty());
    c.set_system(Chip8System::XOCHIP);
    // other opcodes access nothing
    c.mem[0x200] = 0x60;
    assert!(c.check_mem_access().is_empty());
}

#[test]
fn range_save_and_load() {
    let mut c = Chip8::new();
    c.regs[1] = 0x11;
    c.regs[2] = 0x22;
    c.regs[3] = 0x33;
    c.i = 0x320;
    c.save_range(1, 3);
    assert_eq!(c.mem[0x320], 0x11);
    assert_eq!(c.mem[0x321], 0x22);
    assert_eq!(c.mem[0x322], 0x33);
    assert_eq!(c.i, 0x320); // no index advance on range stores
    c.mem[0x322] = 0x44;
    c.load_range(2, 3);
    assert_eq!(c.regs[2], 0x11);
    assert_eq!(c.regs[3], 0x22);
    // an empty range does nothing
    let before = c.mem[0x320];
    c.save_range(3, 1);
    assert_eq!(c.mem[0x320], before);
}
