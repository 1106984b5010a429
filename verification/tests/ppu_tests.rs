use nes_core::cartridge::Cartridge;
use nes_core::mapper::MMC3;
use nes_core::ppu::{mirror_slot_at, MirroringMode, Ppu};

/// A CHR-RAM cartridge so tests can write pattern data through the PPU bus.
fn make_mapper(mode: MirroringMode) -> MMC3 {
    let prg = vec![0u8; 4 * 0x2000];
    let chr = vec![0u8; 8 * 0x400];
    MMC3::new(Cartridge::new(prg, Vec::new(), chr, true, mode))
}

fn step_n(ppu: &mut Ppu, mapper: &MMC3, n: usize) -> bool {
    let mut nmi = false;
    for _ in 0..n {
        if ppu.step(mapper) {
            nmi = true;
        }
    }
    nmi
}

#[test]
fn mirroring_table_matches_published_table() {
    let expect: [(MirroringMode, [usize; 4]); 5] = [
        (MirroringMode::Horizontal, [0, 0, 1, 1]),
        (MirroringMode::Vertical, [0, 1, 0, 1]),
        (MirroringMode::Lower, [0, 0, 0, 0]),
        (MirroringMode::Upper, [1, 1, 1, 1]),
        (MirroringMode::FourScreen, [0, 1, 2, 3]),
    ];
    for (mode, slots) in expect.iter() {
        for index in 0..4 {
            assert_eq!(mirror_slot_at(*mode, index), slots[index]);
        }
    }
}

#[test]
fn vertical_mirroring_aliases_2000_and_2800() {
    let mut mapper = make_mapper(MirroringMode::Horizontal); // register defaults to Vertical
    let mut ppu = Ppu::new();
    ppu.write_byte(&mut mapper, 0x2000, 0xAB);
    assert_eq!(ppu.read_byte(&mapper, 0x2800), 0xAB);
    assert_ne!(ppu.read_byte(&mapper, 0x2400), 0xAB);
}

#[test]
fn horizontal_mirroring_aliases_2000_and_2400() {
    let mut mapper = make_mapper(MirroringMode::Horizontal);
    mapper.write_byte(0xA000, 0x01); // horizontal
    let mut ppu = Ppu::new();
    ppu.write_byte(&mut mapper, 0x2000, 0xCD);
    assert_eq!(ppu.read_byte(&mapper, 0x2400), 0xCD);
    assert_ne!(ppu.read_byte(&mapper, 0x2800), 0xCD);
}

#[test]
fn vram_write_then_read_round_trips() {
    let mut mapper = make_mapper(MirroringMode::Vertical);
    let mut ppu = Ppu::new();
    for addr in [0x2000u16, 0x23FF, 0x2ABC, 0x3000, 0x3EFF] {
        ppu.write_byte(&mut mapper, addr, (addr % 251) as u8);
        assert_eq!(ppu.read_byte(&mapper, addr), (addr % 251) as u8);
    }
}

#[test]
fn palette_four_aligned_entries_fold_together() {
    let mut mapper = make_mapper(MirroringMode::Vertical);
    let mut ppu = Ppu::new();
    ppu.write_byte(&mut mapper, 0x3F00, 0x2A);
    // every 4-aligned address one 0x10 column over aliases the same byte
    assert_eq!(ppu.read_byte(&mapper, 0x3F10), 0x2A);
    assert_eq!(ppu.read_byte(&mapper, 0x3F20), 0x2A);
    assert_eq!(ppu.read_byte(&mapper, 0x3FF0), 0x2A);
    ppu.write_byte(&mut mapper, 0x3F14, 0x31);
    assert_eq!(ppu.read_byte(&mapper, 0x3F04), 0x31);
    // non-aligned entries use the full 0x20 fold
    ppu.write_byte(&mut mapper, 0x3F01, 0x17);
    assert_eq!(ppu.read_byte(&mapper, 0x3F21), 0x17);
}

#[test]
fn pattern_space_routes_to_mapper_chr() {
    let mut mapper = make_mapper(MirroringMode::Vertical);
    let mut ppu = Ppu::new();
    ppu.write_byte(&mut mapper, 0x0123, 0x5E); // CHR-RAM write through the mapper
    assert_eq!(ppu.read_byte(&mapper, 0x0123), 0x5E);
    assert_eq!(mapper.read_byte(0x0123), 0x5E);
}

#[test]
fn oam_write_then_read_round_trips() {
    let mut mapper = make_mapper(MirroringMode::Vertical);
    let mut ppu = Ppu::new();
    for i in [0u8, 1, 63, 255] {
        ppu.write_register(&mut mapper, 0x2003, i);
        ppu.write_register(&mut mapper, 0x2004, i ^ 0x5A);
        ppu.write_register(&mut mapper, 0x2003, i);
        assert_eq!(ppu.read_register(&mapper, 0x2004), i ^ 0x5A);
    }
}

#[test]
fn oam_data_write_increments_oam_addr() {
    let mut mapper = make_mapper(MirroringMode::Vertical);
    let mut ppu = Ppu::new();
    ppu.write_register(&mut mapper, 0x2003, 0xFF);
    ppu.write_register(&mut mapper, 0x2004, 1);
    assert_eq!(ppu.r.oam_addr, 0); // wraps
}

#[test]
fn power_on_status_reads_zero_until_vblank() {
    let mut mapper = make_mapper(MirroringMode::Vertical);
    let mut ppu = Ppu::new();
    ppu.initialize();
    assert_eq!(ppu.read_register(&mapper, 0x2002), 0x00);
    assert_eq!(ppu.read_register(&mapper, 0x2002), 0x00);
    // advance to dot (241, 1): VBlank starts
    let nmi = step_n(&mut ppu, &mapper, 241 * 341 + 1);
    assert!(!nmi); // NMI delivery disabled at power-on
    assert_eq!(ppu.read_register(&mapper, 0x2002), 0x80);
    assert_eq!(ppu.read_register(&mapper, 0x2002), 0x00); // read cleared it
}

#[test]
fn vblank_raises_nmi_when_enabled() {
    let mut mapper = make_mapper(MirroringMode::Vertical);
    let mut ppu = Ppu::new();
    ppu.initialize();
    ppu.write_register(&mut mapper, 0x2000, 0x80);
    let nmi = step_n(&mut ppu, &mapper, 241 * 341 + 1);
    assert!(nmi);
    // the pre-render dot (261, 1) clears the flag again
    step_n(&mut ppu, &mapper, (261 - 241) * 341);
    assert_eq!(ppu.read_register(&mapper, 0x2002) & 0x80, 0);
}

#[test]
fn deferred_ppudata_read() {
    let mut mapper = make_mapper(MirroringMode::Vertical);
    let mut ppu = Ppu::new();
    ppu.initialize();
    ppu.write_register(&mut mapper, 0x2006, 0x20);
    ppu.write_register(&mut mapper, 0x2006, 0x00);
    ppu.write_register(&mut mapper, 0x2007, 0xAB);
    ppu.write_register(&mut mapper, 0x2006, 0x20);
    ppu.write_register(&mut mapper, 0x2006, 0x00);
    let r1 = ppu.read_register(&mapper, 0x2007);
    let r2 = ppu.read_register(&mapper, 0x2007);
    assert_eq!(r1, 0x00); // the stale buffer
    assert_eq!(r2, 0xAB);
}

#[test]
fn ppudata_palette_reads_are_direct() {
    let mut mapper = make_mapper(MirroringMode::Vertical);
    let mut ppu = Ppu::new();
    ppu.initialize();
    ppu.write_register(&mut mapper, 0x2006, 0x3F);
    ppu.write_register(&mut mapper, 0x2006, 0x00);
    ppu.write_register(&mut mapper, 0x2007, 0x21);
    ppu.write_register(&mut mapper, 0x2006, 0x3F);
    ppu.write_register(&mut mapper, 0x2006, 0x00);
    assert_eq!(ppu.read_register(&mapper, 0x2007), 0x21); // no deferral here
}

#[test]
fn ppuctrl_selects_increment_stride() {
    let mut mapper = make_mapper(MirroringMode::Vertical);
    let mut ppu = Ppu::new();
    ppu.initialize();
    ppu.write_register(&mut mapper, 0x2000, 0x04); // stride 32
    ppu.write_register(&mut mapper, 0x2006, 0x20);
    ppu.write_register(&mut mapper, 0x2006, 0x00);
    ppu.write_register(&mut mapper, 0x2007, 0x11); // 0x2000
    ppu.write_register(&mut mapper, 0x2007, 0x22); // 0x2020
    assert_eq!(ppu.read_byte(&mapper, 0x2000), 0x11);
    assert_eq!(ppu.read_byte(&mapper, 0x2020), 0x22);
}

#[test]
fn write_only_registers_echo_last_written_byte() {
    let mut mapper = make_mapper(MirroringMode::Vertical);
    let mut ppu = Ppu::new();
    ppu.write_register(&mut mapper, 0x2005, 0x3C);
    assert_eq!(ppu.read_register(&mapper, 0x2000), 0x3C);
    assert_eq!(ppu.read_register(&mapper, 0x2001), 0x3C);
}

#[test]
fn timing_grid_and_buffer_cursor_stay_in_range() {
    let mut mapper = make_mapper(MirroringMode::Vertical);
    let mut ppu = Ppu::new();
    ppu.initialize();
    for _ in 0..(341 * 262 + 1234) {
        ppu.step(&mapper);
        assert!(ppu.cycle <= 340);
        assert!(ppu.scanline <= 261);
        assert!(ppu.buffer_index <= 256 * 240 * 4);
        if ppu.cycle == 0 && ppu.scanline == 0 {
            assert_eq!(ppu.buffer_index, 0);
        }
    }
    assert_eq!(ppu.frame, 1);
}

#[test]
fn reset_rewinds_the_timetable() {
    let mut mapper = make_mapper(MirroringMode::Vertical);
    let mut ppu = Ppu::new();
    ppu.initialize();
    step_n(&mut ppu, &mapper, 12345);
    ppu.reset();
    assert_eq!(ppu.cycle, 0);
    assert_eq!(ppu.scanline, 0);
    assert_eq!(ppu.frame, 0);
    assert_eq!(ppu.buffer_index, 0);
    assert_eq!(ppu.r.oam_addr, 0);
}

#[test]
fn palettes_returns_palette_ram_copy() {
    let mut mapper = make_mapper(MirroringMode::Vertical);
    let mut ppu = Ppu::new();
    ppu.write_byte(&mut mapper, 0x3F01, 0x2B);
    let pal = ppu.palettes();
    assert_eq!(pal.len(), 32);
    assert_eq!(pal[1], 0x2B);
}

#[test]
fn nametable_bank_follows_mirroring() {
    let mapper = make_mapper(MirroringMode::Vertical); // register default Vertical
    let ppu = Ppu::new();
    assert_eq!(ppu.nametable_bank(&mapper, 0), 0);
    assert_eq!(ppu.nametable_bank(&mapper, 1), 0x400);
    assert_eq!(ppu.nametable_bank(&mapper, 2), 0);
    assert_eq!(ppu.nametable_bank(&mapper, 3), 0x400);
}

/// Pushes every sprite off-screen (y byte 0xF0) so only the sprites a test
/// places explicitly can qualify for a scanline.
fn park_all_sprites(ppu: &mut Ppu, mapper: &mut nes_core::mapper::MMC3) {
    for s in 0..64u16 {
        ppu.write_register(mapper, 0x2003, (s * 4) as u8);
        ppu.write_register(mapper, 0x2004, 0xF0);
    }
}

#[test]
fn sprite_overflow_set_iff_nine_sprites_qualify() {
    let mut mapper = make_mapper(MirroringMode::Vertical);
    let mut ppu = Ppu::new();
    ppu.initialize();
    park_all_sprites(&mut ppu, &mut mapper);
    ppu.write_register(&mut mapper, 0x2001, 0x18); // rendering on
    // nine sprites on the same scanline band (y byte 10: lines 11..18)
    for s in 0..9u8 {
        ppu.write_register(&mut mapper, 0x2003, s * 4);
        ppu.write_register(&mut mapper, 0x2004, 10);
    }
    // run through the evaluation dot of scanline 10 (evaluating line 11)
    step_n(&mut ppu, &mapper, 10 * 341 + 258);
    assert_eq!(ppu.read_register(&mapper, 0x2002) & 0x20, 0x20);

    // with only eight qualifying sprites the flag stays clear
    let mut ppu2 = Ppu::new();
    ppu2.initialize();
    park_all_sprites(&mut ppu2, &mut mapper);
    ppu2.write_register(&mut mapper, 0x2001, 0x18);
    for s in 0..8u8 {
        ppu2.write_register(&mut mapper, 0x2003, s * 4);
        ppu2.write_register(&mut mapper, 0x2004, 10);
    }
    step_n(&mut ppu2, &mapper, 10 * 341 + 258);
    assert_eq!(ppu2.read_register(&mapper, 0x2002) & 0x20, 0);
}

#[test]
fn sprite_overflow_needs_rendering_enabled() {
    let mut mapper = make_mapper(MirroringMode::Vertical);
    let mut ppu = Ppu::new();
    ppu.initialize(); // rendering off
    for s in 0..9u8 {
        ppu.write_register(&mut mapper, 0x2003, s * 4);
        ppu.write_register(&mut mapper, 0x2004, 10);
    }
    step_n(&mut ppu, &mapper, 10 * 341 + 258);
    assert_eq!(ppu.read_register(&mapper, 0x2002) & 0x20, 0);
}

#[test]
fn sprite_zero_hit_on_overlapping_opaque_pixels() {
    let mut mapper = make_mapper(MirroringMode::Vertical);
    let mut ppu = Ppu::new();
    ppu.initialize();
    // tile 0 fully opaque in both pattern tables: low plane all ones
    for row in 0..8u16 {
        ppu.write_byte(&mut mapper, row, 0xFF);
        ppu.write_byte(&mut mapper, 0x1000 + row, 0xFF);
    }
    // sprite 0 at screen (50, 50): y byte 49, tile 0, no flips, x 50
    ppu.write_register(&mut mapper, 0x2003, 0);
    ppu.write_register(&mut mapper, 0x2004, 49);
    ppu.write_register(&mut mapper, 0x2004, 0);
    ppu.write_register(&mut mapper, 0x2004, 0);
    ppu.write_register(&mut mapper, 0x2004, 50);
    // nametable zeroed: background shows opaque tile 0 everywhere
    ppu.write_register(&mut mapper, 0x2001, 0x1E); // background + sprites + left columns
    // run through dot (50, 51), where pixel x=50 of line 50 is drawn
    step_n(&mut ppu, &mapper, 50 * 341 + 60);
    assert!(ppu.r.sprite_0_hit);
    assert_eq!(ppu.read_register(&mapper, 0x2002) & 0x40, 0x40);
}

#[test]
fn no_sprite_zero_hit_when_background_transparent() {
    let mut mapper = make_mapper(MirroringMode::Vertical);
    // at power-on every CHR slot selects bank 0, so $0000 and $1000 alias;
    // point the $1000 window at CHR bank 4 to keep the planes apart
    mapper.write_byte(0x8000, 0x02);
    mapper.write_byte(0x8001, 0x04);
    let mut ppu = Ppu::new();
    ppu.initialize();
    park_all_sprites(&mut ppu, &mut mapper);
    for row in 0..8u16 {
        ppu.write_byte(&mut mapper, 0x1000 + row, 0xFF); // sprites opaque
    }
    // background pattern stays all zero: transparent
    ppu.write_register(&mut mapper, 0x2000, 0x08); // sprites fetch from 0x1000
    ppu.write_register(&mut mapper, 0x2003, 0);
    ppu.write_register(&mut mapper, 0x2004, 49);
    ppu.write_register(&mut mapper, 0x2004, 0);
    ppu.write_register(&mut mapper, 0x2004, 0);
    ppu.write_register(&mut mapper, 0x2004, 50);
    ppu.write_register(&mut mapper, 0x2001, 0x1E);
    step_n(&mut ppu, &mapper, 51 * 341);
    assert!(!ppu.r.sprite_0_hit);
}

#[test]
fn frame_buffer_pixel_gets_backdrop_color() {
    let mut mapper = make_mapper(MirroringMode::Vertical);
    let mut ppu = Ppu::new();
    ppu.initialize();
    // rendering disabled: every pixel resolves to palette entry 0
    ppu.write_byte(&mut mapper, 0x3F00, 0x20); // 0x20 -> 0x00F8F8F8
    step_n(&mut ppu, &mapper, 341 + 2); // draw the first pixels of scanline 1... and 0
    assert_eq!(ppu.buffer[0], 0xF8);
    assert_eq!(ppu.buffer[1], 0xF8);
    assert_eq!(ppu.buffer[2], 0xF8);
    assert_eq!(ppu.buffer[3], 0xFF);
}
