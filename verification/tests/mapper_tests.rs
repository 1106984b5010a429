use nes_core::cartridge::Cartridge;
use nes_core::mapper::{decode_registers, Registers, StateError, MMC3};
use nes_core::ppu::MirroringMode;

/// A cartridge whose PRG bytes hold their own 8 KiB bank number and whose
/// CHR bytes hold their own 1 KiB bank number.
fn make_cartridge(prg_banks: usize, chr_kb: usize, with_ram: bool, mode: MirroringMode) -> Cartridge {
    let mut prg = vec![0u8; prg_banks * 0x2000];
    for (i, b) in prg.iter_mut().enumerate() {
        *b = (i / 0x2000) as u8;
    }
    let mut chr = vec![0u8; chr_kb * 0x400];
    for (i, b) in chr.iter_mut().enumerate() {
        *b = (i / 0x400) as u8;
    }
    let ram = if with_ram { vec![0u8; 0x2000] } else { Vec::new() };
    Cartridge::new(prg, ram, chr, false, mode)
}

#[test]
fn bank_select_keeps_current_bank_under_eight() {
    let mut r = Registers::new();
    r.write_bank_select(0xFF);
    assert!(r.current_bank < 8);
    assert_eq!(r.current_bank, 7);
    r.write_bank_select(0x42);
    assert_eq!(r.current_bank, 2);
}

#[test]
fn bank_data_goes_to_selected_slot() {
    let mut r = Registers::new();
    r.write_bank_select(0x03);
    r.write_bank_data(0x55);
    assert_eq!(r.bank_data[3], 0x55);
}

#[test]
fn prg_bank_switch_then_read() {
    // 128 KiB PRG-ROM: 16 banks.
    let mut m = MMC3::new(make_cartridge(16, 8, false, MirroringMode::Vertical));
    m.write_byte(0x8000, 0x06);
    m.write_byte(0x8001, 0x04);
    assert_eq!(m.read_byte(0x8000), 4);
    assert_eq!(m.read_byte(0xE000), 15);
    assert_eq!(m.read_byte(0xC000), 14);
}

#[test]
fn prg_fix_two_switch_fix_mode() {
    let mut m = MMC3::new(make_cartridge(16, 8, false, MirroringMode::Vertical));
    m.write_byte(0x8000, 0x46); // PRG mode 1, current bank 6
    m.write_byte(0x8001, 0x04);
    assert_eq!(m.read_byte(0x8000), 14); // second-to-last fixed
    assert_eq!(m.read_byte(0xC000), 4); // switchable moved here
    assert_eq!(m.read_byte(0xE000), 15);
}

#[test]
fn chr_translation_two2k_four1k() {
    let mut m = MMC3::new(make_cartridge(2, 64, false, MirroringMode::Vertical));
    // bank_data[0] = 7 (2 KiB bank, low bit forced to 0 at use time)
    m.write_byte(0x8000, 0x00);
    m.write_byte(0x8001, 0x07);
    assert_eq!(m.read_byte(0x0000), 6); // 7 & !1 = 6
    assert_eq!(m.read_byte(0x0400), 7); // second half of the 2 KiB bank
    // bank_data[2] = 9: a 1 KiB bank at $1000
    m.write_byte(0x8000, 0x02);
    m.write_byte(0x8001, 0x09);
    assert_eq!(m.read_byte(0x1000), 9);
}

#[test]
fn chr_bank_debug_view_mapping() {
    let mut m = MMC3::new(make_cartridge(2, 64, false, MirroringMode::Vertical));
    m.write_byte(0x8000, 0x00);
    m.write_byte(0x8001, 0x07);
    assert_eq!(m.chr_bank(0), 6);
    assert_eq!(m.chr_bank(1), 7);
    m.write_byte(0x8000, 0x02);
    m.write_byte(0x8001, 0x09);
    assert_eq!(m.chr_bank(4), 9);
}

#[test]
fn mirroring_register_and_four_screen_stickiness() {
    let mut m = MMC3::new(make_cartridge(2, 8, false, MirroringMode::Horizontal));
    assert_eq!(m.mirroring_mode(), MirroringMode::Vertical); // power-on register
    m.write_byte(0xA000, 0x01);
    assert_eq!(m.mirroring_mode(), MirroringMode::Horizontal);
    m.write_byte(0xA000, 0x00);
    assert_eq!(m.mirroring_mode(), MirroringMode::Vertical);

    let mut four = MMC3::new(make_cartridge(2, 8, false, MirroringMode::FourScreen));
    four.write_byte(0xA000, 0x01);
    assert_eq!(four.mirroring_mode(), MirroringMode::FourScreen);
}

#[test]
fn prg_ram_protect_gates_reads_and_writes() {
    let mut m = MMC3::new(make_cartridge(2, 8, true, MirroringMode::Vertical));
    m.write_byte(0x6000, 0xAA);
    assert_eq!(m.read_byte(0x6000), 0xAA);
    // bit 7 clear: RAM window disabled; reads return 0
    m.write_byte(0xA001, 0x00);
    assert_eq!(m.read_byte(0x6000), 0);
    // bit 6 set: writes disabled
    m.write_byte(0xA001, 0xC0);
    m.write_byte(0x6000, 0x55);
    assert_eq!(m.read_byte(0x6000), 0xAA);
}

#[test]
fn missing_prg_ram_reads_zero() {
    let m = MMC3::new(make_cartridge(2, 8, false, MirroringMode::Vertical));
    assert_eq!(m.read_byte(0x6000), 0);
    assert_eq!(m.read_byte(0x7FFF), 0);
}

#[test]
fn irq_fires_latch_plus_one_scanlines_after_reload() {
    let mut m = MMC3::new(make_cartridge(2, 8, false, MirroringMode::Vertical));
    m.write_byte(0xC000, 8); // latch = 8
    m.write_byte(0xC001, 0); // reload: counter = 0
    m.write_byte(0xE001, 0); // enable
    let mut fired_at = 0usize;
    for edge in 1..=9usize {
        let irq = m.step(260, (edge % 240) as u16, true);
        if irq {
            fired_at = edge;
        }
    }
    assert_eq!(fired_at, 9); // latch + 1
}

#[test]
fn irq_needs_rendering_and_cycle_260() {
    let mut m = MMC3::new(make_cartridge(2, 8, false, MirroringMode::Vertical));
    m.write_byte(0xC000, 1);
    m.write_byte(0xC001, 0);
    m.write_byte(0xE001, 0);
    assert!(!m.step(259, 0, true)); // wrong cycle: no effect
    assert!(!m.step(260, 240, true)); // post-render line: no effect
    assert!(!m.step(260, 0, false)); // rendering off: no effect
    assert!(!m.step(260, 0, true)); // reload
    assert!(m.step(260, 1, true)); // counter 1 -> 0: fires
}

#[test]
fn irq_disable_blocks_firing() {
    let mut m = MMC3::new(make_cartridge(2, 8, false, MirroringMode::Vertical));
    m.write_byte(0xC000, 1);
    m.write_byte(0xC001, 0);
    m.write_byte(0xE000, 0); // disable
    assert!(!m.step(260, 0, true));
    assert!(!m.step(260, 1, true));
}

#[test]
fn save_load_state_round_trip() {
    let mut m = MMC3::new(make_cartridge(4, 8, true, MirroringMode::Vertical));
    m.write_byte(0x8000, 0xC5);
    m.write_byte(0x8001, 0x2A);
    m.write_byte(0xA000, 0x01);
    m.write_byte(0xC000, 17);
    m.write_byte(0xE001, 0);
    m.write_byte(0x6000, 0x77);
    let (blob, ram) = m.save_state();

    let mut other = MMC3::new(make_cartridge(4, 8, true, MirroringMode::Vertical));
    assert!(other.load_state(&blob, &ram).is_ok());
    assert_eq!(other.r.current_bank, 5);
    assert_eq!(other.r.bank_data[5], 0x2A);
    assert_eq!(other.r.irq_latch, 17);
    assert!(other.r.irq_enabled);
    assert_eq!(other.read_byte(0x6000), 0x77);
    assert_eq!(other.r.mirroring_mode, MirroringMode::Horizontal);

    let (blob2, ram2) = other.save_state();
    assert_eq!(blob, blob2);
    assert_eq!(ram, ram2);
}

#[test]
fn load_state_rejects_bad_length() {
    let mut m = MMC3::new(make_cartridge(2, 8, false, MirroringMode::Vertical));
    let short = vec![0u8; 5];
    assert_eq!(m.load_state(&short, &[]), Err(StateError::BadLength));
}

#[test]
fn load_state_rejects_bad_value() {
    let mut m = MMC3::new(make_cartridge(2, 8, false, MirroringMode::Vertical));
    let mut blob = m.save_state().0;
    blob[0] = 9; // no such mirroring mode
    assert_eq!(m.load_state(&blob, &[]), Err(StateError::BadValue));
}

#[test]
fn decode_rejects_out_of_range_bank() {
    let m = MMC3::new(make_cartridge(2, 8, false, MirroringMode::Vertical));
    let mut blob = m.save_state().0;
    blob[16] = 8; // current_bank must stay under 8
    assert!(matches!(decode_registers(&blob), Err(StateError::BadValue)));
}

#[test]
fn save_returns_ram_only_when_present() {
    let with = MMC3::new(make_cartridge(2, 8, true, MirroringMode::Vertical));
    assert_eq!(with.save().map(|v| v.len()), Some(0x2000));
    let without = MMC3::new(make_cartridge(2, 8, false, MirroringMode::Vertical));
    assert!(without.save().is_none());
}

#[test]
fn load_restores_prg_ram() {
    let mut m = MMC3::new(make_cartridge(2, 8, true, MirroringMode::Vertical));
    let mut ram = vec![0u8; 0x2000];
    ram[0x123] = 0x9C;
    assert!(m.load(&ram).is_ok());
    assert_eq!(m.read_byte(0x6123), 0x9C);
    assert!(m.load(&[0u8; 3]).is_err());
}
