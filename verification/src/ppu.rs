//! Picture processing unit: frame timetable, fetch pipelines, pixel
//! composition, and the CPU-visible register window.

use vstd::prelude::*;
use crate::mapper::{MMC3, Mmc3View};
use crate::ppu_registers::{Registers, initial_ppu_registers, ctrl_spec, mask_spec, status_byte, status_read_spec, scroll_spec, addr_spec, copy_x_spec, copy_y_spec, inc_x_spec, inc_y_spec, reg_file_write_spec, load_tile_spec};
use crate::palette::{color_spec, color_at};

verus! {

/// How the two physical 1 KiB nametable banks are exposed over the four
/// logical nametable slots.
#[derive(Clone, Copy, Debug, PartialEq, Eq, Structural)]
pub enum MirroringMode {
    Horizontal,
    Vertical,
    Lower,
    Upper,
    FourScreen,
}

/// The physical 1 KiB VRAM bank backing logical nametable slot `index`
/// (0..4) under mirroring mode `mode`.
pub open spec fn mirror_slot(mode: MirroringMode, index: int) -> int {
    match mode {
        MirroringMode::Horizontal => if index < 2 { 0 } else { 1 },
        MirroringMode::Vertical => if index == 0 || index == 2 { 0 } else { 1 },
        MirroringMode::Lower => 0,
        MirroringMode::Upper => 1,
        MirroringMode::FourScreen => index,
    }
}

/// Exec form of the nametable mirroring lookup.
pub fn mirror_slot_at(mode: MirroringMode, index: usize) -> (slot: usize)
    requires index < 4,
    ensures slot == mirror_slot(mode, index as int),
{
    match mode {
        MirroringMode::Horizontal => if index < 2 { 0 } else { 1 },
        MirroringMode::Vertical => if index == 0 || index == 2 { 0 } else { 1 },
        MirroringMode::Lower => 0,
        MirroringMode::Upper => 1,
        MirroringMode::FourScreen => index,
    }
}

/// The nametable mirroring lookup agrees entry-for-entry with the published
/// 5-mode by 4-slot table: Horizontal 0,0,1,1; Vertical 0,1,0,1;
/// Lower 0,0,0,0; Upper 1,1,1,1; FourScreen 0,1,2,3.
pub proof fn lemma_mirroring_table()
    ensures
        mirror_slot(MirroringMode::Horizontal, 0) == 0,
        mirror_slot(MirroringMode::Horizontal, 1) == 0,
        mirror_slot(MirroringMode::Horizontal, 2) == 1,
        mirror_slot(MirroringMode::Horizontal, 3) == 1,
        mirror_slot(MirroringMode::Vertical, 0) == 0,
        mirror_slot(MirroringMode::Vertical, 1) == 1,
        mirror_slot(MirroringMode::Vertical, 2) == 0,
        mirror_slot(MirroringMode::Vertical, 3) == 1,
        mirror_slot(MirroringMode::Lower, 0) == 0,
        mirror_slot(MirroringMode::Lower, 1) == 0,
        mirror_slot(MirroringMode::Lower, 2) == 0,
        mirror_slot(MirroringMode::Lower, 3) == 0,
        mirror_slot(MirroringMode::Upper, 0) == 1,
        mirror_slot(MirroringMode::Upper, 1) == 1,
        mirror_slot(MirroringMode::Upper, 2) == 1,
        mirror_slot(MirroringMode::Upper, 3) == 1,
        mirror_slot(MirroringMode::FourScreen, 0) == 0,
        mirror_slot(MirroringMode::FourScreen, 1) == 1,
        mirror_slot(MirroringMode::FourScreen, 2) == 2,
        mirror_slot(MirroringMode::FourScreen, 3) == 3,
{
}

pub const SCREEN_WIDTH: usize = 256;
pub const SCREEN_HEIGHT: usize = 240;
/// Total frame buffer size: four RGBA bytes for each visible pixel.
pub const FRAME_BUFFER_BYTES: usize = SCREEN_WIDTH * SCREEN_HEIGHT * 4;

/// Mathematical value of the PPU.
#[verifier::ext_equal]
pub struct PpuView {
    pub r: Registers,
    pub buffer_index: usize,
    pub buffer: Seq<u8>,
    pub cycle: u16,
    pub scanline: u16,
    pub frame: u64,
    pub primary_oam: Seq<u8>,
    pub secondary_oam: Seq<u8>,
    pub is_sprite_0: Seq<bool>,
    pub vram: Seq<u8>,
    pub palette_ram: Seq<u8>,
}

/// How many pixels of the current frame have been emitted once the PPU has
/// finished the dot at (`scanline`, `cycle`): one pixel for every visible
/// dot (scanline below 240, cycle 1..257) reached so far this frame.
pub open spec fn pixel_count(scanline: u16, cycle: u16) -> int {
    if scanline >= 240 {
        61440
    } else {
        scanline * 256 + (if cycle > 256 { 256int } else { cycle as int })
    }
}

impl PpuView {
    /// The memories the PPU address space reads have their fixed sizes.
    pub open spec fn mem_wf(self) -> bool {
        &&& self.vram.len() == 0x2000
        &&& self.palette_ram.len() == 0x20
    }

    /// Everything structural except the frame-buffer cursor equation.
    pub open spec fn wf_base(self) -> bool {
        &&& self.r.wf()
        &&& self.cycle <= 340
        &&& self.scanline <= 261
        &&& self.buffer.len() == FRAME_BUFFER_BYTES
        &&& self.primary_oam.len() == 0x100
        &&& self.secondary_oam.len() == 0x20
        &&& self.is_sprite_0.len() == 8
        &&& self.mem_wf()
    }

    /// Full well-formedness: additionally, the frame-buffer cursor sits
    /// exactly behind the pixels emitted so far this frame.
    pub open spec fn wf(self) -> bool {
        &&& self.wf_base()
        &&& self.buffer_index == 4 * pixel_count(self.scanline, self.cycle)
    }
}

/// The palette RAM contents at power-on.
pub open spec fn init_palette_ram() -> Seq<u8> {
    seq![
        0x09u8, 0x01u8, 0x00u8, 0x01u8,
        0x00u8, 0x02u8, 0x02u8, 0x0Du8,
        0x08u8, 0x10u8, 0x08u8, 0x24u8,
        0x00u8, 0x00u8, 0x04u8, 0x2Cu8,
        0x09u8, 0x01u8, 0x34u8, 0x03u8,
        0x00u8, 0x04u8, 0x00u8, 0x14u8,
        0x08u8, 0x3Au8, 0x00u8, 0x02u8,
        0x00u8, 0x20u8, 0x2Cu8, 0x08u8,
    ]
}

/// The PPU's state at power-on.
pub open spec fn initial_ppu() -> PpuView {
    PpuView {
        r: initial_ppu_registers(),
        buffer_index: 0,
        buffer: Seq::new(FRAME_BUFFER_BYTES as nat, |i: int| 0u8),
        cycle: 0,
        scanline: 0,
        frame: 0,
        primary_oam: Seq::new(0x100, |i: int| 0u8),
        secondary_oam: Seq::new(0x20, |i: int| 0u8),
        is_sprite_0: Seq::new(8, |i: int| false),
        vram: Seq::new(0x2000, |i: int| 0u8),
        palette_ram: init_palette_ram(),
    }
}

/// Physical VRAM index behind a nametable address in $2000-$3EFF: the
/// address folds onto one of four logical 1 KiB slots, and the mirroring
/// mode maps the slot to a physical bank.
pub open spec fn vram_physical(mode: MirroringMode, addr: u16) -> int
    recommends 0x2000 <= addr < 0x3F00,
{
    let a = (addr - 0x2000) % 0x1000;
    mirror_slot(mode, a / 0x400) * 0x400 + a % 0x400
}

/// Palette RAM index behind an address in $3F00-$3FFF: 4-aligned entries
/// fold with modulus 0x10 (into the universal background column), others
/// with modulus 0x20.
pub open spec fn palette_index(addr: u16) -> int
    recommends 0x3F00 <= addr < 0x4000,
{
    if addr % 4 == 0 {
        (addr - 0x3F00) % 0x10
    } else {
        (addr - 0x3F00) % 0x20
    }
}

/// What a read of the PPU's own 14-bit address space returns: pattern
/// tables through the mapper's CHR translation, nametables through VRAM
/// mirroring, palette RAM with the 4-aligned fold.
pub open spec fn ppu_read(p: PpuView, m: Mmc3View, addr: u16) -> u8
    recommends p.wf(), m.wf(), addr < 0x4000,
{
    if addr < 0x2000 {
        m.read(addr)
    } else if addr < 0x3F00 {
        p.vram[vram_physical(m.effective_mirroring(), addr)]
    } else {
        p.palette_ram[palette_index(addr)]
    }
}

/// Effect of a write to the PPU's address space on the PPU itself; pattern
/// table writes land in the mapper instead and leave the PPU unchanged.
pub open spec fn ppu_write(p: PpuView, mode: MirroringMode, addr: u16, val: u8) -> PpuView
    recommends p.wf(), addr < 0x4000,
{
    if addr < 0x2000 {
        p
    } else if addr < 0x3F00 {
        PpuView { vram: p.vram.update(vram_physical(mode, addr), val), ..p }
    } else {
        PpuView { palette_ram: p.palette_ram.update(palette_index(addr), val), ..p }
    }
}

/// The mirroring fold keeps every physical VRAM index inside the 2 KiB
/// VRAM (and inside 4 KiB for four-screen addressing).
pub proof fn lemma_vram_physical_bounds(mode: MirroringMode, addr: u16)
    requires 0x2000 <= addr < 0x3F00,
    ensures 0 <= vram_physical(mode, addr) < 0x1000,
        mode != MirroringMode::FourScreen ==> vram_physical(mode, addr) < 0x800,
{
}

/// Every 4-aligned palette address folds to its residue modulo 0x10, so
/// 4-aligned addresses one 0x10 column apart alias the same byte.
pub proof fn lemma_palette_mirroring(addr: u16)
    requires 0x3F00 <= addr < 0x4000, addr % 4 == 0,
    ensures palette_index(addr) == addr % 0x10,
{
    assert((addr - 0x3F00) % 0x10 == addr % 0x10) by (nonlinear_arith)
        requires 0x3F00 <= addr < 0x4000,
    {}
}

/// Two 4-aligned palette addresses with the same residue modulo 0x10 read
/// the same palette RAM byte.
pub proof fn lemma_palette_mirroring_pair(p: PpuView, m: Mmc3View, addr1: u16, addr2: u16)
    requires
        p.wf(), m.wf(),
        0x3F00 <= addr1 < 0x4000, addr1 % 4 == 0,
        0x3F00 <= addr2 < 0x4000, addr2 % 4 == 0,
        addr1 % 0x10 == addr2 % 0x10,
    ensures ppu_read(p, m, addr1) == ppu_read(p, m, addr2),
{
    lemma_palette_mirroring(addr1);
    lemma_palette_mirroring(addr2);
}

/// Writing then reading any nametable VRAM address returns the written
/// value (mirroring accounted for by both going through the same fold).
pub proof fn lemma_vram_write_read(p: PpuView, m: Mmc3View, addr: u16, val: u8)
    requires p.wf(), m.wf(), 0x2000 <= addr < 0x3F00,
    ensures ppu_read(ppu_write(p, m.effective_mirroring(), addr, val), m, addr) == val,
{
    lemma_vram_physical_bounds(m.effective_mirroring(), addr);
}

/// Writing then reading any palette address returns the written value.
pub proof fn lemma_palette_write_read(p: PpuView, m: Mmc3View, addr: u16, val: u8)
    requires p.wf(), m.wf(), 0x3F00 <= addr < 0x4000,
    ensures ppu_read(ppu_write(p, m.effective_mirroring(), addr, val), m, addr) == val,
{
}

/// Fills a byte vector with `len` copies of `val`.
fn filled(len: usize, val: u8) -> (out: Vec<u8>)
    ensures out@ == Seq::new(len as nat, |i: int| val),
{
    let mut out: Vec<u8> = Vec::new();
    let mut i: usize = 0;
    while i < len
        invariant
            i <= len,
            out@.len() == i,
            forall|j: int| 0 <= j < i ==> out@[j] == val,
        decreases len - i,
    {
        out.push(val);
        i += 1;
    }
    proof { assert(out@ =~= Seq::new(len as nat, |i: int| val)); }
    out
}

/// Picture processing unit.
pub struct Ppu {
    pub r: Registers,
    pub buffer_index: usize,
    pub buffer: Vec<u8>,
    pub cycle: u16,
    pub scanline: u16,
    pub frame: u64,
    pub primary_oam: Vec<u8>,
    pub secondary_oam: Vec<u8>,
    pub is_sprite_0: Vec<bool>,
    pub vram: Vec<u8>,
    pub palette_ram: Vec<u8>,
}

impl View for Ppu {
    type V = PpuView;

    open spec fn view(&self) -> PpuView {
        PpuView {
            r: self.r,
            buffer_index: self.buffer_index,
            buffer: self.buffer@,
            cycle: self.cycle,
            scanline: self.scanline,
            frame: self.frame,
            primary_oam: self.primary_oam@,
            secondary_oam: self.secondary_oam@,
            is_sprite_0: self.is_sprite_0@,
            vram: self.vram@,
            palette_ram: self.palette_ram@,
        }
    }
}

impl Ppu {
    pub fn new() -> (p: Ppu)
        ensures p@ == initial_ppu(), p@.wf(),
    {
        let mut palette_ram: Vec<u8> = Vec::new();
        palette_ram.push(0x09); palette_ram.push(0x01); palette_ram.push(0x00); palette_ram.push(0x01);
        palette_ram.push(0x00); palette_ram.push(0x02); palette_ram.push(0x02); palette_ram.push(0x0D);
        palette_ram.push(0x08); palette_ram.push(0x10); palette_ram.push(0x08); palette_ram.push(0x24);
        palette_ram.push(0x00); palette_ram.push(0x00); palette_ram.push(0x04); palette_ram.push(0x2C);
        palette_ram.push(0x09); palette_ram.push(0x01); palette_ram.push(0x34); palette_ram.push(0x03);
        palette_ram.push(0x00); palette_ram.push(0x04); palette_ram.push(0x00); palette_ram.push(0x14);
        palette_ram.push(0x08); palette_ram.push(0x3A); palette_ram.push(0x00); palette_ram.push(0x02);
        palette_ram.push(0x00); palette_ram.push(0x20); palette_ram.push(0x2C); palette_ram.push(0x08);

        let mut is_sprite_0: Vec<bool> = Vec::new();
        let mut i: usize = 0;
        while i < 8
            invariant
                i <= 8,
                is_sprite_0@.len() == i,
                forall|j: int| 0 <= j < i ==> is_sprite_0@[j] == false,
            decreases 8 - i,
        {
            is_sprite_0.push(false);
            i += 1;
        }

        let p = Ppu {
            r: Registers::new(),
            buffer_index: 0,
            buffer: filled(FRAME_BUFFER_BYTES, 0),
            cycle: 0,
            scanline: 0,
            frame: 0,
            primary_oam: filled(0x100, 0),
            secondary_oam: filled(0x20, 0),
            is_sprite_0,
            vram: filled(0x2000, 0),
            palette_ram,
        };
        proof {
            assert(p@.palette_ram =~= init_palette_ram());
            assert(p@.is_sprite_0 =~= initial_ppu().is_sprite_0);
            assert(p@ =~= initial_ppu());
        }
        p
    }

    /// Applies the power-up control and mask writes (both zero).
    pub fn initialize(&mut self)
        ensures
            final(self)@ == (PpuView {
                r: mask_spec(ctrl_spec(old(self)@.r, 0), 0),
                ..old(self)@
            }),
            old(self)@.wf() ==> final(self)@.wf(),
    {
        self.r.write_ppu_ctrl(0);
        self.r.write_ppu_mask(0);
        proof {
            assert(self@ =~= (PpuView {
                r: mask_spec(ctrl_spec(old(self)@.r, 0), 0),
                ..old(self)@
            }));
        }
    }

    /// Hard reset: the power-up register writes, OAM address cleared, and
    /// the frame timetable (and with it the frame buffer cursor) rewound.
    pub fn reset(&mut self)
        ensures
            final(self)@ == (PpuView {
                r: Registers {
                    oam_addr: 0,
                    ..mask_spec(ctrl_spec(old(self)@.r, 0), 0)
                },
                cycle: 0,
                scanline: 0,
                frame: 0,
                buffer_index: 0,
                ..old(self)@
            }),
            old(self)@.wf() ==> final(self)@.wf(),
    {
        self.initialize();
        self.r.oam_addr = 0;
        self.cycle = 0;
        self.scanline = 0;
        self.frame = 0;
        self.buffer_index = 0;
        proof {
            assert(self@ =~= (PpuView {
                r: Registers {
                    oam_addr: 0,
                    ..mask_spec(ctrl_spec(old(self)@.r, 0), 0)
                },
                cycle: 0,
                scanline: 0,
                frame: 0,
                buffer_index: 0,
                ..old(self)@
            }));
        }
    }

    /// Reads the PPU's own 14-bit address space.
    pub fn read_byte(&self, mapper: &MMC3, addr: u16) -> (b: u8)
        requires self@.mem_wf(), mapper@.wf(), addr < 0x4000,
        ensures b == ppu_read(self@, mapper@, addr),
    {
        if addr < 0x2000 {
            mapper.read_byte(addr)
        } else if addr < 0x3F00 {
            let a = (addr - 0x2000) % 0x1000;
            let index = (a / 0x400) as usize;
            let offset = (a % 0x400) as usize;
            let mode = mapper.mirroring_mode();
            let slot = mirror_slot_at(mode, index);
            self.vram[slot * 0x400 + offset]
        } else {
            let modulus: u16 = if addr % 4 == 0 { 0x10 } else { 0x20 };
            self.palette_ram[((addr - 0x3F00) % modulus) as usize]
        }
    }

    /// Writes the PPU's own 14-bit address space. Pattern-table writes are
    /// routed to the mapper (landing in CHR-RAM when present); everything
    /// else mutates the PPU's VRAM or palette RAM.
    pub fn write_byte(&mut self, mapper: &mut MMC3, addr: u16, val: u8)
        requires old(self)@.mem_wf(), old(mapper)@.wf(), addr < 0x4000,
        ensures
            final(self)@ == ppu_write(
                old(self)@, old(mapper)@.effective_mirroring(), addr, val),
            final(mapper)@ == (if addr < 0x2000 {
                old(mapper)@.write(addr, val)
            } else {
                old(mapper)@
            }),
            final(self)@.mem_wf(),
            final(mapper)@.wf(),
    {
        if addr < 0x2000 {
            mapper.write_byte(addr, val);
            proof {
                assert(self@ =~= ppu_write(
                    old(self)@, old(mapper)@.effective_mirroring(), addr, val));
            }
        } else if addr < 0x3F00 {
            let a = (addr - 0x2000) % 0x1000;
            let index = (a / 0x400) as usize;
            let offset = (a % 0x400) as usize;
            let mode = mapper.mirroring_mode();
            let slot = mirror_slot_at(mode, index);
            self.vram.set(slot * 0x400 + offset, val);
            proof {
                assert(self@ =~= ppu_write(
                    old(self)@, old(mapper)@.effective_mirroring(), addr, val));
            }
        } else {
            let modulus: u16 = if addr % 4 == 0 { 0x10 } else { 0x20 };
            self.palette_ram.set(((addr - 0x3F00) % modulus) as usize, val);
            proof {
                assert(self@ =~= ppu_write(
                    old(self)@, old(mapper)@.effective_mirroring(), addr, val));
            }
        }
    }

    /// A copy of the 32-byte palette RAM, for host-side renderers.
    pub fn palettes(&self) -> (out: Vec<u8>)
        ensures out@ == self@.palette_ram,
    {
        let mut out: Vec<u8> = Vec::new();
        let mut i: usize = 0;
        while i < self.palette_ram.len()
            invariant
                i <= self@.palette_ram.len(),
                out@ == self@.palette_ram.subrange(0, i as int),
            decreases self@.palette_ram.len() - i,
        {
            out.push(self.palette_ram[i]);
            i += 1;
        }
        proof { assert(out@ =~= self@.palette_ram); }
        out
    }

    /// Byte offset into VRAM of the physical 1 KiB bank backing logical
    /// nametable slot `index` under the mapper's current mirroring.
    pub fn nametable_bank(&self, mapper: &MMC3, index: usize) -> (offset: usize)
        requires index < 4,
        ensures offset == mirror_slot(mapper@.effective_mirroring(), index as int) * 0x400,
    {
        let mode = mapper.mirroring_mode();
        mirror_slot_at(mode, index) * 0x400
    }
}

/// The byte a CPU read of register `addr` returns: PPUSTATUS returns the
/// status byte, OAMDATA the OAM byte under the OAM address, PPUDATA the
/// buffered byte below $3F00 and the palette byte directly at or above it,
/// and the write-only registers echo the last written byte.
pub open spec fn reg_read_out(p: PpuView, m: Mmc3View, addr: u16) -> u8
    recommends p.wf(), m.wf(), 0x2000 <= addr <= 0x2007,
{
    if addr == 0x2002 {
        status_byte(p.r)
    } else if addr == 0x2004 {
        p.primary_oam[p.r.oam_addr as int]
    } else if addr == 0x2007 {
        if p.r.bus_address < 0x3F00 {
            p.r.read_buffer
        } else {
            ppu_read(p, m, p.r.bus_address)
        }
    } else {
        p.r.last_written_byte
    }
}

/// Side effect of a CPU register read: PPUSTATUS clears VBlank and resets
/// the write toggle; PPUDATA refills the read buffer (from the address, or
/// from its nametable mirror when reading palette space) and advances the
/// bus address by the configured stride within the 14-bit space.
pub open spec fn reg_read_spec(p: PpuView, m: Mmc3View, addr: u16) -> PpuView
    recommends p.wf(), m.wf(), 0x2000 <= addr <= 0x2007,
{
    if addr == 0x2002 {
        PpuView { r: status_read_spec(p.r), ..p }
    } else if addr == 0x2007 {
        let buf = if p.r.bus_address < 0x3F00 {
            ppu_read(p, m, p.r.bus_address)
        } else {
            ppu_read(p, m, (p.r.bus_address - 0x1000) as u16)
        };
        PpuView {
            r: Registers {
                read_buffer: buf,
                bus_address: ((p.r.bus_address + p.r.vram_address_increment) % 0x4000) as u16,
                ..p.r
            },
            ..p
        }
    } else {
        p
    }
}

/// Effect of a CPU register write on the PPU. Every write latches the
/// written byte; then PPUCTRL/PPUMASK/PPUSCROLL/PPUADDR drive the register
/// file, OAMADDR/OAMDATA drive OAM, and PPUDATA stores through the PPU
/// address space and advances the bus address.
#[verifier::opaque]
pub open spec fn reg_write_spec(p: PpuView, m: Mmc3View, addr: u16, val: u8) -> PpuView
    recommends p.wf(), m.wf(), 0x2000 <= addr <= 0x2007,
{
    if addr == 0x2004 {
        PpuView {
            primary_oam: p.primary_oam.update(p.r.oam_addr as int, val),
            r: Registers {
                last_written_byte: val,
                oam_addr: ((p.r.oam_addr + 1) % 0x100) as u8,
                ..p.r
            },
            ..p
        }
    } else if addr == 0x2007 {
        let p0 = PpuView { r: Registers { last_written_byte: val, ..p.r }, ..p };
        let p1 = ppu_write(p0, m.effective_mirroring(), p0.r.bus_address, val);
        PpuView {
            r: Registers {
                bus_address: ((p1.r.bus_address + p1.r.vram_address_increment) % 0x4000) as u16,
                ..p1.r
            },
            ..p1
        }
    } else {
        PpuView { r: reg_file_write_spec(p.r, addr, val), ..p }
    }
}

/// Spells out `reg_write_spec` case by case.
pub proof fn lemma_reg_write_cases(p: PpuView, m: Mmc3View, addr: u16, val: u8)
    ensures
        addr != 0x2004 && addr != 0x2007 ==> reg_write_spec(p, m, addr, val)
            == (PpuView { r: reg_file_write_spec(p.r, addr, val), ..p }),
        addr == 0x2004 ==> reg_write_spec(p, m, addr, val)
            == (PpuView {
                primary_oam: p.primary_oam.update(p.r.oam_addr as int, val),
                r: Registers {
                    last_written_byte: val,
                    oam_addr: ((p.r.oam_addr + 1) % 0x100) as u8,
                    ..p.r
                },
                ..p
            }),
        addr == 0x2007 ==> reg_write_spec(p, m, addr, val)
            == ({
                let p0 = PpuView { r: Registers { last_written_byte: val, ..p.r }, ..p };
                let p1 = ppu_write(p0, m.effective_mirroring(), p0.r.bus_address, val);
                PpuView {
                    r: Registers {
                        bus_address: ((p1.r.bus_address + p1.r.vram_address_increment)
                            % 0x4000) as u16,
                        ..p1.r
                    },
                    ..p1
                }
            }),
{
    reveal(reg_write_spec);
}

impl Ppu {
    /// CPU read of the eight-register window at $2000-$2007.
    pub fn read_register(&mut self, mapper: &MMC3, addr: u16) -> (out: u8)
        requires
            old(self)@.wf(),
            mapper@.wf(),
            0x2000 <= addr <= 0x2007,
        ensures
            out == reg_read_out(old(self)@, mapper@, addr),
            final(self)@ == reg_read_spec(old(self)@, mapper@, addr),
            final(self)@.wf(),
    {
        if addr == 0x2002 {
            let out = self.r.read_ppu_status();
            proof { assert(self@ =~= reg_read_spec(old(self)@, mapper@, addr)); }
            out
        } else if addr == 0x2004 {
            self.primary_oam[self.r.oam_addr as usize]
        } else if addr == 0x2007 {
            let a = self.r.bus_address;
            let direct = self.read_byte(mapper, a);
            let ret: u8;
            if a < 0x3F00 {
                ret = self.r.read_buffer;
                self.r.read_buffer = direct;
            } else {
                ret = direct;
                self.r.read_buffer = self.read_byte(mapper, a - 0x1000);
            }
            self.r.bus_address = (a + self.r.vram_address_increment) % 0x4000;
            proof { assert(self@ =~= reg_read_spec(old(self)@, mapper@, addr)); }
            ret
        } else {
            self.r.last_written_byte
        }
    }

    /// CPU write to the eight-register window at $2000-$2007.
    pub fn write_register(&mut self, mapper: &mut MMC3, addr: u16, val: u8)
        requires
            old(self)@.wf(),
            old(mapper)@.wf(),
            0x2000 <= addr <= 0x2007,
        ensures
            final(self)@ == reg_write_spec(old(self)@, old(mapper)@, addr, val),
            final(mapper)@ == (if addr == 0x2007 && old(self)@.r.bus_address < 0x2000 {
                old(mapper)@.write(old(self)@.r.bus_address, val)
            } else {
                old(mapper)@
            }),
            final(self)@.wf(),
            final(mapper)@.wf(),
    {
        proof { lemma_reg_write_cases(old(self)@, old(mapper)@, addr, val); }
        if addr == 0x2004 {
            self.write_oam_data(val);
            return;
        }
        if addr == 0x2007 {
            self.write_ppu_data(mapper, val);
            return;
        }
        self.r.write_reg_file(addr, val);
        proof {
            assert(self@ =~= (PpuView {
                r: reg_file_write_spec(old(self)@.r, addr, val),
                ..old(self)@
            }));
        }
    }

    /// OAMDATA write: stores at the OAM address and increments it.
    #[verifier::rlimit(60)]
    fn write_oam_data(&mut self, val: u8)
        requires old(self)@.wf(),
        ensures
            final(self)@ == (PpuView {
                primary_oam: old(self)@.primary_oam.update(old(self)@.r.oam_addr as int, val),
                r: Registers {
                    last_written_byte: val,
                    oam_addr: ((old(self)@.r.oam_addr + 1) % 0x100) as u8,
                    ..old(self)@.r
                },
                ..old(self)@
            }),
            final(self)@.wf(),
    {
        self.r.last_written_byte = val;
        self.primary_oam.set(self.r.oam_addr as usize, val);
        self.r.oam_addr = ((self.r.oam_addr as u16 + 1) % 0x100) as u8;
        proof {
            assert(self@ =~= (PpuView {
                primary_oam: old(self)@.primary_oam.update(old(self)@.r.oam_addr as int, val),
                r: Registers {
                    last_written_byte: val,
                    oam_addr: ((old(self)@.r.oam_addr + 1) % 0x100) as u8,
                    ..old(self)@.r
                },
                ..old(self)@
            }));
        }
    }

    /// PPUDATA write: stores through the PPU address space at the bus
    /// address and advances it by the configured stride.
    #[verifier::rlimit(100)]
    fn write_ppu_data(&mut self, mapper: &mut MMC3, val: u8)
        requires old(self)@.wf(), old(mapper)@.wf(),
        ensures
            final(self)@ == ({
                let p0 = PpuView {
                    r: Registers { last_written_byte: val, ..old(self)@.r },
                    ..old(self)@
                };
                let p1 = ppu_write(p0, old(mapper)@.effective_mirroring(), p0.r.bus_address, val);
                PpuView {
                    r: Registers {
                        bus_address: ((p1.r.bus_address + p1.r.vram_address_increment)
                            % 0x4000) as u16,
                        ..p1.r
                    },
                    ..p1
                }
            }),
            final(mapper)@ == (if old(self)@.r.bus_address < 0x2000 {
                old(mapper)@.write(old(self)@.r.bus_address, val)
            } else {
                old(mapper)@
            }),
            final(self)@.wf(),
            final(mapper)@.wf(),
    {
        self.r.last_written_byte = val;
        let a = self.r.bus_address;
        self.write_byte(mapper, a, val);
        self.r.bus_address = (a + self.r.vram_address_increment) % 0x4000;
        proof {
            let p0 = PpuView {
                r: Registers { last_written_byte: val, ..old(self)@.r },
                ..old(self)@
            };
            let p1 = ppu_write(p0, old(mapper)@.effective_mirroring(), p0.r.bus_address, val);
            assert(self@ =~= (PpuView {
                r: Registers {
                    bus_address: ((p1.r.bus_address + p1.r.vram_address_increment)
                        % 0x4000) as u16,
                    ..p1.r
                },
                ..p1
            }));
        }
    }
}

/// OAM round trip: setting the OAM address to `i`, writing OAMDATA, setting
/// the OAM address back to `i`, and reading OAMDATA returns the written
/// byte.
pub proof fn lemma_oam_write_read(p: PpuView, m: Mmc3View, i: u8, v: u8)
    requires p.wf(), m.wf(),
    ensures ({
        let p1 = reg_write_spec(p, m, 0x2003, i);
        let p2 = reg_write_spec(p1, m, 0x2004, v);
        let p3 = reg_write_spec(p2, m, 0x2003, i);
        reg_read_out(p3, m, 0x2004) == v
    }),
{
    lemma_reg_write_cases(p, m, 0x2003, i);
    let p1 = reg_write_spec(p, m, 0x2003, i);
    lemma_reg_write_cases(p1, m, 0x2004, v);
    let p2 = reg_write_spec(p1, m, 0x2004, v);
    lemma_reg_write_cases(p2, m, 0x2003, i);
}

/// Nametable fetch address for the current VRAM address.
pub open spec fn nt_addr(v: u16) -> u16 {
    0x2000 | (v & 0x0FFF)
}

/// Attribute table fetch address for the current VRAM address.
pub open spec fn at_addr(v: u16) -> u16 {
    0x23C0 | (v & 0x0C00) | ((v >> 4) & 0x38) | ((v >> 2) & 0x07)
}

/// Which 2-bit group of the attribute byte applies: selected by coarse X
/// bit 1 and coarse Y bit 1.
pub open spec fn at_shift(v: u16) -> u8 {
    (((v & 0x02) | ((v & 0x40) >> 4)) % 8) as u8
}

/// Pattern table fetch address for the latched background tile.
pub open spec fn bg_tile_addr(r: Registers, high: bool) -> int {
    r.background_pattern_table_address + r.nametable_byte * 16 + ((r.v >> 12) & 0x07)
        + if high { 8int } else { 0int }
}

/// The register file after one background-pipeline dot: on fetch dots
/// (cycles 1..257 and 321..337) the tile register shifts one nibble, and
/// `cycle mod 8` selects the phase: nametable fetch, attribute fetch, low
/// and high tile byte fetches, and at phase 0 the tile reload together with
/// the coarse X (or, at cycle 256, Y) increment.
#[verifier::opaque]
pub open spec fn pipeline_regs(p: PpuView, m: Mmc3View) -> Registers
    recommends p.wf_base(), m.wf(),
{
    if !((1 <= p.cycle && p.cycle <= 256) || (321 <= p.cycle && p.cycle <= 336)) {
        p.r
    } else {
        let r1 = Registers { tile: p.r.tile << 4, ..p.r };
        let ph = p.cycle % 8;
        if ph == 1 {
            Registers { nametable_byte: ppu_read(p, m, nt_addr(r1.v)), ..r1 }
        } else if ph == 3 {
            Registers {
                palette: ((ppu_read(p, m, at_addr(r1.v)) >> at_shift(r1.v)) % 4) as u8,
                ..r1
            }
        } else if ph == 5 {
            Registers { low_tile_byte: ppu_read(p, m, bg_tile_addr(r1, false) as u16), ..r1 }
        } else if ph == 7 {
            Registers { high_tile_byte: ppu_read(p, m, bg_tile_addr(r1, true) as u16), ..r1 }
        } else if ph == 0 {
            let r2 = load_tile_spec(r1);
            if p.cycle == 256 { inc_y_spec(r2) } else { inc_x_spec(r2) }
        } else {
            r1
        }
    }
}

/// A PPU read depends only on the memories and the mapper, not on the
/// register file.
pub proof fn lemma_ppu_read_regs_irrelevant(p1: PpuView, p2: PpuView, m: Mmc3View, addr: u16)
    requires p1.vram == p2.vram, p1.palette_ram == p2.palette_ram,
    ensures ppu_read(p1, m, addr) == ppu_read(p2, m, addr),
{
}

/// Spells out `pipeline_regs` phase by phase.
pub proof fn lemma_pipeline_cases(p: PpuView, m: Mmc3View)
    ensures ({
        let fetch_dot = (1 <= p.cycle && p.cycle <= 256) || (321 <= p.cycle && p.cycle <= 336);
        let r1 = Registers { tile: (p.r.tile << 4) as u64, ..p.r };
        let ph = p.cycle % 8;
        &&& !fetch_dot ==> pipeline_regs(p, m) == p.r
        &&& fetch_dot && ph == 1 ==> pipeline_regs(p, m)
            == (Registers { nametable_byte: ppu_read(p, m, nt_addr(p.r.v)), ..r1 })
        &&& fetch_dot && ph == 3 ==> pipeline_regs(p, m)
            == (Registers {
                palette: ((ppu_read(p, m, at_addr(p.r.v)) >> at_shift(p.r.v)) % 4) as u8,
                ..r1
            })
        &&& fetch_dot && ph == 5 ==> pipeline_regs(p, m)
            == (Registers { low_tile_byte: ppu_read(p, m, bg_tile_addr(r1, false) as u16), ..r1 })
        &&& fetch_dot && ph == 7 ==> pipeline_regs(p, m)
            == (Registers { high_tile_byte: ppu_read(p, m, bg_tile_addr(r1, true) as u16), ..r1 })
        &&& fetch_dot && ph == 0 && p.cycle == 256 ==> pipeline_regs(p, m)
            == inc_y_spec(load_tile_spec(r1))
        &&& fetch_dot && ph == 0 && p.cycle != 256 ==> pipeline_regs(p, m)
            == inc_x_spec(load_tile_spec(r1))
        &&& fetch_dot && (ph == 2 || ph == 4 || ph == 6) ==> pipeline_regs(p, m) == r1
    }),
{
    reveal(pipeline_regs);
}

impl Ppu {
    /// Latches the nametable byte under the current VRAM address.
    fn fetch_nametable_byte(&mut self, mapper: &MMC3)
        requires old(self)@.mem_wf(), mapper@.wf(),
        ensures
            final(self)@ == (PpuView {
                r: Registers {
                    nametable_byte: ppu_read(old(self)@, mapper@, nt_addr(old(self)@.r.v)),
                    ..old(self)@.r
                },
                ..old(self)@
            }),
    {
        proof {
            let v = self.r.v;
            assert(0x2000u16 | (v & 0x0FFF) < 0x3000) by (bit_vector);
        }
        let addr = 0x2000 | (self.r.v & 0x0FFF);
        self.r.nametable_byte = self.read_byte(mapper, addr);
        proof {
            assert(self@ =~= (PpuView {
                r: Registers {
                    nametable_byte: ppu_read(old(self)@, mapper@, nt_addr(old(self)@.r.v)),
                    ..old(self)@.r
                },
                ..old(self)@
            }));
        }
    }

    /// Latches the 2-bit attribute palette for the tile under the current
    /// VRAM address.
    fn fetch_attribute_table_byte(&mut self, mapper: &MMC3)
        requires old(self)@.mem_wf(), mapper@.wf(),
        ensures
            final(self)@ == (PpuView {
                r: Registers {
                    palette: ((ppu_read(old(self)@, mapper@, at_addr(old(self)@.r.v))
                        >> at_shift(old(self)@.r.v)) % 4) as u8,
                    ..old(self)@.r
                },
                ..old(self)@
            }),
            final(self)@.r.palette < 4,
    {
        proof {
            let v = self.r.v;
            assert(0x23C0u16 | (v & 0x0C00) | ((v >> 4) & 0x38) | ((v >> 2) & 0x07) < 0x3000)
                by (bit_vector);
            assert(((v & 0x02) | ((v & 0x40) >> 4)) < 8) by (bit_vector);
        }
        let addr = 0x23C0 | (self.r.v & 0x0C00) | ((self.r.v >> 4) & 0x38) | ((self.r.v >> 2) & 0x07);
        let attribute_table_byte = self.read_byte(mapper, addr);
        let offset = ((self.r.v & 0x02) | ((self.r.v & 0x40) >> 4)) as u8;
        self.r.palette = (attribute_table_byte >> offset) % 4;
        proof {
            assert(self@ =~= (PpuView {
                r: Registers {
                    palette: ((ppu_read(old(self)@, mapper@, at_addr(old(self)@.r.v))
                        >> at_shift(old(self)@.r.v)) % 4) as u8,
                    ..old(self)@.r
                },
                ..old(self)@
            }));
        }
    }

    /// Latches the low or high pattern byte of the background tile.
    fn fetch_tile_byte(&mut self, mapper: &MMC3, high: bool)
        requires old(self)@.mem_wf(), mapper@.wf(), old(self)@.r.wf(),
        ensures
            final(self)@ == (if high {
                PpuView {
                    r: Registers {
                        high_tile_byte: ppu_read(
                            old(self)@, mapper@, bg_tile_addr(old(self)@.r, true) as u16),
                        ..old(self)@.r
                    },
                    ..old(self)@
                }
            } else {
                PpuView {
                    r: Registers {
                        low_tile_byte: ppu_read(
                            old(self)@, mapper@, bg_tile_addr(old(self)@.r, false) as u16),
                        ..old(self)@.r
                    },
                    ..old(self)@
                }
            }),
    {
        proof {
            let v = self.r.v;
            assert((v >> 12) & 0x07 < 8) by (bit_vector);
        }
        let fine_y = (self.r.v >> 12) & 0x07;
        let tile_offset = (self.r.nametable_byte as u16) * 16;
        let addr = self.r.background_pattern_table_address + tile_offset + fine_y;
        if high {
            self.r.high_tile_byte = self.read_byte(mapper, addr + 8);
            proof {
                assert(self@ =~= (PpuView {
                    r: Registers {
                        high_tile_byte: ppu_read(
                            old(self)@, mapper@, bg_tile_addr(old(self)@.r, true) as u16),
                        ..old(self)@.r
                    },
                    ..old(self)@
                }));
            }
        } else {
            self.r.low_tile_byte = self.read_byte(mapper, addr);
            proof {
                assert(self@ =~= (PpuView {
                    r: Registers {
                        low_tile_byte: ppu_read(
                            old(self)@, mapper@, bg_tile_addr(old(self)@.r, false) as u16),
                        ..old(self)@.r
                    },
                    ..old(self)@
                }));
            }
        }
    }

    /// One dot of the background fetch pipeline.
    #[verifier::rlimit(100)]
    fn pipeline_tick(&mut self, mapper: &MMC3)
        requires old(self)@.wf_base(), mapper@.wf(),
        ensures
            final(self)@ == (PpuView { r: pipeline_regs(old(self)@, mapper@), ..old(self)@ }),
            final(self)@.wf_base(),
            final(self)@.cycle == old(self)@.cycle,
            final(self)@.scanline == old(self)@.scanline,
            final(self)@.buffer_index == old(self)@.buffer_index,
    {
        proof { lemma_pipeline_cases(old(self)@, mapper@); }
        if !((1 <= self.cycle && self.cycle <= 256) || (321 <= self.cycle && self.cycle <= 336)) {
            proof {
                assert(self@ =~= (PpuView { r: pipeline_regs(old(self)@, mapper@), ..old(self)@ }));
            }
            return;
        }
        let phase = self.cycle % 8;
        if phase == 0 {
            self.pipeline_reload(mapper);
            return;
        }
        self.r.tile = self.r.tile << 4;
        let ghost mid = self@;
        if phase == 1 {
            self.fetch_nametable_byte(mapper);
            proof {
                lemma_ppu_read_regs_irrelevant(mid, old(self)@, mapper@, nt_addr(mid.r.v));
                assert(self@.r == pipeline_regs(old(self)@, mapper@));
                assert(self@ =~= (PpuView { r: pipeline_regs(old(self)@, mapper@), ..old(self)@ }));
            }
            return;
        }
        if phase == 3 {
            self.fetch_attribute_table_byte(mapper);
            proof {
                lemma_ppu_read_regs_irrelevant(mid, old(self)@, mapper@, at_addr(mid.r.v));
                assert(self@.r == pipeline_regs(old(self)@, mapper@));
                assert(self@ =~= (PpuView { r: pipeline_regs(old(self)@, mapper@), ..old(self)@ }));
            }
            return;
        }
        if phase == 5 {
            self.fetch_tile_byte(mapper, false);
            proof {
                lemma_ppu_read_regs_irrelevant(
                    mid, old(self)@, mapper@, bg_tile_addr(mid.r, false) as u16);
                assert(self@.r == pipeline_regs(old(self)@, mapper@));
                assert(self@ =~= (PpuView { r: pipeline_regs(old(self)@, mapper@), ..old(self)@ }));
            }
            return;
        }
        if phase == 7 {
            self.fetch_tile_byte(mapper, true);
            proof {
                lemma_ppu_read_regs_irrelevant(
                    mid, old(self)@, mapper@, bg_tile_addr(mid.r, true) as u16);
                assert(self@.r == pipeline_regs(old(self)@, mapper@));
                assert(self@ =~= (PpuView { r: pipeline_regs(old(self)@, mapper@), ..old(self)@ }));
            }
            return;
        }
        proof {
            assert(self@.r == pipeline_regs(old(self)@, mapper@));
            assert(self@ =~= (PpuView { r: pipeline_regs(old(self)@, mapper@), ..old(self)@ }));
        }
    }

    /// The phase-0 pipeline work: the nibble shift, the tile reload, and
    /// the scroll increment.
    #[verifier::rlimit(100)]
    fn pipeline_reload(&mut self, mapper: &MMC3)
        requires
            old(self)@.wf_base(),
            mapper@.wf(),
            (1 <= old(self)@.cycle && old(self)@.cycle <= 256)
                || (321 <= old(self)@.cycle && old(self)@.cycle <= 336),
            old(self)@.cycle % 8 == 0,
        ensures
            final(self)@ == (PpuView { r: pipeline_regs(old(self)@, mapper@), ..old(self)@ }),
            final(self)@.wf_base(),
            final(self)@.cycle == old(self)@.cycle,
            final(self)@.scanline == old(self)@.scanline,
            final(self)@.buffer_index == old(self)@.buffer_index,
    {
        proof { lemma_pipeline_cases(old(self)@, mapper@); }
        self.r.tile = self.r.tile << 4;
        self.r.load_tile();
        if self.cycle == 256 {
            self.r.increment_scroll_y();
        } else {
            self.r.increment_scroll_x();
        }
        proof {
            assert(self@.r == pipeline_regs(old(self)@, mapper@));
            assert(self@ =~= (PpuView { r: pipeline_regs(old(self)@, mapper@), ..old(self)@ }));
        }
    }

    /// The next pre-decoded background pixel: 0 when the background (or its
    /// left column) is masked off, else the 4-bit palette|colour nibble that
    /// fine X selects from the upper half of the tile shift register.
    pub fn compute_background_pixel(&self) -> (px: u16)
        requires
            self@.r.wf(),
            1 <= self@.cycle <= 256,
        ensures px == bg_pixel_spec(self@),
    {
        let x = ((self.cycle - 1) % 0x100) as u8;
        if (x < 8 && !self.r.show_left_background) || !self.r.show_background {
            return 0;
        }
        ((((self.r.tile >> 32) >> (((7 - self.r.x) as u64) * 4)) % 16) as u16)
    }
}

/// The background pixel at the current dot.
pub open spec fn bg_pixel_spec(p: PpuView) -> u16
    recommends p.r.wf(), 1 <= p.cycle <= 256,
{
    let x = ((p.cycle - 1) % 0x100) as u8;
    if (x < 8 && !p.r.show_left_background) || !p.r.show_background {
        0
    } else {
        ((((p.r.tile >> 32) >> (((7 - p.r.x) as u64) * 4)) % 16) as u16)
    }
}

/// Whether primary OAM sprite `i` is on scanline `scanline + 1`: the
/// sprite's vertical span `[y+1, y+height]` contains the next scanline and
/// the sprite is not pushed off-screen.
pub open spec fn sprite_qualifies(oam: Seq<u8>, i: int, scanline: u16, h: u8) -> bool
    recommends oam.len() == 0x100, 0 <= i < 64,
{
    let y: int = oam[4 * i] + 1;
    y <= scanline + 1 <= y + h - 1 && y < 241
}

/// How many of the first `n` primary sprites qualify.
pub open spec fn qual_count(oam: Seq<u8>, scanline: u16, h: u8, n: int) -> int
    decreases n,
{
    if n <= 0 {
        0
    } else {
        qual_count(oam, scanline, h, n - 1)
            + if sprite_qualifies(oam, n - 1, scanline, h) { 1int } else { 0int }
    }
}

/// The concatenated 4-byte records of qualifying sprites among the first
/// `n`, truncated at the eight-sprite (32-byte) secondary OAM capacity.
pub open spec fn copied_oam(oam: Seq<u8>, scanline: u16, h: u8, n: int) -> Seq<u8>
    decreases n,
{
    if n <= 0 {
        Seq::empty()
    } else {
        let prev = copied_oam(oam, scanline, h, n - 1);
        if sprite_qualifies(oam, n - 1, scanline, h) && prev.len() < 32 {
            prev + oam.subrange(4 * (n - 1), 4 * (n - 1) + 4)
        } else {
            prev
        }
    }
}

/// The copied prefix holds four bytes per qualifying sprite up to eight
/// sprites, then stops growing.
pub proof fn lemma_copied_len(oam: Seq<u8>, scanline: u16, h: u8, n: int)
    requires oam.len() == 0x100, 0 <= n <= 64,
    ensures
        copied_oam(oam, scanline, h, n).len()
            == (if qual_count(oam, scanline, h, n) < 8 {
                4 * qual_count(oam, scanline, h, n)
            } else {
                32int
            }),
        qual_count(oam, scanline, h, n) >= 0,
    decreases n,
{
    if n > 0 {
        lemma_copied_len(oam, scanline, h, n - 1);
    }
}

/// Sprite counting is monotone in the scanned prefix.
pub proof fn lemma_qual_count_mono(oam: Seq<u8>, scanline: u16, h: u8, a: int, b: int)
    requires 0 <= a <= b,
    ensures qual_count(oam, scanline, h, a) <= qual_count(oam, scanline, h, b),
    decreases b,
{
    if b > a {
        lemma_qual_count_mono(oam, scanline, h, a, b - 1);
    }
}

/// Effect of the batched cycle-257 sprite evaluation: secondary OAM holds
/// the records of the first eight qualifying sprites (0xFF beyond them),
/// the written slots are tagged with whether they came from sprite 0, and
/// the overflow flag is raised when a ninth sprite qualifies while
/// rendering is enabled.
#[verifier::opaque]
pub open spec fn eval_spec(p: PpuView) -> PpuView
    recommends p.wf_base(),
{
    let cs = copied_oam(p.primary_oam, p.scanline, p.r.sprite_height, 64);
    PpuView {
        secondary_oam: Seq::new(32, |j: int| if j < cs.len() { cs[j] } else { 0xFFu8 }),
        is_sprite_0: Seq::new(8, |k: int| if 4 * k < cs.len() {
            k == 0 && sprite_qualifies(p.primary_oam, 0, p.scanline, p.r.sprite_height)
        } else {
            p.is_sprite_0[k]
        }),
        r: Registers {
            sprite_overflow: p.r.sprite_overflow
                || ((p.r.show_sprites || p.r.show_background)
                    && qual_count(p.primary_oam, p.scanline, p.r.sprite_height, 64) > 8),
            ..p.r
        },
        ..p
    }
}

impl Ppu {
    /// Batched per-scanline sprite evaluation, run at cycle 257.
    #[verifier::rlimit(100)]
    fn evaluate_sprites(&mut self)
        requires old(self)@.wf_base(),
        ensures
            final(self)@ == eval_spec(old(self)@),
            final(self)@.wf_base(),
            final(self)@.cycle == old(self)@.cycle,
            final(self)@.scanline == old(self)@.scanline,
            final(self)@.buffer_index == old(self)@.buffer_index,
    {
        let ghost oam = old(self)@.primary_oam;
        let ghost sl = old(self)@.scanline;
        let ghost h = old(self)@.r.sprite_height;

        let mut j: usize = 0;
        while j < 0x20
            invariant
                j <= 0x20,
                self@.secondary_oam.len() == 0x20,
                forall|q: int| 0 <= q < j ==> self@.secondary_oam[q] == 0xFFu8,
                self@ == (PpuView { secondary_oam: self@.secondary_oam, ..old(self)@ }),
            decreases 0x20 - j,
        {
            self.secondary_oam.set(j, 0xFF);
            j += 1;
        }

        let mut soi: usize = 0;
        let mut i: usize = 0;
        while i < 64
            invariant
                i <= 64,
                old(self)@.wf_base(),
                oam == old(self)@.primary_oam,
                sl == old(self)@.scanline,
                h == old(self)@.r.sprite_height,
                self@.secondary_oam.len() == 0x20,
                self@.is_sprite_0.len() == 8,
                soi == copied_oam(oam, sl, h, i as int).len(),
                soi <= 32,
                soi % 4 == 0,
                self@.secondary_oam
                    == Seq::new(32, |q: int| if q < soi {
                        copied_oam(oam, sl, h, i as int)[q]
                    } else {
                        0xFFu8
                    }),
                self@.is_sprite_0
                    == Seq::new(8, |k: int| if 4 * k < soi {
                        k == 0 && sprite_qualifies(oam, 0, sl, h)
                    } else {
                        old(self)@.is_sprite_0[k]
                    }),
                self@.r == (Registers {
                    sprite_overflow: old(self)@.r.sprite_overflow
                        || ((old(self)@.r.show_sprites || old(self)@.r.show_background)
                            && qual_count(oam, sl, h, i as int) > 8),
                    ..old(self)@.r
                }),
                self@ == (PpuView {
                    secondary_oam: self@.secondary_oam,
                    is_sprite_0: self@.is_sprite_0,
                    r: self@.r,
                    ..old(self)@
                }),
            decreases 64 - i,
        {
            proof { lemma_copied_len(oam, sl, h, i as int); }
            let y: u16 = self.primary_oam[i * 4] as u16 + 1;
            let hi: u16 = y + self.r.sprite_height as u16 - 1;
            let curr: u16 = self.scanline + 1;
            let qualifies = y <= curr && curr <= hi && y < 241;
            proof {
                assert(qualifies == sprite_qualifies(oam, i as int, sl, h));
            }
            if qualifies {
                if soi < 0x20 {
                    self.secondary_oam.set(soi, self.primary_oam[i * 4]);
                    self.secondary_oam.set(soi + 1, self.primary_oam[i * 4 + 1]);
                    self.secondary_oam.set(soi + 2, self.primary_oam[i * 4 + 2]);
                    self.secondary_oam.set(soi + 3, self.primary_oam[i * 4 + 3]);
                    self.is_sprite_0.set(soi / 4, i == 0);
                    soi += 4;
                    proof {
                        if i > 0 && sprite_qualifies(oam, 0, sl, h) {
                            assert(qual_count(oam, sl, h, 0) == 0);
                            assert(qual_count(oam, sl, h, 1) == 1);
                            lemma_qual_count_mono(oam, sl, h, 1, i as int);
                            lemma_copied_len(oam, sl, h, i as int);
                        }
                        assert(copied_oam(oam, sl, h, i as int + 1)
                            == copied_oam(oam, sl, h, i as int)
                                + oam.subrange(4 * (i as int), 4 * (i as int) + 4));
                        assert(self@.secondary_oam
                            =~= Seq::new(32, |q: int| if q < soi {
                                copied_oam(oam, sl, h, i as int + 1)[q]
                            } else {
                                0xFFu8
                            }));
                        assert(self@.is_sprite_0
                            =~= Seq::new(8, |k: int| if 4 * k < soi {
                                k == 0 && sprite_qualifies(oam, 0, sl, h)
                            } else {
                                old(self)@.is_sprite_0[k]
                            }));
                    }
                } else if self.r.show_sprites || self.r.show_background {
                    self.r.sprite_overflow = true;
                    proof { lemma_copied_len(oam, sl, h, i as int + 1); }
                }
            }
            i += 1;
            proof {
                lemma_copied_len(oam, sl, h, i as int);
            }
        }
        proof {
            reveal(eval_spec);
            lemma_copied_len(oam, sl, h, 64);
            assert(self@.secondary_oam =~= eval_spec(old(self)@).secondary_oam);
            assert(self@.is_sprite_0 =~= eval_spec(old(self)@).is_sprite_0);
            assert(self@ =~= eval_spec(old(self)@));
        }
    }
}

/// The first opaque sprite pixel among secondary OAM slots `i..8` at the
/// current dot: scanning stops at the first post-clear (all-0xFF) slot, and
/// a slot contributes when the dot lies in its horizontal span, its
/// vertical position is on-screen, the current scanline lies in its
/// vertical span, and its pattern is opaque there. Returns the sprite
/// palette|colour value, the behind-background priority bit, and whether
/// the pixel came from primary sprite 0.
pub open spec fn sprite_pixel_from(p: PpuView, m: Mmc3View, i: nat) -> (u16, bool, bool)
    recommends p.wf_base(), m.wf(), p.scanline <= 239, 1 <= p.cycle <= 256,
    decreases 8 - i,
{
    if i >= 8 {
        (0u16, false, false)
    } else {
        let y: int = p.scanline as int;
        let x: int = p.cycle - 1;
        let sy0 = p.secondary_oam[4 * i as int];
        let ti0 = p.secondary_oam[4 * i as int + 1];
        let at = p.secondary_oam[4 * i as int + 2];
        let sx = p.secondary_oam[4 * i as int + 3];
        if sy0 == 0xFF && ti0 == 0xFF && at == 0xFF && sx == 0xFF {
            (0u16, false, false)
        } else {
            let sy: int = sy0 + 1;
            if !(sx <= x && x <= sx + 7) {
                sprite_pixel_from(p, m, (i + 1) as nat)
            } else if !(1 <= sy && sy <= 239) {
                sprite_pixel_from(p, m, (i + 1) as nat)
            } else if !(sy <= y && y - sy < p.r.sprite_height) {
                sprite_pixel_from(p, m, (i + 1) as nat)
            } else {
                let py0: int = y - sy;
                let px0: int = 7 - (x - sx);
                let px: int = if at & 0x40 != 0 { p.r.sprite_width - 1 - px0 } else { px0 };
                let py1: int = if at & 0x80 != 0 { p.r.sprite_height - 1 - py0 } else { py0 };
                let tall = p.r.sprite_height == 16;
                let base: int = if tall { (ti0 % 2) * 0x1000 } else {
                    p.r.sprite_pattern_table_address as int
                };
                let ti1: int = if tall { ti0 - ti0 % 2 } else { ti0 as int };
                let ti2: int = if tall && py1 >= 8 { ti1 + 1 } else { ti1 };
                let py2: int = if tall && py1 >= 8 { py1 - 8 } else { py1 };
                let addr: int = base + ti2 * 16 + py2;
                let lo = (ppu_read(p, m, addr as u16) >> (px as u8)) % 2;
                let hi = (ppu_read(p, m, (addr + 8) as u16) >> (px as u8)) % 2;
                let color: int = lo + 2 * hi;
                if color == 0 {
                    sprite_pixel_from(p, m, (i + 1) as nat)
                } else {
                    ((((at % 4) * 4 + color)) as u16, at & 0x20 != 0, p.is_sprite_0[i as int])
                }
            }
        }
    }
}

/// The sprite pixel at the current dot: 0 when sprites (or their left
/// column) are masked off, else the first opaque sprite pixel.
pub open spec fn sprite_pixel_spec(p: PpuView, m: Mmc3View) -> (u16, bool, bool)
    recommends p.wf_base(), m.wf(), p.scanline <= 239, 1 <= p.cycle <= 256,
{
    let x: int = p.cycle - 1;
    if (x < 8 && !p.r.show_left_sprites) || !p.r.show_sprites {
        (0u16, false, false)
    } else {
        sprite_pixel_from(p, m, 0)
    }
}

impl Ppu {
    /// Scans secondary OAM slots `i..8` for the first opaque sprite pixel.
    #[verifier::rlimit(100)]
    fn sprite_pixel_slot(&self, mapper: &MMC3, i: usize) -> (out: (u16, bool, bool))
        requires
            self@.wf_base(),
            mapper@.wf(),
            self@.scanline <= 239,
            1 <= self@.cycle <= 256,
            i <= 8,
        ensures out == sprite_pixel_from(self@, mapper@, i as nat),
        decreases 8 - i,
    {
        if i >= 8 {
            return (0, false, false);
        }
        let y: u16 = self.scanline;
        let x: u16 = self.cycle - 1;
        let sy0 = self.secondary_oam[4 * i];
        let ti0 = self.secondary_oam[4 * i + 1];
        let at = self.secondary_oam[4 * i + 2];
        let sx = self.secondary_oam[4 * i + 3];
        if sy0 == 0xFF && ti0 == 0xFF && at == 0xFF && sx == 0xFF {
            return (0, false, false);
        }
        let sy: u16 = sy0 as u16 + 1;
        if !(sx as u16 <= x && x <= sx as u16 + 7) {
            return self.sprite_pixel_slot(mapper, i + 1);
        }
        if !(1 <= sy && sy <= 239) {
            return self.sprite_pixel_slot(mapper, i + 1);
        }
        if !(sy <= y && y - sy < self.r.sprite_height as u16) {
            return self.sprite_pixel_slot(mapper, i + 1);
        }
        let py0: u16 = y - sy;
        let px0: u16 = 7 - (x - sx as u16);
        let px: u16 = if at & 0x40 != 0 { self.r.sprite_width as u16 - 1 - px0 } else { px0 };
        let py1: u16 = if at & 0x80 != 0 { self.r.sprite_height as u16 - 1 - py0 } else { py0 };
        let tall = self.r.sprite_height == 16;
        let base: u16 = if tall { (ti0 as u16 % 2) * 0x1000 } else {
            self.r.sprite_pattern_table_address
        };
        let ti1: u16 = if tall { ti0 as u16 - ti0 as u16 % 2 } else { ti0 as u16 };
        let ti2: u16 = if tall && py1 >= 8 { ti1 + 1 } else { ti1 };
        let py2: u16 = if tall && py1 >= 8 { py1 - 8 } else { py1 };
        let addr: u16 = base + ti2 * 16 + py2;
        let lo = (self.read_byte(mapper, addr) >> (px as u8)) % 2;
        let hi = (self.read_byte(mapper, addr + 8) >> (px as u8)) % 2;
        let color: u16 = lo as u16 + 2 * (hi as u16);
        if color == 0 {
            return self.sprite_pixel_slot(mapper, i + 1);
        }
        ((at as u16 % 4) * 4 + color, at & 0x20 != 0, self.is_sprite_0[i])
    }

    /// The sprite pixel at the current dot, with its priority bit and its
    /// sprite-0 provenance.
    pub fn compute_sprite_pixel(&self, mapper: &MMC3) -> (out: (u16, bool, bool))
        requires
            self@.wf_base(),
            mapper@.wf(),
            self@.scanline <= 239,
            1 <= self@.cycle <= 256,
        ensures out == sprite_pixel_spec(self@, mapper@),
    {
        let x = ((self.cycle - 1) % 0x100) as u8;
        if (x < 8 && !self.r.show_left_sprites) || !self.r.show_sprites {
            return (0, false, false);
        }
        self.sprite_pixel_slot(mapper, 0)
    }
}

/// Every sprite pixel value carries a 2-bit palette over a 2-bit colour,
/// so it fits in 4 bits.
pub proof fn lemma_sprite_pixel_bound(p: PpuView, m: Mmc3View, i: nat)
    requires i <= 8,
    ensures 0 <= sprite_pixel_from(p, m, i).0 <= 15,
    decreases 8 - i,
{
    if i < 8 {
        lemma_sprite_pixel_bound(p, m, (i + 1) as nat);
    }
}

/// The palette address the composed pixel selects: both layers transparent
/// gives the universal background, one opaque layer gives its own palette
/// entry, and two opaque layers resolve by the sprite's priority bit.
pub open spec fn compose_addr(p: PpuView, m: Mmc3View) -> u16
    recommends p.wf_base(), m.wf(), p.scanline <= 239, 1 <= p.cycle <= 256,
{
    let bg = bg_pixel_spec(p);
    let s = sprite_pixel_spec(p, m);
    let bg_on = bg % 4 != 0;
    let sp_on = s.0 % 4 != 0;
    if !bg_on && !sp_on {
        0x3F00u16
    } else if !bg_on {
        (0x3F10 + s.0) as u16
    } else if !sp_on {
        (0x3F00 + bg) as u16
    } else if !s.1 {
        (0x3F10 + s.0) as u16
    } else {
        (0x3F00 + bg) as u16
    }
}

/// Whether this dot records a sprite-0 hit: an opaque sprite-0 pixel over
/// an opaque background pixel before cycle 256.
pub open spec fn sprite0_hit_now(p: PpuView, m: Mmc3View) -> bool
    recommends p.wf_base(), m.wf(), p.scanline <= 239, 1 <= p.cycle <= 256,
{
    let bg = bg_pixel_spec(p);
    let s = sprite_pixel_spec(p, m);
    bg % 4 != 0 && s.0 % 4 != 0 && p.cycle < 256 && s.2
}

/// Effect of emitting one pixel: the composed palette byte is masked to the
/// 64-entry colour table, four RGBA bytes land at the buffer cursor, the
/// cursor advances, and a sprite-0 hit may be recorded.
#[verifier::opaque]
pub open spec fn draw_spec(p: PpuView, m: Mmc3View) -> PpuView
    recommends
        p.wf_base(), m.wf(), p.scanline <= 239, 1 <= p.cycle <= 256,
        p.buffer_index + 4 <= p.buffer.len(),
{
    let c = color_spec((ppu_read(p, m, compose_addr(p, m)) % 64) as int);
    PpuView {
        r: Registers { sprite_0_hit: p.r.sprite_0_hit || sprite0_hit_now(p, m), ..p.r },
        buffer: p.buffer
            .update(p.buffer_index as int, ((c >> 16) & 0xFF) as u8)
            .update(p.buffer_index + 1, ((c >> 8) & 0xFF) as u8)
            .update(p.buffer_index + 2, (c & 0xFF) as u8)
            .update(p.buffer_index + 3, 0xFFu8),
        buffer_index: (p.buffer_index + 4) as usize,
        ..p
    }
}

impl Ppu {
    /// Emits the pixel for the current visible dot into the frame buffer.
    #[verifier::rlimit(100)]
    pub fn draw_pixel(&mut self, mapper: &MMC3)
        requires
            old(self)@.wf_base(),
            mapper@.wf(),
            old(self)@.scanline <= 239,
            1 <= old(self)@.cycle <= 256,
            old(self)@.buffer_index + 4 <= FRAME_BUFFER_BYTES,
        ensures
            final(self)@ == draw_spec(old(self)@, mapper@),
            final(self)@.wf_base(),
            final(self)@.cycle == old(self)@.cycle,
            final(self)@.scanline == old(self)@.scanline,
            final(self)@.buffer_index == old(self)@.buffer_index + 4,
    {
        let background_pixel = self.compute_background_pixel();
        let (sprite_pixel, sprite_priority, from_sprite_0) = self.compute_sprite_pixel(mapper);
        proof { lemma_sprite_pixel_bound(old(self)@, mapper@, 0); }

        let background_on = background_pixel % 4 != 0;
        let sprite_on = sprite_pixel % 4 != 0;

        if background_on && sprite_on && self.cycle < 256 && from_sprite_0 {
            self.r.sprite_0_hit = true;
        }

        let addr: u16 = if !background_on && !sprite_on {
            0x3F00
        } else if !background_on {
            0x3F10 + sprite_pixel
        } else if !sprite_on {
            0x3F00 + background_pixel
        } else if !sprite_priority {
            0x3F10 + sprite_pixel
        } else {
            0x3F00 + background_pixel
        };

        let palette_byte = self.read_byte(mapper, addr);
        let color = color_at(palette_byte % 64);
        self.buffer.set(self.buffer_index, ((color >> 16) & 0xFF) as u8);
        self.buffer.set(self.buffer_index + 1, ((color >> 8) & 0xFF) as u8);
        self.buffer.set(self.buffer_index + 2, (color & 0xFF) as u8);
        self.buffer.set(self.buffer_index + 3, 0xFF);
        self.buffer_index = self.buffer_index + 4;
        proof {
            reveal(draw_spec);
            assert(self@ =~= draw_spec(old(self)@, mapper@));
        }
    }
}

/// Timing advance: the cycle counter steps through its 341-dot scanline,
/// the scanline through its 262-line frame, and a completed frame bumps the
/// frame counter and rewinds the buffer cursor.
pub open spec fn adv_spec(p: PpuView) -> PpuView {
    if p.cycle == 340 {
        if p.scanline == 261 {
            PpuView {
                cycle: 0,
                scanline: 0,
                frame: if p.frame == u64::MAX { 0u64 } else { (p.frame + 1) as u64 },
                buffer_index: 0,
                ..p
            }
        } else {
            PpuView { cycle: 0, scanline: (p.scanline + 1) as u16, ..p }
        }
    } else {
        PpuView { cycle: (p.cycle + 1) as u16, ..p }
    }
}

/// The scroll copies around the fetch pipeline: on the pre-render line,
/// cycles 280..305 copy the Y bits of `t` into `v`; cycle 257 copies the X
/// bits.
pub open spec fn scrolls_regs(p: PpuView) -> Registers {
    let r1 = if p.scanline == 261 && 280 <= p.cycle && p.cycle <= 304 {
        copy_y_spec(p.r)
    } else {
        p.r
    };
    if p.cycle == 257 { copy_x_spec(r1) } else { r1 }
}

/// One dot's work on a rendering line (visible or pre-render): pixel
/// emission on visible dots, the scroll copies, the background fetch
/// pipeline, and at cycle 257 the sprite evaluation.
#[verifier::opaque]
pub open spec fn render_spec(p: PpuView, m: Mmc3View) -> PpuView
    recommends p.wf_base(), m.wf(), p.scanline <= 239 || p.scanline == 261,
{
    let pa = if p.scanline <= 239 && 1 <= p.cycle && p.cycle <= 256 { draw_spec(p, m) } else { p };
    let pb = PpuView { r: scrolls_regs(pa), ..pa };
    let pc = PpuView { r: pipeline_regs(pb, m), ..pb };
    if pc.cycle == 257 { eval_spec(pc) } else { pc }
}

/// The status-flag boundary work: VBlank starts at (241, 1); the pre-render
/// dot (261, 1) clears VBlank, sprite-0 hit, and sprite overflow.
pub open spec fn vblank_regs(p: PpuView) -> Registers {
    if p.scanline == 241 && p.cycle == 1 {
        Registers { v_blank_started: true, ..p.r }
    } else if p.scanline == 261 && p.cycle == 1 {
        Registers {
            v_blank_started: false,
            sprite_0_hit: false,
            sprite_overflow: false,
            ..p.r
        }
    } else {
        p.r
    }
}

/// One whole dot: timing advance, the rendering-line work, and the status
/// boundaries.
#[verifier::opaque]
pub open spec fn ppu_step_spec(p: PpuView, m: Mmc3View) -> PpuView
    recommends p.wf(), m.wf(),
{
    let p1 = adv_spec(p);
    let p2 = if p1.scanline <= 239 || p1.scanline == 261 { render_spec(p1, m) } else { p1 };
    PpuView { r: vblank_regs(p2), ..p2 }
}

/// Whether a step raises the NMI: it lands on dot (241, 1) with NMI
/// delivery enabled.
pub open spec fn step_nmi_spec(p: PpuView) -> bool {
    let p1 = adv_spec(p);
    p1.scanline == 241 && p1.cycle == 1 && p.r.nmi_enabled
}

/// The timing advance keeps the buffer cursor exactly one pixel short on
/// dots that emit one, and exactly right on all others.
pub proof fn lemma_adv_wf(p: PpuView)
    requires p.wf(),
    ensures ({
        let p1 = adv_spec(p);
        &&& p1.wf_base()
        &&& (p1.scanline <= 239 && 1 <= p1.cycle && p1.cycle <= 256)
            ==> p1.buffer_index + 4 <= FRAME_BUFFER_BYTES
                && p1.buffer_index + 4 == 4 * pixel_count(p1.scanline, p1.cycle)
        &&& !(p1.scanline <= 239 && 1 <= p1.cycle && p1.cycle <= 256)
            ==> p1.buffer_index == 4 * pixel_count(p1.scanline, p1.cycle)
    }),
{
}

impl Ppu {
    /// One dot's work on a rendering line.
    #[verifier::rlimit(100)]
    fn render_tick(&mut self, mapper: &MMC3)
        requires
            old(self)@.wf_base(),
            mapper@.wf(),
            old(self)@.scanline <= 239 || old(self)@.scanline == 261,
            (old(self)@.scanline <= 239 && 1 <= old(self)@.cycle && old(self)@.cycle <= 256)
                ==> old(self)@.buffer_index + 4 <= FRAME_BUFFER_BYTES,
        ensures
            final(self)@ == render_spec(old(self)@, mapper@),
            final(self)@.wf_base(),
            final(self)@.cycle == old(self)@.cycle,
            final(self)@.scanline == old(self)@.scanline,
            final(self)@.buffer_index == (
                if old(self)@.scanline <= 239 && 1 <= old(self)@.cycle
                    && old(self)@.cycle <= 256 {
                    (old(self)@.buffer_index + 4) as usize
                } else {
                    old(self)@.buffer_index
                }),
    {
        if self.scanline <= 239 && 1 <= self.cycle && self.cycle <= 256 {
            self.draw_pixel(mapper);
        }
        let ghost pa = self@;

        if self.scanline == 261 && 280 <= self.cycle && self.cycle <= 304 {
            self.r.copy_scroll_y();
        }
        if self.cycle == 257 {
            self.r.copy_scroll_x();
        }
        proof { assert(self@ =~= (PpuView { r: scrolls_regs(pa), ..pa })); }

        self.pipeline_tick(mapper);

        if self.cycle == 257 {
            self.evaluate_sprites();
        }
        proof {
            reveal(render_spec);
            assert(self@ =~= render_spec(old(self)@, mapper@));
        }
    }

    /// Advances the PPU by one dot. Returns whether this dot raises the
    /// NMI on the CPU (the start of VBlank with NMI delivery enabled).
    #[verifier::rlimit(100)]
    pub fn step(&mut self, mapper: &MMC3) -> (nmi: bool)
        requires old(self)@.wf(), mapper@.wf(),
        ensures
            final(self)@ == ppu_step_spec(old(self)@, mapper@),
            nmi == step_nmi_spec(old(self)@),
            final(self)@.wf(),
    {
        proof { lemma_adv_wf(old(self)@); }
        if self.cycle == 340 {
            self.cycle = 0;
            if self.scanline == 261 {
                self.scanline = 0;
                self.frame = self.frame.wrapping_add(1);
                self.buffer_index = 0;
            } else {
                self.scanline = self.scanline + 1;
            }
        } else {
            self.cycle = self.cycle + 1;
        }
        proof { assert(self@ =~= adv_spec(old(self)@)); }

        let nmi = self.scanline == 241 && self.cycle == 1 && self.r.nmi_enabled;

        if self.scanline <= 239 || self.scanline == 261 {
            self.render_tick(mapper);
        }
        let ghost p2 = self@;

        if self.scanline == 241 && self.cycle == 1 {
            self.r.v_blank_started = true;
        }
        if self.scanline == 261 && self.cycle == 1 {
            self.r.v_blank_started = false;
            self.r.sprite_0_hit = false;
            self.r.sprite_overflow = false;
        }
        proof {
            reveal(ppu_step_spec);
            assert(self@ =~= (PpuView { r: vblank_regs(p2), ..p2 }));
            assert(self@ == ppu_step_spec(old(self)@, mapper@));
        }
        nmi
    }
}

/// Frame-timetable invariants: the dot counter stays on the 341 by 262
/// grid, and the buffer cursor never passes the frame buffer and rewinds
/// to zero at each frame transition.
pub proof fn lemma_frame_invariants(p: PpuView)
    requires p.wf(),
    ensures
        p.cycle <= 340,
        p.scanline <= 261,
        p.buffer_index <= FRAME_BUFFER_BYTES,
        (p.cycle == 0 && p.scanline == 0) ==> p.buffer_index == 0,
{
}

/// The VBlank flag is set exactly on arrival at dot (241, 1), cleared
/// (together with the sprite flags) on arrival at (261, 1), and untouched
/// by every other dot.
#[verifier::rlimit(100)]
pub proof fn lemma_vblank_boundary(p: PpuView, m: Mmc3View)
    requires p.wf(), m.wf(),
    ensures ({
        let p1 = adv_spec(p);
        let q = ppu_step_spec(p, m);
        &&& (p1.scanline == 241 && p1.cycle == 1) ==> q.r.v_blank_started
        &&& (p1.scanline == 261 && p1.cycle == 1)
            ==> !q.r.v_blank_started && !q.r.sprite_0_hit && !q.r.sprite_overflow
        &&& !(p1.cycle == 1 && (p1.scanline == 241 || p1.scanline == 261))
            ==> q.r.v_blank_started == p.r.v_blank_started
    }),
{
    reveal(ppu_step_spec);
    reveal(render_spec);
    reveal(draw_spec);
    reveal(pipeline_regs);
    reveal(eval_spec);
}

/// On the evaluation dot, the overflow flag ends up set exactly when it
/// already was, or a ninth sprite qualifies for the next scanline while
/// rendering is enabled.
#[verifier::rlimit(100)]
pub proof fn lemma_sprite_overflow_boundary(p: PpuView, m: Mmc3View)
    requires
        p.wf(), m.wf(),
        ({
            let p1 = adv_spec(p);
            (p1.scanline <= 239 || p1.scanline == 261) && p1.cycle == 257
        }),
    ensures ({
        let p1 = adv_spec(p);
        let q = ppu_step_spec(p, m);
        q.r.sprite_overflow == (p.r.sprite_overflow
            || ((p.r.show_sprites || p.r.show_background)
                && qual_count(p.primary_oam, p1.scanline, p.r.sprite_height, 64) > 8))
    }),
{
    reveal(ppu_step_spec);
    reveal(render_spec);
    reveal(pipeline_regs);
    reveal(eval_spec);
}

/// On a visible dot, the sprite-0 hit flag ends up set exactly when it
/// already was, or an opaque sprite-0 pixel overlaps an opaque background
/// pixel before cycle 256 on this very dot.
#[verifier::rlimit(100)]
pub proof fn lemma_sprite_zero_hit_boundary(p: PpuView, m: Mmc3View)
    requires
        p.wf(), m.wf(),
        ({
            let p1 = adv_spec(p);
            p1.scanline <= 239 && 1 <= p1.cycle && p1.cycle <= 256
        }),
    ensures ({
        let p1 = adv_spec(p);
        let q = ppu_step_spec(p, m);
        q.r.sprite_0_hit == (p.r.sprite_0_hit || sprite0_hit_now(p1, m))
    }),
{
    reveal(ppu_step_spec);
    reveal(render_spec);
    reveal(draw_spec);
    reveal(pipeline_regs);
    reveal(eval_spec);
}

} // verus!
