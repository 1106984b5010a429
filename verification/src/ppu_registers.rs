//! The PPU's register file: the CPU-visible control/mask/status registers,
//! the internal scroll state (`v`, `t`, fine `x`, write toggle `w`), the
//! buffered PPUDATA read state, and the background fetch pipeline latches.

use vstd::prelude::*;

verus! {

/// PPU register state. All fields are plain values, so contracts speak of
/// this struct directly.
#[derive(Clone, Copy, Debug, PartialEq, Eq, Structural)]
pub struct Registers {
    /// Current VRAM address (15 bits).
    pub v: u16,
    /// Temporary VRAM address (15 bits).
    pub t: u16,
    /// Fine X scroll (0..8).
    pub x: u8,
    /// Write toggle for the two-write registers PPUSCROLL and PPUADDR.
    pub w: bool,
    /// Buffered byte for deferred PPUDATA reads.
    pub read_buffer: u8,
    /// Address that the next PPUDATA access uses (below 0x4000).
    pub bus_address: u16,
    /// PPUDATA address stride: 1 or 32.
    pub vram_address_increment: u16,
    /// Last byte written to any PPU register, echoed on write-only reads.
    pub last_written_byte: u8,
    /// OAMADDR.
    pub oam_addr: u8,
    /// Nametable base selected by PPUCTRL.
    pub nametable_address: u16,
    /// Sprite pattern table base for 8x8 sprites: 0 or 0x1000.
    pub sprite_pattern_table_address: u16,
    /// Background pattern table base: 0 or 0x1000.
    pub background_pattern_table_address: u16,
    /// Sprite width in pixels (always 8).
    pub sprite_width: u8,
    /// Sprite height in pixels: 8 or 16.
    pub sprite_height: u8,
    /// Raise NMI when VBlank starts.
    pub nmi_enabled: bool,
    pub show_background: bool,
    pub show_sprites: bool,
    pub show_left_background: bool,
    pub show_left_sprites: bool,
    pub v_blank_started: bool,
    pub sprite_0_hit: bool,
    pub sprite_overflow: bool,
    /// Latched nametable byte of the background fetch pipeline.
    pub nametable_byte: u8,
    /// Latched 2-bit attribute palette of the background fetch pipeline.
    pub palette: u8,
    pub low_tile_byte: u8,
    pub high_tile_byte: u8,
    /// 64-bit shift register of pre-decoded 4-bit palette|color nibbles.
    pub tile: u64,
}

impl Registers {
    pub open spec fn wf(self) -> bool {
        &&& self.x < 8
        &&& (self.vram_address_increment == 1 || self.vram_address_increment == 32)
        &&& self.bus_address < 0x4000
        &&& self.sprite_width == 8
        &&& (self.sprite_height == 8 || self.sprite_height == 16)
        &&& (self.sprite_pattern_table_address == 0
            || self.sprite_pattern_table_address == 0x1000)
        &&& (self.background_pattern_table_address == 0
            || self.background_pattern_table_address == 0x1000)
        &&& self.palette < 4
    }
}

/// The register file's state at power-on: everything cleared, with the
/// control-derived fields as a zero PPUCTRL/PPUMASK write leaves them.
pub open spec fn initial_ppu_registers() -> Registers {
    Registers {
        v: 0,
        t: 0,
        x: 0,
        w: false,
        read_buffer: 0,
        bus_address: 0,
        vram_address_increment: 1,
        last_written_byte: 0,
        oam_addr: 0,
        nametable_address: 0x2000,
        sprite_pattern_table_address: 0,
        background_pattern_table_address: 0,
        sprite_width: 8,
        sprite_height: 8,
        nmi_enabled: false,
        show_background: false,
        show_sprites: false,
        show_left_background: false,
        show_left_sprites: false,
        v_blank_started: false,
        sprite_0_hit: false,
        sprite_overflow: false,
        nametable_byte: 0,
        palette: 0,
        low_tile_byte: 0,
        high_tile_byte: 0,
        tile: 0,
    }
}

/// Effect of a PPUCTRL write: nametable base, address stride, pattern table
/// bases, sprite height, NMI enable, and the nametable bits of `t`.
pub open spec fn ctrl_spec(r: Registers, val: u8) -> Registers {
    Registers {
        nametable_address: (0x2000 + ((val & 0x03) as u16) * 0x400) as u16,
        vram_address_increment: if val & 0x04 == 0 { 1 } else { 32 },
        sprite_pattern_table_address: if val & 0x08 == 0 { 0 } else { 0x1000 },
        background_pattern_table_address: if val & 0x10 == 0 { 0 } else { 0x1000 },
        sprite_width: 8,
        sprite_height: if val & 0x20 == 0 { 8 } else { 16 },
        nmi_enabled: val & 0x80 != 0,
        t: (r.t & 0xF3FF) | (((val & 0x03) as u16) << 10),
        ..r
    }
}

/// Effect of a PPUMASK write: the four show flags.
pub open spec fn mask_spec(r: Registers, val: u8) -> Registers {
    Registers {
        show_left_background: val & 0x02 != 0,
        show_left_sprites: val & 0x04 != 0,
        show_background: val & 0x08 != 0,
        show_sprites: val & 0x10 != 0,
        ..r
    }
}

/// The byte a PPUSTATUS read returns: the three status flags over the
/// residue of the last written byte.
pub open spec fn status_byte(r: Registers) -> u8 {
    (r.last_written_byte & 0x1F)
        | (if r.sprite_overflow { 0x20 } else { 0 })
        | (if r.sprite_0_hit { 0x40 } else { 0 })
        | (if r.v_blank_started { 0x80 } else { 0 })
}

/// Side effect of a PPUSTATUS read: VBlank flag cleared, write toggle reset.
pub open spec fn status_read_spec(r: Registers) -> Registers {
    Registers { v_blank_started: false, w: false, ..r }
}

/// Effect of a PPUSCROLL write: first write sets coarse X in `t` and fine X;
/// second write sets coarse Y and fine Y in `t`.
pub open spec fn scroll_spec(r: Registers, val: u8) -> Registers {
    if !r.w {
        Registers {
            t: (r.t & 0xFFE0) | ((val >> 3) as u16),
            x: (val & 0x07) as u8,
            w: true,
            ..r
        }
    } else {
        Registers {
            t: (r.t & 0x8C1F) | (((val & 0x07) as u16) << 12) | (((val & 0xF8) as u16) << 2),
            w: false,
            ..r
        }
    }
}

/// Effect of a PPUADDR write: first write sets the high six address bits of
/// `t`, second write sets the low byte and publishes `t` to `v` and to the
/// PPUDATA bus address (folded into the 14-bit address space).
pub open spec fn addr_spec(r: Registers, val: u8) -> Registers {
    if !r.w {
        Registers {
            t: (r.t & 0x00FF) | (((val & 0x3F) as u16) << 8),
            w: true,
            ..r
        }
    } else {
        let t2 = (r.t & 0xFF00) | (val as u16);
        Registers { t: t2, v: t2, bus_address: t2 & 0x3FFF, w: false, ..r }
    }
}

/// Cycle-257 scroll copy: the X-related bits of `t` (coarse X and the
/// horizontal nametable bit) move into `v`.
pub open spec fn copy_x_spec(r: Registers) -> Registers {
    Registers { v: (r.v & 0xFBE0) | (r.t & 0x041F), ..r }
}

/// Pre-render scroll copy: the Y-related bits of `t` (coarse Y, fine Y, and
/// the vertical nametable bit) move into `v`.
pub open spec fn copy_y_spec(r: Registers) -> Registers {
    Registers { v: (r.v & 0x841F) | (r.t & 0x7BE0), ..r }
}

/// Coarse X increment at the end of each 8-pixel fetch: wraps from 31 to 0,
/// flipping the horizontal nametable bit.
pub open spec fn inc_x_spec(r: Registers) -> Registers {
    if r.v & 0x001F == 31 {
        Registers { v: (r.v & 0xFFE0) ^ 0x0400, ..r }
    } else {
        Registers { v: (r.v + 1) as u16, ..r }
    }
}

/// Y increment at cycle 256: fine Y carries into coarse Y; coarse Y wraps
/// from 29 to 0 flipping the vertical nametable bit, and from 31 to 0
/// without flipping it.
pub open spec fn inc_y_spec(r: Registers) -> Registers {
    if r.v & 0x7000 != 0x7000 {
        Registers { v: (r.v + 0x1000) as u16, ..r }
    } else {
        let v1 = r.v & 0x8FFF;
        let y = (v1 & 0x03E0) >> 5;
        if y == 29 {
            Registers { v: (v1 & 0xFC1F) ^ 0x0800, ..r }
        } else if y == 31 {
            Registers { v: v1 & 0xFC1F, ..r }
        } else {
            Registers { v: (v1 & 0xFC1F) | (((y + 1) as u16) << 5), ..r }
        }
    }
}

impl Registers {
    pub fn new() -> (r: Registers)
        ensures r == initial_ppu_registers(), r.wf(),
    {
        Registers {
            v: 0,
            t: 0,
            x: 0,
            w: false,
            read_buffer: 0,
            bus_address: 0,
            vram_address_increment: 1,
            last_written_byte: 0,
            oam_addr: 0,
            nametable_address: 0x2000,
            sprite_pattern_table_address: 0,
            background_pattern_table_address: 0,
            sprite_width: 8,
            sprite_height: 8,
            nmi_enabled: false,
            show_background: false,
            show_sprites: false,
            show_left_background: false,
            show_left_sprites: false,
            v_blank_started: false,
            sprite_0_hit: false,
            sprite_overflow: false,
            nametable_byte: 0,
            palette: 0,
            low_tile_byte: 0,
            high_tile_byte: 0,
            tile: 0,
        }
    }

    pub fn write_ppu_ctrl(&mut self, val: u8)
        ensures
            *final(self) == ctrl_spec(*old(self), val),
            old(self).wf() ==> final(self).wf(),
    {
        proof {
            assert(val & 0x03 <= 3) by (bit_vector);
        }
        self.nametable_address = 0x2000 + ((val & 0x03) as u16) * 0x400;
        self.vram_address_increment = if val & 0x04 == 0 { 1 } else { 32 };
        self.sprite_pattern_table_address = if val & 0x08 == 0 { 0 } else { 0x1000 };
        self.background_pattern_table_address = if val & 0x10 == 0 { 0 } else { 0x1000 };
        self.sprite_width = 8;
        self.sprite_height = if val & 0x20 == 0 { 8 } else { 16 };
        self.nmi_enabled = val & 0x80 != 0;
        self.t = (self.t & 0xF3FF) | (((val & 0x03) as u16) << 10);
    }

    pub fn write_ppu_mask(&mut self, val: u8)
        ensures
            *final(self) == mask_spec(*old(self), val),
            old(self).wf() ==> final(self).wf(),
    {
        self.show_left_background = val & 0x02 != 0;
        self.show_left_sprites = val & 0x04 != 0;
        self.show_background = val & 0x08 != 0;
        self.show_sprites = val & 0x10 != 0;
    }

    pub fn read_ppu_status(&mut self) -> (out: u8)
        ensures
            out == status_byte(*old(self)),
            *final(self) == status_read_spec(*old(self)),
            old(self).wf() ==> final(self).wf(),
    {
        let out = (self.last_written_byte & 0x1F)
            | (if self.sprite_overflow { 0x20 } else { 0 })
            | (if self.sprite_0_hit { 0x40 } else { 0 })
            | (if self.v_blank_started { 0x80 } else { 0 });
        self.v_blank_started = false;
        self.w = false;
        out
    }

    pub fn write_ppu_scroll(&mut self, val: u8)
        ensures
            *final(self) == scroll_spec(*old(self), val),
            old(self).wf() ==> final(self).wf(),
    {
        if !self.w {
            self.t = (self.t & 0xFFE0) | ((val >> 3) as u16);
            self.x = val & 0x07;
            self.w = true;
            proof {
                assert(val & 0x07 < 8) by (bit_vector);
            }
        } else {
            self.t = (self.t & 0x8C1F)
                | (((val & 0x07) as u16) << 12)
                | (((val & 0xF8) as u16) << 2);
            self.w = false;
        }
    }

    pub fn write_ppu_addr(&mut self, val: u8)
        ensures
            *final(self) == addr_spec(*old(self), val),
            old(self).wf() ==> final(self).wf(),
    {
        if !self.w {
            self.t = (self.t & 0x00FF) | (((val & 0x3F) as u16) << 8);
            self.w = true;
        } else {
            let t2 = (self.t & 0xFF00) | (val as u16);
            self.t = t2;
            self.v = t2;
            self.bus_address = t2 & 0x3FFF;
            self.w = false;
            proof {
                assert(t2 & 0x3FFF < 0x4000) by (bit_vector);
            }
        }
    }

    pub fn copy_scroll_x(&mut self)
        ensures
            *final(self) == copy_x_spec(*old(self)),
            old(self).wf() ==> final(self).wf(),
    {
        self.v = (self.v & 0xFBE0) | (self.t & 0x041F);
    }

    pub fn copy_scroll_y(&mut self)
        ensures
            *final(self) == copy_y_spec(*old(self)),
            old(self).wf() ==> final(self).wf(),
    {
        self.v = (self.v & 0x841F) | (self.t & 0x7BE0);
    }

    pub fn increment_scroll_x(&mut self)
        ensures
            *final(self) == inc_x_spec(*old(self)),
            old(self).wf() ==> final(self).wf(),
    {
        if self.v & 0x001F == 31 {
            self.v = (self.v & 0xFFE0) ^ 0x0400;
        } else {
            proof {
                let v = self.v;
                assert(v & 0x001F != 31 ==> v < 0xFFFF) by (bit_vector);
            }
            self.v = self.v + 1;
        }
    }

    pub fn increment_scroll_y(&mut self)
        ensures
            *final(self) == inc_y_spec(*old(self)),
            old(self).wf() ==> final(self).wf(),
    {
        if self.v & 0x7000 != 0x7000 {
            proof {
                let v = self.v;
                assert(v & 0x7000 != 0x7000 ==> v <= 0xEFFF) by (bit_vector);
            }
            self.v = self.v + 0x1000;
        } else {
            let v1 = self.v & 0x8FFF;
            let y = (v1 & 0x03E0) >> 5;
            proof {
                let v = v1;
                assert((v & 0x03E0) >> 5 <= 31) by (bit_vector);
            }
            if y == 29 {
                self.v = (v1 & 0xFC1F) ^ 0x0800;
            } else if y == 31 {
                self.v = v1 & 0xFC1F;
            } else {
                self.v = (v1 & 0xFC1F) | ((y + 1) << 5);
            }
        }
    }
}


/// Effect on the register file of a CPU write to any register that only
/// touches the register file: the written byte is latched, then
/// PPUCTRL/PPUMASK/OAMADDR/PPUSCROLL/PPUADDR take their effect (PPUSTATUS
/// and unmatched addresses only latch).
pub open spec fn reg_file_write_spec(r: Registers, addr: u16, val: u8) -> Registers {
    let r0 = Registers { last_written_byte: val, ..r };
    if addr == 0x2000 {
        ctrl_spec(r0, val)
    } else if addr == 0x2001 {
        mask_spec(r0, val)
    } else if addr == 0x2003 {
        Registers { oam_addr: val, ..r0 }
    } else if addr == 0x2005 {
        scroll_spec(r0, val)
    } else if addr == 0x2006 {
        addr_spec(r0, val)
    } else {
        r0
    }
}

impl Registers {
    /// CPU write to a register that only touches the register file.
    pub fn write_reg_file(&mut self, addr: u16, val: u8)
        ensures
            *final(self) == reg_file_write_spec(*old(self), addr, val),
            old(self).wf() ==> final(self).wf(),
    {
        self.last_written_byte = val;
        if addr == 0x2000 {
            self.write_ppu_ctrl(val);
        } else if addr == 0x2001 {
            self.write_ppu_mask(val);
        } else if addr == 0x2003 {
            self.oam_addr = val;
        } else if addr == 0x2005 {
            self.write_ppu_scroll(val);
        } else if addr == 0x2006 {
            self.write_ppu_addr(val);
        }
    }
}


/// State of the tile pre-decode after `k` of its eight rounds: the shifted
/// low/high tile bytes and the accumulated nibble word. Each round peels the
/// top bit of each tile byte into a 2-bit colour and appends the 4-bit
/// palette|colour nibble.
pub open spec fn tile_accum(lo: u8, hi: u8, pal: u8, k: nat) -> (u8, u8, u64)
    decreases k,
{
    if k == 0 {
        (lo, hi, 0u64)
    } else {
        let prev = tile_accum(lo, hi, pal, (k - 1) as nat);
        let l = prev.0;
        let h = prev.1;
        let acc = prev.2;
        let color = ((h >> 6) & 0x02) | ((l >> 7) & 0x01);
        (
            (l << 1) as u8,
            (h << 1) as u8,
            ((acc << 4) | (((pal as u64) << 2) | (color as u64))) as u64,
        )
    }
}

/// Effect of loading the latched tile bytes into the low 32 bits of the
/// shift register.
pub open spec fn load_tile_spec(r: Registers) -> Registers {
    let a = tile_accum(r.low_tile_byte, r.high_tile_byte, r.palette, 8);
    Registers {
        low_tile_byte: a.0,
        high_tile_byte: a.1,
        tile: r.tile | a.2,
        ..r
    }
}

impl Registers {
    /// Decodes the two latched tile bytes and the attribute palette into
    /// eight 4-bit palette|colour nibbles, OR-ed into the low bits of the
    /// tile shift register.
    pub fn load_tile(&mut self)
        ensures
            *final(self) == load_tile_spec(*old(self)),
            old(self).wf() ==> final(self).wf(),
    {
        let mut curr_tile: u64 = 0;
        let mut k: usize = 0;
        while k < 8
            invariant
                k <= 8,
                (self.low_tile_byte, self.high_tile_byte, curr_tile)
                    == tile_accum(old(self).low_tile_byte, old(self).high_tile_byte,
                        old(self).palette, k as nat),
                *self == (Registers {
                    low_tile_byte: self.low_tile_byte,
                    high_tile_byte: self.high_tile_byte,
                    ..*old(self)
                }),
            decreases 8 - k,
        {
            let color = ((self.high_tile_byte >> 6) & 0x02) | ((self.low_tile_byte >> 7) & 0x01);
            self.high_tile_byte = self.high_tile_byte << 1;
            self.low_tile_byte = self.low_tile_byte << 1;
            curr_tile = (curr_tile << 4) | (((self.palette as u64) << 2) | (color as u64));
            k += 1;
        }
        self.tile = self.tile | curr_tile;
    }
}

} // verus!
