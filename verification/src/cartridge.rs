//! Cartridge backing store: PRG-ROM, optional PRG-RAM, CHR-ROM or CHR-RAM,
//! together with the mirroring hint the cartridge header declares.

use vstd::prelude::*;
use crate::ppu::MirroringMode;

verus! {

/// Size of one switchable PRG-ROM bank in bytes (8 KiB).
pub const PRG_BANK_SIZE: usize = 0x2000;
/// Size of one switchable CHR bank in bytes (1 KiB).
pub const CHR_BANK_SIZE: usize = 0x400;
/// Size of the PRG-RAM window (8 KiB), when the cartridge has PRG-RAM.
pub const PRG_RAM_SIZE: usize = 0x2000;

/// Mathematical value of a `Cartridge`.
#[verifier::ext_equal]
pub struct CartridgeView {
    pub prg_rom: Seq<u8>,
    pub prg_ram: Seq<u8>,
    pub chr: Seq<u8>,
    pub chr_is_ram: bool,
    pub mirroring_mode: MirroringMode,
}

impl CartridgeView {
    /// Well-formedness: PRG-ROM is a whole number of banks (at least two, so
    /// the fixed last-two-banks windows exist), CHR is non-empty, and PRG-RAM
    /// is either absent or exactly one 8 KiB window.
    pub open spec fn wf(self) -> bool {
        &&& self.prg_rom.len() % (PRG_BANK_SIZE as nat) == 0
        &&& self.prg_rom.len() >= 2 * PRG_BANK_SIZE
        &&& self.chr.len() > 0
        &&& (self.prg_ram.len() == 0 || self.prg_ram.len() == PRG_RAM_SIZE)
    }

    pub open spec fn prg_rom_banks(self) -> int {
        self.prg_rom.len() as int / (PRG_BANK_SIZE as int)
    }

    /// A PRG-ROM read folds the offset back into the ROM, mirroring an
    /// undersized ROM across the address space the way unconnected high
    /// address lines do.
    pub open spec fn prg_rom_read(self, offset: int) -> u8
        recommends self.wf(), 0 <= offset,
    {
        self.prg_rom[offset % (self.prg_rom.len() as int)]
    }

    /// A CHR read likewise folds the offset into the CHR array.
    pub open spec fn chr_read(self, offset: int) -> u8
        recommends self.wf(), 0 <= offset,
    {
        self.chr[offset % (self.chr.len() as int)]
    }

    /// A PRG-RAM read returns 0 when the cartridge has no PRG-RAM.
    pub open spec fn prg_ram_read(self, offset: int) -> u8
        recommends self.wf(), 0 <= offset < PRG_RAM_SIZE,
    {
        if self.prg_ram.len() == 0 { 0 } else { self.prg_ram[offset] }
    }
}

/// Backing store for the three cartridge byte arrays, with bank-count
/// metadata derived from their lengths.
pub struct Cartridge {
    pub prg_rom: Vec<u8>,
    pub prg_ram: Vec<u8>,
    pub chr: Vec<u8>,
    pub chr_is_ram: bool,
    pub mirroring_mode: MirroringMode,
}

impl View for Cartridge {
    type V = CartridgeView;

    open spec fn view(&self) -> CartridgeView {
        CartridgeView {
            prg_rom: self.prg_rom@,
            prg_ram: self.prg_ram@,
            chr: self.chr@,
            chr_is_ram: self.chr_is_ram,
            mirroring_mode: self.mirroring_mode,
        }
    }
}

impl Cartridge {
    pub fn new(
        prg_rom: Vec<u8>,
        prg_ram: Vec<u8>,
        chr: Vec<u8>,
        chr_is_ram: bool,
        mirroring_mode: MirroringMode,
    ) -> (c: Cartridge)
        requires
            prg_rom@.len() % (PRG_BANK_SIZE as nat) == 0,
            prg_rom@.len() >= 2 * PRG_BANK_SIZE,
            chr@.len() > 0,
            prg_ram@.len() == 0 || prg_ram@.len() == PRG_RAM_SIZE,
        ensures
            c@.wf(),
            c@ == (CartridgeView {
                prg_rom: prg_rom@,
                prg_ram: prg_ram@,
                chr: chr@,
                chr_is_ram: chr_is_ram,
                mirroring_mode: mirroring_mode,
            }),
    {
        Cartridge { prg_rom, prg_ram, chr, chr_is_ram, mirroring_mode }
    }

    pub fn prg_rom_len(&self) -> (n: usize)
        ensures n == self@.prg_rom.len(),
    {
        self.prg_rom.len()
    }

    pub fn read_prg_rom(&self, offset: usize) -> (b: u8)
        requires self@.wf(),
        ensures b == self@.prg_rom_read(offset as int),
    {
        let n = self.prg_rom.len();
        self.prg_rom[offset % n]
    }

    pub fn read_prg_ram(&self, offset: usize) -> (b: u8)
        requires
            self@.wf(),
            offset < PRG_RAM_SIZE,
        ensures b == self@.prg_ram_read(offset as int),
    {
        if self.prg_ram.len() == 0 {
            0
        } else {
            self.prg_ram[offset]
        }
    }

    /// Writes to PRG-RAM; silently absorbed when the cartridge has none.
    pub fn write_prg_ram(&mut self, offset: usize, val: u8)
        requires
            old(self)@.wf(),
            offset < PRG_RAM_SIZE,
        ensures
            final(self)@ == (CartridgeView {
                prg_ram: if old(self)@.prg_ram.len() == 0 {
                    old(self)@.prg_ram
                } else {
                    old(self)@.prg_ram.update(offset as int, val)
                },
                ..old(self)@
            }),
            final(self)@.wf(),
    {
        if self.prg_ram.len() != 0 {
            self.prg_ram.set(offset, val);
        }
        proof {
            assert(self@ =~= (CartridgeView {
                prg_ram: if old(self)@.prg_ram.len() == 0 {
                    old(self)@.prg_ram
                } else {
                    old(self)@.prg_ram.update(offset as int, val)
                },
                ..old(self)@
            }));
        }
    }

    pub fn read_chr(&self, offset: usize) -> (b: u8)
        requires self@.wf(),
        ensures b == self@.chr_read(offset as int),
    {
        let n = self.chr.len();
        self.chr[offset % n]
    }

    /// Writes to the CHR array; a no-op when the cartridge has CHR-ROM
    /// rather than CHR-RAM.
    pub fn write_chr(&mut self, offset: usize, val: u8)
        requires old(self)@.wf(),
        ensures
            final(self)@ == (CartridgeView {
                chr: if old(self)@.chr_is_ram {
                    old(self)@.chr.update(
                        offset as int % (old(self)@.chr.len() as int), val)
                } else {
                    old(self)@.chr
                },
                ..old(self)@
            }),
            final(self)@.wf(),
    {
        if self.chr_is_ram {
            let n = self.chr.len();
            self.chr.set(offset % n, val);
        }
        proof {
            assert(self@ =~= (CartridgeView {
                chr: if old(self)@.chr_is_ram {
                    old(self)@.chr.update(
                        offset as int % (old(self)@.chr.len() as int), val)
                } else {
                    old(self)@.chr
                },
                ..old(self)@
            }));
        }
    }
}

} // verus!
