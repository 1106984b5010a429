//! The banked-ROM cartridge mapper: address translation through switchable
//! PRG and CHR banks, the even/odd register write protocol, the scanline
//! IRQ counter, and the save-state codec.

use vstd::prelude::*;
use crate::cartridge::{Cartridge, CartridgeView, PRG_BANK_SIZE};
use crate::ppu::MirroringMode;

verus! {

/// How the four 8 KiB PRG windows at $8000/$A000/$C000/$E000 are filled.
#[derive(Clone, Copy, Debug, PartialEq, Eq, Structural)]
pub enum PrgRomBankMode {
    /// Two switchable banks, then the last two ROM banks fixed.
    TwoSwitchTwoFix,
    /// Second-to-last bank fixed first, two switchable banks, last bank fixed.
    FixTwoSwitchFix,
}

/// How the eight 1 KiB CHR slots are filled.
#[derive(Clone, Copy, Debug, PartialEq, Eq, Structural)]
pub enum ChrRomBankMode {
    /// Two 2 KiB banks at $0000, four 1 KiB banks at $1000.
    Two2KFour1K,
    /// Four 1 KiB banks at $0000, two 2 KiB banks at $1000.
    Four1KTwo2K,
}

/// Mathematical value of the mapper's register file.
#[verifier::ext_equal]
pub struct RegistersView {
    pub mirroring_mode: MirroringMode,
    pub prg_rom_bank_mode: PrgRomBankMode,
    pub chr_rom_bank_mode: ChrRomBankMode,
    pub prg_ram_writes_enabled: bool,
    pub prg_ram_enabled: bool,
    pub irq_latch: u8,
    pub irq_counter: u8,
    pub irq_enabled: bool,
    pub bank_data: Seq<u8>,
    pub current_bank: u8,
}

impl RegistersView {
    pub open spec fn wf(self) -> bool {
        &&& self.bank_data.len() == 8
        &&& self.current_bank < 8
    }
}

/// The register file's state at power-on.
pub open spec fn initial_registers() -> RegistersView {
    RegistersView {
        mirroring_mode: MirroringMode::Vertical,
        prg_rom_bank_mode: PrgRomBankMode::TwoSwitchTwoFix,
        chr_rom_bank_mode: ChrRomBankMode::Two2KFour1K,
        prg_ram_writes_enabled: true,
        prg_ram_enabled: true,
        irq_latch: 0,
        irq_counter: 0,
        irq_enabled: false,
        bank_data: Seq::new(8, |i: int| 0u8),
        current_bank: 0,
    }
}

/// CHR address translation: which CHR-ROM/RAM offset a PPU address in
/// $0000-$1FFF reaches. The 2 KiB selectors force their low bit to zero at
/// use time; the raw register values are preserved.
pub open spec fn chr_addr_spec(r: RegistersView, addr: int) -> int
    recommends r.wf(), 0 <= addr < 0x2000,
{
    match r.chr_rom_bank_mode {
        ChrRomBankMode::Two2KFour1K => {
            if addr < 0x0800 {
                (r.bank_data[0] & 0xFE) * 0x400 + addr
            } else if addr < 0x1000 {
                (r.bank_data[1] & 0xFE) * 0x400 + addr - 0x0800
            } else if addr < 0x1400 {
                r.bank_data[2] * 0x400 + addr - 0x1000
            } else if addr < 0x1800 {
                r.bank_data[3] * 0x400 + addr - 0x1400
            } else if addr < 0x1C00 {
                r.bank_data[4] * 0x400 + addr - 0x1800
            } else {
                r.bank_data[5] * 0x400 + addr - 0x1C00
            }
        }
        ChrRomBankMode::Four1KTwo2K => {
            if addr < 0x0400 {
                r.bank_data[2] * 0x400 + addr
            } else if addr < 0x0800 {
                r.bank_data[3] * 0x400 + addr - 0x0400
            } else if addr < 0x0C00 {
                r.bank_data[4] * 0x400 + addr - 0x0800
            } else if addr < 0x1000 {
                r.bank_data[5] * 0x400 + addr - 0x0C00
            } else if addr < 0x1800 {
                (r.bank_data[0] & 0xFE) * 0x400 + addr - 0x1000
            } else {
                (r.bank_data[1] & 0xFE) * 0x400 + addr - 0x1800
            }
        }
    }
}

/// PRG address translation: which PRG-ROM offset a CPU address in
/// $8000-$FFFF reaches, given the ROM's total bank count.
pub open spec fn prg_addr_spec(r: RegistersView, addr: int, prg_rom_banks: int) -> int
    recommends r.wf(), 0x8000 <= addr < 0x10000, prg_rom_banks >= 2,
{
    match r.prg_rom_bank_mode {
        PrgRomBankMode::TwoSwitchTwoFix => {
            if addr < 0xA000 {
                r.bank_data[6] * 0x2000 + addr - 0x8000
            } else if addr < 0xC000 {
                r.bank_data[7] * 0x2000 + addr - 0xA000
            } else if addr < 0xE000 {
                (prg_rom_banks - 2) * 0x2000 + (addr - 0xC000)
            } else {
                (prg_rom_banks - 1) * 0x2000 + (addr - 0xE000)
            }
        }
        PrgRomBankMode::FixTwoSwitchFix => {
            if addr < 0xA000 {
                (prg_rom_banks - 2) * 0x2000 + (addr - 0x8000)
            } else if addr < 0xC000 {
                r.bank_data[7] * 0x2000 + addr - 0xA000
            } else if addr < 0xE000 {
                r.bank_data[6] * 0x2000 + addr - 0xC000
            } else {
                (prg_rom_banks - 1) * 0x2000 + (addr - 0xE000)
            }
        }
    }
}

/// The resolved 1 KiB CHR bank selector behind debug slot `index` (0..8).
pub open spec fn chr_bank_spec(r: RegistersView, index: int) -> int
    recommends r.wf(), 0 <= index < 8,
{
    match r.chr_rom_bank_mode {
        ChrRomBankMode::Two2KFour1K => {
            if index == 0 { (r.bank_data[0] & 0xFE) as int }
            else if index == 1 { (r.bank_data[0] | 0x01) as int }
            else if index == 2 { (r.bank_data[1] & 0xFE) as int }
            else if index == 3 { (r.bank_data[1] | 0x01) as int }
            else { r.bank_data[index - 2] as int }
        }
        ChrRomBankMode::Four1KTwo2K => {
            if index < 4 { r.bank_data[index + 2] as int }
            else if index == 4 { (r.bank_data[0] & 0xFE) as int }
            else if index == 5 { (r.bank_data[0] | 0x01) as int }
            else if index == 6 { (r.bank_data[1] & 0xFE) as int }
            else { (r.bank_data[1] | 0x01) as int }
        }
    }
}

/// The mapper's register file.
pub struct Registers {
    pub mirroring_mode: MirroringMode,
    pub prg_rom_bank_mode: PrgRomBankMode,
    pub chr_rom_bank_mode: ChrRomBankMode,
    pub prg_ram_writes_enabled: bool,
    pub prg_ram_enabled: bool,
    pub irq_latch: u8,
    pub irq_counter: u8,
    pub irq_enabled: bool,
    pub bank_data: Vec<u8>,
    pub current_bank: u8,
}

impl View for Registers {
    type V = RegistersView;

    open spec fn view(&self) -> RegistersView {
        RegistersView {
            mirroring_mode: self.mirroring_mode,
            prg_rom_bank_mode: self.prg_rom_bank_mode,
            chr_rom_bank_mode: self.chr_rom_bank_mode,
            prg_ram_writes_enabled: self.prg_ram_writes_enabled,
            prg_ram_enabled: self.prg_ram_enabled,
            irq_latch: self.irq_latch,
            irq_counter: self.irq_counter,
            irq_enabled: self.irq_enabled,
            bank_data: self.bank_data@,
            current_bank: self.current_bank,
        }
    }
}

impl Registers {
    pub fn new() -> (r: Registers)
        ensures r@ == initial_registers(), r@.wf(),
    {
        let mut bank_data: Vec<u8> = Vec::new();
        let mut i: usize = 0;
        while i < 8
            invariant
                i <= 8,
                bank_data@.len() == i,
                forall|j: int| 0 <= j < i ==> bank_data@[j] == 0u8,
            decreases 8 - i,
        {
            bank_data.push(0);
            i += 1;
        }
        let r = Registers {
            mirroring_mode: MirroringMode::Vertical,
            prg_rom_bank_mode: PrgRomBankMode::TwoSwitchTwoFix,
            chr_rom_bank_mode: ChrRomBankMode::Two2KFour1K,
            prg_ram_writes_enabled: true,
            prg_ram_enabled: true,
            irq_latch: 0,
            irq_counter: 0,
            irq_enabled: false,
            bank_data,
            current_bank: 0,
        };
        proof {
            assert(r@.bank_data =~= initial_registers().bank_data);
            assert(r@ =~= initial_registers());
        }
        r
    }

    /// Bank-select write (even $8000-$9FFF): bits 0..2 pick the slot that the
    /// next data write targets, bit 6 the PRG mode, bit 7 the CHR mode.
    pub fn write_bank_select(&mut self, val: u8)
        ensures
            final(self)@ == (RegistersView {
                prg_rom_bank_mode: if val & 0x40 == 0 {
                    PrgRomBankMode::TwoSwitchTwoFix
                } else {
                    PrgRomBankMode::FixTwoSwitchFix
                },
                chr_rom_bank_mode: if val & 0x80 == 0 {
                    ChrRomBankMode::Two2KFour1K
                } else {
                    ChrRomBankMode::Four1KTwo2K
                },
                current_bank: (val & 0x07) as u8,
                ..old(self)@
            }),
            final(self)@.current_bank < 8,
    {
        self.prg_rom_bank_mode = if val & 0x40 == 0 {
            PrgRomBankMode::TwoSwitchTwoFix
        } else {
            PrgRomBankMode::FixTwoSwitchFix
        };
        self.chr_rom_bank_mode = if val & 0x80 == 0 {
            ChrRomBankMode::Two2KFour1K
        } else {
            ChrRomBankMode::Four1KTwo2K
        };
        self.current_bank = val & 0x07;
        proof {
            assert(val & 0x07 < 8) by (bit_vector);
            assert(self@ =~= (RegistersView {
                prg_rom_bank_mode: self@.prg_rom_bank_mode,
                chr_rom_bank_mode: self@.chr_rom_bank_mode,
                current_bank: self@.current_bank,
                ..old(self)@
            }));
        }
    }

    /// Bank-data write (odd $8000-$9FFF): stores into the selected slot.
    pub fn write_bank_data(&mut self, val: u8)
        requires old(self)@.wf(),
        ensures
            final(self)@ == (RegistersView {
                bank_data: old(self)@.bank_data.update(
                    old(self)@.current_bank as int, val),
                ..old(self)@
            }),
            final(self)@.wf(),
    {
        let bank: usize = self.current_bank as usize;
        self.bank_data.set(bank, val);
        proof {
            assert(self@ =~= (RegistersView {
                bank_data: old(self)@.bank_data.update(
                    old(self)@.current_bank as int, val),
                ..old(self)@
            }));
        }
    }

    /// Mirroring write (even $A000-$BFFF): bit 0 chooses Vertical (0) or
    /// Horizontal (1).
    pub fn write_mirroring_mode(&mut self, val: u8)
        ensures
            final(self)@ == (RegistersView {
                mirroring_mode: if val & 0x01 == 0 {
                    MirroringMode::Vertical
                } else {
                    MirroringMode::Horizontal
                },
                ..old(self)@
            }),
    {
        self.mirroring_mode = if val & 0x01 == 0 {
            MirroringMode::Vertical
        } else {
            MirroringMode::Horizontal
        };
        proof {
            assert(self@ =~= (RegistersView {
                mirroring_mode: self@.mirroring_mode,
                ..old(self)@
            }));
        }
    }

    /// PRG-RAM protect write (odd $A000-$BFFF): bit 7 enables the RAM window,
    /// a clear bit 6 enables writes to it.
    pub fn write_prg_ram_protect(&mut self, val: u8)
        ensures
            final(self)@ == (RegistersView {
                prg_ram_writes_enabled: val & 0x40 == 0,
                prg_ram_enabled: val & 0x80 != 0,
                ..old(self)@
            }),
    {
        self.prg_ram_writes_enabled = val & 0x40 == 0;
        self.prg_ram_enabled = val & 0x80 != 0;
        proof {
            assert(self@ =~= (RegistersView {
                prg_ram_writes_enabled: val & 0x40 == 0,
                prg_ram_enabled: val & 0x80 != 0,
                ..old(self)@
            }));
        }
    }

    pub fn get_chr_rom_address(&self, addr: usize) -> (out: usize)
        requires self@.wf(), addr < 0x2000,
        ensures out == chr_addr_spec(self@, addr as int),
    {
        match self.chr_rom_bank_mode {
            ChrRomBankMode::Two2KFour1K => {
                if addr < 0x0800 {
                    ((self.bank_data[0] & 0xFE) as usize) * 0x400 + addr
                } else if addr < 0x1000 {
                    ((self.bank_data[1] & 0xFE) as usize) * 0x400 + addr - 0x0800
                } else if addr < 0x1400 {
                    (self.bank_data[2] as usize) * 0x400 + addr - 0x1000
                } else if addr < 0x1800 {
                    (self.bank_data[3] as usize) * 0x400 + addr - 0x1400
                } else if addr < 0x1C00 {
                    (self.bank_data[4] as usize) * 0x400 + addr - 0x1800
                } else {
                    (self.bank_data[5] as usize) * 0x400 + addr - 0x1C00
                }
            }
            ChrRomBankMode::Four1KTwo2K => {
                if addr < 0x0400 {
                    (self.bank_data[2] as usize) * 0x400 + addr
                } else if addr < 0x0800 {
                    (self.bank_data[3] as usize) * 0x400 + addr - 0x0400
                } else if addr < 0x0C00 {
                    (self.bank_data[4] as usize) * 0x400 + addr - 0x0800
                } else if addr < 0x1000 {
                    (self.bank_data[5] as usize) * 0x400 + addr - 0x0C00
                } else if addr < 0x1800 {
                    ((self.bank_data[0] & 0xFE) as usize) * 0x400 + addr - 0x1000
                } else {
                    ((self.bank_data[1] & 0xFE) as usize) * 0x400 + addr - 0x1800
                }
            }
        }
    }

    pub fn get_prg_rom_address(&self, addr: usize, prg_rom_banks: usize) -> (out: usize)
        requires
            self@.wf(),
            0x8000 <= addr < 0x10000,
            prg_rom_banks >= 2,
            prg_rom_banks * 0x2000 <= usize::MAX,
        ensures out == prg_addr_spec(self@, addr as int, prg_rom_banks as int),
    {
        match self.prg_rom_bank_mode {
            PrgRomBankMode::TwoSwitchTwoFix => {
                if addr < 0xA000 {
                    (self.bank_data[6] as usize) * 0x2000 + addr - 0x8000
                } else if addr < 0xC000 {
                    (self.bank_data[7] as usize) * 0x2000 + addr - 0xA000
                } else if addr < 0xE000 {
                    (prg_rom_banks - 2) * 0x2000 + (addr - 0xC000)
                } else {
                    (prg_rom_banks - 1) * 0x2000 + (addr - 0xE000)
                }
            }
            PrgRomBankMode::FixTwoSwitchFix => {
                if addr < 0xA000 {
                    (prg_rom_banks - 2) * 0x2000 + (addr - 0x8000)
                } else if addr < 0xC000 {
                    (self.bank_data[7] as usize) * 0x2000 + addr - 0xA000
                } else if addr < 0xE000 {
                    (self.bank_data[6] as usize) * 0x2000 + addr - 0xC000
                } else {
                    (prg_rom_banks - 1) * 0x2000 + (addr - 0xE000)
                }
            }
        }
    }
}


/// Effect of a bank-select write on the register file.
pub open spec fn bank_select_spec(r: RegistersView, val: u8) -> RegistersView {
    RegistersView {
        prg_rom_bank_mode: if val & 0x40 == 0 {
            PrgRomBankMode::TwoSwitchTwoFix
        } else {
            PrgRomBankMode::FixTwoSwitchFix
        },
        chr_rom_bank_mode: if val & 0x80 == 0 {
            ChrRomBankMode::Two2KFour1K
        } else {
            ChrRomBankMode::Four1KTwo2K
        },
        current_bank: (val & 0x07) as u8,
        ..r
    }
}

/// Effect of a bank-data write on the register file.
pub open spec fn bank_data_spec(r: RegistersView, val: u8) -> RegistersView {
    RegistersView { bank_data: r.bank_data.update(r.current_bank as int, val), ..r }
}

/// Effect of a mirroring write on the register file.
pub open spec fn mirroring_write_spec(r: RegistersView, val: u8) -> RegistersView {
    RegistersView {
        mirroring_mode: if val & 0x01 == 0 {
            MirroringMode::Vertical
        } else {
            MirroringMode::Horizontal
        },
        ..r
    }
}

/// Effect of a PRG-RAM protect write on the register file.
pub open spec fn ram_protect_spec(r: RegistersView, val: u8) -> RegistersView {
    RegistersView {
        prg_ram_writes_enabled: val & 0x40 == 0,
        prg_ram_enabled: val & 0x80 != 0,
        ..r
    }
}

/// Mathematical value of the whole mapper: register file plus cartridge.
#[verifier::ext_equal]
pub struct Mmc3View {
    pub r: RegistersView,
    pub cartridge: CartridgeView,
}

impl Mmc3View {
    pub open spec fn wf(self) -> bool {
        self.r.wf() && self.cartridge.wf()
    }

    /// Register-driven mirroring, except that a cartridge declaring
    /// four-screen mirroring keeps it regardless of register writes.
    pub open spec fn effective_mirroring(self) -> MirroringMode {
        if self.cartridge.mirroring_mode == MirroringMode::FourScreen {
            MirroringMode::FourScreen
        } else {
            self.r.mirroring_mode
        }
    }

    /// What a CPU- or PPU-side read of the mapper's address space returns:
    /// $0000-$1FFF through CHR translation, $6000-$7FFF the PRG-RAM window
    /// when enabled, $8000-$FFFF through PRG translation, 0 elsewhere.
    pub open spec fn read(self, addr: u16) -> u8
        recommends self.wf(),
    {
        if addr < 0x2000 {
            self.cartridge.chr_read(chr_addr_spec(self.r, addr as int))
        } else if 0x6000 <= addr && addr < 0x8000 {
            if self.r.prg_ram_enabled {
                self.cartridge.prg_ram_read(addr as int - 0x6000)
            } else {
                0
            }
        } else if 0x8000 <= addr {
            self.cartridge.prg_rom_read(
                prg_addr_spec(self.r, addr as int, self.cartridge.prg_rom_banks()))
        } else {
            0
        }
    }

    /// Effect of a CPU- or PPU-side write: $0000-$1FFF lands in CHR-RAM
    /// through CHR translation, $6000-$7FFF in PRG-RAM when writes are
    /// enabled, and $8000-$FFFF drives the register protocol, where the
    /// address's parity picks the register: even selects/latches, odd
    /// writes data. Everything else is silently absorbed.
    pub open spec fn write(self, addr: u16, val: u8) -> Mmc3View
        recommends self.wf(),
    {
        if addr < 0x2000 {
            let offset = chr_addr_spec(self.r, addr as int);
            Mmc3View {
                cartridge: CartridgeView {
                    chr: if self.cartridge.chr_is_ram {
                        self.cartridge.chr.update(
                            offset % (self.cartridge.chr.len() as int), val)
                    } else {
                        self.cartridge.chr
                    },
                    ..self.cartridge
                },
                ..self
            }
        } else if 0x6000 <= addr && addr < 0x8000 {
            if self.r.prg_ram_writes_enabled {
                Mmc3View {
                    cartridge: CartridgeView {
                        prg_ram: if self.cartridge.prg_ram.len() == 0 {
                            self.cartridge.prg_ram
                        } else {
                            self.cartridge.prg_ram.update(addr as int - 0x6000, val)
                        },
                        ..self.cartridge
                    },
                    ..self
                }
            } else {
                self
            }
        } else if 0x8000 <= addr && addr < 0xA000 {
            if addr % 2 == 0 {
                Mmc3View { r: bank_select_spec(self.r, val), ..self }
            } else {
                Mmc3View { r: bank_data_spec(self.r, val), ..self }
            }
        } else if 0xA000 <= addr && addr < 0xC000 {
            if addr % 2 == 0 {
                Mmc3View { r: mirroring_write_spec(self.r, val), ..self }
            } else {
                Mmc3View { r: ram_protect_spec(self.r, val), ..self }
            }
        } else if 0xC000 <= addr && addr < 0xE000 {
            if addr % 2 == 0 {
                Mmc3View { r: RegistersView { irq_latch: val, ..self.r }, ..self }
            } else {
                Mmc3View { r: RegistersView { irq_counter: 0, ..self.r }, ..self }
            }
        } else if 0xE000 <= addr {
            if addr % 2 == 0 {
                Mmc3View { r: RegistersView { irq_enabled: false, ..self.r }, ..self }
            } else {
                Mmc3View { r: RegistersView { irq_enabled: true, ..self.r }, ..self }
            }
        } else {
            self
        }
    }
}

/// Whether a mapper step observes the scanline edge: PPU cycle 260 on a
/// visible scanline while rendering is enabled.
pub open spec fn tick_active(cycle: u16, scanline: u16, rendering_enabled: bool) -> bool {
    cycle == 260 && scanline < 240 && rendering_enabled
}

/// Effect of one observed scanline edge on the IRQ counter: a zero counter
/// reloads from the latch, a non-zero counter decrements.
pub open spec fn mapper_tick(r: RegistersView) -> RegistersView {
    if r.irq_counter == 0 {
        RegistersView { irq_counter: r.irq_latch, ..r }
    } else {
        RegistersView { irq_counter: (r.irq_counter - 1) as u8, ..r }
    }
}

/// Whether one observed scanline edge raises the IRQ: the decrement reaches
/// zero while the IRQ is enabled.
pub open spec fn mapper_tick_irq(r: RegistersView) -> bool {
    r.irq_counter == 1 && r.irq_enabled
}

/// The register file after `n` observed scanline edges.
pub open spec fn mapper_ticks(r: RegistersView, n: nat) -> RegistersView
    decreases n,
{
    if n == 0 {
        r
    } else {
        mapper_tick(mapper_ticks(r, (n - 1) as nat))
    }
}

/// Cartridge mapper with switchable PRG/CHR banks and a scanline IRQ.
pub struct MMC3 {
    pub cartridge: Cartridge,
    pub r: Registers,
}

impl View for MMC3 {
    type V = Mmc3View;

    open spec fn view(&self) -> Mmc3View {
        Mmc3View { r: self.r@, cartridge: self.cartridge@ }
    }
}

impl MMC3 {
    pub fn new(cartridge: Cartridge) -> (m: MMC3)
        requires cartridge@.wf(),
        ensures
            m@.r == initial_registers(),
            m@.cartridge == cartridge@,
            m@.wf(),
    {
        MMC3 { cartridge, r: Registers::new() }
    }

    pub fn read_byte(&self, addr: u16) -> (b: u8)
        requires self@.wf(),
        ensures b == self@.read(addr),
    {
        if addr < 0x2000 {
            let offset = self.r.get_chr_rom_address(addr as usize);
            self.cartridge.read_chr(offset)
        } else if 0x6000 <= addr && addr < 0x8000 {
            if self.r.prg_ram_enabled {
                self.cartridge.read_prg_ram((addr - 0x6000) as usize)
            } else {
                0
            }
        } else if 0x8000 <= addr {
            let len = self.cartridge.prg_rom_len();
            let prg_rom_banks = len / PRG_BANK_SIZE;
            proof {
                assert(prg_rom_banks >= 2 && prg_rom_banks * PRG_BANK_SIZE <= usize::MAX)
                    by (nonlinear_arith)
                    requires
                        prg_rom_banks == len / PRG_BANK_SIZE,
                        len >= 2 * PRG_BANK_SIZE,
                        PRG_BANK_SIZE == 0x2000,
                        len <= usize::MAX,
                {}
            }
            let offset = self.r.get_prg_rom_address(addr as usize, prg_rom_banks);
            self.cartridge.read_prg_rom(offset)
        } else {
            0
        }
    }

    pub fn write_byte(&mut self, addr: u16, val: u8)
        requires old(self)@.wf(),
        ensures
            final(self)@ == old(self)@.write(addr, val),
            final(self)@.wf(),
    {
        if addr < 0x2000 {
            let offset = self.r.get_chr_rom_address(addr as usize);
            self.cartridge.write_chr(offset, val);
            proof { assert(self@ =~= old(self)@.write(addr, val)); }
        } else if 0x6000 <= addr && addr < 0x8000 {
            if self.r.prg_ram_writes_enabled {
                self.cartridge.write_prg_ram((addr - 0x6000) as usize, val);
            }
            proof { assert(self@ =~= old(self)@.write(addr, val)); }
        } else if 0x8000 <= addr && addr < 0xA000 {
            if addr % 2 == 0 {
                self.r.write_bank_select(val);
            } else {
                self.r.write_bank_data(val);
            }
            proof { assert(self@ =~= old(self)@.write(addr, val)); }
        } else if 0xA000 <= addr && addr < 0xC000 {
            if addr % 2 == 0 {
                self.r.write_mirroring_mode(val);
            } else {
                self.r.write_prg_ram_protect(val);
            }
            proof { assert(self@ =~= old(self)@.write(addr, val)); }
        } else if 0xC000 <= addr && addr < 0xE000 {
            if addr % 2 == 0 {
                self.r.irq_latch = val;
            } else {
                self.r.irq_counter = 0;
            }
            proof { assert(self@ =~= old(self)@.write(addr, val)); }
        } else if 0xE000 <= addr {
            if addr % 2 == 0 {
                self.r.irq_enabled = false;
            } else {
                self.r.irq_enabled = true;
            }
            proof { assert(self@ =~= old(self)@.write(addr, val)); }
        } else {
            proof { assert(self@ =~= old(self)@.write(addr, val)); }
        }
    }

    /// The resolved 1 KiB CHR bank selector behind debug slot `index`, for
    /// overlay renderers that want a window into CHR memory.
    pub fn chr_bank(&self, index: usize) -> (bank: usize)
        requires self@.wf(), index < 8,
        ensures bank == chr_bank_spec(self@.r, index as int),
    {
        match self.r.chr_rom_bank_mode {
            ChrRomBankMode::Two2KFour1K => {
                if index == 0 { (self.r.bank_data[0] & 0xFE) as usize }
                else if index == 1 { (self.r.bank_data[0] | 0x01) as usize }
                else if index == 2 { (self.r.bank_data[1] & 0xFE) as usize }
                else if index == 3 { (self.r.bank_data[1] | 0x01) as usize }
                else { self.r.bank_data[index - 2] as usize }
            }
            ChrRomBankMode::Four1KTwo2K => {
                if index < 4 { self.r.bank_data[index + 2] as usize }
                else if index == 4 { (self.r.bank_data[0] & 0xFE) as usize }
                else if index == 5 { (self.r.bank_data[0] | 0x01) as usize }
                else if index == 6 { (self.r.bank_data[1] & 0xFE) as usize }
                else { (self.r.bank_data[1] | 0x01) as usize }
            }
        }
    }

    pub fn mirroring_mode(&self) -> (mode: MirroringMode)
        ensures mode == self@.effective_mirroring(),
    {
        if self.cartridge.mirroring_mode == MirroringMode::FourScreen {
            MirroringMode::FourScreen
        } else {
            self.r.mirroring_mode
        }
    }

    /// Advances the scanline IRQ counter by one PPU dot, observing the PPU's
    /// cycle, scanline, and whether rendering is enabled. Returns whether the
    /// IRQ is raised on this dot.
    pub fn step(&mut self, cycle: u16, scanline: u16, rendering_enabled: bool) -> (irq: bool)
        requires old(self)@.wf(),
        ensures
            final(self)@.cartridge == old(self)@.cartridge,
            final(self)@.r == (if tick_active(cycle, scanline, rendering_enabled) {
                mapper_tick(old(self)@.r)
            } else {
                old(self)@.r
            }),
            irq == (tick_active(cycle, scanline, rendering_enabled)
                && mapper_tick_irq(old(self)@.r)),
            final(self)@.wf(),
    {
        if cycle != 260 || scanline >= 240 || !rendering_enabled {
            return false;
        }

        if self.r.irq_counter == 0 {
            self.r.irq_counter = self.r.irq_latch;
            proof { assert(self@.r =~= mapper_tick(old(self)@.r)); }
            false
        } else {
            self.r.irq_counter = self.r.irq_counter - 1;
            proof { assert(self@.r =~= mapper_tick(old(self)@.r)); }
            self.r.irq_counter == 0 && self.r.irq_enabled
        }
    }
}

/// After a counter reload, the IRQ is raised on the `irq_latch + 1`-th
/// observed scanline edge and on none before it: the first edge reloads the
/// counter from the latch, and each following edge decrements it.
pub proof fn lemma_irq_timing(r: RegistersView, n: nat)
    requires
        r.wf(),
        r.irq_counter == 0,
        r.irq_enabled,
        r.irq_latch >= 1,
        1 <= n <= r.irq_latch + 1,
    ensures
        mapper_tick_irq(mapper_ticks(r, (n - 1) as nat)) <==> n == r.irq_latch + 1,
    decreases n,
{
    lemma_ticks_counter(r, (n - 1) as nat);
}

/// Helper induction: after the reloading first edge and `k - 1` decrements,
/// the counter reads `irq_latch - (k - 1)` and the latch and enable bits are
/// unchanged.
proof fn lemma_ticks_counter(r: RegistersView, k: nat)
    requires
        r.irq_counter == 0,
        k <= r.irq_latch,
    ensures
        k >= 1 ==> mapper_ticks(r, k).irq_counter == r.irq_latch - (k - 1),
        k == 0 ==> mapper_ticks(r, k).irq_counter == 0,
        mapper_ticks(r, k).irq_latch == r.irq_latch,
        mapper_ticks(r, k).irq_enabled == r.irq_enabled,
    decreases k,
{
    if k > 0 {
        lemma_ticks_counter(r, (k - 1) as nat);
    }
}

/// Why loading a saved state was rejected. Rejection is all-or-nothing: no
/// partially applied state is ever observable.
#[derive(Clone, Copy, Debug, PartialEq, Eq, Structural)]
pub enum StateError {
    /// The blob has the wrong length for what it should hold.
    BadLength,
    /// A field of the blob holds a value outside its range.
    BadValue,
}

/// Byte tag for each mirroring mode in the save-state blob.
pub open spec fn mirroring_index(m: MirroringMode) -> u8 {
    match m {
        MirroringMode::Horizontal => 0,
        MirroringMode::Vertical => 1,
        MirroringMode::Lower => 2,
        MirroringMode::Upper => 3,
        MirroringMode::FourScreen => 4,
    }
}

/// Mirroring mode behind a save-state byte tag.
pub open spec fn mirroring_of(b: u8) -> MirroringMode
    recommends b <= 4,
{
    if b == 0 { MirroringMode::Horizontal }
    else if b == 1 { MirroringMode::Vertical }
    else if b == 2 { MirroringMode::Lower }
    else if b == 3 { MirroringMode::Upper }
    else { MirroringMode::FourScreen }
}

pub open spec fn bool_byte(b: bool) -> u8 {
    if b { 1 } else { 0 }
}

/// The 17-byte save-state encoding of the register file: five mode/flag
/// bytes, the two IRQ counters, the IRQ enable, the eight bank selectors,
/// and the current bank index.
pub open spec fn encode_spec(r: RegistersView) -> Seq<u8> {
    seq![
        mirroring_index(r.mirroring_mode),
        if r.prg_rom_bank_mode == PrgRomBankMode::TwoSwitchTwoFix { 0u8 } else { 1u8 },
        if r.chr_rom_bank_mode == ChrRomBankMode::Two2KFour1K { 0u8 } else { 1u8 },
        bool_byte(r.prg_ram_writes_enabled),
        bool_byte(r.prg_ram_enabled),
        r.irq_latch,
        r.irq_counter,
        bool_byte(r.irq_enabled),
    ] + r.bank_data + seq![r.current_bank]
}

/// Whether a blob is a valid register-file encoding.
pub open spec fn decode_ok(b: Seq<u8>) -> bool {
    &&& b.len() == 17
    &&& b[0] <= 4
    &&& b[1] <= 1
    &&& b[2] <= 1
    &&& b[3] <= 1
    &&& b[4] <= 1
    &&& b[7] <= 1
    &&& b[16] < 8
}

/// The register file a valid blob decodes to.
pub open spec fn decode_val(b: Seq<u8>) -> RegistersView
    recommends decode_ok(b),
{
    RegistersView {
        mirroring_mode: mirroring_of(b[0]),
        prg_rom_bank_mode: if b[1] == 0 {
            PrgRomBankMode::TwoSwitchTwoFix
        } else {
            PrgRomBankMode::FixTwoSwitchFix
        },
        chr_rom_bank_mode: if b[2] == 0 {
            ChrRomBankMode::Two2KFour1K
        } else {
            ChrRomBankMode::Four1KTwo2K
        },
        prg_ram_writes_enabled: b[3] == 1,
        prg_ram_enabled: b[4] == 1,
        irq_latch: b[5],
        irq_counter: b[6],
        irq_enabled: b[7] == 1,
        bank_data: b.subrange(8, 16),
        current_bank: b[16],
    }
}

/// Copies a byte slice into a fresh vector.
fn copy_slice(src: &[u8]) -> (out: Vec<u8>)
    ensures out@ == src@,
{
    let mut out: Vec<u8> = Vec::new();
    let mut i: usize = 0;
    while i < src.len()
        invariant
            i <= src@.len(),
            out@ == src@.subrange(0, i as int),
        decreases src@.len() - i,
    {
        out.push(src[i]);
        i += 1;
    }
    proof { assert(out@ =~= src@); }
    out
}

/// Copies a byte vector.
fn copy_bytes(src: &Vec<u8>) -> (out: Vec<u8>)
    ensures out@ == src@,
{
    let mut out: Vec<u8> = Vec::new();
    let mut i: usize = 0;
    while i < src.len()
        invariant
            i <= src@.len(),
            out@ == src@.subrange(0, i as int),
        decreases src@.len() - i,
    {
        out.push(src[i]);
        i += 1;
    }
    proof { assert(out@ =~= src@); }
    out
}

/// Serializes the register file into its 17-byte blob.
pub fn encode_registers(r: &Registers) -> (out: Vec<u8>)
    requires r@.wf(),
    ensures out@ == encode_spec(r@),
{
    let mut out: Vec<u8> = Vec::new();
    out.push(match r.mirroring_mode {
        MirroringMode::Horizontal => 0,
        MirroringMode::Vertical => 1,
        MirroringMode::Lower => 2,
        MirroringMode::Upper => 3,
        MirroringMode::FourScreen => 4,
    });
    out.push(match r.prg_rom_bank_mode {
        PrgRomBankMode::TwoSwitchTwoFix => 0,
        PrgRomBankMode::FixTwoSwitchFix => 1,
    });
    out.push(match r.chr_rom_bank_mode {
        ChrRomBankMode::Two2KFour1K => 0,
        ChrRomBankMode::Four1KTwo2K => 1,
    });
    out.push(if r.prg_ram_writes_enabled { 1 } else { 0 });
    out.push(if r.prg_ram_enabled { 1 } else { 0 });
    out.push(r.irq_latch);
    out.push(r.irq_counter);
    out.push(if r.irq_enabled { 1 } else { 0 });
    out.push(r.bank_data[0]);
    out.push(r.bank_data[1]);
    out.push(r.bank_data[2]);
    out.push(r.bank_data[3]);
    out.push(r.bank_data[4]);
    out.push(r.bank_data[5]);
    out.push(r.bank_data[6]);
    out.push(r.bank_data[7]);
    out.push(r.current_bank);
    proof { assert(out@ =~= encode_spec(r@)); }
    out
}

/// Parses a 17-byte blob back into a register file, rejecting any blob of
/// the wrong length or with an out-of-range field.
pub fn decode_registers(data: &[u8]) -> (res: Result<Registers, StateError>)
    ensures
        res matches Ok(r) ==> decode_ok(data@) && r@ == decode_val(data@) && r@.wf(),
        res matches Err(_) ==> !decode_ok(data@),
        res matches Err(e) ==> (e == StateError::BadLength <==> data@.len() != 17),
        res is Ok <==> decode_ok(data@),
    {
    if data.len() != 17 {
        return Err(StateError::BadLength);
    }
    if data[0] > 4 || data[1] > 1 || data[2] > 1 || data[3] > 1 || data[4] > 1
        || data[7] > 1 || data[16] >= 8 {
        return Err(StateError::BadValue);
    }
    let mut bank_data: Vec<u8> = Vec::new();
    bank_data.push(data[8]);
    bank_data.push(data[9]);
    bank_data.push(data[10]);
    bank_data.push(data[11]);
    bank_data.push(data[12]);
    bank_data.push(data[13]);
    bank_data.push(data[14]);
    bank_data.push(data[15]);
    let r = Registers {
        mirroring_mode: if data[0] == 0 { MirroringMode::Horizontal }
            else if data[0] == 1 { MirroringMode::Vertical }
            else if data[0] == 2 { MirroringMode::Lower }
            else if data[0] == 3 { MirroringMode::Upper }
            else { MirroringMode::FourScreen },
        prg_rom_bank_mode: if data[1] == 0 {
            PrgRomBankMode::TwoSwitchTwoFix
        } else {
            PrgRomBankMode::FixTwoSwitchFix
        },
        chr_rom_bank_mode: if data[2] == 0 {
            ChrRomBankMode::Two2KFour1K
        } else {
            ChrRomBankMode::Four1KTwo2K
        },
        prg_ram_writes_enabled: data[3] == 1,
        prg_ram_enabled: data[4] == 1,
        irq_latch: data[5],
        irq_counter: data[6],
        irq_enabled: data[7] == 1,
        bank_data,
        current_bank: data[16],
    };
    proof { assert(r@ =~= decode_val(data@)); }
    Ok(r)
}

impl MMC3 {
    /// Persists the cartridge's battery-backed PRG-RAM, when it has any.
    pub fn save(&self) -> (out: Option<Vec<u8>>)
        ensures
            out is Some <==> self@.cartridge.prg_ram.len() != 0,
            out matches Some(v) ==> v@ == self@.cartridge.prg_ram,
    {
        if self.cartridge.prg_ram.len() == 0 {
            None
        } else {
            Some(copy_bytes(&self.cartridge.prg_ram))
        }
    }

    /// Restores battery-backed PRG-RAM. Succeeds exactly when the blob's
    /// length matches the cartridge's PRG-RAM size; on failure nothing
    /// changes.
    pub fn load(&mut self, save_data: &[u8]) -> (res: Result<(), StateError>)
        requires old(self)@.wf(),
        ensures
            res is Ok <==> save_data@.len() == old(self)@.cartridge.prg_ram.len(),
            res is Ok ==> final(self)@ == (Mmc3View {
                cartridge: CartridgeView {
                    prg_ram: save_data@,
                    ..old(self)@.cartridge
                },
                ..old(self)@
            }),
            res is Err ==> final(self)@ == old(self)@,
            final(self)@.wf(),
    {
        if save_data.len() != self.cartridge.prg_ram.len() {
            return Err(StateError::BadLength);
        }
        self.cartridge.prg_ram = copy_slice(save_data);
        proof {
            assert(self@ =~= (Mmc3View {
                cartridge: CartridgeView {
                    prg_ram: save_data@,
                    ..old(self)@.cartridge
                },
                ..old(self)@
            }));
        }
        Ok(())
    }

    /// Serializes the mapper's register file and the cartridge PRG-RAM as
    /// two opaque blobs.
    pub fn save_state(&self) -> (out: (Vec<u8>, Vec<u8>))
        requires self@.wf(),
        ensures
            out.0@ == encode_spec(self@.r),
            out.1@ == self@.cartridge.prg_ram,
    {
        (encode_registers(&self.r), copy_bytes(&self.cartridge.prg_ram))
    }

    /// Restores a saved state. Succeeds exactly when the register blob
    /// decodes and the RAM blob's length matches the cartridge; on failure
    /// nothing changes (all-or-nothing swap).
    pub fn load_state(&mut self, mapper_data: &[u8], save_data: &[u8])
        -> (res: Result<(), StateError>)
        requires old(self)@.wf(),
        ensures
            res is Ok <==> (decode_ok(mapper_data@)
                && save_data@.len() == old(self)@.cartridge.prg_ram.len()),
            res is Ok ==> final(self)@ == (Mmc3View {
                r: decode_val(mapper_data@),
                cartridge: CartridgeView {
                    prg_ram: save_data@,
                    ..old(self)@.cartridge
                },
            }),
            res is Err ==> final(self)@ == old(self)@,
            final(self)@.wf(),
    {
        let decoded = match decode_registers(mapper_data) {
            Ok(r) => r,
            Err(e) => {
                return Err(e);
            }
        };
        if save_data.len() != self.cartridge.prg_ram.len() {
            return Err(StateError::BadLength);
        }
        self.r = decoded;
        self.cartridge.prg_ram = copy_slice(save_data);
        proof {
            assert(self@ =~= (Mmc3View {
                r: decode_val(mapper_data@),
                cartridge: CartridgeView {
                    prg_ram: save_data@,
                    ..old(self)@.cartridge
                },
            }));
        }
        Ok(())
    }
}

/// Decoding inverts encoding: every well-formed register file comes back
/// unchanged from its save-state blob.
pub proof fn lemma_state_round_trip(r: RegistersView)
    requires r.wf(),
    ensures
        decode_ok(encode_spec(r)),
        decode_val(encode_spec(r)) == r,
{
    let e = encode_spec(r);
    assert(e.subrange(8, 16) =~= r.bank_data);
    assert(decode_val(e) =~= r);
}

/// Loading a saved state restores exactly the state it was saved from:
/// `load_state` applied to the two blobs of `save_state` is the identity on
/// the register file and the cartridge PRG-RAM.
pub proof fn lemma_save_load_state_identity(m: Mmc3View)
    requires m.wf(),
    ensures
        decode_ok(encode_spec(m.r)),
        (Mmc3View {
            r: decode_val(encode_spec(m.r)),
            cartridge: CartridgeView { prg_ram: m.cartridge.prg_ram, ..m.cartridge },
        }) == m,
{
    lemma_state_round_trip(m.r);
    assert((Mmc3View {
        r: decode_val(encode_spec(m.r)),
        cartridge: CartridgeView { prg_ram: m.cartridge.prg_ram, ..m.cartridge },
    }) =~= m);
}

} // verus!
