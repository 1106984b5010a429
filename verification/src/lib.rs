use vstd::prelude::*;

pub mod cartridge;
pub mod mapper;
pub mod palette;
pub mod ppu;
pub mod ppu_registers;

verus! {

} // verus!
