//! The fixed 64-entry RGB colour table that palette indices resolve to.

use vstd::prelude::*;

verus! {

/// The RGB value (0x00RRGGBB) of master-palette entry `index` (0..64).
pub open spec fn color_spec(index: int) -> u32 {
    if index == 0 { 0x007C7C7Cu32 }
    else if index == 1 { 0x000000FCu32 }
    else if index == 2 { 0x000000BCu32 }
    else if index == 3 { 0x004428BCu32 }
    else if index == 4 { 0x00940084u32 }
    else if index == 5 { 0x00A80020u32 }
    else if index == 6 { 0x00A81000u32 }
    else if index == 7 { 0x00881400u32 }
    else if index == 8 { 0x00503000u32 }
    else if index == 9 { 0x00007800u32 }
    else if index == 10 { 0x00006800u32 }
    else if index == 11 { 0x00005800u32 }
    else if index == 12 { 0x00004058u32 }
    else if index == 13 { 0x00000000u32 }
    else if index == 14 { 0x00000000u32 }
    else if index == 15 { 0x00000000u32 }
    else if index == 16 { 0x00BCBCBCu32 }
    else if index == 17 { 0x000078F8u32 }
    else if index == 18 { 0x000058F8u32 }
    else if index == 19 { 0x006844FCu32 }
    else if index == 20 { 0x00D800CCu32 }
    else if index == 21 { 0x00E40058u32 }
    else if index == 22 { 0x00F83800u32 }
    else if index == 23 { 0x00E45C10u32 }
    else if index == 24 { 0x00AC7C00u32 }
    else if index == 25 { 0x0000B800u32 }
    else if index == 26 { 0x0000A800u32 }
    else if index == 27 { 0x0000A844u32 }
    else if index == 28 { 0x00008888u32 }
    else if index == 29 { 0x00000000u32 }
    else if index == 30 { 0x00000000u32 }
    else if index == 31 { 0x00000000u32 }
    else if index == 32 { 0x00F8F8F8u32 }
    else if index == 33 { 0x003CBCFCu32 }
    else if index == 34 { 0x006888FCu32 }
    else if index == 35 { 0x009878F8u32 }
    else if index == 36 { 0x00F878F8u32 }
    else if index == 37 { 0x00F85898u32 }
    else if index == 38 { 0x00F87858u32 }
    else if index == 39 { 0x00FCA044u32 }
    else if index == 40 { 0x00F8B800u32 }
    else if index == 41 { 0x00B8F818u32 }
    else if index == 42 { 0x0058D854u32 }
    else if index == 43 { 0x0058F898u32 }
    else if index == 44 { 0x0000E8D8u32 }
    else if index == 45 { 0x00787878u32 }
    else if index == 46 { 0x00000000u32 }
    else if index == 47 { 0x00000000u32 }
    else if index == 48 { 0x00FCFCFCu32 }
    else if index == 49 { 0x00A4E4FCu32 }
    else if index == 50 { 0x00B8B8F8u32 }
    else if index == 51 { 0x00D8B8F8u32 }
    else if index == 52 { 0x00F8B8F8u32 }
    else if index == 53 { 0x00F8A4C0u32 }
    else if index == 54 { 0x00F0D0B0u32 }
    else if index == 55 { 0x00FCE0A8u32 }
    else if index == 56 { 0x00F8D878u32 }
    else if index == 57 { 0x00D8F878u32 }
    else if index == 58 { 0x00B8F8B8u32 }
    else if index == 59 { 0x00B8F8D8u32 }
    else if index == 60 { 0x0000FCFCu32 }
    else if index == 61 { 0x00F8D8F8u32 }
    else if index == 62 { 0x00000000u32 }
    else { 0x00000000u32 }
}

/// Exec lookup of the master palette.
pub fn color_at(index: u8) -> (c: u32)
    requires index < 64,
    ensures c == color_spec(index as int),
{
    if index == 0 { 0x007C7C7C }
    else if index == 1 { 0x000000FC }
    else if index == 2 { 0x000000BC }
    else if index == 3 { 0x004428BC }
    else if index == 4 { 0x00940084 }
    else if index == 5 { 0x00A80020 }
    else if index == 6 { 0x00A81000 }
    else if index == 7 { 0x00881400 }
    else if index == 8 { 0x00503000 }
    else if index == 9 { 0x00007800 }
    else if index == 10 { 0x00006800 }
    else if index == 11 { 0x00005800 }
    else if index == 12 { 0x00004058 }
    else if index == 13 { 0x00000000 }
    else if index == 14 { 0x00000000 }
    else if index == 15 { 0x00000000 }
    else if index == 16 { 0x00BCBCBC }
    else if index == 17 { 0x000078F8 }
    else if index == 18 { 0x000058F8 }
    else if index == 19 { 0x006844FC }
    else if index == 20 { 0x00D800CC }
    else if index == 21 { 0x00E40058 }
    else if index == 22 { 0x00F83800 }
    else if index == 23 { 0x00E45C10 }
    else if index == 24 { 0x00AC7C00 }
    else if index == 25 { 0x0000B800 }
    else if index == 26 { 0x0000A800 }
    else if index == 27 { 0x0000A844 }
    else if index == 28 { 0x00008888 }
    else if index == 29 { 0x00000000 }
    else if index == 30 { 0x00000000 }
    else if index == 31 { 0x00000000 }
    else if index == 32 { 0x00F8F8F8 }
    else if index == 33 { 0x003CBCFC }
    else if index == 34 { 0x006888FC }
    else if index == 35 { 0x009878F8 }
    else if index == 36 { 0x00F878F8 }
    else if index == 37 { 0x00F85898 }
    else if index == 38 { 0x00F87858 }
    else if index == 39 { 0x00FCA044 }
    else if index == 40 { 0x00F8B800 }
    else if index == 41 { 0x00B8F818 }
    else if index == 42 { 0x0058D854 }
    else if index == 43 { 0x0058F898 }
    else if index == 44 { 0x0000E8D8 }
    else if index == 45 { 0x00787878 }
    else if index == 46 { 0x00000000 }
    else if index == 47 { 0x00000000 }
    else if index == 48 { 0x00FCFCFC }
    else if index == 49 { 0x00A4E4FC }
    else if index == 50 { 0x00B8B8F8 }
    else if index == 51 { 0x00D8B8F8 }
    else if index == 52 { 0x00F8B8F8 }
    else if index == 53 { 0x00F8A4C0 }
    else if index == 54 { 0x00F0D0B0 }
    else if index == 55 { 0x00FCE0A8 }
    else if index == 56 { 0x00F8D878 }
    else if index == 57 { 0x00D8F878 }
    else if index == 58 { 0x00B8F8B8 }
    else if index == 59 { 0x00B8F8D8 }
    else if index == 60 { 0x0000FCFC }
    else if index == 61 { 0x00F8D8F8 }
    else if index == 62 { 0x00000000 }
    else { 0x00000000 }
}

} // verus!
