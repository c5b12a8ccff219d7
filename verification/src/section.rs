//! Memory regions of the target and the ways a section may be declared.

use vstd::prelude::*;

verus! {

/// A memory region of the target machine.
#[derive(Debug, Clone, Copy, PartialEq, Eq, Structural, Hash)]
pub enum Kind {
    Wram0,
    Vram,
    Romx,
    Rom0,
    Hram,
    Wramx,
    Sram,
    Oam,
}

/// How a section behaves when its name is declared again.
#[derive(Debug, Clone, Copy, PartialEq, Eq, Structural, Hash)]
pub enum Modifier {
    /// Declared once.
    Normal,
    /// Every declaration overlays the same addresses.
    Union,
    /// Every declaration is appended to the previous ones.
    Fragment,
}

impl Kind {
    /// First address of the region.
    pub open spec fn spec_start_addr(self) -> u16 {
        match self {
            Kind::Wram0 => 0xC000,
            Kind::Vram => 0x8000,
            Kind::Romx => 0x4000,
            Kind::Rom0 => 0x0000,
            Kind::Hram => 0xFF80,
            Kind::Wramx => 0xD000,
            Kind::Sram => 0xA000,
            Kind::Oam => 0xFE00,
        }
    }

    /// Largest size in bytes that the region can have under any layout.
    pub open spec fn spec_size(self) -> u16 {
        match self {
            Kind::Wram0 => 0x2000,
            Kind::Vram => 0x2000,
            Kind::Romx => 0x4000,
            Kind::Rom0 => 0x8000,
            Kind::Hram => 0x007F,
            Kind::Wramx => 0x1000,
            Kind::Sram => 0x2000,
            Kind::Oam => 0x00A0,
        }
    }

    /// Lowest bank index that is legal for the region under any layout.
    pub open spec fn spec_first_bank(self) -> u32 {
        match self {
            Kind::Romx => 1,
            Kind::Wramx => 1,
            _ => 0,
        }
    }

    /// Highest bank index that is legal for the region under any layout.
    pub open spec fn spec_last_bank(self) -> u32 {
        match self {
            Kind::Vram => 1,
            Kind::Romx => 511,
            Kind::Wramx => 7,
            Kind::Sram => 15,
            _ => 0,
        }
    }

    /// Whether the region's bytes are part of the output image.
    pub open spec fn spec_has_data(self) -> bool {
        self == Kind::Rom0 || self == Kind::Romx
    }

    /// Whether a bank may be named for the region at all.
    pub open spec fn spec_is_banked(self) -> bool {
        self == Kind::Romx || self == Kind::Vram || self == Kind::Sram || self == Kind::Wramx
    }

    /// Last address of the region.
    pub open spec fn spec_end_addr(self) -> int {
        self.spec_start_addr() + self.spec_size() - 1
    }

    #[verifier::when_used_as_spec(spec_start_addr)]
    pub fn start_addr(self) -> (r: u16)
        ensures
            r == self.spec_start_addr(),
    {
        match self {
            Kind::Wram0 => 0xC000,
            Kind::Vram => 0x8000,
            Kind::Romx => 0x4000,
            Kind::Rom0 => 0x0000,
            Kind::Hram => 0xFF80,
            Kind::Wramx => 0xD000,
            Kind::Sram => 0xA000,
            Kind::Oam => 0xFE00,
        }
    }

    #[verifier::when_used_as_spec(spec_size)]
    pub fn size(self) -> (r: u16)
        ensures
            r == self.spec_size(),
            r >= 1,
            self.spec_start_addr() + r <= 0x1_0000,
    {
        match self {
            Kind::Wram0 => 0x2000,
            Kind::Vram => 0x2000,
            Kind::Romx => 0x4000,
            Kind::Rom0 => 0x8000,
            Kind::Hram => 0x007F,
            Kind::Wramx => 0x1000,
            Kind::Sram => 0x2000,
            Kind::Oam => 0x00A0,
        }
    }

    /// The legal bank indices, as an inclusive range.
    pub fn banks(self) -> (r: (u32, u32))
        ensures
            r.0 == self.spec_first_bank(),
            r.1 == self.spec_last_bank(),
            r.0 <= r.1,
    {
        match self {
            Kind::Vram => (0, 1),
            Kind::Romx => (1, 511),
            Kind::Wramx => (1, 7),
            Kind::Sram => (0, 15),
            _ => (0, 0),
        }
    }

    #[verifier::when_used_as_spec(spec_has_data)]
    pub fn has_data(self) -> (r: bool)
        ensures
            r == self.spec_has_data(),
    {
        matches!(self, Kind::Rom0 | Kind::Romx)
    }

    #[verifier::when_used_as_spec(spec_is_banked)]
    pub fn is_banked(self) -> (r: bool)
        ensures
            r == self.spec_is_banked(),
    {
        matches!(self, Kind::Romx | Kind::Vram | Kind::Sram | Kind::Wramx)
    }
}

} // verus!
