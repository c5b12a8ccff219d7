//! Source spans, fatal errors and warnings of the assembler.

use crate::section::{Kind, Modifier};
use vstd::prelude::*;

verus! {

/// A range of the source text, from its first byte to the byte after its last.
#[derive(Debug, Clone, Copy, PartialEq, Eq, Structural, Hash)]
pub struct Span {
    pub begin: usize,
    pub end: usize,
}

/// Why a declaration or an emission was refused.
#[derive(Debug, Clone, Copy, PartialEq, Eq, Structural)]
pub enum AsmErrorKind {
    /// The name belongs to a section that may be declared only once.
    SectionAlreadyDefined { previous: Span },
    /// The name belongs to a section declared with another modifier.
    DifferentModifier { modifier: Modifier, previous: Span },
    /// The name belongs to a section of another memory region.
    DifferentKind { kind: Kind, previous: Span },
    /// A further branch of a union lies in a region that holds data.
    DataInUnion { kind: Kind },
    /// Bytes were emitted into a region that holds none.
    NotDataSection { kind: Kind },
    /// The address is no 16-bit number.
    AddressOutOfRange { requested: i32 },
    /// The address lies outside the region, which runs from `first` to `last`.
    AddressOutOfBounds { address: u16, first: u16, last: u16 },
    /// A bank was named for a region that has none to choose from.
    Unbanked { kind: Kind },
    /// The bank is not one of the region's, which run from `first` to `last`.
    BankOutOfRange { bank: u32, first: u32, last: u32 },
    /// The alignment is not between 0 and 16.
    AlignmentOutOfRange { requested: i32 },
    /// The alignment offset is negative or not below `limit`.
    AlignmentOffsetOutOfRange { align_offset: i32, limit: i32 },
    /// `address` does not leave the residue `offset` modulo two to the power `alignment`.
    AlignmentMismatch { address: u16, alignment: u8, offset: u16 },
    /// No address of the region is aligned that much.
    OverAligned { alignment: u8, kind: Kind },
    /// Two declarations name different banks.
    BankMismatch { current: u32, new: u32 },
}

/// A fatal error together with the place it is reported at.
#[derive(Debug, Clone, Copy, PartialEq, Eq, Structural)]
pub struct AsmError {
    pub span: Span,
    pub kind: AsmErrorKind,
}

/// What a warning is about.
#[derive(Debug, Clone, Copy, PartialEq, Eq, Structural)]
pub enum WarningKind {
    /// A constant does not fit `width` bits; level 1 is the stricter finding, level 2 the looser.
    Truncation { level: u8, width: u8 },
}

/// A finding that does not stop the assembly.
#[derive(Debug, Clone, Copy, PartialEq, Eq, Structural)]
pub struct Warning {
    pub span: Span,
    pub kind: WarningKind,
}

} // verus!
