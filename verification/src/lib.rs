//! Tools for a banked, byte-addressable target: the section and relocation
//! manager of the assembler, and the option parsing of the header fixer.

pub mod assembler;
pub mod fix;
pub mod reloc;
pub mod section;
