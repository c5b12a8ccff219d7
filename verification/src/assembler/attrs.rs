//! Placement constraints of a section: how the raw attributes of a declaration are checked
//! and resolved, and how the constraints of two declarations of one name are reconciled.

use crate::assembler::expr::Evaluated;
use crate::assembler::language::{AsmError, AsmErrorKind, Span};
use crate::section::Kind;
use vstd::prelude::*;

verus! {

/// The attributes of a declaration besides its address, each evaluated if it was written.
#[derive(Debug, Clone, Copy, Default)]
pub struct SectionAttributes {
    pub bank: Option<Evaluated>,
    pub alignment: Option<Evaluated>,
    pub offset: Option<Evaluated>,
}

/// Where a section must be placed.
///
/// With `alignment` at `a` and no address, the start address must leave the residue
/// `align_offset` modulo `2^a`. A pinned address stands for itself: `alignment` is then 0.
#[derive(Debug, Clone, Copy, PartialEq, Eq, Structural)]
pub struct NormalizedSectAttrs {
    pub address: Option<u16>,
    pub bank: Option<u32>,
    pub alignment: u8,
    pub align_offset: u16,
}

/// Two to the power `alignment`, for an alignment up to 16.
pub open spec fn align_limit(alignment: u8) -> u32 {
    1u32 << (alignment as u32)
}

/// The low `alignment` bits set, for an alignment up to 16.
pub open spec fn align_mask(alignment: u8) -> u32 {
    ((1u32 << (alignment as u32)) - 1) as u32
}

/// The residue of `value` modulo two to the power `alignment`.
pub open spec fn low_bits(value: u32, alignment: u8) -> u32 {
    value & align_mask(alignment)
}

/// Two to the power of an alignment lies between 1 and 65536.
pub proof fn lemma_limit_bounds(a: u32)
    requires
        a <= 16,
    ensures
        1 <= (1u32 << a) <= 0x1_0000,
        a == 16 ==> (1u32 << a) == 0x1_0000,
        a == 0 ==> (1u32 << a) == 1,
{
    assert(a <= 16 ==> 1 <= (1u32 << a) <= 0x1_0000) by (bit_vector);
    assert(a == 16 ==> (1u32 << a) == 0x1_0000) by (bit_vector);
    assert(a == 0 ==> (1u32 << a) == 1) by (bit_vector);
}

proof fn lemma_low_bits(value: u32, a: u32)
    requires
        a <= 16,
    ensures
        value & (((1u32 << a) - 1) as u32) < (1u32 << a),
        value < (1u32 << a) ==> value & (((1u32 << a) - 1) as u32) == value,
        a == 16 && value <= 0xFFFF ==> value & (((1u32 << a) - 1) as u32) == value,
{
    let m: u32 = 1u32 << a;
    lemma_limit_bounds(a);
    let k: u32 = (m - 1) as u32;
    assert(a <= 16 && m == (1u32 << a) && k == m - 1 ==> (value & k) < m) by (bit_vector);
    assert(a <= 16 && m == (1u32 << a) && k == m - 1 && value < m ==> (value & k) == value)
        by (bit_vector);
}

/// Two to the power `alignment`.
pub fn limit_of(alignment: u8) -> (r: u32)
    requires
        alignment <= 16,
    ensures
        r == align_limit(alignment),
        1 <= r <= 0x1_0000,
{
    proof {
        lemma_limit_bounds(alignment as u32);
    }
    1u32 << (alignment as u32)
}

/// The residue of `value` modulo two to the power `alignment`.
pub fn low_bits_of(value: u32, alignment: u8) -> (r: u32)
    requires
        alignment <= 16,
    ensures
        r == low_bits(value, alignment),
        r < align_limit(alignment),
        r <= 0xFFFF,
        value < align_limit(alignment) ==> r == value,
{
    let limit = limit_of(alignment);
    proof {
        lemma_low_bits(value, alignment as u32);
    }
    value & (limit - 1)
}

/// What an address expression's value is held to: a 16-bit number inside the region.
pub open spec fn spec_check_address(kind: Kind, value: i32) -> Result<u16, AsmErrorKind> {
    if value < 0 || value > 0xFFFF {
        Err(AsmErrorKind::AddressOutOfRange { requested: value })
    } else if value < kind.spec_start_addr() || value > kind.spec_end_addr() {
        Err(
            AsmErrorKind::AddressOutOfBounds {
                address: value as u16,
                first: kind.spec_start_addr(),
                last: kind.spec_end_addr() as u16,
            },
        )
    } else {
        Ok(value as u16)
    }
}

/// The value of a bank expression read as an unsigned 32-bit number.
pub open spec fn bank_number(value: i32) -> u32 {
    if value < 0 {
        (value + 0x1_0000_0000) as u32
    } else {
        value as u32
    }
}

/// What a bank expression's value is held to: the region has banks, and this is one of them.
pub open spec fn spec_check_bank(kind: Kind, value: i32) -> Result<u32, AsmErrorKind> {
    if !kind.spec_is_banked() {
        Err(AsmErrorKind::Unbanked { kind })
    } else if kind.spec_first_bank() <= bank_number(value) <= kind.spec_last_bank() {
        Ok(bank_number(value))
    } else {
        Err(
            AsmErrorKind::BankOutOfRange {
                bank: bank_number(value),
                first: kind.spec_first_bank(),
                last: kind.spec_last_bank(),
            },
        )
    }
}

/// What an alignment expression's value is held to: 0 to 16.
pub open spec fn spec_check_alignment(value: i32) -> Result<u8, AsmErrorKind> {
    if 0 <= value <= 16 {
        Ok(value as u8)
    } else {
        Err(AsmErrorKind::AlignmentOutOfRange { requested: value })
    }
}

/// What an alignment offset's value is held to: not negative and below `2^alignment`.
pub open spec fn spec_check_align_offset(alignment: u8, value: i32) -> Result<u16, AsmErrorKind> {
    if 0 <= value < align_limit(alignment) {
        Ok(value as u16)
    } else {
        Err(
            AsmErrorKind::AlignmentOffsetOutOfRange {
                align_offset: value,
                limit: align_limit(alignment) as i32,
            },
        )
    }
}

/// The bank that a region forces on its sections: its only bank, if it has just one.
pub open spec fn forced_bank(kind: Kind, bank: Option<u32>) -> Option<u32> {
    if kind.spec_first_bank() == kind.spec_last_bank() {
        Some(kind.spec_first_bank())
    } else {
        bank
    }
}

/// The constraint that checked attributes resolve to.
///
/// An alignment beside an address is only verified against it: the address stays and the
/// alignment becomes 0. An alignment without an address must be one that the region's first
/// address meets, and stays as it is, up to the full 16 bits; the address field is never
/// filled in from an alignment.
pub open spec fn spec_resolve(
    kind: Kind,
    address: Option<u16>,
    bank: Option<u32>,
    alignment: u8,
    align_offset: u16,
) -> Result<NormalizedSectAttrs, AsmErrorKind> {
    let bank = forced_bank(kind, bank);
    if alignment == 0 {
        Ok(NormalizedSectAttrs { address, bank, alignment, align_offset })
    } else if let Some(addr) = address {
        if low_bits(addr as u32, alignment) != align_offset {
            Err(AsmErrorKind::AlignmentMismatch { address: addr, alignment, offset: align_offset })
        } else {
            Ok(NormalizedSectAttrs { address, bank, alignment: 0, align_offset })
        }
    } else if low_bits(kind.spec_start_addr() as u32, alignment) != 0 {
        Err(AsmErrorKind::OverAligned { alignment, kind })
    } else {
        Ok(NormalizedSectAttrs { address, bank, alignment, align_offset })
    }
}

/// The whole normalization: each attribute that was written is checked in the order address,
/// bank, alignment, offset, the first failure is reported at that attribute's own span, and
/// what passed is resolved, a failure there being reported at the declaration's span.
pub open spec fn spec_try_new(
    kind: Kind,
    address: Option<Evaluated>,
    attrs: SectionAttributes,
    span: Span,
) -> Result<NormalizedSectAttrs, AsmError> {
    let alignment = match attrs.alignment {
        Some(e) => e.value as u8,
        None => 0u8,
    };
    if address is Some && spec_check_address(kind, address->0.value) is Err {
        Err(
            AsmError {
                span: address->0.span,
                kind: spec_check_address(kind, address->0.value)->Err_0,
            },
        )
    } else if attrs.bank is Some && spec_check_bank(kind, attrs.bank->0.value) is Err {
        Err(
            AsmError {
                span: attrs.bank->0.span,
                kind: spec_check_bank(kind, attrs.bank->0.value)->Err_0,
            },
        )
    } else if attrs.alignment is Some && spec_check_alignment(attrs.alignment->0.value) is Err {
        Err(
            AsmError {
                span: attrs.alignment->0.span,
                kind: spec_check_alignment(attrs.alignment->0.value)->Err_0,
            },
        )
    } else if attrs.offset is Some && spec_check_align_offset(alignment, attrs.offset->0.value)
        is Err {
        Err(
            AsmError {
                span: attrs.offset->0.span,
                kind: spec_check_align_offset(alignment, attrs.offset->0.value)->Err_0,
            },
        )
    } else {
        let resolved = spec_resolve(
            kind,
            match address {
                Some(e) => Some(e.value as u16),
                None => None,
            },
            match attrs.bank {
                Some(e) => Some(bank_number(e.value)),
                None => None,
            },
            alignment,
            match attrs.offset {
                Some(e) => e.value as u16,
                None => 0u16,
            },
        );
        match resolved {
            Ok(n) => Ok(n),
            Err(kind) => Err(AsmError { span, kind }),
        }
    }
}

/// Checks the value of an address expression against the region.
pub fn check_address(kind: Kind, value: i32) -> (r: Result<u16, AsmErrorKind>)
    ensures
        r == spec_check_address(kind, value),
{
    if value < 0 || value > 0xFFFF {
        return Err(AsmErrorKind::AddressOutOfRange { requested: value });
    }
    let addr: u16 = value as u16;
    let start: u16 = kind.start_addr();
    let size: u16 = kind.size();
    let last: u16 = start + (size - 1);
    if addr < start || addr > last {
        Err(AsmErrorKind::AddressOutOfBounds { address: addr, first: start, last })
    } else {
        Ok(addr)
    }
}

/// Checks the value of a bank expression against the region.
pub fn check_bank(kind: Kind, value: i32) -> (r: Result<u32, AsmErrorKind>)
    ensures
        r == spec_check_bank(kind, value),
{
    if !kind.is_banked() {
        return Err(AsmErrorKind::Unbanked { kind });
    }
    let bank: u32 = if value < 0 {
        (value as i64 + 0x1_0000_0000) as u32
    } else {
        value as u32
    };
    let (first, last) = kind.banks();
    if first <= bank && bank <= last {
        Ok(bank)
    } else {
        Err(AsmErrorKind::BankOutOfRange { bank, first, last })
    }
}

/// Checks the value of an alignment expression.
pub fn check_alignment(value: i32) -> (r: Result<u8, AsmErrorKind>)
    ensures
        r == spec_check_alignment(value),
{
    if 0 <= value && value <= 16 {
        Ok(value as u8)
    } else {
        Err(AsmErrorKind::AlignmentOutOfRange { requested: value })
    }
}

/// Checks the value of an alignment offset against the alignment it goes with.
pub fn check_align_offset(alignment: u8, value: i32) -> (r: Result<u16, AsmErrorKind>)
    requires
        alignment <= 16,
    ensures
        r == spec_check_align_offset(alignment, value),
{
    let limit: u32 = limit_of(alignment);
    if 0 <= value && (value as u32) < limit {
        Ok(value as u16)
    } else {
        Err(AsmErrorKind::AlignmentOffsetOutOfRange { align_offset: value, limit: limit as i32 })
    }
}

impl NormalizedSectAttrs {
    /// The constraint keeps to its own rules: the alignment is at most 16, it is 0 beside a
    /// pinned address, and otherwise the offset is a residue modulo `2^alignment`.
    pub open spec fn wf(self) -> bool {
        &&& self.alignment <= 16
        &&& self.address is Some ==> self.alignment == 0
        &&& self.address is None ==> self.align_offset < align_limit(self.alignment)
    }

    /// Resolves attributes that have passed their own checks into a constraint.
    pub fn resolve(
        kind: Kind,
        address: Option<u16>,
        bank: Option<u32>,
        alignment: u8,
        align_offset: u16,
    ) -> (r: Result<NormalizedSectAttrs, AsmErrorKind>)
        requires
            alignment <= 16,
            align_offset < align_limit(alignment),
        ensures
            r == spec_resolve(kind, address, bank, alignment, align_offset),
            r is Ok ==> r->Ok_0.wf(),
    {
        let (first_bank, last_bank) = kind.banks();
        let bank = if first_bank == last_bank {
            Some(first_bank)
        } else {
            bank
        };
        if alignment == 0 {
            return Ok(NormalizedSectAttrs { address, bank, alignment, align_offset });
        }
        match address {
            Some(addr) => {
                if low_bits_of(addr as u32, alignment) != align_offset as u32 {
                    Err(
                        AsmErrorKind::AlignmentMismatch {
                            address: addr,
                            alignment,
                            offset: align_offset,
                        },
                    )
                } else {
                    Ok(NormalizedSectAttrs { address, bank, alignment: 0, align_offset })
                }
            },
            None => {
                let start: u16 = kind.start_addr();
                if low_bits_of(start as u32, alignment) != 0 {
                    Err(AsmErrorKind::OverAligned { alignment, kind })
                } else {
                    Ok(NormalizedSectAttrs { address, bank, alignment, align_offset })
                }
            },
        }
    }

    /// Checks the attributes of a declaration and resolves them into a constraint.
    pub fn try_new(
        kind: Kind,
        address: Option<Evaluated>,
        attrs: SectionAttributes,
        span: Span,
    ) -> (r: Result<NormalizedSectAttrs, AsmError>)
        ensures
            r == spec_try_new(kind, address, attrs, span),
            r is Ok ==> r->Ok_0.wf(),
    {
        let address: Option<u16> = match address {
            Some(e) => match check_address(kind, e.value) {
                Ok(addr) => Some(addr),
                Err(kind) => {
                    return Err(AsmError { span: e.span, kind });
                },
            },
            None => None,
        };
        let bank: Option<u32> = match attrs.bank {
            Some(e) => match check_bank(kind, e.value) {
                Ok(bank) => Some(bank),
                Err(kind) => {
                    return Err(AsmError { span: e.span, kind });
                },
            },
            None => None,
        };
        let alignment: u8 = match attrs.alignment {
            Some(e) => match check_alignment(e.value) {
                Ok(alignment) => alignment,
                Err(kind) => {
                    return Err(AsmError { span: e.span, kind });
                },
            },
            None => 0,
        };
        proof {
            lemma_limit_bounds(alignment as u32);
        }
        let align_offset: u16 = match attrs.offset {
            Some(e) => match check_align_offset(alignment, e.value) {
                Ok(offset) => offset,
                Err(kind) => {
                    return Err(AsmError { span: e.span, kind });
                },
            },
            None => 0,
        };
        match NormalizedSectAttrs::resolve(kind, address, bank, alignment, align_offset) {
            Ok(n) => Ok(n),
            Err(kind) => Err(AsmError { span, kind }),
        }
    }
}

/// The bank that two declarations agree on: the one that either names, if they do not differ.
pub open spec fn spec_merge_banks(current: Option<u32>, new: Option<u32>) -> Result<
    Option<u32>,
    AsmErrorKind,
> {
    match (current, new) {
        (Some(c), Some(n)) => if c != n {
            Err(AsmErrorKind::BankMismatch { current: c, new: n })
        } else {
            Ok(current)
        },
        (None, _) => Ok(new),
        (Some(_), None) => Ok(current),
    }
}

/// The stricter of two placements, where they are compatible.
///
/// Each placement fixes some number of low bits of the start address. The two are compatible
/// when they agree on the bits that both fix, and then the one that fixes more bits stands for
/// both. Otherwise the error names the stricter residue beside the looser constraint.
pub open spec fn spec_merge_placement(current: NormalizedSectAttrs, new: NormalizedSectAttrs) -> Result<
    NormalizedSectAttrs,
    AsmErrorKind,
> {
    let (strict, loose) = if new.fixed_bits() > current.fixed_bits() {
        (new, current)
    } else {
        (current, new)
    };
    if low_bits(strict.residue() as u32, loose.fixed_bits()) != loose.residue() {
        Err(
            AsmErrorKind::AlignmentMismatch {
                address: strict.residue(),
                alignment: loose.fixed_bits(),
                offset: loose.residue(),
            },
        )
    } else {
        Ok(
            NormalizedSectAttrs {
                address: strict.address,
                bank: current.bank,
                alignment: strict.alignment,
                align_offset: strict.align_offset,
            },
        )
    }
}

/// The constraint of a union after a further branch: banks reconciled, then placements.
pub open spec fn spec_merge_union(current: NormalizedSectAttrs, new: NormalizedSectAttrs) -> Result<
    NormalizedSectAttrs,
    AsmErrorKind,
> {
    match spec_merge_banks(current.bank, new.bank) {
        Err(e) => Err(e),
        Ok(bank) => match spec_merge_placement(current, new) {
            Err(e) => Err(e),
            Ok(placed) => Ok(NormalizedSectAttrs { bank, ..placed }),
        },
    }
}

/// The constraint that a fragment starting `len` bytes into its section puts on the section's
/// start: a pinned address moves down by `len`, which must not pass address 0, and an alignment
/// keeps its width while its residue moves down by `len` modulo `2^alignment`.
pub open spec fn spec_shift(new: NormalizedSectAttrs, len: u16) -> Result<
    NormalizedSectAttrs,
    AsmErrorKind,
> {
    match new.address {
        Some(addr) => if addr < len {
            Err(AsmErrorKind::AddressOutOfRange { requested: (addr - len) as i32 })
        } else {
            Ok(NormalizedSectAttrs { address: Some((addr - len) as u16), ..new })
        },
        None => Ok(
            NormalizedSectAttrs {
                align_offset: low_bits(
                    (new.align_offset + 0x1_0000 - len) as u32,
                    new.alignment,
                ) as u16,
                ..new
            },
        ),
    }
}

/// The constraint of a fragmented section after a further fragment that starts `len` bytes in:
/// banks reconciled, then the fragment's placement carried to the section's start and
/// reconciled with the placement so far.
pub open spec fn spec_concat_fragments(
    current: NormalizedSectAttrs,
    new: NormalizedSectAttrs,
    len: u16,
) -> Result<NormalizedSectAttrs, AsmErrorKind> {
    match spec_merge_banks(current.bank, new.bank) {
        Err(e) => Err(e),
        Ok(bank) => match spec_shift(new, len) {
            Err(e) => Err(e),
            Ok(shifted) => match spec_merge_placement(current, shifted) {
                Err(e) => Err(e),
                Ok(placed) => Ok(NormalizedSectAttrs { bank, ..placed }),
            },
        },
    }
}

impl NormalizedSectAttrs {
    /// How many low bits of the start address the constraint fixes: all 16 for a pinned address.
    pub open spec fn fixed_bits(self) -> u8 {
        if self.address is Some {
            16
        } else {
            self.alignment
        }
    }

    /// The value that the fixed bits must have.
    pub open spec fn residue(self) -> u16 {
        match self.address {
            Some(addr) => addr,
            None => self.align_offset,
        }
    }

    /// Whether a section that starts at `start` meets the placement.
    pub open spec fn admits(self, start: u16) -> bool {
        low_bits(start as u32, self.fixed_bits()) == self.residue()
    }

    /// Reconciles the bank with that of a further declaration of the same name.
    pub fn merge(&mut self, other: &NormalizedSectAttrs) -> (r: Result<(), AsmErrorKind>)
        ensures
            match spec_merge_banks(old(self).bank, other.bank) {
                Ok(bank) => r is Ok && *final(self) == (NormalizedSectAttrs {
                    bank,
                    ..*old(self)
                }),
                Err(e) => r == Err::<(), AsmErrorKind>(e) && *final(self) == *old(self),
            },
    {
        match (self.bank, other.bank) {
            (Some(current), Some(new)) => {
                if current != new {
                    return Err(AsmErrorKind::BankMismatch { current, new });
                }
            },
            (None, other_bank) => {
                self.bank = other_bank;
            },
            (Some(_), None) => {},
        }
        Ok(())
    }

    fn place(&mut self, other: &NormalizedSectAttrs) -> (r: Result<(), AsmErrorKind>)
        requires
            old(self).wf(),
            other.wf(),
        ensures
            match spec_merge_placement(*old(self), *other) {
                Ok(placed) => r is Ok && *final(self) == placed,
                Err(e) => r == Err::<(), AsmErrorKind>(e) && *final(self) == *old(self),
            },
            final(self).wf(),
    {
        let own_bits: u8 = if self.address.is_some() {
            16
        } else {
            self.alignment
        };
        let own_residue: u16 = match self.address {
            Some(addr) => addr,
            None => self.align_offset,
        };
        let other_bits: u8 = if other.address.is_some() {
            16
        } else {
            other.alignment
        };
        let other_residue: u16 = match other.address {
            Some(addr) => addr,
            None => other.align_offset,
        };
        if other_bits > own_bits {
            if low_bits_of(other_residue as u32, own_bits) != own_residue as u32 {
                return Err(
                    AsmErrorKind::AlignmentMismatch {
                        address: other_residue,
                        alignment: own_bits,
                        offset: own_residue,
                    },
                );
            }
            self.address = other.address;
            self.alignment = other.alignment;
            self.align_offset = other.align_offset;
            Ok(())
        } else {
            if low_bits_of(own_residue as u32, other_bits) != other_residue as u32 {
                return Err(
                    AsmErrorKind::AlignmentMismatch {
                        address: own_residue,
                        alignment: other_bits,
                        offset: other_residue,
                    },
                );
            }
            Ok(())
        }
    }

    /// Reconciles the constraint of a union with that of a further branch.
    pub fn merge_union(&mut self, other: &NormalizedSectAttrs) -> (r: Result<(), AsmErrorKind>)
        requires
            old(self).wf(),
            other.wf(),
        ensures
            match spec_merge_union(*old(self), *other) {
                Ok(merged) => r is Ok && *final(self) == merged,
                Err(e) => r == Err::<(), AsmErrorKind>(e) && *final(self) == *old(self),
            },
            final(self).wf(),
    {
        let mut merged = *self;
        match merged.merge(other) {
            Err(e) => {
                return Err(e);
            },
            Ok(()) => {},
        }
        let bank = merged.bank;
        merged.bank = self.bank;
        match merged.place(other) {
            Err(e) => {
                return Err(e);
            },
            Ok(()) => {},
        }
        merged.bank = bank;
        *self = merged;
        Ok(())
    }

    /// Reconciles the constraint of a fragmented section, which holds `len` bytes so far, with
    /// that of a further fragment.
    pub fn concat_fragments(&mut self, other: &NormalizedSectAttrs, len: u16) -> (r: Result<
        (),
        AsmErrorKind,
    >)
        requires
            old(self).wf(),
            other.wf(),
        ensures
            match spec_concat_fragments(*old(self), *other, len) {
                Ok(merged) => r is Ok && *final(self) == merged,
                Err(e) => r == Err::<(), AsmErrorKind>(e) && *final(self) == *old(self),
            },
            final(self).wf(),
    {
        let mut merged = *self;
        match merged.merge(other) {
            Err(e) => {
                return Err(e);
            },
            Ok(()) => {},
        }
        let bank = merged.bank;
        merged.bank = self.bank;
        let shifted = match other.address {
            Some(addr) => {
                if addr < len {
                    return Err(
                        AsmErrorKind::AddressOutOfRange { requested: addr as i32 - len as i32 },
                    );
                }
                NormalizedSectAttrs {
                    address: Some(addr - len),
                    bank: other.bank,
                    alignment: other.alignment,
                    align_offset: other.align_offset,
                }
            },
            None => {
                let moved: u32 = other.align_offset as u32 + 0x1_0000 - len as u32;
                NormalizedSectAttrs {
                    address: None,
                    bank: other.bank,
                    alignment: other.alignment,
                    align_offset: low_bits_of(moved, other.alignment) as u16,
                }
            },
        };
        match merged.place(&shifted) {
            Err(e) => {
                return Err(e);
            },
            Ok(()) => {},
        }
        merged.bank = bank;
        *self = merged;
        Ok(())
    }
}

} // verus!
