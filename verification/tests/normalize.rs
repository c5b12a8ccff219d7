use gbtools::assembler::attrs::{
    check_address, check_align_offset, check_alignment, check_bank, NormalizedSectAttrs,
    SectionAttributes,
};
use gbtools::assembler::expr::Evaluated;
use gbtools::assembler::language::{AsmError, AsmErrorKind, Span};
use gbtools::section::Kind;

fn at(n: usize) -> Span {
    Span { begin: n, end: n + 1 }
}

fn val(value: i32, n: usize) -> Option<Evaluated> {
    Some(Evaluated { value, span: at(n) })
}

fn none() -> SectionAttributes {
    SectionAttributes { bank: None, alignment: None, offset: None }
}

fn aligned(alignment: i32, offset: i32) -> SectionAttributes {
    SectionAttributes { bank: None, alignment: val(alignment, 30), offset: val(offset, 40) }
}

#[test]
fn plain_declaration_in_single_bank_region() {
    let r = NormalizedSectAttrs::try_new(Kind::Rom0, val(0x150, 10), none(), at(0));
    assert_eq!(
        r,
        Ok(NormalizedSectAttrs { address: Some(0x150), bank: Some(0), alignment: 0, align_offset: 0 })
    );
    let r = NormalizedSectAttrs::try_new(Kind::Wram0, None, none(), at(0));
    assert_eq!(
        r,
        Ok(NormalizedSectAttrs { address: None, bank: Some(0), alignment: 0, align_offset: 0 })
    );
    let r = NormalizedSectAttrs::try_new(Kind::Oam, None, none(), at(0));
    assert_eq!(r.unwrap().bank, Some(0));
}

#[test]
fn banked_region_keeps_bank_open_or_named() {
    let r = NormalizedSectAttrs::try_new(Kind::Romx, None, none(), at(0)).unwrap();
    assert_eq!(r.bank, None);
    let attrs = SectionAttributes { bank: val(3, 20), alignment: None, offset: None };
    let r = NormalizedSectAttrs::try_new(Kind::Romx, None, attrs, at(0)).unwrap();
    assert_eq!(r.bank, Some(3));
    let attrs = SectionAttributes { bank: val(511, 20), alignment: None, offset: None };
    assert_eq!(NormalizedSectAttrs::try_new(Kind::Romx, None, attrs, at(0)).unwrap().bank, Some(511));
    let attrs = SectionAttributes { bank: val(0, 20), alignment: None, offset: None };
    assert_eq!(NormalizedSectAttrs::try_new(Kind::Vram, None, attrs, at(0)).unwrap().bank, Some(0));
}

#[test]
fn address_that_is_no_16_bit_number() {
    let r = NormalizedSectAttrs::try_new(Kind::Rom0, val(-1, 10), none(), at(0));
    assert_eq!(
        r,
        Err(AsmError { span: at(10), kind: AsmErrorKind::AddressOutOfRange { requested: -1 } })
    );
    let r = NormalizedSectAttrs::try_new(Kind::Hram, val(0x1_0000, 10), none(), at(0));
    assert_eq!(
        r,
        Err(AsmError { span: at(10), kind: AsmErrorKind::AddressOutOfRange { requested: 0x1_0000 } })
    );
}

#[test]
fn address_outside_the_region() {
    let below = AsmErrorKind::AddressOutOfBounds { address: 0x3FFF, first: 0x4000, last: 0x7FFF };
    assert_eq!(check_address(Kind::Romx, 0x3FFF), Err(below));
    let above = AsmErrorKind::AddressOutOfBounds { address: 0x8000, first: 0x4000, last: 0x7FFF };
    assert_eq!(check_address(Kind::Romx, 0x8000), Err(above));
    assert_eq!(check_address(Kind::Romx, 0x4000), Ok(0x4000));
    assert_eq!(check_address(Kind::Romx, 0x7FFF), Ok(0x7FFF));
    assert_eq!(check_address(Kind::Hram, 0xFFFE), Ok(0xFFFE));
    assert_eq!(
        check_address(Kind::Hram, 0xFFFF),
        Err(AsmErrorKind::AddressOutOfBounds { address: 0xFFFF, first: 0xFF80, last: 0xFFFE })
    );
    let r = NormalizedSectAttrs::try_new(Kind::Romx, val(0x8000, 10), none(), at(0));
    assert_eq!(r, Err(AsmError { span: at(10), kind: above }));
}

#[test]
fn bank_for_a_region_without_banking() {
    assert_eq!(check_bank(Kind::Rom0, 0), Err(AsmErrorKind::Unbanked { kind: Kind::Rom0 }));
    let attrs = SectionAttributes { bank: val(0, 20), alignment: None, offset: None };
    let r = NormalizedSectAttrs::try_new(Kind::Hram, None, attrs, at(0));
    assert_eq!(r, Err(AsmError { span: at(20), kind: AsmErrorKind::Unbanked { kind: Kind::Hram } }));
}

#[test]
fn bank_outside_the_region() {
    assert_eq!(
        check_bank(Kind::Romx, 0),
        Err(AsmErrorKind::BankOutOfRange { bank: 0, first: 1, last: 511 })
    );
    assert_eq!(
        check_bank(Kind::Romx, 512),
        Err(AsmErrorKind::BankOutOfRange { bank: 512, first: 1, last: 511 })
    );
    assert_eq!(
        check_bank(Kind::Sram, -1),
        Err(AsmErrorKind::BankOutOfRange { bank: 0xFFFF_FFFF, first: 0, last: 15 })
    );
    assert_eq!(check_bank(Kind::Wramx, 7), Ok(7));
    assert_eq!(
        check_bank(Kind::Wramx, 8),
        Err(AsmErrorKind::BankOutOfRange { bank: 8, first: 1, last: 7 })
    );
    assert_eq!(check_bank(Kind::Vram, 1), Ok(1));
    let attrs = SectionAttributes { bank: val(2, 20), alignment: None, offset: None };
    let r = NormalizedSectAttrs::try_new(Kind::Vram, None, attrs, at(0));
    assert_eq!(
        r,
        Err(AsmError {
            span: at(20),
            kind: AsmErrorKind::BankOutOfRange { bank: 2, first: 0, last: 1 }
        })
    );
}

#[test]
fn alignment_out_of_range() {
    assert_eq!(check_alignment(17), Err(AsmErrorKind::AlignmentOutOfRange { requested: 17 }));
    assert_eq!(check_alignment(-1), Err(AsmErrorKind::AlignmentOutOfRange { requested: -1 }));
    assert_eq!(check_alignment(0), Ok(0));
    assert_eq!(check_alignment(16), Ok(16));
    let r = NormalizedSectAttrs::try_new(Kind::Rom0, None, aligned(17, 0), at(0));
    assert_eq!(
        r,
        Err(AsmError { span: at(30), kind: AsmErrorKind::AlignmentOutOfRange { requested: 17 } })
    );
}

#[test]
fn alignment_offset_out_of_range() {
    assert_eq!(
        check_align_offset(4, 16),
        Err(AsmErrorKind::AlignmentOffsetOutOfRange { align_offset: 16, limit: 16 })
    );
    assert_eq!(
        check_align_offset(4, -1),
        Err(AsmErrorKind::AlignmentOffsetOutOfRange { align_offset: -1, limit: 16 })
    );
    assert_eq!(check_align_offset(4, 15), Ok(15));
    assert_eq!(check_align_offset(16, 0xFFFF), Ok(0xFFFF));
    assert_eq!(
        check_align_offset(16, 0x1_0000),
        Err(AsmErrorKind::AlignmentOffsetOutOfRange { align_offset: 0x1_0000, limit: 0x1_0000 })
    );
    let attrs = SectionAttributes { bank: None, alignment: None, offset: val(1, 40) };
    let r = NormalizedSectAttrs::try_new(Kind::Rom0, None, attrs, at(0));
    assert_eq!(
        r,
        Err(AsmError {
            span: at(40),
            kind: AsmErrorKind::AlignmentOffsetOutOfRange { align_offset: 1, limit: 1 }
        })
    );
}

#[test]
fn address_must_meet_alignment() {
    let r = NormalizedSectAttrs::try_new(Kind::Romx, val(0x4010, 10), aligned(4, 0), at(0));
    assert_eq!(
        r,
        Ok(NormalizedSectAttrs { address: Some(0x4010), bank: None, alignment: 0, align_offset: 0 })
    );
    let r = NormalizedSectAttrs::try_new(Kind::Romx, val(0x4011, 10), aligned(4, 0), at(0));
    assert_eq!(
        r,
        Err(AsmError {
            span: at(0),
            kind: AsmErrorKind::AlignmentMismatch { address: 0x4011, alignment: 4, offset: 0 }
        })
    );
    let r = NormalizedSectAttrs::try_new(Kind::Romx, val(0x4011, 10), aligned(4, 1), at(0));
    assert_eq!(
        r,
        Ok(NormalizedSectAttrs { address: Some(0x4011), bank: None, alignment: 0, align_offset: 1 })
    );
}

#[test]
fn region_that_cannot_be_aligned_that_much() {
    let r = NormalizedSectAttrs::try_new(Kind::Hram, None, aligned(8, 0), at(0));
    assert_eq!(
        r,
        Err(AsmError {
            span: at(0),
            kind: AsmErrorKind::OverAligned { alignment: 8, kind: Kind::Hram }
        })
    );
    let r = NormalizedSectAttrs::try_new(Kind::Hram, None, aligned(7, 5), at(0));
    assert_eq!(
        r,
        Ok(NormalizedSectAttrs { address: None, bank: Some(0), alignment: 7, align_offset: 5 })
    );
    let r = NormalizedSectAttrs::try_new(Kind::Romx, None, aligned(16, 0), at(0));
    assert_eq!(
        r,
        Err(AsmError {
            span: at(0),
            kind: AsmErrorKind::OverAligned { alignment: 16, kind: Kind::Romx }
        })
    );
}

#[test]
fn full_alignment_is_kept_as_an_alignment() {
    let r = NormalizedSectAttrs::try_new(Kind::Rom0, None, aligned(16, 0x100), at(0));
    assert_eq!(
        r,
        Ok(NormalizedSectAttrs { address: None, bank: Some(0), alignment: 16, align_offset: 0x100 })
    );
    let r = NormalizedSectAttrs::try_new(Kind::Rom0, val(0x100, 10), aligned(16, 0x100), at(0));
    assert_eq!(
        r,
        Ok(NormalizedSectAttrs {
            address: Some(0x100),
            bank: Some(0),
            alignment: 0,
            align_offset: 0x100
        })
    );
    let r = NormalizedSectAttrs::try_new(Kind::Rom0, val(0x101, 10), aligned(16, 0x100), at(0));
    assert_eq!(
        r,
        Err(AsmError {
            span: at(0),
            kind: AsmErrorKind::AlignmentMismatch { address: 0x101, alignment: 16, offset: 0x100 }
        })
    );
    let mut kept = NormalizedSectAttrs { address: None, bank: None, alignment: 16, align_offset: 0x100 };
    let pin = NormalizedSectAttrs { address: Some(0x100), bank: None, alignment: 0, align_offset: 0 };
    assert_eq!(kept.merge_union(&pin), Ok(()));
    assert_eq!(kept.alignment, 16);
    let other = NormalizedSectAttrs { address: Some(0x200), bank: None, alignment: 0, align_offset: 0 };
    assert_eq!(
        kept.merge_union(&other),
        Err(AsmErrorKind::AlignmentMismatch { address: 0x100, alignment: 16, offset: 0x200 })
    );
}

#[test]
fn first_failing_attribute_is_reported() {
    let attrs = SectionAttributes { bank: val(0, 20), alignment: val(99, 30), offset: val(-5, 40) };
    let r = NormalizedSectAttrs::try_new(Kind::Romx, val(0, 10), attrs, at(0));
    assert_eq!(
        r,
        Err(AsmError {
            span: at(10),
            kind: AsmErrorKind::AddressOutOfBounds { address: 0, first: 0x4000, last: 0x7FFF }
        })
    );
    let r = NormalizedSectAttrs::try_new(Kind::Romx, val(0x4000, 10), attrs, at(0));
    assert_eq!(
        r,
        Err(AsmError {
            span: at(20),
            kind: AsmErrorKind::BankOutOfRange { bank: 0, first: 1, last: 511 }
        })
    );
}

fn placed(address: Option<u16>, bank: Option<u32>, alignment: u8, align_offset: u16) -> NormalizedSectAttrs {
    NormalizedSectAttrs { address, bank, alignment, align_offset }
}

#[test]
fn banks_are_reconciled() {
    let mut a = placed(None, Some(1), 0, 0);
    assert_eq!(a.merge(&placed(None, Some(2), 0, 0)), Err(AsmErrorKind::BankMismatch { current: 1, new: 2 }));
    assert_eq!(a, placed(None, Some(1), 0, 0));
    assert_eq!(a.merge(&placed(None, Some(1), 0, 0)), Ok(()));
    assert_eq!(a.merge(&placed(None, None, 0, 0)), Ok(()));
    assert_eq!(a.bank, Some(1));
    let mut b = placed(None, None, 0, 0);
    assert_eq!(b.merge(&placed(None, Some(7), 0, 0)), Ok(()));
    assert_eq!(b.bank, Some(7));
    let mut c = placed(None, None, 0, 0);
    assert_eq!(c.merge(&placed(None, None, 0, 0)), Ok(()));
    assert_eq!(c.bank, None);
}

#[test]
fn union_keeps_the_stricter_placement() {
    let mut a = placed(None, None, 4, 2);
    assert_eq!(a.merge_union(&placed(None, Some(3), 8, 0x12)), Ok(()));
    assert_eq!(a, placed(None, Some(3), 8, 0x12));
    let mut a = placed(None, None, 8, 0x12);
    assert_eq!(a.merge_union(&placed(None, None, 4, 2)), Ok(()));
    assert_eq!(a, placed(None, None, 8, 0x12));
    let mut a = placed(Some(0xC010), Some(0), 0, 0);
    assert_eq!(a.merge_union(&placed(None, None, 4, 0)), Ok(()));
    assert_eq!(a, placed(Some(0xC010), Some(0), 0, 0));
    let mut a = placed(None, None, 4, 0);
    assert_eq!(a.merge_union(&placed(Some(0xC010), None, 0, 0)), Ok(()));
    assert_eq!(a, placed(Some(0xC010), None, 0, 0));
    let mut a = placed(Some(0xC010), None, 0, 0);
    assert_eq!(a.merge_union(&placed(Some(0xC010), None, 0, 0)), Ok(()));
    assert_eq!(a.address, Some(0xC010));
}

#[test]
fn union_refuses_placements_that_disagree() {
    let mut a = placed(None, None, 4, 2);
    assert_eq!(
        a.merge_union(&placed(None, None, 8, 0x13)),
        Err(AsmErrorKind::AlignmentMismatch { address: 0x13, alignment: 4, offset: 2 })
    );
    assert_eq!(a, placed(None, None, 4, 2));
    let mut a = placed(Some(0xC010), None, 0, 0);
    assert_eq!(
        a.merge_union(&placed(Some(0xC020), None, 0, 0)),
        Err(AsmErrorKind::AlignmentMismatch { address: 0xC010, alignment: 16, offset: 0xC020 })
    );
    let mut a = placed(Some(0xC011), None, 0, 0);
    assert_eq!(
        a.merge_union(&placed(None, None, 4, 0)),
        Err(AsmErrorKind::AlignmentMismatch { address: 0xC011, alignment: 4, offset: 0 })
    );
    let mut a = placed(None, Some(1), 4, 2);
    assert_eq!(
        a.merge_union(&placed(None, Some(2), 8, 0x13)),
        Err(AsmErrorKind::BankMismatch { current: 1, new: 2 })
    );
}

#[test]
fn fragment_placement_is_carried_to_the_start() {
    let mut a = placed(None, None, 0, 0);
    assert_eq!(a.concat_fragments(&placed(Some(0xC105), None, 0, 0), 5), Ok(()));
    assert_eq!(a, placed(Some(0xC100), None, 0, 0));
    let mut a = placed(None, None, 0, 0);
    assert_eq!(a.concat_fragments(&placed(None, None, 4, 2), 5), Ok(()));
    assert_eq!(a, placed(None, None, 4, 13));
    let mut a = placed(Some(0xC100), None, 0, 0);
    assert_eq!(a.concat_fragments(&placed(None, None, 4, 5), 5), Ok(()));
    assert_eq!(a, placed(Some(0xC100), None, 0, 0));
    let mut a = placed(Some(0xC100), None, 0, 0);
    assert_eq!(
        a.concat_fragments(&placed(None, None, 4, 6), 5),
        Err(AsmErrorKind::AlignmentMismatch { address: 0xC100, alignment: 4, offset: 1 })
    );
    let mut a = placed(None, None, 0, 0);
    assert_eq!(
        a.concat_fragments(&placed(Some(3), None, 0, 0), 5),
        Err(AsmErrorKind::AddressOutOfRange { requested: -2 })
    );
    let mut a = placed(None, Some(1), 0, 0);
    assert_eq!(
        a.concat_fragments(&placed(Some(3), Some(2), 0, 0), 5),
        Err(AsmErrorKind::BankMismatch { current: 1, new: 2 })
    );
}

#[test]
fn regions_have_their_ranges() {
    assert_eq!((Kind::Rom0.start_addr(), Kind::Rom0.size(), Kind::Rom0.banks()), (0x0000, 0x8000, (0, 0)));
    assert_eq!((Kind::Romx.start_addr(), Kind::Romx.size(), Kind::Romx.banks()), (0x4000, 0x4000, (1, 511)));
    assert_eq!((Kind::Vram.start_addr(), Kind::Vram.size(), Kind::Vram.banks()), (0x8000, 0x2000, (0, 1)));
    assert_eq!((Kind::Sram.start_addr(), Kind::Sram.size(), Kind::Sram.banks()), (0xA000, 0x2000, (0, 15)));
    assert_eq!((Kind::Wram0.start_addr(), Kind::Wram0.size(), Kind::Wram0.banks()), (0xC000, 0x2000, (0, 0)));
    assert_eq!((Kind::Wramx.start_addr(), Kind::Wramx.size(), Kind::Wramx.banks()), (0xD000, 0x1000, (1, 7)));
    assert_eq!((Kind::Oam.start_addr(), Kind::Oam.size(), Kind::Oam.banks()), (0xFE00, 0x00A0, (0, 0)));
    assert_eq!((Kind::Hram.start_addr(), Kind::Hram.size(), Kind::Hram.banks()), (0xFF80, 0x007F, (0, 0)));
    assert!(Kind::Rom0.has_data() && Kind::Romx.has_data());
    assert!(!Kind::Wram0.has_data() && !Kind::Vram.has_data() && !Kind::Hram.has_data());
    assert!(Kind::Romx.is_banked() && Kind::Vram.is_banked() && Kind::Sram.is_banked() && Kind::Wramx.is_banked());
    assert!(!Kind::Rom0.is_banked() && !Kind::Wram0.is_banked() && !Kind::Oam.is_banked() && !Kind::Hram.is_banked());
}
