//! What emitting a batch of bytes and values does to a section and to the cursor that writes it.

use crate::assembler::expr::ByteOrExpr;
use crate::assembler::language::{Span, Warning, WarningKind};
use crate::assembler::sections::{ActiveSectionView, RelocationView, SectionDataView};
use crate::reloc::{RelocKind, TruncationLevel};
use vstd::prelude::*;

verus! {

/// The 32-bit pattern of `value`, read as an unsigned number.
pub open spec fn unsigned_bits(value: i32) -> int {
    if value < 0 {
        value + 0x1_0000_0000
    } else {
        value as int
    }
}

/// Byte `k` of `value` in little-endian order, for `k` below 4.
pub open spec fn le_byte(value: i32, k: int) -> u8 {
    if k == 0 {
        (unsigned_bits(value) % 256) as u8
    } else if k == 1 {
        ((unsigned_bits(value) / 0x100) % 256) as u8
    } else if k == 2 {
        ((unsigned_bits(value) / 0x1_0000) % 256) as u8
    } else {
        ((unsigned_bits(value) / 0x100_0000) % 256) as u8
    }
}

/// The `width` low-order bytes of `value`, lowest first.
pub open spec fn le_bytes(value: i32, width: u8) -> Seq<u8> {
    Seq::new(width as nat, |k: int| le_byte(value, k))
}

/// `width` bytes that stand in for a value that is not known yet.
pub open spec fn placeholder(width: u8) -> Seq<u8> {
    Seq::new(width as nat, |k: int| 0u8)
}

/// The warning that a constant written as `kind` gives rise to, if it does not fit.
pub open spec fn truncation_warning(span: Span, kind: RelocKind, value: i32) -> Option<Warning> {
    match kind.spec_is_in_range(value) {
        TruncationLevel::Fits => None,
        TruncationLevel::Loose => Some(
            Warning {
                span,
                kind: WarningKind::Truncation { level: 2, width: (kind.spec_width() * 8) as u8 },
            },
        ),
        TruncationLevel::Strict => Some(
            Warning {
                span,
                kind: WarningKind::Truncation { level: 1, width: (kind.spec_width() * 8) as u8 },
            },
        ),
    }
}

/// A section, the cursor that writes it, and the warnings handed out so far.
pub struct Emission {
    pub cursor: ActiveSectionView,
    pub section: SectionDataView,
    pub warnings: Seq<Warning>,
}

/// Total number of bytes that `items` occupy.
pub open spec fn batch_width(items: Seq<ByteOrExpr>) -> nat
    decreases items.len(),
{
    if items.len() == 0 {
        0
    } else {
        batch_width(items.drop_last()) + items.last().spec_width() as nat
    }
}

/// What writing one item does.
///
/// A byte is appended. A value that folds to a constant is appended in little-endian order,
/// cut to its width, with a warning where it does not fit. Any other value leaves a
/// relocation at the cursor and zero bytes in its place. The cursor then moves on by the
/// item's width.
pub open spec fn emit_item(e: Emission, item: ByteOrExpr) -> Emission {
    let width = item.spec_width();
    let cursor = ActiveSectionView {
        offset: (e.cursor.offset + width) as usize,
        pc_offset: (e.cursor.pc_offset + width) as usize,
        ..e.cursor
    };
    match item {
        ByteOrExpr::Byte(byte) => Emission {
            cursor,
            section: SectionDataView { data: e.section.data.push(byte), ..e.section },
            warnings: e.warnings,
        },
        ByteOrExpr::Expr(span, rpn, kind) => match rpn@.constant {
            Some(constant) => Emission {
                cursor,
                section: SectionDataView {
                    data: e.section.data + le_bytes(constant, width),
                    ..e.section
                },
                warnings: match truncation_warning(span, kind, constant) {
                    Some(w) => e.warnings.push(w),
                    None => e.warnings,
                },
            },
            None => Emission {
                cursor,
                section: SectionDataView {
                    data: e.section.data + placeholder(width),
                    patches: e.section.patches.push(
                        RelocationView {
                            definition: span,
                            offset: e.cursor.offset,
                            pc_section: e.cursor.pc_section,
                            pc_offset: e.cursor.pc_offset,
                            kind,
                            rpn: rpn@,
                        },
                    ),
                    ..e.section
                },
                warnings: e.warnings,
            },
        },
    }
}

/// What writing `items` one after the other does.
pub open spec fn emit_all(e: Emission, items: Seq<ByteOrExpr>) -> Emission
    decreases items.len(),
{
    if items.len() == 0 {
        e
    } else {
        emit_item(emit_all(e, items.drop_last()), items.last())
    }
}

/// The virtual length after `total` more bytes were asked for; it stops at the largest number.
pub open spec fn grown(len_virt: usize, total: nat) -> usize {
    if len_virt + total > usize::MAX {
        usize::MAX
    } else {
        (len_virt + total) as usize
    }
}

/// What emitting a batch into a section that holds data does: the virtual length grows by the
/// batch's width in any case, and the batch is written only if the region has room for all
/// that was ever asked for.
pub open spec fn spec_extend(e: Emission, items: Seq<ByteOrExpr>) -> Emission {
    let len_virt = grown(e.section.len_virt, batch_width(items));
    let counted = Emission { section: SectionDataView { len_virt, ..e.section }, ..e };
    if len_virt <= e.section.kind.spec_size() {
        emit_all(counted, items)
    } else {
        counted
    }
}

} // verus!
