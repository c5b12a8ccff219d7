//! What holds of declarations, normalization and emission whatever the inputs are.

use crate::assembler::attrs::{
    align_mask, bank_number, lemma_limit_bounds, low_bits, spec_check_address,
    spec_check_align_offset, spec_check_bank, spec_concat_fragments, spec_merge_placement,
    spec_merge_union, spec_shift, spec_try_new, NormalizedSectAttrs, SectionAttributes,
};
use crate::assembler::emission::{
    batch_width, emit_all, emit_item, grown, placeholder, spec_extend, Emission,
};
use crate::assembler::expr::{ByteOrExpr, Evaluated};
use crate::assembler::language::{AsmError, AsmErrorKind, Span};
use crate::assembler::names::is_registered;
use crate::assembler::sections::{
    index_of, spec_pc, ActiveSectionView, RelocationView, SectionDataView, SectionId,
    SectionsView,
};
use crate::section::{Kind, Modifier};
use vstd::prelude::*;

verus! {

/// A section that was declared as `Normal` cannot be declared again: whatever region,
/// modifier and attributes the second declaration names, it fails with
/// `SectionAlreadyDefined`, which points at the first declaration, and the store stays as it is.
pub proof fn lemma_normal_is_declared_once(
    store: SectionsView,
    name: Seq<char>,
    kind: Kind,
    attrs: NormalizedSectAttrs,
    span: Span,
    again_kind: Kind,
    again_modifier: Modifier,
    again_attrs: NormalizedSectAttrs,
    again_span: Span,
)
    requires
        store.wf(),
        store.declare(name, kind, Modifier::Normal, attrs, span).1 is Ok,
    ensures
        ({
            let declared = store.declare(name, kind, Modifier::Normal, attrs, span).0;
            declared.declare(name, again_kind, again_modifier, again_attrs, again_span) == (
                declared,
                Err::<(), AsmError>(
                    AsmError {
                        span: again_span,
                        kind: AsmErrorKind::SectionAlreadyDefined { previous: span },
                    },
                ),
            )
        }),
{
    let declared = store.declare(name, kind, Modifier::Normal, attrs, span).0;
    assert(!is_registered(store.names, name));
    let n = store.names.len() as int;
    assert(declared.names[n] == name);
    assert(is_registered(declared.names, name));
    let id = index_of(declared.names, name);
    if id < n {
        assert(store.names[id] == name);
    }
    assert(id == n);
}

/// A further branch of a union, declared with the union's region: in a region that holds data
/// it fails with `DataInUnion` and changes nothing; in any other region, where the two
/// constraints can be reconciled, it succeeds and the innermost scope writes the section from
/// offset 0.
pub proof fn lemma_union_branch(
    store: SectionsView,
    name: Seq<char>,
    kind: Kind,
    attrs: NormalizedSectAttrs,
    span: Span,
)
    requires
        store.wf(),
        is_registered(store.names, name),
        store.sections[index_of(store.names, name)].modifier == Modifier::Union,
        store.sections[index_of(store.names, name)].kind == kind,
    ensures
        kind.spec_has_data() ==> store.declare(name, kind, Modifier::Union, attrs, span) == (
            store,
            Err::<(), AsmError>(AsmError { span, kind: AsmErrorKind::DataInUnion { kind } }),
        ),
        !kind.spec_has_data() && spec_merge_union(
            store.sections[index_of(store.names, name)].attrs,
            attrs,
        ) is Ok ==> {
            let after = store.declare(name, kind, Modifier::Union, attrs, span);
            &&& after.1 is Ok
            &&& after.0.active() == Some(
                ActiveSectionView::fresh(SectionId(index_of(store.names, name) as usize), 0),
            )
        },
{
}

/// A further fragment, declared with the region of the fragments before it: where the
/// constraints can be reconciled, it succeeds and the innermost scope writes the section from
/// the end of the data that the section holds, not from 0.
pub proof fn lemma_fragment_goes_on(
    store: SectionsView,
    name: Seq<char>,
    kind: Kind,
    attrs: NormalizedSectAttrs,
    span: Span,
)
    requires
        store.wf(),
        is_registered(store.names, name),
        store.sections[index_of(store.names, name)].modifier == Modifier::Fragment,
        store.sections[index_of(store.names, name)].kind == kind,
        spec_concat_fragments(
            store.sections[index_of(store.names, name)].attrs,
            attrs,
            store.sections[index_of(store.names, name)].data.len() as u16,
        ) is Ok,
    ensures
        ({
            let after = store.declare(name, kind, Modifier::Fragment, attrs, span);
            &&& after.1 is Ok
            &&& after.0.active() == Some(
                ActiveSectionView::fresh(
                    SectionId(index_of(store.names, name) as usize),
                    store.sections[index_of(store.names, name)].data.len() as usize,
                ),
            )
        }),
{
}

/// Normalization accepts no address outside the region: one that is no 16-bit number fails
/// with `AddressOutOfRange`, any other one with `AddressOutOfBounds` and the region's first
/// and last address, both at the address expression's span.
pub proof fn lemma_address_outside_region(
    kind: Kind,
    address: Evaluated,
    attrs: SectionAttributes,
    span: Span,
)
    requires
        address.value < kind.spec_start_addr() || address.value > kind.spec_end_addr(),
    ensures
        spec_try_new(kind, Some(address), attrs, span) == Err::<NormalizedSectAttrs, AsmError>(
            AsmError {
                span: address.span,
                kind: if address.value < 0 || address.value > 0xFFFF {
                    AsmErrorKind::AddressOutOfRange { requested: address.value }
                } else {
                    AsmErrorKind::AddressOutOfBounds {
                        address: address.value as u16,
                        first: kind.spec_start_addr(),
                        last: kind.spec_end_addr() as u16,
                    }
                },
            },
        ),
{
}

/// Normalization accepts no bank outside the region's banks: where the address, if there is
/// one, is acceptable, a bank for a region without banking fails with `Unbanked`, and a bank
/// that is none of the region's fails with `BankOutOfRange` and the region's first and last
/// bank, both at the bank expression's span.
pub proof fn lemma_bank_outside_region(
    kind: Kind,
    address: Option<Evaluated>,
    attrs: SectionAttributes,
    span: Span,
)
    requires
        address matches Some(a) ==> spec_check_address(kind, a.value) is Ok,
        attrs.bank is Some,
        !kind.spec_is_banked() || bank_number(attrs.bank->0.value) < kind.spec_first_bank()
            || bank_number(attrs.bank->0.value) > kind.spec_last_bank(),
    ensures
        spec_try_new(kind, address, attrs, span) == Err::<NormalizedSectAttrs, AsmError>(
            AsmError {
                span: attrs.bank->0.span,
                kind: if !kind.spec_is_banked() {
                    AsmErrorKind::Unbanked { kind }
                } else {
                    AsmErrorKind::BankOutOfRange {
                        bank: bank_number(attrs.bank->0.value),
                        first: kind.spec_first_bank(),
                        last: kind.spec_last_bank(),
                    }
                },
            },
        ),
{
}

/// An address beside an alignment: where address, bank, alignment and offset each pass their
/// own check and the alignment is not 0, normalization succeeds exactly if the address's low
/// `alignment` bits are the offset, and fails with `AlignmentMismatch` at the declaration's
/// span otherwise. On success the address stays pinned and the alignment is 0.
pub proof fn lemma_address_must_meet_alignment(
    kind: Kind,
    address: Evaluated,
    attrs: SectionAttributes,
    span: Span,
)
    requires
        spec_check_address(kind, address.value) is Ok,
        attrs.bank matches Some(b) ==> spec_check_bank(kind, b.value) is Ok,
        attrs.alignment is Some,
        1 <= attrs.alignment->0.value <= 16,
        attrs.offset is Some,
        spec_check_align_offset(attrs.alignment->0.value as u8, attrs.offset->0.value) is Ok,
    ensures
        ({
            let r = spec_try_new(kind, Some(address), attrs, span);
            let fits = (address.value as u32) & align_mask(attrs.alignment->0.value as u8)
                == attrs.offset->0.value as u32;
            &&& r is Ok <==> fits
            &&& fits ==> r->Ok_0.address == Some(address.value as u16) && r->Ok_0.alignment == 0
            &&& !fits ==> r == Err::<NormalizedSectAttrs, AsmError>(
                AsmError {
                    span,
                    kind: AsmErrorKind::AlignmentMismatch {
                        address: address.value as u16,
                        alignment: attrs.alignment->0.value as u8,
                        offset: attrs.offset->0.value as u16,
                    },
                },
            )
        }),
{
    lemma_limit_bounds(attrs.alignment->0.value as u32);
}

/// Writing items changes neither the region of a section nor its virtual length.
pub proof fn lemma_emit_all_keeps_length(e: Emission, items: Seq<ByteOrExpr>)
    ensures
        emit_all(e, items).section.len_virt == e.section.len_virt,
        emit_all(e, items).section.kind == e.section.kind,
    decreases items.len(),
{
    if items.len() > 0 {
        lemma_emit_all_keeps_length(e, items.drop_last());
    }
}

/// The virtual length counts every byte that was ever asked for: after a batch it has grown by
/// the batch's width, whether the batch was written or not, and so a batch that follows one
/// that no longer fitted still adds its own width.
pub proof fn lemma_virtual_length_counts_all(
    e: Emission,
    first: Seq<ByteOrExpr>,
    second: Seq<ByteOrExpr>,
)
    ensures
        spec_extend(e, first).section.len_virt == grown(e.section.len_virt, batch_width(first)),
        spec_extend(spec_extend(e, first), second).section.len_virt == grown(
            grown(e.section.len_virt, batch_width(first)),
            batch_width(second),
        ),
        e.section.len_virt + batch_width(first) + batch_width(second) <= usize::MAX
            ==> spec_extend(spec_extend(e, first), second).section.len_virt
            == e.section.len_virt + batch_width(first) + batch_width(second),
{
    let counted = Emission {
        section: SectionDataView {
            len_virt: grown(e.section.len_virt, batch_width(first)),
            ..e.section
        },
        ..e
    };
    lemma_emit_all_keeps_length(counted, first);
    let mid = spec_extend(e, first);
    let counted_again = Emission {
        section: SectionDataView {
            len_virt: grown(mid.section.len_virt, batch_width(second)),
            ..mid.section
        },
        ..mid
    };
    lemma_emit_all_keeps_length(counted_again, second);
}

/// A batch that does not fit leaves data, relocations, cursor and warnings as they were.
pub proof fn lemma_overflowing_batch_is_skipped(e: Emission, items: Seq<ByteOrExpr>)
    requires
        grown(e.section.len_virt, batch_width(items)) > e.section.kind.spec_size(),
    ensures
        spec_extend(e, items).section.data == e.section.data,
        spec_extend(e, items).section.patches == e.section.patches,
        spec_extend(e, items).cursor == e.cursor,
        spec_extend(e, items).warnings == e.warnings,
{
}

/// A value that does not fold to a constant, emitted alone into a section with room for it,
/// leaves exactly one more relocation, which holds the cursor's offset and program counter
/// from before the emission, as many zero bytes as the value is wide, and the cursor's offset
/// and program counter advanced by that width. No warning arises.
pub proof fn lemma_unresolved_value_is_deferred(e: Emission, item: ByteOrExpr)
    requires
        item matches ByteOrExpr::Expr(_, rpn, _) && rpn@.constant is None,
        e.section.wf(),
        e.cursor.pc_offset <= e.cursor.offset <= e.section.data.len(),
        e.section.len_virt + item.spec_width() <= e.section.kind.spec_size(),
    ensures
        ({
            let after = spec_extend(e, seq![item]);
            &&& after.section.patches == e.section.patches.push(
                RelocationView {
                    definition: item->Expr_0,
                    offset: e.cursor.offset,
                    pc_section: e.cursor.pc_section,
                    pc_offset: e.cursor.pc_offset,
                    kind: item->Expr_2,
                    rpn: item->Expr_1@,
                },
            )
            &&& after.section.data == e.section.data + placeholder(item.spec_width())
            &&& after.cursor.offset == e.cursor.offset + item.spec_width()
            &&& after.cursor.pc_offset == e.cursor.pc_offset + item.spec_width()
            &&& after.cursor.name == e.cursor.name
            &&& after.warnings == e.warnings
        }),
{
    let items = seq![item];
    assert(items.drop_last() =~= Seq::<ByteOrExpr>::empty());
    assert(items.last() == item);
    assert(batch_width(items.drop_last()) == 0);
    assert(batch_width(items) == item.spec_width());
    let counted = Emission {
        section: SectionDataView {
            len_virt: grown(e.section.len_virt, batch_width(items)),
            ..e.section
        },
        ..e
    };
    assert(emit_all(counted, items.drop_last()) == counted);
    assert(emit_all(counted, items) == emit_item(counted, item));
}

/// The program counter never wraps: it is the pinned address plus the length of the data, and
/// the highest address where that sum lies beyond it.
pub proof fn lemma_pc_saturates(base: u16, len: nat)
    ensures
        spec_pc(base, len) >= base,
        base + len <= 0xFFFF ==> spec_pc(base, len) == base + len,
        base + len > 0xFFFF ==> spec_pc(base, len) == 0xFFFF,
{
}

/// The low bits of the low bits: cutting to `hi` bits and then to `lo` bits, with `lo` at most
/// `hi`, is cutting to `lo` bits.
proof fn lemma_low_bits_nest(x: u32, lo: u32, hi: u32)
    requires
        lo <= hi <= 16,
    ensures
        (x & (((1u32 << hi) - 1) as u32)) & (((1u32 << lo) - 1) as u32) == x & (((1u32 << lo)
            - 1) as u32),
{
    lemma_limit_bounds(lo);
    lemma_limit_bounds(hi);
    let mh: u32 = ((1u32 << hi) - 1) as u32;
    let ml: u32 = ((1u32 << lo) - 1) as u32;
    assert(lo <= hi && hi <= 16 && mh == (1u32 << hi) - 1 && ml == (1u32 << lo) - 1 ==> (x & mh)
        & ml == x & ml) by (bit_vector);
}

/// Reconciling two placements loses nothing and adds nothing: where it succeeds, a start
/// address meets the result exactly if it meets both placements, and where it fails, no start
/// address meets both.
pub proof fn lemma_merged_placement_is_exact(
    current: NormalizedSectAttrs,
    new: NormalizedSectAttrs,
    start: u16,
)
    requires
        current.wf(),
        new.wf(),
    ensures
        match spec_merge_placement(current, new) {
            Ok(merged) => merged.admits(start) <==> current.admits(start) && new.admits(start),
            Err(_) => !(current.admits(start) && new.admits(start)),
        },
{
    let (strict, loose) = if new.fixed_bits() > current.fixed_bits() {
        (new, current)
    } else {
        (current, new)
    };
    lemma_low_bits_nest(start as u32, loose.fixed_bits() as u32, strict.fixed_bits() as u32);
}

/// Carrying a fragment's placement to the start of its section is exact: a section that starts
/// at `start` and holds `len` bytes meets the carried placement exactly if the fragment, which
/// then starts at `start + len`, meets its own. Where the carrying fails, no start does.
pub proof fn lemma_shifted_placement_is_exact(new: NormalizedSectAttrs, len: u16, start: u16)
    requires
        new.wf(),
        start + len <= 0xFFFF,
    ensures
        match spec_shift(new, len) {
            Ok(shifted) => shifted.admits(start) <==> new.admits((start + len) as u16),
            Err(_) => !new.admits((start + len) as u16),
        },
{
    let a = new.fixed_bits() as u32;
    lemma_limit_bounds(a);
    lemma_limit_bounds(16);
    let m: u32 = ((1u32 << a) - 1) as u32;
    let x: u32 = start as u32;
    let l: u32 = len as u32;
    let o: u32 = new.residue() as u32;
    let moved: u32 = (o + 0x1_0000 - l) as u32;
    let sum: u32 = (x + l) as u32;
    if new.address is Some {
        assert(a == 16 && m == (1u32 << a) - 1 && x <= 0xFFFF && sum <= 0xFFFF && o <= 0xFFFF
            ==> x & m == x && sum & m == sum && o & m == o) by (bit_vector);
        if o >= l {
            let d: u32 = (o - l) as u32;
            assert(a == 16 && m == (1u32 << a) - 1 && d <= 0xFFFF ==> d & m == d) by (bit_vector);
            assert(spec_shift(new, len)->Ok_0.residue() == d);
            assert(spec_shift(new, len)->Ok_0.fixed_bits() == 16);
        } else {
            assert(spec_shift(new, len) is Err);
        }
    } else {
        assert(a <= 16 && m == (1u32 << a) - 1 && x <= 0xFFFF && l <= 0xFFFF && o <= m && sum == x
            + l && moved == o + 0x1_0000 - l ==> ((sum & m == o) <==> (x & m == moved & m)))
            by (bit_vector);
        assert(a <= 16 && m == (1u32 << a) - 1 ==> moved & m <= 0xFFFF) by (bit_vector);
        assert(align_mask(new.alignment) == m);
        assert(low_bits(moved, new.alignment) == moved & m);
        assert(spec_shift(new, len)->Ok_0.residue() == moved & m);
        assert(spec_shift(new, len)->Ok_0.fixed_bits() == new.alignment);
        assert(new.admits(sum as u16) == (sum & m == o));
    }
}

} // verus!
