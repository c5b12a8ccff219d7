//! The sections of a translation unit: the store that owns them, the stack of scopes that
//! says which one is being written, and the handles through which it is read and written.

use crate::assembler::attrs::{spec_concat_fragments, spec_merge_union, NormalizedSectAttrs};
use crate::assembler::emission::{
    batch_width, emit_all, emit_item, grown, le_bytes, placeholder, spec_extend, unsigned_bits,
    Emission,
};
use crate::assembler::expr::{ByteOrExpr, Rpn, RpnView};
use crate::assembler::language::{AsmError, AsmErrorKind, Span, Warning, WarningKind};
use crate::reloc::TruncationLevel;
use crate::assembler::names::{
    all_distinct, empty_registry, is_registered, register, registered, NameRegistry, MAX_NAMES,
};
use crate::reloc::RelocKind;
use crate::section::{Kind, Modifier};
use vstd::prelude::*;

verus! {

/// The index that the name registry gave a section's name: the section's identity.
#[derive(Debug, Clone, Copy, PartialEq, Eq, Structural, Hash)]
pub struct SectionId(pub usize);

/// A value that could not be computed yet, to be written once it can.
#[derive(Debug)]
pub struct Relocation {
    /// Where the value was written in the source.
    pub definition: Span,
    /// Position in the owning section's data of the bytes to overwrite.
    pub offset: usize,
    /// The section that the program counter belonged to, where it is not the owning one.
    pub pc_section: Option<SectionId>,
    /// Position of the program counter in its section.
    pub pc_offset: usize,
    pub kind: RelocKind,
    pub rpn: Rpn,
}

/// What a `Relocation` is to the contracts.
pub struct RelocationView {
    pub definition: Span,
    pub offset: usize,
    pub pc_section: Option<SectionId>,
    pub pc_offset: usize,
    pub kind: RelocKind,
    pub rpn: RpnView,
}

impl View for Relocation {
    type V = RelocationView;

    open spec fn view(&self) -> RelocationView {
        RelocationView {
            definition: self.definition,
            offset: self.offset,
            pc_section: self.pc_section,
            pc_offset: self.pc_offset,
            kind: self.kind,
            rpn: self.rpn@,
        }
    }
}

/// An open block whose members overlay each other inside one section.
#[derive(Debug, Clone, Copy, PartialEq, Eq, Structural)]
pub struct Union {
    pub start_ofs: usize,
    pub len: usize,
}

/// The cursor of a scope: which section it writes and where.
#[derive(Debug)]
pub struct ActiveSection {
    pub name: SectionId,
    pub offset: usize,
    pub pc_section: Option<SectionId>,
    pub pc_offset: usize,
    pub label_scope: Option<usize>,
    pub union_stack: Vec<Union>,
}

/// What an `ActiveSection` is to the contracts.
pub struct ActiveSectionView {
    pub name: SectionId,
    pub offset: usize,
    pub pc_section: Option<SectionId>,
    pub pc_offset: usize,
    pub label_scope: Option<usize>,
    pub union_stack: Seq<Union>,
}

impl View for ActiveSection {
    type V = ActiveSectionView;

    open spec fn view(&self) -> ActiveSectionView {
        ActiveSectionView {
            name: self.name,
            offset: self.offset,
            pc_section: self.pc_section,
            pc_offset: self.pc_offset,
            label_scope: self.label_scope,
            union_stack: self.union_stack@,
        }
    }
}

impl ActiveSectionView {
    /// The cursor of a scope that has just been pointed at `name`, `offset` bytes in.
    pub open spec fn fresh(name: SectionId, offset: usize) -> ActiveSectionView {
        ActiveSectionView {
            name,
            offset,
            pc_section: None,
            pc_offset: 0,
            label_scope: None,
            union_stack: Seq::empty(),
        }
    }
}

impl ActiveSection {
    pub fn new(name: SectionId, offset: usize) -> (r: ActiveSection)
        ensures
            r@ == ActiveSectionView::fresh(name, offset),
    {
        ActiveSection {
            name,
            offset,
            pc_section: None,
            pc_offset: 0,
            label_scope: None,
            union_stack: Vec::new(),
        }
    }
}

/// A section: how it was declared and what has been emitted into it.
#[derive(Debug)]
pub struct SectionData {
    pub kind: Kind,
    pub modifier: Modifier,
    /// Where the section was first declared.
    pub definition: Span,
    pub attrs: NormalizedSectAttrs,
    pub patches: Vec<Relocation>,
    /// Stays empty unless the region holds data.
    pub data: Vec<u8>,
    /// All bytes ever asked for, also those that no longer fitted the region.
    pub len_virt: usize,
}

/// What a `SectionData` is to the contracts.
pub struct SectionDataView {
    pub kind: Kind,
    pub modifier: Modifier,
    pub definition: Span,
    pub attrs: NormalizedSectAttrs,
    pub patches: Seq<RelocationView>,
    pub data: Seq<u8>,
    pub len_virt: usize,
}

impl View for SectionData {
    type V = SectionDataView;

    open spec fn view(&self) -> SectionDataView {
        SectionDataView {
            kind: self.kind,
            modifier: self.modifier,
            definition: self.definition,
            attrs: self.attrs,
            patches: self.patches@.map_values(|p: Relocation| p@),
            data: self.data@,
            len_virt: self.len_virt,
        }
    }
}

impl SectionDataView {
    /// A section right after its first declaration.
    pub open spec fn fresh(
        kind: Kind,
        modifier: Modifier,
        definition: Span,
        attrs: NormalizedSectAttrs,
    ) -> SectionDataView {
        SectionDataView {
            kind,
            modifier,
            definition,
            attrs,
            patches: Seq::empty(),
            data: Seq::empty(),
            len_virt: 0,
        }
    }

    /// The data never outgrows the region, and it holds every byte asked for as long as
    /// those fit the region.
    pub open spec fn wf(self) -> bool {
        &&& self.attrs.wf()
        &&& self.data.len() <= self.kind.spec_size()
        &&& self.data.len() <= self.len_virt
        &&& self.len_virt <= self.kind.spec_size() ==> self.data.len() == self.len_virt
        &&& !self.kind.spec_has_data() ==> self.data.len() == 0
    }
}

impl SectionData {
    /// Decides what a further declaration of this section's name leads to.
    pub fn redeclare(&self, kind: Kind, modifier: Modifier, attrs: &NormalizedSectAttrs) -> (r:
        Result<(NormalizedSectAttrs, usize), AsmErrorKind>)
        requires
            self@.wf(),
            attrs.wf(),
        ensures
            r == spec_redeclare(self@, kind, modifier, *attrs),
            r matches Ok(m) ==> m.0.wf() && (m.1 == 0 || m.1 == self@.data.len()),
    {
        match self.modifier {
            Modifier::Normal => {
                return Err(AsmErrorKind::SectionAlreadyDefined { previous: self.definition });
            },
            _ => {},
        }
        if self.modifier != modifier {
            return Err(
                AsmErrorKind::DifferentModifier {
                    modifier: self.modifier,
                    previous: self.definition,
                },
            );
        }
        if self.kind != kind {
            return Err(
                AsmErrorKind::DifferentKind { kind: self.kind, previous: self.definition },
            );
        }
        let mut merged = self.attrs;
        match modifier {
            Modifier::Union => {
                if kind.has_data() {
                    return Err(AsmErrorKind::DataInUnion { kind });
                }
                match merged.merge_union(attrs) {
                    Ok(()) => Ok((merged, 0)),
                    Err(e) => Err(e),
                }
            },
            _ => {
                let len = self.data.len();
                match merged.concat_fragments(attrs, len as u16) {
                    Ok(()) => Ok((merged, len)),
                    Err(e) => Err(e),
                }
            },
        }
    }

    pub fn new(kind: Kind, modifier: Modifier, definition: Span, attrs: NormalizedSectAttrs) -> (r:
        SectionData)
        ensures
            r@ == SectionDataView::fresh(kind, modifier, definition, attrs),
    {
        let r = SectionData {
            kind,
            modifier,
            definition,
            attrs,
            patches: Vec::new(),
            data: Vec::new(),
            len_virt: 0,
        };
        assert(r@.patches =~= Seq::empty());
        r
    }
}

/// What a second declaration of a section's name leads to: the reconciled constraint and the
/// offset at which writing goes on, or the reason why the declaration is refused.
///
/// A section declared once is never declared again. Otherwise modifier and region must be
/// those of the first declaration. A further branch of a union must lie in a region without
/// data and starts over at offset 0. A further fragment goes on where the data ends.
pub open spec fn spec_redeclare(
    stored: SectionDataView,
    kind: Kind,
    modifier: Modifier,
    attrs: NormalizedSectAttrs,
) -> Result<(NormalizedSectAttrs, usize), AsmErrorKind> {
    if stored.modifier == Modifier::Normal {
        Err(AsmErrorKind::SectionAlreadyDefined { previous: stored.definition })
    } else if stored.modifier != modifier {
        Err(
            AsmErrorKind::DifferentModifier {
                modifier: stored.modifier,
                previous: stored.definition,
            },
        )
    } else if stored.kind != kind {
        Err(AsmErrorKind::DifferentKind { kind: stored.kind, previous: stored.definition })
    } else if modifier == Modifier::Union {
        if kind.spec_has_data() {
            Err(AsmErrorKind::DataInUnion { kind })
        } else {
            match spec_merge_union(stored.attrs, attrs) {
                Ok(merged) => Ok((merged, 0usize)),
                Err(e) => Err(e),
            }
        }
    } else {
        match spec_concat_fragments(stored.attrs, attrs, stored.data.len() as u16) {
            Ok(merged) => Ok((merged, stored.data.len() as usize)),
            Err(e) => Err(e),
        }
    }
}

/// The index of `name` among `names`.
pub open spec fn index_of(names: Seq<Seq<char>>, name: Seq<char>) -> int {
    choose|i: int| 0 <= i < names.len() && names[i] == name
}

/// What a `Sections` is to the contracts: the names in the order of their first declaration,
/// the section of each name, and the scopes from the base to the innermost.
pub struct SectionsView {
    pub names: Seq<Seq<char>>,
    pub sections: Seq<SectionDataView>,
    pub stack: Seq<Option<ActiveSectionView>>,
}

impl SectionsView {
    /// Whether `cursor` points at a section of the store and not beyond the section's data.
    pub open spec fn cursor_fits(self, cursor: ActiveSectionView) -> bool {
        &&& cursor.name.0 < self.sections.len()
        &&& cursor.offset <= self.sections[cursor.name.0 as int].data.len()
        &&& cursor.pc_offset <= cursor.offset
    }

    /// Every name has its section and is held once, the base scope is there, every section
    /// keeps to its own rules, and every cursor fits.
    pub open spec fn wf(self) -> bool {
        &&& all_distinct(self.names)
        &&& self.names.len() == self.sections.len()
        &&& self.stack.len() >= 1
        &&& forall|i: int| 0 <= i < self.sections.len() ==> (#[trigger] self.sections[i]).wf()
        &&& forall|i: int|
            0 <= i < self.stack.len() ==> ((#[trigger] self.stack[i]) matches Some(c)
                ==> self.cursor_fits(c))
    }

    /// The innermost scope's cursor, if it has one.
    pub open spec fn active(self) -> Option<ActiveSectionView> {
        self.stack.last()
    }

    /// The store after `name` has been declared, and what the declaration returns.
    ///
    /// A new name gets a new section and the innermost scope's cursor at its start. A name
    /// that is held already is declared again as `spec_redeclare` says: where that succeeds
    /// the section takes the reconciled constraint and the innermost scope's cursor points at
    /// it, where it fails nothing changes and the error is reported at `span`.
    pub open spec fn declare(
        self,
        name: Seq<char>,
        kind: Kind,
        modifier: Modifier,
        attrs: NormalizedSectAttrs,
        span: Span,
    ) -> (SectionsView, Result<(), AsmError>) {
        let top = self.stack.len() - 1;
        if !is_registered(self.names, name) {
            (
                SectionsView {
                    names: self.names.push(name),
                    sections: self.sections.push(
                        SectionDataView::fresh(kind, modifier, span, attrs),
                    ),
                    stack: self.stack.update(
                        top,
                        Some(ActiveSectionView::fresh(SectionId(self.names.len() as usize), 0)),
                    ),
                },
                Ok(()),
            )
        } else {
            let id = index_of(self.names, name);
            let stored = self.sections[id];
            match spec_redeclare(stored, kind, modifier, attrs) {
                Err(kind) => (self, Err(AsmError { span, kind })),
                Ok((merged, offset)) => (
                    SectionsView {
                        names: self.names,
                        sections: self.sections.update(
                            id,
                            SectionDataView { attrs: merged, ..stored },
                        ),
                        stack: self.stack.update(
                            top,
                            Some(ActiveSectionView::fresh(SectionId(id as usize), offset)),
                        ),
                    },
                    Ok(()),
                ),
            }
        }
    }
}

/// All sections of a translation unit and the scopes that write them.
pub struct Sections {
    names: NameRegistry,
    sections: Vec<SectionData>,
    stack: Vec<Option<ActiveSection>>,
}

/// The view of a scope's slot.
pub open spec fn slot_view(slot: Option<ActiveSection>) -> Option<ActiveSectionView> {
    match slot {
        Some(c) => Some(c@),
        None => None,
    }
}

impl View for Sections {
    type V = SectionsView;

    closed spec fn view(&self) -> SectionsView {
        SectionsView {
            names: registered(self.names),
            sections: self.sections@.map_values(|s: SectionData| s@),
            stack: self.stack@.map_values(|s: Option<ActiveSection>| slot_view(s)),
        }
    }
}

impl Sections {
    /// Whether the store keeps to its rules.
    pub open spec fn wf(&self) -> bool {
        self@.wf()
    }

    /// A store without sections, with the base scope and no cursor in it.
    pub fn new() -> (r: Sections)
        ensures
            r.wf(),
            r@.names.len() == 0,
            r@.sections.len() == 0,
            r@.stack == seq![None::<ActiveSectionView>],
    {
        let mut stack: Vec<Option<ActiveSection>> = Vec::with_capacity(2);
        stack.push(None);
        let r = Sections { names: empty_registry(), sections: Vec::new(), stack };
        assert(r@.stack =~= seq![None::<ActiveSectionView>]);
        r
    }

    /// Opens a scope inside the innermost one; it has no cursor yet.
    pub fn enter_scope(&mut self)
        requires
            old(self).wf(),
        ensures
            final(self).wf(),
            final(self)@ == (SectionsView {
                stack: old(self)@.stack.push(None),
                ..old(self)@
            }),
    {
        self.stack.push(None);
        assert(self@.stack =~= old(self)@.stack.push(None));
    }

    /// Closes the innermost scope, so that the one around it is written again. The base scope
    /// stays: with no other scope open, nothing changes and the result is `false`.
    pub fn leave_scope(&mut self) -> (left: bool)
        requires
            old(self).wf(),
        ensures
            final(self).wf(),
            left == (old(self)@.stack.len() > 1),
            left ==> final(self)@ == (SectionsView {
                stack: old(self)@.stack.drop_last(),
                ..old(self)@
            }),
            !left ==> final(self)@ == old(self)@,
    {
        if self.stack.len() > 1 {
            self.stack.pop();
            assert(self@.stack =~= old(self)@.stack.drop_last());
            true
        } else {
            false
        }
    }

    /// Number of sections declared so far.
    pub fn len(&self) -> (r: usize)
        ensures
            r == self@.sections.len(),
    {
        self.sections.len()
    }

    /// Declares the section `name` and points the innermost scope's cursor at it.
    ///
    /// The registry of names panics once it holds `MAX_NAMES` names, so the store must hold
    /// fewer.
    pub fn add_section(
        &mut self,
        name: &str,
        kind: Kind,
        modifier: Modifier,
        attrs: NormalizedSectAttrs,
        span: Span,
    ) -> (r: Result<(), AsmError>)
        requires
            old(self).wf(),
            attrs.wf(),
            old(self)@.names.len() < MAX_NAMES,
        ensures
            final(self).wf(),
            final(self)@ == old(self)@.declare(name@, kind, modifier, attrs, span).0,
            r == old(self)@.declare(name@, kind, modifier, attrs, span).1,
    {
        let count = self.sections.len();
        let top = self.stack.len() - 1;
        let id = register(&mut self.names, name);
        proof {
            let held = registered(old(self).names);
            if is_registered(held, name@) {
                assert(held[id as int] == name@);
                assert(index_of(held, name@) == id);
            }
        }
        if id >= count {
            self.sections.push(SectionData::new(kind, modifier, span, attrs));
            self.stack.set(top, Some(ActiveSection::new(SectionId(id), 0)));
            proof {
                let expected = old(self)@.declare(name@, kind, modifier, attrs, span).0;
                assert(self@.sections =~= expected.sections);
                assert(self@.stack =~= expected.stack);
                assert(self@.names =~= expected.names);
            }
            Ok(())
        } else {
            assert(self.sections[id as int]@ == self@.sections[id as int]);
            match self.sections[id].redeclare(kind, modifier, &attrs) {
                Err(kind) => {
                    assert(self@.sections =~= old(self)@.sections);
                    assert(self@.stack =~= old(self)@.stack);
                    Err(AsmError { span, kind })
                },
                Ok((merged, offset)) => {
                    self.sections[id].attrs = merged;
                    self.stack.set(top, Some(ActiveSection::new(SectionId(id), offset)));
                    proof {
                        let expected = old(self)@.declare(name@, kind, modifier, attrs, span).0;
                        assert(self@.sections =~= expected.sections);
                        assert(self@.stack =~= expected.stack);
                    }
                    Ok(())
                },
            }
        }
    }

    /// The innermost scope's cursor together with its section, for reading.
    pub fn active_section<'a>(&'a self) -> (r: Option<SectionHandle<'a>>)
        requires
            self.wf(),
        ensures
            match self@.active() {
                None => r is None,
                Some(cursor) => r is Some && r->0.cursor_view() == cursor && r->0.section_view()
                    == self@.sections[cursor.name.0 as int],
            },
    {
        let top = self.stack.len() - 1;
        assert(self@.stack[top as int] == slot_view(self.stack[top as int]));
        match &self.stack[top] {
            Some(cursor) => {
                assert(self@.cursor_fits(cursor@));
                Some(SectionHandle(cursor, &self.sections[cursor.name.0]))
            },
            None => None,
        }
    }

    /// Emits `items` into the section of the innermost scope, if that scope has a cursor.
    pub fn extend_active(&mut self, items: &[ByteOrExpr], warnings: &mut Vec<Warning>) -> (r:
        Option<Result<(), AsmErrorKind>>)
        requires
            old(self).wf(),
        ensures
            final(self).wf(),
            final(self)@.names == old(self)@.names,
            match old(self)@.active() {
                None => r is None && final(self)@ == old(self)@ && final(warnings)@ == old(
                    warnings,
                )@,
                Some(cursor) => {
                    let before = Emission {
                        cursor,
                        section: old(self)@.sections[cursor.name.0 as int],
                        warnings: old(warnings)@,
                    };
                    let after = if before.section.kind.spec_has_data() {
                        spec_extend(before, items@)
                    } else {
                        before
                    };
                    &&& r is Some
                    &&& before.section.kind.spec_has_data() ==> r->0 is Ok
                    &&& !before.section.kind.spec_has_data() ==> r->0 == Err::<(), AsmErrorKind>(
                        AsmErrorKind::NotDataSection { kind: before.section.kind },
                    )
                    &&& final(self)@.sections == old(self)@.sections.update(
                        cursor.name.0 as int,
                        after.section,
                    )
                    &&& final(self)@.stack == old(self)@.stack.update(
                        old(self)@.stack.len() - 1,
                        Some(after.cursor),
                    )
                    &&& final(warnings)@ == after.warnings
                },
            },
    {
        match self.active_section_mut() {
            None => None,
            Some(mut handle) => {
                let r = handle.extend(items, warnings);
                Some(r)
            },
        }
    }

    /// The innermost scope's cursor together with its section, for writing. What is written
    /// through the handle is what the store holds once the handle is given up.
    pub fn active_section_mut<'a>(&'a mut self) -> (r: Option<SectionHandleMut<'a>>)
        requires
            old(self).wf(),
        ensures
            final(self)@.names == old(self)@.names,
            match old(self)@.active() {
                None => r is None && final(self)@ =~= old(self)@,
                Some(cursor) => r is Some && (r matches Some(handle) ==> {
                    &&& handle.cursor_view() == cursor
                    &&& handle.section_view() == old(self)@.sections[cursor.name.0 as int]
                    &&& handle.wf()
                    &&& final(self)@.sections =~= old(self)@.sections.update(
                        cursor.name.0 as int,
                        (*final(handle.1))@,
                    )
                    &&& final(self)@.stack =~= old(self)@.stack.update(
                        old(self)@.stack.len() - 1,
                        Some((*final(handle.0))@),
                    )
                }),
            },
    {
        let top = self.stack.len() - 1;
        assert(self@.stack[top as int] == slot_view(self.stack[top as int]));
        if self.stack[top].is_none() {
            return None;
        }
        match &mut self.stack[top] {
            Some(cursor) => {
                assert(old(self)@.cursor_fits(cursor@));
                let id = cursor.name.0;
                assert(old(self).sections[id as int]@ == old(self)@.sections[id as int]);
                Some(SectionHandleMut(cursor, &mut self.sections[id]))
            },
            None => None,
        }
    }
}

/// The cursor of the innermost scope and the section it points at, for reading.
pub struct SectionHandle<'a>(&'a ActiveSection, &'a SectionData);

/// The address `len` bytes after `base`, or the highest address where that lies beyond it.
pub open spec fn spec_pc(base: u16, len: nat) -> u16 {
    if base + len > 0xFFFF {
        0xFFFFu16
    } else {
        (base + len) as u16
    }
}

/// The address `len` bytes after `base`, held at the highest address.
pub fn pc_after(base: u16, len: usize) -> (r: u16)
    ensures
        r == spec_pc(base, len as nat),
{
    if len > 0xFFFF - base as usize {
        0xFFFF
    } else {
        base + len as u16
    }
}

impl<'a> SectionHandle<'a> {
    pub closed spec fn cursor_view(&self) -> ActiveSectionView {
        (*self.0)@
    }

    pub closed spec fn section_view(&self) -> SectionDataView {
        (*self.1)@
    }

    /// The cursor.
    pub fn cursor(&self) -> (r: &'a ActiveSection)
        ensures
            r@ == self.cursor_view(),
    {
        self.0
    }

    /// The section.
    pub fn section(&self) -> (r: &'a SectionData)
        ensures
            r@ == self.section_view(),
    {
        self.1
    }

    /// The address of the byte that is written next, if the section's address is pinned.
    pub fn try_get_pc(&self) -> (r: Option<u16>)
        ensures
            r == match self.section_view().attrs.address {
                Some(base) => Some(spec_pc(base, self.section_view().data.len())),
                None => None,
            },
    {
        match self.1.attrs.address {
            Some(base) => Some(pc_after(base, self.1.data.len())),
            None => None,
        }
    }
}

/// The cursor of the innermost scope and the section it points at, for writing.
pub struct SectionHandleMut<'a>(pub &'a mut ActiveSection, pub &'a mut SectionData);

/// Appends the `width` low-order bytes of `value` to `data`, lowest first.
fn push_le_bytes(data: &mut Vec<u8>, value: i32, width: u8)
    requires
        1 <= width <= 4,
    ensures
        final(data)@ == old(data)@ + le_bytes(value, width),
{
    let bits: u32 = if value < 0 {
        (value as i64 + 0x1_0000_0000) as u32
    } else {
        value as u32
    };
    assert(bits == unsigned_bits(value));
    data.push((bits % 256) as u8);
    if width >= 2 {
        data.push(((bits / 0x100) % 256) as u8);
    }
    if width >= 3 {
        data.push(((bits / 0x1_0000) % 256) as u8);
    }
    if width >= 4 {
        data.push(((bits / 0x100_0000) % 256) as u8);
    }
    assert(data@ =~= old(data)@ + le_bytes(value, width));
}

/// Appends `width` zero bytes to `data`.
fn push_placeholder(data: &mut Vec<u8>, width: u8)
    requires
        1 <= width <= 4,
    ensures
        final(data)@ == old(data)@ + placeholder(width),
{
    data.push(0);
    if width >= 2 {
        data.push(0);
    }
    if width >= 3 {
        data.push(0);
    }
    if width >= 4 {
        data.push(0);
    }
    assert(data@ =~= old(data)@ + placeholder(width));
}

/// Total number of bytes that `items` occupy, or the largest number if it is beyond that.
pub fn total_width(items: &[ByteOrExpr]) -> (r: usize)
    ensures
        r == grown(0, batch_width(items@)),
{
    let mut total: usize = 0;
    let mut i: usize = 0;
    while i < items.len()
        invariant
            i <= items.len(),
            total == grown(0, batch_width(items@.take(i as int))),
        decreases items.len() - i,
    {
        let width = items[i].width();
        proof {
            assert(items@.take(i + 1).drop_last() =~= items@.take(i as int));
            assert(items@.take(i + 1).last() == items@[i as int]);
        }
        total = total.saturating_add(width as usize);
        i += 1;
    }
    assert(items@.take(i as int) =~= items@);
    total
}

impl<'a> SectionHandleMut<'a> {
    pub open spec fn cursor_view(&self) -> ActiveSectionView {
        (*self.0)@
    }

    pub open spec fn section_view(&self) -> SectionDataView {
        (*self.1)@
    }

    /// The section, the cursor and `warnings` taken together.
    pub open spec fn emission(&self, warnings: Seq<Warning>) -> Emission {
        Emission { cursor: self.cursor_view(), section: self.section_view(), warnings }
    }

    /// The section keeps to its rules and the cursor is not beyond its data.
    pub open spec fn wf(&self) -> bool {
        &&& self.section_view().wf()
        &&& self.cursor_view().offset <= self.section_view().data.len()
        &&& self.cursor_view().pc_offset <= self.cursor_view().offset
    }

    /// Emits `items` at the cursor and hands the warnings that arise to `warnings`.
    ///
    /// A region without data takes no bytes: nothing changes then. Otherwise the section and
    /// the cursor change as `spec_extend` says.
    pub fn extend(&mut self, items: &[ByteOrExpr], warnings: &mut Vec<Warning>) -> (r: Result<
        (),
        AsmErrorKind,
    >)
        requires
            old(self).wf(),
        ensures
            final(self).wf(),
            *final(final(self).0) == *final(old(self).0),
            *final(final(self).1) == *final(old(self).1),
            final(self).cursor_view().name == old(self).cursor_view().name,
            old(self).section_view().data.is_prefix_of(final(self).section_view().data),
            old(self).section_view().patches.is_prefix_of(final(self).section_view().patches),
            !old(self).section_view().kind.spec_has_data() ==> {
                &&& r == Err::<(), AsmErrorKind>(
                    AsmErrorKind::NotDataSection { kind: old(self).section_view().kind },
                )
                &&& final(self).emission(final(warnings)@) == old(self).emission(old(warnings)@)
            },
            old(self).section_view().kind.spec_has_data() ==> {
                &&& r is Ok
                &&& final(self).emission(final(warnings)@) == spec_extend(
                    old(self).emission(old(warnings)@),
                    items@,
                )
            },
    {
        if !self.1.kind.has_data() {
            return Err(AsmErrorKind::NotDataSection { kind: self.1.kind });
        }
        let total = total_width(items);
        self.1.len_virt = self.1.len_virt.saturating_add(total);
        let ghost counted = self.emission(warnings@);
        assert(counted == (Emission {
            section: SectionDataView {
                len_virt: grown(old(self).section_view().len_virt, batch_width(items@)),
                ..old(self).section_view()
            },
            ..old(self).emission(old(warnings)@)
        }));
        if self.1.len_virt <= self.1.kind.size() as usize {
            let mut i: usize = 0;
            while i < items.len()
                invariant
                    i <= items.len(),
                    self.emission(warnings@) == emit_all(counted, items@.take(i as int)),
                    self.1.data@.len() == counted.section.data.len() + batch_width(
                        items@.take(i as int),
                    ),
                    self.0.offset == counted.cursor.offset + batch_width(items@.take(i as int)),
                    self.0.pc_offset == counted.cursor.pc_offset + batch_width(
                        items@.take(i as int),
                    ),
                    counted.section.data.len() + batch_width(items@) == counted.section.len_virt,
                    self.1.kind == counted.section.kind,
                    self.1.attrs == counted.section.attrs,
                    self.0.name == counted.cursor.name,
                    counted.section.data.is_prefix_of(self.1.data@),
                    counted.section.patches.is_prefix_of(self.section_view().patches),
                    self.1.len_virt == counted.section.len_virt,
                    counted.section.len_virt <= counted.section.kind.spec_size(),
                    counted.cursor.pc_offset <= counted.cursor.offset <= counted.section.data.len(),
                    *final(self.0) == *final(old(self).0),
                    *final(self.1) == *final(old(self).1),
                decreases items.len() - i,
            {
                proof {
                    assert(items@.take(i + 1).drop_last() =~= items@.take(i as int));
                    assert(items@.take(i + 1).last() == items@[i as int]);
                    lemma_batch_width_grows(items@, i as int + 1);
                }
                let ghost before = self.emission(warnings@);
                let width: u8 = items[i].width();
                match &items[i] {
                    ByteOrExpr::Byte(byte) => {
                        self.1.data.push(*byte);
                    },
                    ByteOrExpr::Expr(span, rpn, kind) => {
                        match rpn.try_get_constant() {
                            Some(constant) => {
                                match kind.is_in_range(constant) {
                                    TruncationLevel::Fits => {},
                                    TruncationLevel::Loose => {
                                        warnings.push(
                                            Warning {
                                                span: *span,
                                                kind: WarningKind::Truncation {
                                                    level: 2,
                                                    width: kind.width() * 8,
                                                },
                                            },
                                        );
                                    },
                                    TruncationLevel::Strict => {
                                        warnings.push(
                                            Warning {
                                                span: *span,
                                                kind: WarningKind::Truncation {
                                                    level: 1,
                                                    width: kind.width() * 8,
                                                },
                                            },
                                        );
                                    },
                                }
                                push_le_bytes(&mut self.1.data, constant, width);
                            },
                            None => {
                                self.1.patches.push(
                                    Relocation {
                                        definition: *span,
                                        offset: self.0.offset,
                                        pc_section: self.0.pc_section,
                                        pc_offset: self.0.pc_offset,
                                        kind: *kind,
                                        rpn: rpn.duplicate(),
                                    },
                                );
                                push_placeholder(&mut self.1.data, width);
                            },
                        }
                    },
                }
                self.0.offset += width as usize;
                self.0.pc_offset += width as usize;
                i += 1;
                proof {
                    let after = emit_item(before, items@[i - 1]);
                    assert(self.emission(warnings@).section.patches =~= after.section.patches);
                    assert(self.emission(warnings@).section.data =~= after.section.data);
                    assert(self.emission(warnings@).warnings =~= after.warnings);
                    assert(self.emission(warnings@).cursor == after.cursor);
                }
            }
            assert(items@.take(i as int) =~= items@);
        }
        Ok(())
    }
}

/// The width of a batch's first `n` items is at most that of the whole batch.
proof fn lemma_batch_width_grows(items: Seq<ByteOrExpr>, n: int)
    requires
        0 <= n <= items.len(),
    ensures
        batch_width(items.take(n)) <= batch_width(items),
    decreases items.len() - n,
{
    if n < items.len() {
        assert(items.take(n + 1).drop_last() =~= items.take(n));
        lemma_batch_width_grows(items, n + 1);
    } else {
        assert(items.take(n) =~= items);
    }
}

} // verus!
