//! The registry that gives each section name a small, stable index.

use string_interner::backend::StringBackend;
use string_interner::symbol::SymbolU32;
use string_interner::{StringInterner, Symbol};
use vstd::prelude::*;

verus! {

/// The registry of names. It holds a `string_interner::StringInterner` over a
/// `StringBackend` with 32-bit symbols, which keeps all names in one buffer and numbers them
/// from 0 in the order of their arrival. The verifier does not look inside: what it knows of
/// a registry is what `empty_registry` and `register` state.
#[verifier::external_body]
pub struct NameRegistry {
    interner: StringInterner<StringBackend<SymbolU32>>,
}

/// The names that a registry holds, in the order in which they were first seen.
pub uninterp spec fn registered(names: NameRegistry) -> Seq<Seq<char>>;

/// Largest number of names that a registry can hold.
pub const MAX_NAMES: usize = 0xFFFF_FFFF;

/// Whether `name` is one of `names`.
pub open spec fn is_registered(names: Seq<Seq<char>>, name: Seq<char>) -> bool {
    exists|i: int| 0 <= i < names.len() && names[i] == name
}

/// Whether no name occurs twice in `names`.
pub open spec fn all_distinct(names: Seq<Seq<char>>) -> bool {
    forall|i: int, j: int| 0 <= i < j < names.len() ==> names[i] != names[j]
}

/// `StringInterner::new`: the registry starts without any name.
#[verifier::external_body]
pub(crate) fn empty_registry() -> (names: NameRegistry)
    ensures
        registered(names) == Seq::<Seq<char>>::empty(),
{
    NameRegistry { interner: StringInterner::new() }
}

/// `StringInterner::get_or_intern`, with the symbol turned into its index by `Symbol::to_usize`.
///
/// A name that the registry holds keeps its index and leaves the registry as it is. Any other
/// name is appended, and its index is the number of names held before. The interner panics once
/// its 32-bit symbols run out, so the registry must hold fewer than `MAX_NAMES` names.
#[verifier::external_body]
pub(crate) fn register(names: &mut NameRegistry, name: &str) -> (index: usize)
    requires
        registered(*old(names)).len() < MAX_NAMES,
    ensures
        is_registered(registered(*old(names)), name@) ==> registered(*final(names)) == registered(
            *old(names),
        ),
        !is_registered(registered(*old(names)), name@) ==> registered(*final(names)) == registered(
            *old(names),
        ).push(name@) && index == registered(*old(names)).len(),
        index < registered(*final(names)).len(),
        registered(*final(names))[index as int] == name@,
{
    names.interner.get_or_intern(name).to_usize()
}

} // verus!
