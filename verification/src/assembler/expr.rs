//! Values as the expression evaluator hands them to the section manager.

use crate::assembler::language::Span;
use crate::reloc::RelocKind;
use vstd::prelude::*;

verus! {

/// An attribute expression after evaluation: its constant and where it was written.
#[derive(Debug, Clone, Copy, PartialEq, Eq, Structural)]
pub struct Evaluated {
    pub value: i32,
    pub span: Span,
}

/// An expression in its flattened encoding, with the constant it folds to, if it does.
#[derive(Debug, Clone, PartialEq, Eq)]
pub struct Rpn {
    pub bytes: Vec<u8>,
    pub constant: Option<i32>,
}

/// What an `Rpn` is to the contracts.
pub struct RpnView {
    pub bytes: Seq<u8>,
    pub constant: Option<i32>,
}

impl View for Rpn {
    type V = RpnView;

    open spec fn view(&self) -> RpnView {
        RpnView { bytes: self.bytes@, constant: self.constant }
    }
}

impl Rpn {
    /// The constant that the expression folds to, if it does.
    pub fn try_get_constant(&self) -> (r: Option<i32>)
        ensures
            r == self@.constant,
    {
        self.constant
    }

    /// A copy of the expression.
    pub fn duplicate(&self) -> (r: Rpn)
        ensures
            r@ == self@,
    {
        let mut bytes: Vec<u8> = Vec::new();
        let mut i: usize = 0;
        while i < self.bytes.len()
            invariant
                i <= self.bytes.len(),
                bytes@ == self.bytes@.take(i as int),
            decreases self.bytes.len() - i,
        {
            bytes.push(self.bytes[i]);
            i += 1;
            assert(bytes@ =~= self.bytes@.take(i as int));
        }
        assert(bytes@ =~= self.bytes@);
        Rpn { bytes, constant: self.constant }
    }
}

/// One item of an emission: a literal byte, or a value of some kind given by an expression.
#[derive(Debug, Clone, PartialEq, Eq)]
pub enum ByteOrExpr {
    Byte(u8),
    Expr(Span, Rpn, RelocKind),
}

impl ByteOrExpr {
    /// Number of bytes that the item occupies.
    pub open spec fn spec_width(&self) -> u8 {
        match self {
            ByteOrExpr::Byte(_) => 1,
            ByteOrExpr::Expr(_, _, kind) => kind.spec_width(),
        }
    }

    #[verifier::when_used_as_spec(spec_width)]
    pub fn width(&self) -> (r: u8)
        ensures
            r == self.spec_width(),
            1 <= r <= 4,
    {
        match self {
            ByteOrExpr::Byte(_) => 1,
            ByteOrExpr::Expr(_, _, kind) => kind.width(),
        }
    }
}

} // verus!
