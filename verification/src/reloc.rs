//! What kind of value a deferred patch writes, and how constants are held to it.

use vstd::prelude::*;

verus! {

/// How far a constant is from fitting the width it is written with.
#[derive(Debug, Clone, Copy, PartialEq, Eq, Structural, Hash)]
pub enum TruncationLevel {
    /// The value fits.
    Fits,
    /// The value fits only when it is read as a negative number wider than the signed range.
    Loose,
    /// The value does not fit the width under any reading.
    Strict,
}

/// The width and meaning of a value written into a section.
#[derive(Debug, Clone, Copy, PartialEq, Eq, Structural, Hash)]
pub enum RelocKind {
    /// One byte.
    Byte,
    /// Two bytes, little-endian.
    Word,
    /// Four bytes, little-endian.
    Long,
    /// One byte holding a signed displacement.
    Jr,
}

impl RelocKind {
    pub open spec fn spec_width(self) -> u8 {
        match self {
            RelocKind::Byte => 1,
            RelocKind::Word => 2,
            RelocKind::Long => 4,
            RelocKind::Jr => 1,
        }
    }

    /// How well `value` fits this kind.
    ///
    /// A displacement must lie in `-128..=127`. Any other value of `n` bits fits when it lies in
    /// `-2^(n-1) ..= 2^n - 1`; below that and down to `-2^n` the mismatch is loose, and beyond
    /// either end it is strict.
    pub open spec fn spec_is_in_range(self, value: i32) -> TruncationLevel {
        match self {
            RelocKind::Byte => {
                if value < -256 || value >= 256 {
                    TruncationLevel::Strict
                } else if value < -128 {
                    TruncationLevel::Loose
                } else {
                    TruncationLevel::Fits
                }
            },
            RelocKind::Word => {
                if value < -65536 || value >= 65536 {
                    TruncationLevel::Strict
                } else if value < -32768 {
                    TruncationLevel::Loose
                } else {
                    TruncationLevel::Fits
                }
            },
            RelocKind::Long => TruncationLevel::Fits,
            RelocKind::Jr => {
                if value < -128 || value > 127 {
                    TruncationLevel::Strict
                } else {
                    TruncationLevel::Fits
                }
            },
        }
    }

    /// Number of bytes written for a value of this kind.
    #[verifier::when_used_as_spec(spec_width)]
    pub fn width(self) -> (r: u8)
        ensures
            r == self.spec_width(),
            1 <= r <= 4,
    {
        match self {
            RelocKind::Byte => 1,
            RelocKind::Word => 2,
            RelocKind::Long => 4,
            RelocKind::Jr => 1,
        }
    }

    #[verifier::when_used_as_spec(spec_is_in_range)]
    pub fn is_in_range(self, value: i32) -> (r: TruncationLevel)
        ensures
            r == self.spec_is_in_range(value),
    {
        match self {
            RelocKind::Byte => {
                if value < -256 || value >= 256 {
                    TruncationLevel::Strict
                } else if value < -128 {
                    TruncationLevel::Loose
                } else {
                    TruncationLevel::Fits
                }
            },
            RelocKind::Word => {
                if value < -65536 || value >= 65536 {
                    TruncationLevel::Strict
                } else if value < -32768 {
                    TruncationLevel::Loose
                } else {
                    TruncationLevel::Fits
                }
            },
            RelocKind::Long => TruncationLevel::Fits,
            RelocKind::Jr => {
                if value < -128 || value > 127 {
                    TruncationLevel::Strict
                } else {
                    TruncationLevel::Fits
                }
            },
        }
    }
}

} // verus!
