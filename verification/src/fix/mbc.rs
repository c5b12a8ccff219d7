//! Memory bank controllers: their types, what each can be fitted with, and how the text of
//! the controller option is read.

use crate::fix::args::chars_of;
use vstd::prelude::*;
use vstd::string::StrSliceExecFns;

verus! {

/// A type of memory bank controller.
#[derive(Debug, Clone, Copy, PartialEq, Eq, Structural, Hash)]
#[allow(non_camel_case_types)]
pub enum MBCType {
    ROM,
    MBC1,
    MBC2,
    MMM01,
    MBC3,
    MBC5,
    MBC6,
    MBC7,
    POCKET_CAMERA,
    BANDAI_TAMA5,
    HUC1,
    HUC3,
    TPP1,
}

/// What a controller is fitted with, as a set of flags.
#[derive(Debug, Clone, Copy, PartialEq, Eq, Structural)]
pub struct MBCExtension {
    pub bits: u8,
}

pub const RAM: u8 = 0x80;

pub const BATTERY: u8 = 0x40;

pub const TIMER: u8 = 0x20;

pub const RUMBLE: u8 = 0x10;

pub const SENSOR: u8 = 0x08;

pub const MULTIRUMBLE: u8 = 0x04;

/// A controller type with what it is fitted with.
#[derive(Debug, Clone, Copy, PartialEq, Eq, Structural)]
pub struct MBC {
    pub ty: MBCType,
    pub extensions: MBCExtension,
}

/// Why the text of the controller option gives no controller.
#[derive(Debug, Clone, Copy, PartialEq, Eq, Structural)]
pub enum MbcError {
    /// The text asks for the list of controllers.
    Help,
    /// The text begins with no controller's name.
    InvalidType,
    /// The characters from `start` up to `end` name no extension.
    InvalidExtension { start: usize, end: usize },
    /// The controller cannot be fitted with the extension.
    CannotHave { ty: MBCType, extension: MBCExtension },
}

impl MBCExtension {
    /// Whether all flags of `other` are set.
    pub open spec fn spec_contains(self, other: MBCExtension) -> bool {
        self.bits & other.bits == other.bits
    }

    #[verifier::when_used_as_spec(spec_contains)]
    pub fn contains(self, other: MBCExtension) -> (r: bool)
        ensures
            r == self.spec_contains(other),
    {
        self.bits & other.bits == other.bits
    }
}

impl MBCType {
    /// The value that stands for the controller in a header; the last one has none that fits
    /// a byte.
    pub open spec fn spec_code(self) -> u16 {
        match self {
            MBCType::ROM => 0x00,
            MBCType::MBC1 => 0x01,
            MBCType::MBC2 => 0x05,
            MBCType::MMM01 => 0x0B,
            MBCType::MBC3 => 0x11,
            MBCType::MBC5 => 0x19,
            MBCType::MBC6 => 0x20,
            MBCType::MBC7 => 0x22,
            MBCType::POCKET_CAMERA => 0xFC,
            MBCType::BANDAI_TAMA5 => 0xFD,
            MBCType::HUC1 => 0xFF,
            MBCType::HUC3 => 0xFE,
            MBCType::TPP1 => 0x100,
        }
    }

    #[verifier::when_used_as_spec(spec_code)]
    pub fn code(self) -> (r: u16)
        ensures
            r == self.spec_code(),
    {
        match self {
            MBCType::ROM => 0x00,
            MBCType::MBC1 => 0x01,
            MBCType::MBC2 => 0x05,
            MBCType::MMM01 => 0x0B,
            MBCType::MBC3 => 0x11,
            MBCType::MBC5 => 0x19,
            MBCType::MBC6 => 0x20,
            MBCType::MBC7 => 0x22,
            MBCType::POCKET_CAMERA => 0xFC,
            MBCType::BANDAI_TAMA5 => 0xFD,
            MBCType::HUC1 => 0xFF,
            MBCType::HUC3 => 0xFE,
            MBCType::TPP1 => 0x100,
        }
    }

    /// Everything that the controller can be fitted with.
    pub open spec fn spec_valid_extensions(self) -> MBCExtension {
        match self {
            MBCType::ROM | MBCType::MBC1 | MBCType::MMM01 => MBCExtension { bits: RAM | BATTERY },
            MBCType::MBC2 => MBCExtension { bits: BATTERY },
            MBCType::MBC3 => MBCExtension { bits: RAM | BATTERY | TIMER },
            MBCType::MBC5 => MBCExtension { bits: RAM | BATTERY | RUMBLE },
            MBCType::MBC6 | MBCType::POCKET_CAMERA | MBCType::BANDAI_TAMA5 | MBCType::HUC3 => {
                MBCExtension { bits: 0 }
            },
            MBCType::MBC7 => MBCExtension { bits: RAM | BATTERY | SENSOR | RUMBLE },
            MBCType::HUC1 => MBCExtension { bits: RAM | BATTERY },
            MBCType::TPP1 => MBCExtension { bits: RAM | BATTERY | MULTIRUMBLE | RUMBLE },
        }
    }

    #[verifier::when_used_as_spec(spec_valid_extensions)]
    pub fn valid_extensions(self) -> (r: MBCExtension)
        ensures
            r == self.spec_valid_extensions(),
    {
        match self {
            MBCType::ROM | MBCType::MBC1 | MBCType::MMM01 => MBCExtension { bits: RAM | BATTERY },
            MBCType::MBC2 => MBCExtension { bits: BATTERY },
            MBCType::MBC3 => MBCExtension { bits: RAM | BATTERY | TIMER },
            MBCType::MBC5 => MBCExtension { bits: RAM | BATTERY | RUMBLE },
            MBCType::MBC6 | MBCType::POCKET_CAMERA | MBCType::BANDAI_TAMA5 | MBCType::HUC3 => {
                MBCExtension { bits: 0 }
            },
            MBCType::MBC7 => MBCExtension { bits: RAM | BATTERY | SENSOR | RUMBLE },
            MBCType::HUC1 => MBCExtension { bits: RAM | BATTERY },
            MBCType::TPP1 => MBCExtension { bits: RAM | BATTERY | MULTIRUMBLE | RUMBLE },
        }
    }

    /// Whether the controller can be fitted with all of `extension`.
    pub open spec fn spec_can_have_extension(self, extension: MBCExtension) -> bool {
        self.spec_valid_extensions().spec_contains(extension)
    }

    #[verifier::when_used_as_spec(spec_can_have_extension)]
    pub fn can_have_extension(self, extension: MBCExtension) -> (r: bool)
        ensures
            r == self.spec_can_have_extension(extension),
    {
        self.valid_extensions().contains(extension)
    }
}

/// The code of `c`, with that of the small letter for a capital ASCII letter.
pub open spec fn spec_lower(c: char) -> u32 {
    if 65 <= c as u32 <= 90 {
        (c as u32 + 32) as u32
    } else {
        c as u32
    }
}

/// Whether `a` and `b` are the same but for the case of ASCII letters.
pub open spec fn spec_eq_ignore_case(a: Seq<char>, b: Seq<char>) -> bool {
    a.len() == b.len() && forall|i: int| 0 <= i < a.len() ==> spec_lower(a[i]) == spec_lower(b[i])
}

/// Whether `s` begins with `name`, but for the case of ASCII letters.
pub open spec fn spec_has_prefix(s: Seq<char>, name: Seq<char>) -> bool {
    s.len() >= name.len() && spec_eq_ignore_case(s.take(name.len() as int), name)
}

/// The controller type whose name `s` begins with, and the length of that name. The names
/// are tried in a fixed order and the first that fits is taken.
pub open spec fn spec_mbc_type(s: Seq<char>) -> Option<(MBCType, nat)> {
    if spec_has_prefix(s, "ROM_ONLY"@) {
        Some((MBCType::ROM, "ROM_ONLY"@.len()))
    } else if spec_has_prefix(s, "ROM"@) {
        Some((MBCType::ROM, "ROM"@.len()))
    } else if spec_has_prefix(s, "MMM01"@) {
        Some((MBCType::MMM01, "MMM01"@.len()))
    } else if spec_has_prefix(s, "MBC1"@) {
        Some((MBCType::MBC1, "MBC1"@.len()))
    } else if spec_has_prefix(s, "MBC2"@) {
        Some((MBCType::MBC2, "MBC2"@.len()))
    } else if spec_has_prefix(s, "MBC3"@) {
        Some((MBCType::MBC3, "MBC3"@.len()))
    } else if spec_has_prefix(s, "MBC5"@) {
        Some((MBCType::MBC5, "MBC5"@.len()))
    } else if spec_has_prefix(s, "MBC6"@) {
        Some((MBCType::MBC6, "MBC6"@.len()))
    } else if spec_has_prefix(s, "POCKET_CAMERA"@) {
        Some((MBCType::POCKET_CAMERA, "POCKET_CAMERA"@.len()))
    } else if spec_has_prefix(s, "BANDAI_TAMA5"@) {
        Some((MBCType::BANDAI_TAMA5, "BANDAI_TAMA5"@.len()))
    } else if spec_has_prefix(s, "HUC1"@) {
        Some((MBCType::HUC1, "HUC1"@.len()))
    } else if spec_has_prefix(s, "HUC3"@) {
        Some((MBCType::HUC3, "HUC3"@.len()))
    } else if spec_has_prefix(s, "TPP1"@) {
        Some((MBCType::TPP1, "TPP1"@.len()))
    } else {
        None
    }
}

/// The extension that `token` names, but for the case of ASCII letters.
pub open spec fn spec_extension_of(token: Seq<char>) -> Option<MBCExtension> {
    if spec_eq_ignore_case(token, "RAM"@) {
        Some(MBCExtension { bits: RAM })
    } else if spec_eq_ignore_case(token, "BATTERY"@) {
        Some(MBCExtension { bits: BATTERY })
    } else if spec_eq_ignore_case(token, "TIMER"@) {
        Some(MBCExtension { bits: TIMER })
    } else if spec_eq_ignore_case(token, "RUMBLE"@) {
        Some(MBCExtension { bits: RUMBLE })
    } else if spec_eq_ignore_case(token, "SENSOR"@) {
        Some(MBCExtension { bits: SENSOR })
    } else if spec_eq_ignore_case(token, "MULTIRUMBLE"@) {
        Some(MBCExtension { bits: MULTIRUMBLE })
    } else {
        None
    }
}

/// Whether `c` parts two extensions.
pub open spec fn spec_is_separator(c: char) -> bool {
    c == '+' || c == '_' || c == ' '
}

/// Whether `c` is white space.
pub open spec fn spec_is_space(c: char) -> bool {
    let code = c as u32;
    ||| 9 <= code <= 13
    ||| code == 0x20
    ||| code == 0x85
    ||| code == 0xA0
    ||| code == 0x1680
    ||| 0x2000 <= code <= 0x200A
    ||| code == 0x2028
    ||| code == 0x2029
    ||| code == 0x202F
    ||| code == 0x205F
    ||| code == 0x3000
}

/// The position of the first separator of `s` at or after `pos`, or the length of `s`.
pub open spec fn spec_token_end(s: Seq<char>, pos: int) -> int
    decreases s.len() - pos,
{
    if 0 <= pos < s.len() && !spec_is_separator(s[pos]) {
        spec_token_end(s, pos + 1)
    } else {
        pos
    }
}

/// The position of the first character of `s` from `from` on that is no white space, or `to`.
pub open spec fn spec_trim_start(s: Seq<char>, from: int, to: int) -> int
    decreases to - from,
{
    if 0 <= from < to <= s.len() && spec_is_space(s[from]) {
        spec_trim_start(s, from + 1, to)
    } else {
        from
    }
}

/// The position after the last character of `s` before `to` that is no white space, or `from`.
pub open spec fn spec_trim_end(s: Seq<char>, from: int, to: int) -> int
    decreases to - from,
{
    if 0 <= from < to <= s.len() && spec_is_space(s[to - 1]) {
        spec_trim_end(s, from, to - 1)
    } else {
        to
    }
}

/// The extensions that the text `s` names from `pos` on, added to `bits`.
///
/// The text is cut at every separator and each piece is taken without the white space around
/// it. An empty piece is passed over. Any other piece must name an extension that the
/// controller can be fitted with; the first that does not ends the reading.
pub open spec fn spec_extensions(ty: MBCType, s: Seq<char>, pos: int, bits: u8) -> Result<
    u8,
    MbcError,
>
    decreases s.len() - pos,
{
    let end = spec_token_end(s, pos);
    let a = spec_trim_start(s, pos, end);
    let b = spec_trim_end(s, a, end);
    let found: Result<u8, MbcError> = if a >= b {
        Ok(bits)
    } else {
        match spec_extension_of(s.subrange(a, b)) {
            None => Err(MbcError::InvalidExtension { start: a as usize, end: b as usize }),
            Some(extension) => if ty.spec_can_have_extension(extension) {
                Ok(bits | extension.bits)
            } else {
                Err(MbcError::CannotHave { ty, extension })
            },
        }
    };
    match found {
        Err(e) => Err(e),
        Ok(next) => if 0 <= pos <= end < s.len() {
            spec_extensions(ty, s, end + 1, next)
        } else {
            Ok(next)
        },
    }
}

/// The controller that the text `s` names: a controller's name, then extensions.
pub open spec fn spec_mbc_from_str(s: Seq<char>) -> Result<MBC, MbcError> {
    if spec_eq_ignore_case(s, "help"@) {
        Err(MbcError::Help)
    } else {
        match spec_mbc_type(s) {
            None => Err(MbcError::InvalidType),
            Some((ty, n)) => match spec_extensions(ty, s, n as int, 0) {
                Ok(bits) => Ok(MBC { ty, extensions: MBCExtension { bits } }),
                Err(e) => Err(e),
            },
        }
    }
}

fn lower(c: char) -> (r: u32)
    ensures
        r == spec_lower(c),
{
    let code: u32 = c as u32;
    if 65 <= code && code <= 90 {
        code + 32
    } else {
        code
    }
}

fn is_separator(c: char) -> (r: bool)
    ensures
        r == spec_is_separator(c),
{
    c == '+' || c == '_' || c == ' '
}

fn is_space(c: char) -> (r: bool)
    ensures
        r == spec_is_space(c),
{
    let code: u32 = c as u32;
    (9 <= code && code <= 13) || code == 0x20 || code == 0x85 || code == 0xA0 || code == 0x1680
        || (0x2000 <= code && code <= 0x200A) || code == 0x2028 || code == 0x2029 || code
        == 0x202F || code == 0x205F || code == 0x3000
}

/// Whether the characters of `chars` from `from` up to `to` spell `name`, but for case.
fn eq_ignore_case(chars: &Vec<char>, from: usize, to: usize, name: &str) -> (r: bool)
    requires
        from <= to <= chars.len(),
    ensures
        r == spec_eq_ignore_case(chars@.subrange(from as int, to as int), name@),
{
    let n = name.unicode_len();
    if to - from != n {
        return false;
    }
    let ghost piece = chars@.subrange(from as int, to as int);
    let mut i: usize = 0;
    while i < n
        invariant
            i <= n,
            n == name@.len(),
            from + n == to,
            to <= chars.len(),
            piece == chars@.subrange(from as int, to as int),
            forall|j: int| 0 <= j < i ==> spec_lower(piece[j]) == spec_lower(name@[j]),
        decreases n - i,
    {
        if lower(chars[from + i]) != lower(name.get_char(i)) {
            assert(piece[i as int] == chars@[from + i]);
            return false;
        }
        assert(piece[i as int] == chars@[from + i]);
        i += 1;
    }
    true
}

/// The length of `name`, if `chars` begins with it but for case.
fn prefix_len(chars: &Vec<char>, name: &str) -> (r: Option<usize>)
    ensures
        spec_has_prefix(chars@, name@) ==> r == Some(name@.len() as usize),
        !spec_has_prefix(chars@, name@) ==> r is None,
{
    let n = name.unicode_len();
    if chars.len() < n {
        return None;
    }
    assert(chars@.take(n as int) =~= chars@.subrange(0, n as int));
    if eq_ignore_case(chars, 0, n, name) {
        Some(n)
    } else {
        None
    }
}

fn mbc_type(chars: &Vec<char>) -> (r: Option<(MBCType, usize)>)
    ensures
        match spec_mbc_type(chars@) {
            None => r is None,
            Some((ty, n)) => r == Some((ty, n as usize)) && n <= chars.len(),
        },
{
    if let Some(n) = prefix_len(chars, "ROM_ONLY") {
        Some((MBCType::ROM, n))
    } else if let Some(n) = prefix_len(chars, "ROM") {
        Some((MBCType::ROM, n))
    } else if let Some(n) = prefix_len(chars, "MMM01") {
        Some((MBCType::MMM01, n))
    } else if let Some(n) = prefix_len(chars, "MBC1") {
        Some((MBCType::MBC1, n))
    } else if let Some(n) = prefix_len(chars, "MBC2") {
        Some((MBCType::MBC2, n))
    } else if let Some(n) = prefix_len(chars, "MBC3") {
        Some((MBCType::MBC3, n))
    } else if let Some(n) = prefix_len(chars, "MBC5") {
        Some((MBCType::MBC5, n))
    } else if let Some(n) = prefix_len(chars, "MBC6") {
        Some((MBCType::MBC6, n))
    } else if let Some(n) = prefix_len(chars, "POCKET_CAMERA") {
        Some((MBCType::POCKET_CAMERA, n))
    } else if let Some(n) = prefix_len(chars, "BANDAI_TAMA5") {
        Some((MBCType::BANDAI_TAMA5, n))
    } else if let Some(n) = prefix_len(chars, "HUC1") {
        Some((MBCType::HUC1, n))
    } else if let Some(n) = prefix_len(chars, "HUC3") {
        Some((MBCType::HUC3, n))
    } else if let Some(n) = prefix_len(chars, "TPP1") {
        Some((MBCType::TPP1, n))
    } else {
        None
    }
}

fn extension_of(chars: &Vec<char>, from: usize, to: usize) -> (r: Option<MBCExtension>)
    requires
        from <= to <= chars.len(),
    ensures
        r == spec_extension_of(chars@.subrange(from as int, to as int)),
{
    if eq_ignore_case(chars, from, to, "RAM") {
        Some(MBCExtension { bits: RAM })
    } else if eq_ignore_case(chars, from, to, "BATTERY") {
        Some(MBCExtension { bits: BATTERY })
    } else if eq_ignore_case(chars, from, to, "TIMER") {
        Some(MBCExtension { bits: TIMER })
    } else if eq_ignore_case(chars, from, to, "RUMBLE") {
        Some(MBCExtension { bits: RUMBLE })
    } else if eq_ignore_case(chars, from, to, "SENSOR") {
        Some(MBCExtension { bits: SENSOR })
    } else if eq_ignore_case(chars, from, to, "MULTIRUMBLE") {
        Some(MBCExtension { bits: MULTIRUMBLE })
    } else {
        None
    }
}

fn token_end(chars: &Vec<char>, pos: usize) -> (r: usize)
    requires
        pos <= chars.len(),
    ensures
        r == spec_token_end(chars@, pos as int),
        pos <= r <= chars.len(),
{
    let mut end = pos;
    while end < chars.len() && !is_separator(chars[end])
        invariant
            pos <= end <= chars.len(),
            spec_token_end(chars@, pos as int) == spec_token_end(chars@, end as int),
        decreases chars.len() - end,
    {
        end += 1;
    }
    end
}

fn trim_start(chars: &Vec<char>, from: usize, to: usize) -> (r: usize)
    requires
        from <= to <= chars.len(),
    ensures
        r == spec_trim_start(chars@, from as int, to as int),
        from <= r <= to,
{
    let mut a = from;
    while a < to && is_space(chars[a])
        invariant
            from <= a <= to <= chars.len(),
            spec_trim_start(chars@, from as int, to as int) == spec_trim_start(
                chars@,
                a as int,
                to as int,
            ),
        decreases to - a,
    {
        a += 1;
    }
    a
}

fn trim_end(chars: &Vec<char>, from: usize, to: usize) -> (r: usize)
    requires
        from <= to <= chars.len(),
    ensures
        r == spec_trim_end(chars@, from as int, to as int),
        from <= r <= to,
{
    let mut b = to;
    while b > from && is_space(chars[b - 1])
        invariant
            from <= b <= to <= chars.len(),
            spec_trim_end(chars@, from as int, to as int) == spec_trim_end(
                chars@,
                from as int,
                b as int,
            ),
        decreases b - from,
    {
        b -= 1;
    }
    b
}

fn extensions(ty: MBCType, chars: &Vec<char>, start: usize) -> (r: Result<u8, MbcError>)
    requires
        start <= chars.len(),
    ensures
        r == spec_extensions(ty, chars@, start as int, 0),
{
    let mut pos = start;
    let mut bits: u8 = 0;
    loop
        invariant
            start <= pos <= chars.len(),
            spec_extensions(ty, chars@, start as int, 0) == spec_extensions(
                ty,
                chars@,
                pos as int,
                bits,
            ),
        decreases chars.len() - pos,
    {
        let end = token_end(chars, pos);
        let a = trim_start(chars, pos, end);
        let b = trim_end(chars, a, end);
        if a < b {
            match extension_of(chars, a, b) {
                None => {
                    return Err(MbcError::InvalidExtension { start: a, end: b });
                },
                Some(extension) => {
                    if !ty.can_have_extension(extension) {
                        return Err(MbcError::CannotHave { ty, extension });
                    }
                    bits = bits | extension.bits;
                },
            }
        }
        if end >= chars.len() {
            return Ok(bits);
        }
        pos = end + 1;
    }
}

impl MBC {
    /// Reads the text of the controller option.
    pub fn from_str(s: &str) -> (r: Result<MBC, MbcError>)
        ensures
            r == spec_mbc_from_str(s@),
    {
        let chars = chars_of(s);
        assert(chars@.subrange(0, chars@.len() as int) =~= chars@);
        if eq_ignore_case(&chars, 0, chars.len(), "help") {
            return Err(MbcError::Help);
        }
        match mbc_type(&chars) {
            None => Err(MbcError::InvalidType),
            Some((ty, n)) => match extensions(ty, &chars, n) {
                Ok(bits) => Ok(MBC { ty, extensions: MBCExtension { bits } }),
                Err(e) => Err(e),
            },
        }
    }
}

} // verus!
