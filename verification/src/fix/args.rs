//! Option values of the header fixer: what each option's text means.

use crate::fix::mbc::{spec_mbc_from_str, MbcError, MBC};
use vstd::array::ArrayAdditionalExecFns;
use vstd::prelude::*;
use vstd::string::StrSliceExecFns;

verus! {

/// The characters of `s`, one by one.
pub fn chars_of(s: &str) -> (r: Vec<char>)
    ensures
        r@ == s@,
{
    let n = s.unicode_len();
    let mut r: Vec<char> = Vec::new();
    let mut i: usize = 0;
    while i < n
        invariant
            n == s@.len(),
            i <= n,
            r@ == s@.take(i as int),
        decreases n - i,
    {
        r.push(s.get_char(i));
        i += 1;
        assert(r@ =~= s@.take(i as int));
    }
    assert(s@.take(n as int) =~= s@);
    r
}

/// Which header values to fix and which to trash, as a set of flags.
#[derive(Debug, Clone, Copy, PartialEq, Eq, Structural)]
pub struct FixSpec {
    pub bits: u8,
}

pub const FIX_LOGO: u8 = 0x80;

pub const TRASH_LOGO: u8 = 0x40;

pub const FIX_HEADER_SUM: u8 = 0x20;

pub const TRASH_HEADER_SUM: u8 = 0x10;

pub const FIX_GLOBAL_SUM: u8 = 0x08;

pub const TRASH_GLOBAL_SUM: u8 = 0x04;

/// What reading a fix specification found worth telling.
#[derive(Debug, Clone, Copy, PartialEq, Eq, Structural)]
pub enum FixSpecWarning {
    /// The character `new` takes back what the earlier character `old` asked for.
    Overwrites { new: char, old: char },
    /// The character means nothing.
    Unknown { unknown: char },
}

/// What a character of a fix specification asks for: the flag it sets, the flag it clears, and
/// the character that stands for the cleared flag.
pub open spec fn spec_flag_of(c: char) -> Option<(u8, u8, char)> {
    if c == 'l' {
        Some((FIX_LOGO, TRASH_LOGO, 'L'))
    } else if c == 'L' {
        Some((TRASH_LOGO, FIX_LOGO, 'l'))
    } else if c == 'h' {
        Some((FIX_HEADER_SUM, TRASH_HEADER_SUM, 'H'))
    } else if c == 'H' {
        Some((TRASH_HEADER_SUM, FIX_HEADER_SUM, 'h'))
    } else if c == 'g' {
        Some((FIX_GLOBAL_SUM, TRASH_GLOBAL_SUM, 'G'))
    } else if c == 'G' {
        Some((TRASH_GLOBAL_SUM, FIX_GLOBAL_SUM, 'g'))
    } else {
        None
    }
}

/// The flags after the character `c` was read with `bits` set.
pub open spec fn spec_apply_fix_char(bits: u8, c: char) -> u8 {
    match spec_flag_of(c) {
        Some((set, clear, _)) => (bits & !clear) | set,
        None => bits,
    }
}

/// The warning that reading the character `c` with `bits` set gives rise to.
pub open spec fn spec_fix_char_warning(bits: u8, c: char) -> Option<FixSpecWarning> {
    match spec_flag_of(c) {
        Some((_, clear, old)) => if bits & clear == clear {
            Some(FixSpecWarning::Overwrites { new: c, old })
        } else {
            None
        },
        None => Some(FixSpecWarning::Unknown { unknown: c }),
    }
}

/// The flags that a fix specification comes to, character by character from the left.
pub open spec fn spec_fix_bits(s: Seq<char>) -> u8
    decreases s.len(),
{
    if s.len() == 0 {
        0
    } else {
        spec_apply_fix_char(spec_fix_bits(s.drop_last()), s.last())
    }
}

/// The warnings that reading a fix specification gives rise to, in order.
pub open spec fn spec_fix_warnings(s: Seq<char>) -> Seq<FixSpecWarning>
    decreases s.len(),
{
    if s.len() == 0 {
        Seq::empty()
    } else {
        match spec_fix_char_warning(spec_fix_bits(s.drop_last()), s.last()) {
            Some(w) => spec_fix_warnings(s.drop_last()).push(w),
            None => spec_fix_warnings(s.drop_last()),
        }
    }
}

fn flag_of(c: char) -> (r: Option<(u8, u8, char)>)
    ensures
        r == spec_flag_of(c),
{
    if c == 'l' {
        Some((FIX_LOGO, TRASH_LOGO, 'L'))
    } else if c == 'L' {
        Some((TRASH_LOGO, FIX_LOGO, 'l'))
    } else if c == 'h' {
        Some((FIX_HEADER_SUM, TRASH_HEADER_SUM, 'H'))
    } else if c == 'H' {
        Some((TRASH_HEADER_SUM, FIX_HEADER_SUM, 'h'))
    } else if c == 'g' {
        Some((FIX_GLOBAL_SUM, TRASH_GLOBAL_SUM, 'G'))
    } else if c == 'G' {
        Some((TRASH_GLOBAL_SUM, FIX_GLOBAL_SUM, 'g'))
    } else {
        None
    }
}

impl FixSpec {
    /// Whether all of `flags` are set.
    pub open spec fn spec_contains(self, flags: u8) -> bool {
        self.bits & flags == flags
    }

    #[verifier::when_used_as_spec(spec_contains)]
    pub fn contains(self, flags: u8) -> (r: bool)
        ensures
            r == self.spec_contains(flags),
    {
        self.bits & flags == flags
    }

    /// Reads a fix specification. A later character wins over an earlier one that asks for
    /// the opposite; characters that mean nothing are passed over. Both are told in `warnings`.
    pub fn from_str(s: &str, warnings: &mut Vec<FixSpecWarning>) -> (r: FixSpec)
        ensures
            r.bits == spec_fix_bits(s@),
            final(warnings)@ == old(warnings)@ + spec_fix_warnings(s@),
    {
        let chars = chars_of(s);
        let mut bits: u8 = 0;
        let mut i: usize = 0;
        assert(warnings@ =~= old(warnings)@ + spec_fix_warnings(chars@.take(0)));
        while i < chars.len()
            invariant
                i <= chars.len(),
                bits == spec_fix_bits(chars@.take(i as int)),
                warnings@ == old(warnings)@ + spec_fix_warnings(chars@.take(i as int)),
            decreases chars.len() - i,
        {
            let c = chars[i];
            proof {
                assert(chars@.take(i + 1).drop_last() =~= chars@.take(i as int));
                assert(chars@.take(i + 1).last() == c);
            }
            match flag_of(c) {
                Some((set, clear, old_char)) => {
                    if bits & clear == clear {
                        warnings.push(FixSpecWarning::Overwrites { new: c, old: old_char });
                    }
                    bits = (bits & !clear) | set;
                },
                None => {
                    warnings.push(FixSpecWarning::Unknown { unknown: c });
                },
            }
            i += 1;
            assert(warnings@ =~= old(warnings)@ + spec_fix_warnings(chars@.take(i as int)));
        }
        assert(chars@.take(i as int) =~= chars@);
        FixSpec { bits }
    }
}

/// Why a text is no byte.
#[derive(Debug, Clone, Copy, PartialEq, Eq, Structural)]
pub enum ParseU8Error {
    /// There is nothing to read.
    Empty,
    /// A character is no digit of the base.
    InvalidDigit,
    /// The number is above 255.
    TooLarge,
}

/// The value of `c` as a digit in base `radix`, for a base of at most 36.
pub open spec fn spec_digit(c: char, radix: u32) -> Option<u32> {
    let code = c as u32;
    let value = if 48 <= code <= 57 {
        (code - 48) as u32
    } else if 97 <= code <= 122 {
        (code - 87) as u32
    } else if 65 <= code <= 90 {
        (code - 55) as u32
    } else {
        radix
    };
    if value < radix {
        Some(value)
    } else {
        None
    }
}

/// The number that the digits `s` add to `acc`, read from the left; the first character that
/// is no digit, or the first digit that takes the number above 255, ends the reading.
pub open spec fn spec_digits(s: Seq<char>, radix: u32, acc: nat) -> Result<u8, ParseU8Error>
    decreases s.len(),
{
    if s.len() == 0 {
        Ok(acc as u8)
    } else {
        match spec_digit(s[0], radix) {
            None => Err(ParseU8Error::InvalidDigit),
            Some(d) => if acc * radix + d > 255 {
                Err(ParseU8Error::TooLarge)
            } else {
                spec_digits(s.drop_first(), radix, (acc * radix + d) as nat)
            },
        }
    }
}

/// The byte that `s` spells in base `radix`: digits, with one `+` allowed before them.
pub open spec fn spec_from_str_radix(s: Seq<char>, radix: u32) -> Result<u8, ParseU8Error> {
    if s.len() == 0 {
        Err(ParseU8Error::Empty)
    } else if s.len() == 1 && (s[0] == '+' || s[0] == '-') {
        Err(ParseU8Error::InvalidDigit)
    } else if s[0] == '+' {
        spec_digits(s.drop_first(), radix, 0)
    } else {
        spec_digits(s, radix, 0)
    }
}

/// Whether `s` begins with the two characters `a` and `b`.
pub open spec fn starts_with_pair(s: Seq<char>, a: char, b: char) -> bool {
    s.len() >= 2 && s[0] == a && s[1] == b
}

/// The byte that an option's text spells: hexadecimal after `0x` or `0X`, binary after `0b`
/// or `0B`, decimal otherwise.
pub open spec fn spec_parse_u8(s: Seq<char>) -> Result<u8, ParseU8Error> {
    if starts_with_pair(s, '0', 'x') || starts_with_pair(s, '0', 'X') {
        spec_from_str_radix(s.skip(2), 16)
    } else if starts_with_pair(s, '0', 'b') || starts_with_pair(s, '0', 'B') {
        spec_from_str_radix(s.skip(2), 2)
    } else {
        spec_from_str_radix(s, 10)
    }
}

fn digit(c: char, radix: u32) -> (r: Option<u32>)
    requires
        radix <= 36,
    ensures
        r == spec_digit(c, radix),
{
    let code: u32 = c as u32;
    let value: u32 = if 48 <= code && code <= 57 {
        code - 48
    } else if 97 <= code && code <= 122 {
        code - 87
    } else if 65 <= code && code <= 90 {
        code - 55
    } else {
        radix
    };
    if value < radix {
        Some(value)
    } else {
        None
    }
}

/// Reads the characters of `chars` from `start` on as a byte in base `radix`.
fn from_str_radix(chars: &Vec<char>, start: usize, radix: u32) -> (r: Result<u8, ParseU8Error>)
    requires
        start <= chars.len(),
        2 <= radix <= 36,
    ensures
        r == spec_from_str_radix(chars@.skip(start as int), radix),
{
    let ghost s = chars@.skip(start as int);
    let n = chars.len();
    if start == n {
        return Err(ParseU8Error::Empty);
    }
    assert(s[0] == chars@[start as int]);
    let first = chars[start];
    if n - start == 1 && (first == '+' || first == '-') {
        return Err(ParseU8Error::InvalidDigit);
    }
    let mut i: usize = if first == '+' {
        start + 1
    } else {
        start
    };
    assert(chars@.skip(i as int) =~= if first == '+' {
        s.drop_first()
    } else {
        s
    });
    let mut acc: u32 = 0;
    while i < n
        invariant
            start <= i <= n,
            n == chars.len(),
            2 <= radix <= 36,
            acc <= 255,
            s == chars@.skip(start as int),
            spec_from_str_radix(s, radix) == spec_digits(chars@.skip(i as int), radix, acc as nat),
        decreases n - i,
    {
        proof {
            assert(chars@.skip(i as int)[0] == chars@[i as int]);
            assert(chars@.skip(i as int).drop_first() =~= chars@.skip(i + 1));
        }
        match digit(chars[i], radix) {
            None => {
                return Err(ParseU8Error::InvalidDigit);
            },
            Some(d) => {
                assert(acc * radix <= 255 * 36) by (nonlinear_arith)
                    requires
                        acc <= 255,
                        radix <= 36,
                ;
                let next: u32 = acc * radix + d;
                if next > 255 {
                    return Err(ParseU8Error::TooLarge);
                }
                acc = next;
            },
        }
        i += 1;
    }
    Ok(acc as u8)
}

/// Reads an option's text as a byte.
pub fn parse_u8(input: &str) -> (r: Result<u8, ParseU8Error>)
    ensures
        r == spec_parse_u8(input@),
{
    let chars = chars_of(input);
    if chars.len() >= 2 && chars[0] == '0' && (chars[1] == 'x' || chars[1] == 'X') {
        from_str_radix(&chars, 2, 16)
    } else if chars.len() >= 2 && chars[0] == '0' && (chars[1] == 'b' || chars[1] == 'B') {
        from_str_radix(&chars, 2, 2)
    } else {
        assert(chars@.skip(0) =~= chars@);
        from_str_radix(&chars, 0, 10)
    }
}

/// A text of at most `N` ASCII characters, filled up with zero bytes.
#[derive(Debug, Clone)]
pub struct AsciiChar<const N: usize>(pub [u8; N]);

/// A text is not ASCII or is longer than `limit` characters.
#[derive(Debug, Clone, Copy, PartialEq, Eq, Structural)]
pub struct InvalidAscii {
    pub limit: usize,
}

impl<const N: usize> AsciiChar<N> {
    /// Reads a text of at most `N` ASCII characters.
    pub fn from_str(s: &str) -> (r: Result<AsciiChar<N>, InvalidAscii>)
        ensures
            !(vstd::string::is_ascii(s) && s@.len() <= N) ==> r == Err::<
                AsciiChar<N>,
                InvalidAscii,
            >(InvalidAscii { limit: N }),
            vstd::string::is_ascii(s) && s@.len() <= N ==> r is Ok && forall|i: int|
                0 <= i < N ==> (#[trigger] r->Ok_0.0@[i]) == (if i < s@.len() {
                    s@[i] as u8
                } else {
                    0u8
                }),
    {
        if !s.is_ascii() {
            return Err(InvalidAscii { limit: N });
        }
        let n = s.unicode_len();
        if n > N {
            return Err(InvalidAscii { limit: N });
        }
        let mut bytes: [u8; N] = [0u8; N];
        let mut i: usize = 0;
        while i < n
            invariant
                i <= n <= N,
                n == s@.len(),
                vstd::string::is_ascii(s),
                forall|j: int|
                    0 <= j < N ==> (#[trigger] bytes@[j]) == (if j < i {
                        s@[j] as u8
                    } else {
                        0u8
                    }),
            decreases n - i,
        {
            bytes.set(i, s.get_ascii(i));
            i += 1;
        }
        Ok(AsciiChar(bytes))
    }
}

/// The options of the header fixer as they were written.
#[derive(Debug, Clone)]
pub struct RawArgs {
    pub color_only: bool,
    pub color_compatible: bool,
    pub fix_spec: Option<String>,
    pub game_id: Option<String>,
    pub non_japanese: bool,
    pub new_licensee: Option<String>,
    pub old_licensee: Option<String>,
    pub mbc_type: Option<String>,
    pub rom_version: Option<String>,
    pub overwrite: bool,
    pub pad_value: Option<String>,
    pub ram_size: Option<String>,
    pub sgb_compatible: bool,
    pub title: Option<String>,
    pub version: bool,
    pub validate: bool,
    pub filename: String,
}

/// The options of the header fixer.
#[derive(Debug, Clone)]
pub struct Args {
    /// Mark the image as running on the colour model only.
    pub color_only: bool,
    /// Mark the image as aware of the colour model.
    pub color_compatible: bool,
    /// Which header values to fix or trash.
    pub fix_spec: Option<FixSpec>,
    /// The game's identifier.
    pub game_id: Option<String>,
    /// Mark the image as not meant for Japan.
    pub non_japanese: bool,
    /// The new licensee string.
    pub new_licensee: Option<String>,
    /// The old licensee code.
    pub old_licensee: Option<u8>,
    /// The memory bank controller.
    pub mbc_type: Option<MBC>,
    /// The version of the image.
    pub rom_version: Option<u8>,
    /// Overwrite header bytes that are set already without a warning.
    pub overwrite: bool,
    /// Pad the image to a valid size with this byte.
    pub pad_value: Option<u8>,
    /// The size of the cartridge's memory, as its code.
    pub ram_size: Option<u8>,
    /// Mark the image as aware of the television adapter.
    pub sgb_compatible: bool,
    /// The game's title.
    pub title: Option<String>,
    /// Tell the program's version and stop.
    pub version: bool,
    /// Fix the logo and both checksums.
    pub validate: bool,
    /// The image's file, or `-` for the standard streams.
    pub filename: String,
}

/// The option whose text could not be read, and why.
#[derive(Debug, Clone, Copy, PartialEq, Eq, Structural)]
pub enum ArgError {
    OldLicensee(ParseU8Error),
    MbcType(MbcError),
    RomVersion(ParseU8Error),
    PadValue(ParseU8Error),
    RamSize(ParseU8Error),
}

/// What an option that stands for a byte spells, if it was written.
pub open spec fn spec_byte_option(text: Option<String>) -> Option<Result<u8, ParseU8Error>> {
    match text {
        Some(t) => Some(spec_parse_u8(t@)),
        None => None,
    }
}

/// Why an option that stands for a byte could not be read, if it could not.
pub open spec fn read_failure(found: Option<Result<u8, ParseU8Error>>) -> Option<ParseU8Error> {
    match found {
        Some(Err(e)) => Some(e),
        _ => None,
    }
}

/// The byte of an option that was read without error, if the option was written.
pub open spec fn read_byte(found: Option<Result<u8, ParseU8Error>>) -> Option<u8> {
    match found {
        Some(Ok(b)) => Some(b),
        _ => None,
    }
}

/// The options that `raw` spells. The options that take a byte or a controller are read in
/// the order old licensee, controller, version, pad value, memory size, and the first whose
/// text cannot be read is the error. All other options are taken as they are.
pub open spec fn spec_parse(raw: RawArgs) -> Result<Args, ArgError> {
    let old_licensee = spec_byte_option(raw.old_licensee);
    let rom_version = spec_byte_option(raw.rom_version);
    let pad_value = spec_byte_option(raw.pad_value);
    let ram_size = spec_byte_option(raw.ram_size);
    if read_failure(old_licensee) is Some {
        Err(ArgError::OldLicensee(read_failure(old_licensee)->0))
    } else if raw.mbc_type matches Some(t) && spec_mbc_from_str(t@) is Err {
        Err(ArgError::MbcType(spec_mbc_from_str(raw.mbc_type->0@)->Err_0))
    } else if read_failure(rom_version) is Some {
        Err(ArgError::RomVersion(read_failure(rom_version)->0))
    } else if read_failure(pad_value) is Some {
        Err(ArgError::PadValue(read_failure(pad_value)->0))
    } else if read_failure(ram_size) is Some {
        Err(ArgError::RamSize(read_failure(ram_size)->0))
    } else {
        Ok(
            Args {
                color_only: raw.color_only,
                color_compatible: raw.color_compatible,
                fix_spec: match raw.fix_spec {
                    Some(t) => Some(FixSpec { bits: spec_fix_bits(t@) }),
                    None => None,
                },
                game_id: raw.game_id,
                non_japanese: raw.non_japanese,
                new_licensee: raw.new_licensee,
                old_licensee: read_byte(old_licensee),
                mbc_type: match raw.mbc_type {
                    Some(t) => Some(spec_mbc_from_str(t@)->Ok_0),
                    None => None,
                },
                rom_version: read_byte(rom_version),
                overwrite: raw.overwrite,
                pad_value: read_byte(pad_value),
                ram_size: read_byte(ram_size),
                sgb_compatible: raw.sgb_compatible,
                title: raw.title,
                version: raw.version,
                validate: raw.validate,
                filename: raw.filename,
            },
        )
    }
}

fn byte_option(text: &Option<String>) -> (r: Option<Result<u8, ParseU8Error>>)
    ensures
        r == spec_byte_option(*text),
{
    match text {
        Some(t) => Some(parse_u8(t.as_str())),
        None => None,
    }
}

/// Reads the options of the header fixer from their texts. The warnings that the fix
/// specification gives rise to are handed to `warnings`, also where another option fails.
pub fn parse(raw: RawArgs, warnings: &mut Vec<FixSpecWarning>) -> (r: Result<Args, ArgError>)
    ensures
        r == spec_parse(raw),
        final(warnings)@ == old(warnings)@ + (match raw.fix_spec {
            Some(t) => spec_fix_warnings(t@),
            None => Seq::empty(),
        }),
{
    let fix_spec = match &raw.fix_spec {
        Some(t) => Some(FixSpec::from_str(t.as_str(), warnings)),
        None => {
            assert(warnings@ =~= old(warnings)@ + Seq::<FixSpecWarning>::empty());
            None
        },
    };
    let old_licensee = match byte_option(&raw.old_licensee) {
        Some(Err(e)) => {
            return Err(ArgError::OldLicensee(e));
        },
        Some(Ok(b)) => Some(b),
        None => None,
    };
    let mbc_type = match &raw.mbc_type {
        Some(t) => match MBC::from_str(t.as_str()) {
            Ok(mbc) => Some(mbc),
            Err(e) => {
                return Err(ArgError::MbcType(e));
            },
        },
        None => None,
    };
    let rom_version = match byte_option(&raw.rom_version) {
        Some(Err(e)) => {
            return Err(ArgError::RomVersion(e));
        },
        Some(Ok(b)) => Some(b),
        None => None,
    };
    let pad_value = match byte_option(&raw.pad_value) {
        Some(Err(e)) => {
            return Err(ArgError::PadValue(e));
        },
        Some(Ok(b)) => Some(b),
        None => None,
    };
    let ram_size = match byte_option(&raw.ram_size) {
        Some(Err(e)) => {
            return Err(ArgError::RamSize(e));
        },
        Some(Ok(b)) => Some(b),
        None => None,
    };
    Ok(
        Args {
            color_only: raw.color_only,
            color_compatible: raw.color_compatible,
            fix_spec,
            game_id: raw.game_id,
            non_japanese: raw.non_japanese,
            new_licensee: raw.new_licensee,
            old_licensee,
            mbc_type,
            rom_version,
            overwrite: raw.overwrite,
            pad_value,
            ram_size,
            sgb_compatible: raw.sgb_compatible,
            title: raw.title,
            version: raw.version,
            validate: raw.validate,
            filename: raw.filename,
        },
    )
}

} // verus!
