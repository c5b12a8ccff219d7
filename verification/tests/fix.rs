use gbtools::fix::args::{
    parse, parse_u8, ArgError, AsciiChar, FixSpec, FixSpecWarning, InvalidAscii, ParseU8Error,
    RawArgs, FIX_GLOBAL_SUM, FIX_HEADER_SUM, FIX_LOGO, TRASH_GLOBAL_SUM, TRASH_HEADER_SUM,
    TRASH_LOGO,
};
use gbtools::fix::mbc::{
    MBCExtension, MBCType, MbcError, BATTERY, MBC, MULTIRUMBLE, RAM, RUMBLE, SENSOR, TIMER,
};

#[test]
fn bytes_in_three_bases() {
    assert_eq!(parse_u8("0"), Ok(0));
    assert_eq!(parse_u8("255"), Ok(255));
    assert_eq!(parse_u8("007"), Ok(7));
    assert_eq!(parse_u8("+5"), Ok(5));
    assert_eq!(parse_u8("0x1F"), Ok(31));
    assert_eq!(parse_u8("0XfF"), Ok(255));
    assert_eq!(parse_u8("0b101"), Ok(5));
    assert_eq!(parse_u8("0B11111111"), Ok(255));
    assert_eq!(parse_u8("0x+a"), Ok(10));
}

#[test]
fn texts_that_are_no_byte() {
    assert_eq!(parse_u8(""), Err(ParseU8Error::Empty));
    assert_eq!(parse_u8("0x"), Err(ParseU8Error::Empty));
    assert_eq!(parse_u8("0b"), Err(ParseU8Error::Empty));
    assert_eq!(parse_u8("256"), Err(ParseU8Error::TooLarge));
    assert_eq!(parse_u8("0x100"), Err(ParseU8Error::TooLarge));
    assert_eq!(parse_u8("0b100000000"), Err(ParseU8Error::TooLarge));
    assert_eq!(parse_u8("999x"), Err(ParseU8Error::TooLarge));
    assert_eq!(parse_u8("12a"), Err(ParseU8Error::InvalidDigit));
    assert_eq!(parse_u8("0b102"), Err(ParseU8Error::InvalidDigit));
    assert_eq!(parse_u8("0xg"), Err(ParseU8Error::InvalidDigit));
    assert_eq!(parse_u8("-5"), Err(ParseU8Error::InvalidDigit));
    assert_eq!(parse_u8("+"), Err(ParseU8Error::InvalidDigit));
    assert_eq!(parse_u8("-"), Err(ParseU8Error::InvalidDigit));
    assert_eq!(parse_u8("++1"), Err(ParseU8Error::InvalidDigit));
    assert_eq!(parse_u8(" 1"), Err(ParseU8Error::InvalidDigit));
    assert_eq!(parse_u8("\u{e9}"), Err(ParseU8Error::InvalidDigit));
}

#[test]
fn bytes_agree_with_the_standard_reading() {
    for text in ["0", "12", "255", "256", "", "+", "-", "+7", "-7", "1e", "0012", "2555"] {
        let expected = u8::from_str_radix(text, 10).ok();
        assert_eq!(parse_u8(text).ok(), expected);
    }
    for text in ["", "f", "FF", "100", "+a", "g", "-1"] {
        let expected = u8::from_str_radix(text, 16).ok();
        assert_eq!(parse_u8(&format!("0x{}", text)).ok(), expected);
    }
}

#[test]
fn fix_specification_sets_flags() {
    let mut warnings = Vec::new();
    let spec = FixSpec::from_str("lhg", &mut warnings);
    assert_eq!(spec.bits, 0xA8);
    assert!(spec.contains(FIX_LOGO) && spec.contains(FIX_HEADER_SUM) && spec.contains(FIX_GLOBAL_SUM));
    assert!(!spec.contains(TRASH_LOGO));
    assert!(warnings.is_empty());
    let spec = FixSpec::from_str("LHG", &mut warnings);
    assert_eq!(spec.bits, TRASH_LOGO | TRASH_HEADER_SUM | TRASH_GLOBAL_SUM);
    assert_eq!(spec.bits, 0x54);
    assert!(warnings.is_empty());
    assert_eq!(FixSpec::from_str("", &mut warnings).bits, 0);
}

#[test]
fn later_character_wins() {
    let mut warnings = Vec::new();
    let spec = FixSpec::from_str("lLh", &mut warnings);
    assert_eq!(spec.bits, 0x60);
    assert_eq!(warnings, vec![FixSpecWarning::Overwrites { new: 'L', old: 'l' }]);
    let spec = FixSpec::from_str("GgxHh", &mut warnings);
    assert_eq!(spec.bits, 0x28);
    assert_eq!(
        warnings,
        vec![
            FixSpecWarning::Overwrites { new: 'L', old: 'l' },
            FixSpecWarning::Overwrites { new: 'g', old: 'G' },
            FixSpecWarning::Unknown { unknown: 'x' },
            FixSpecWarning::Overwrites { new: 'h', old: 'H' },
        ]
    );
}

#[test]
fn controller_with_extensions() {
    assert_eq!(
        MBC::from_str("MBC1+RAM+BATTERY"),
        Ok(MBC { ty: MBCType::MBC1, extensions: MBCExtension { bits: 0xC0 } })
    );
    assert_eq!(
        MBC::from_str("rom_only"),
        Ok(MBC { ty: MBCType::ROM, extensions: MBCExtension { bits: 0 } })
    );
    assert_eq!(
        MBC::from_str("Rom+ram"),
        Ok(MBC { ty: MBCType::ROM, extensions: MBCExtension { bits: RAM } })
    );
    assert_eq!(
        MBC::from_str("MBC5 + RUMBLE"),
        Ok(MBC { ty: MBCType::MBC5, extensions: MBCExtension { bits: RUMBLE } })
    );
    assert_eq!(
        MBC::from_str("mbc3+timer\t+ Battery +"),
        Ok(MBC { ty: MBCType::MBC3, extensions: MBCExtension { bits: TIMER | BATTERY } })
    );
    assert_eq!(
        MBC::from_str("TPP1+MULTIRUMBLE_battery"),
        Ok(MBC { ty: MBCType::TPP1, extensions: MBCExtension { bits: MULTIRUMBLE | BATTERY } })
    );
    assert_eq!(
        MBC::from_str("POCKET_CAMERA"),
        Ok(MBC { ty: MBCType::POCKET_CAMERA, extensions: MBCExtension { bits: 0 } })
    );
    assert_eq!(MBC::from_str("HUC3").unwrap().ty, MBCType::HUC3);
    assert_eq!(MBC::from_str("huc1").unwrap().ty, MBCType::HUC1);
    assert_eq!(MBC::from_str("BANDAI_TAMA5").unwrap().ty, MBCType::BANDAI_TAMA5);
    assert_eq!(MBC::from_str("MMM01").unwrap().ty, MBCType::MMM01);
    assert_eq!(MBC::from_str("MBC2").unwrap().ty, MBCType::MBC2);
    assert_eq!(MBC::from_str("MBC6").unwrap().ty, MBCType::MBC6);
}

#[test]
fn texts_that_name_no_controller() {
    assert_eq!(MBC::from_str("help"), Err(MbcError::Help));
    assert_eq!(MBC::from_str("HeLP"), Err(MbcError::Help));
    assert_eq!(MBC::from_str(""), Err(MbcError::InvalidType));
    assert_eq!(MBC::from_str("XYZ"), Err(MbcError::InvalidType));
    assert_eq!(MBC::from_str("RO"), Err(MbcError::InvalidType));
    assert_eq!(MBC::from_str("MBC7"), Err(MbcError::InvalidType));
    assert_eq!(MBC::from_str("MBC1+FOO"), Err(MbcError::InvalidExtension { start: 5, end: 8 }));
    assert_eq!(MBC::from_str("MBC1 + ra m"), Err(MbcError::InvalidExtension { start: 7, end: 9 }));
    assert_eq!(MBC::from_str("TPP1_1.0"), Err(MbcError::InvalidExtension { start: 5, end: 8 }));
    assert_eq!(
        MBC::from_str("MBC2+RAM"),
        Err(MbcError::CannotHave { ty: MBCType::MBC2, extension: MBCExtension { bits: RAM } })
    );
    assert_eq!(
        MBC::from_str("MBC1+BATTERY+SENSOR+FOO"),
        Err(MbcError::CannotHave { ty: MBCType::MBC1, extension: MBCExtension { bits: SENSOR } })
    );
}

#[test]
fn controllers_and_what_they_can_have() {
    assert_eq!(MBCType::ROM.valid_extensions().bits, RAM | BATTERY);
    assert_eq!(MBCType::MBC2.valid_extensions().bits, BATTERY);
    assert_eq!(MBCType::MBC3.valid_extensions().bits, RAM | BATTERY | TIMER);
    assert_eq!(MBCType::MBC5.valid_extensions().bits, RAM | BATTERY | RUMBLE);
    assert_eq!(MBCType::MBC6.valid_extensions().bits, 0);
    assert_eq!(MBCType::MBC7.valid_extensions().bits, RAM | BATTERY | SENSOR | RUMBLE);
    assert_eq!(MBCType::TPP1.valid_extensions().bits, RAM | BATTERY | MULTIRUMBLE | RUMBLE);
    assert!(MBCType::MBC3.can_have_extension(MBCExtension { bits: TIMER }));
    assert!(MBCType::MBC3.can_have_extension(MBCExtension { bits: TIMER | RAM }));
    assert!(!MBCType::MBC3.can_have_extension(MBCExtension { bits: TIMER | RUMBLE }));
    assert!(!MBCType::HUC3.can_have_extension(MBCExtension { bits: RAM }));
    assert!(MBCType::HUC3.can_have_extension(MBCExtension { bits: 0 }));
    assert_eq!(MBCType::ROM.code(), 0x00);
    assert_eq!(MBCType::MBC5.code(), 0x19);
    assert_eq!(MBCType::HUC1.code(), 0xFF);
    assert_eq!(MBCType::HUC3.code(), 0xFE);
    assert_eq!(MBCType::TPP1.code(), 0x100);
}

#[test]
fn ascii_text_is_filled_up_with_zeros() {
    assert_eq!(AsciiChar::<4>::from_str("AB").unwrap().0, [65, 66, 0, 0]);
    assert_eq!(AsciiChar::<4>::from_str("ABCD").unwrap().0, [65, 66, 67, 68]);
    assert_eq!(AsciiChar::<2>::from_str("").unwrap().0, [0, 0]);
    assert_eq!(AsciiChar::<4>::from_str("ABCDE").err(), Some(InvalidAscii { limit: 4 }));
    assert_eq!(AsciiChar::<4>::from_str("\u{e9}").err(), Some(InvalidAscii { limit: 4 }));
}

fn raw() -> RawArgs {
    RawArgs {
        color_only: false,
        color_compatible: true,
        fix_spec: Some(String::from("lLq")),
        game_id: Some(String::from("ABCD")),
        non_japanese: true,
        new_licensee: None,
        old_licensee: Some(String::from("0x33")),
        mbc_type: Some(String::from("MBC5+RAM")),
        rom_version: Some(String::from("2")),
        overwrite: false,
        pad_value: Some(String::from("0xFF")),
        ram_size: Some(String::from("0b11")),
        sgb_compatible: false,
        title: Some(String::from("GAME")),
        version: false,
        validate: true,
        filename: String::from("game.gb"),
    }
}

#[test]
fn options_are_read_from_their_texts() {
    let mut warnings = Vec::new();
    let args = parse(raw(), &mut warnings).unwrap();
    assert_eq!(args.fix_spec, Some(FixSpec { bits: 0x40 }));
    assert_eq!(
        warnings,
        vec![
            FixSpecWarning::Overwrites { new: 'L', old: 'l' },
            FixSpecWarning::Unknown { unknown: 'q' }
        ]
    );
    assert_eq!(args.old_licensee, Some(0x33));
    assert_eq!(args.mbc_type, Some(MBC { ty: MBCType::MBC5, extensions: MBCExtension { bits: RAM } }));
    assert_eq!(args.rom_version, Some(2));
    assert_eq!(args.pad_value, Some(255));
    assert_eq!(args.ram_size, Some(3));
    assert_eq!(args.game_id, Some(String::from("ABCD")));
    assert_eq!(args.title, Some(String::from("GAME")));
    assert_eq!(args.new_licensee, None);
    assert_eq!(args.filename, "game.gb");
    assert!(args.color_compatible && args.non_japanese && args.validate);
    assert!(!args.color_only && !args.overwrite && !args.sgb_compatible && !args.version);
}

#[test]
fn first_option_that_cannot_be_read_is_the_error() {
    let mut warnings = Vec::new();
    let mut r = raw();
    r.ram_size = Some(String::from("300"));
    assert_eq!(parse(r, &mut warnings).err(), Some(ArgError::RamSize(ParseU8Error::TooLarge)));
    let mut r = raw();
    r.pad_value = Some(String::new());
    r.ram_size = Some(String::from("300"));
    assert_eq!(parse(r, &mut warnings).err(), Some(ArgError::PadValue(ParseU8Error::Empty)));
    let mut r = raw();
    r.rom_version = Some(String::from("v1"));
    r.pad_value = Some(String::new());
    assert_eq!(parse(r, &mut warnings).err(), Some(ArgError::RomVersion(ParseU8Error::InvalidDigit)));
    let mut r = raw();
    r.mbc_type = Some(String::from("help"));
    r.rom_version = Some(String::from("v1"));
    assert_eq!(parse(r, &mut warnings).err(), Some(ArgError::MbcType(MbcError::Help)));
    let mut r = raw();
    r.old_licensee = Some(String::from("0x"));
    r.mbc_type = Some(String::from("help"));
    assert_eq!(parse(r, &mut warnings).err(), Some(ArgError::OldLicensee(ParseU8Error::Empty)));
    let mut r = raw();
    r.fix_spec = None;
    r.old_licensee = None;
    r.mbc_type = None;
    r.rom_version = None;
    r.pad_value = None;
    r.ram_size = None;
    let mut quiet = Vec::new();
    let args = parse(r, &mut quiet).unwrap();
    assert!(quiet.is_empty());
    assert_eq!(args.fix_spec, None);
    assert_eq!(args.mbc_type, None);
    assert_eq!((args.old_licensee, args.rom_version, args.pad_value, args.ram_size), (None, None, None, None));
}
