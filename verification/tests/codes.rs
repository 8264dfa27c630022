use fst::{file_type_from_raw, ArrayType, AttrType, EnumValueType, FileType, FromStrError};
use fst::{MiscType, PackType, ScopeType, VarDir, VarType};
use std::convert::TryFrom;
use std::str::FromStr;

#[test]
fn codes_follow_the_file_format() {
    assert_eq!(ScopeType::VcdModule.code(), 0);
    assert_eq!(ScopeType::VhdlPackage.code(), 21);
    assert_eq!(VarType::VcdParameter.code(), 2);
    assert_eq!(VarType::SvShortReal.code(), 29);
    assert_eq!(VarDir::Linkage.code(), 5);
    assert_eq!(MiscType::Unknown.code(), 8);
    assert_eq!(ArrayType::Sparse.code(), 3);
    assert_eq!(EnumValueType::Time.code(), 15);
    assert_eq!(PackType::TaggedPacked.code(), 3);
    assert_eq!(FileType::VerilogVhdl.code(), 2);
}

#[test]
fn try_from_u8_accepts_known_codes_only() {
    assert_eq!(ScopeType::try_from(3u8).unwrap(), ScopeType::VcdBegin);
    assert!(ScopeType::try_from(22u8).is_err());
    assert_eq!(VarType::try_from(16u8).unwrap(), VarType::VcdWire);
    assert!(VarType::try_from(30u8).is_err());
    assert_eq!(VarDir::try_from(1u8).unwrap(), VarDir::Input);
    assert!(VarDir::try_from(6u8).is_err());
    assert!(FileType::try_from(255u8).is_err());
}

#[test]
fn try_from_u32_goes_through_u8() {
    assert_eq!(VarDir::try_from(2u32).unwrap(), VarDir::Output);
    assert!(VarDir::try_from(6u32).is_err());
    assert!(VarDir::try_from(256u32).is_err());
    assert!(VarDir::try_from(258u32).is_err());
    assert_eq!(PackType::try_from(0u32).unwrap(), PackType::NoPack);
}

#[test]
fn code_round_trip_for_every_value() {
    for c in 0u8..=255 {
        if let Some(v) = ScopeType::from_code(c) {
            assert_eq!(v.code(), c);
        } else {
            assert!(c >= 22);
        }
        if let Some(v) = VarType::from_code(c) {
            assert_eq!(v.code(), c);
        } else {
            assert!(c >= 30);
        }
        if let Some(v) = EnumValueType::from_code(c) {
            assert_eq!(v.code(), c);
        } else {
            assert!(c >= 16);
        }
    }
}

#[test]
fn names_parse_back_for_every_value() {
    for c in 0u8..30 {
        if let Some(v) = ScopeType::from_code(c) {
            assert_eq!(ScopeType::from_str(v.name()).unwrap(), v);
            assert_eq!(format!("{:?}", v), v.name());
        }
        if let Some(v) = VarType::from_code(c) {
            assert_eq!(VarType::from_str(v.name()).unwrap(), v);
            assert_eq!(format!("{:?}", v), v.name());
        }
        if let Some(v) = MiscType::from_code(c) {
            assert_eq!(MiscType::from_str(v.name()).unwrap(), v);
        }
        if let Some(v) = EnumValueType::from_code(c) {
            assert_eq!(EnumValueType::from_str(v.name()).unwrap(), v);
        }
    }
}

#[test]
fn none_names_the_first_array_and_pack_types() {
    assert_eq!(ArrayType::from_str("None").unwrap(), ArrayType::NoArray);
    assert_eq!(PackType::from_str("None").unwrap(), PackType::NoPack);
    assert_eq!(ArrayType::NoArray.name(), "None");
    assert_eq!(PackType::parse("TaggedPacked"), Ok(PackType::TaggedPacked));
}

#[test]
fn unknown_names_are_refused() {
    assert_eq!(VarDir::from_str("input"), Err(FromStrError));
    assert_eq!(VarDir::from_str(""), Err(FromStrError));
    assert_eq!(ScopeType::from_str("VcdModule "), Err(FromStrError));
    assert_eq!(FileType::parse("Vhdl2"), Err(FromStrError));
    assert_eq!(FromStrError.message(), "unable to parse string");
}

#[test]
fn attr_type_from_kind_and_subtype() {
    assert_eq!(AttrType::try_from((0u8, 8u8)).unwrap(), AttrType::Misc(MiscType::Unknown));
    assert_eq!(AttrType::try_from((1u8, 2u8)).unwrap(), AttrType::Array(ArrayType::Packed));
    assert_eq!(AttrType::try_from((2u8, 14u8)).unwrap(), AttrType::Enum(EnumValueType::Reg));
    assert_eq!(AttrType::try_from((3u8, 0u8)).unwrap(), AttrType::Pack(PackType::NoPack));
    assert!(AttrType::try_from((1u8, 4u8)).is_err());
    assert!(AttrType::try_from((0u8, 9u8)).is_err());
    assert!(AttrType::try_from((4u8, 0u8)).is_err());
}

#[test]
fn attr_type_debug_text() {
    assert_eq!(AttrType::Misc(MiscType::Comment).debug_text(), "Misc(Comment)");
    assert_eq!(AttrType::Array(ArrayType::NoArray).debug_text(), "Array(None)");
    assert_eq!(AttrType::Enum(EnumValueType::SvUnsignedLongInt).debug_text(), "Enum(SvUnsignedLongInt)");
    assert_eq!(AttrType::Pack(PackType::Unpacked).debug_text(), "Pack(Unpacked)");
}

#[test]
fn file_type_from_reader_number() {
    assert_eq!(file_type_from_raw(0).unwrap(), FileType::Verilog);
    assert_eq!(file_type_from_raw(2).unwrap(), FileType::VerilogVhdl);
    assert!(file_type_from_raw(3).is_err());
    assert!(file_type_from_raw(-1).is_err());
    assert!(file_type_from_raw(256).is_err());
}
