use fst::text::{decimal_string, str_debug, str_eq, trim_leading_zeros};
use fst::{Attr, AttrType, Hier, HierType, MiscType, Scope, ScopeType, Var, VarDir, VarType};

fn scope(name: &str) -> Scope {
    Scope { typ: ScopeType::VcdModule, name: name.to_string(), component: "core".to_string() }
}

#[test]
fn getters_give_the_fields() {
    let s = scope("top");
    assert_eq!(s.typ(), ScopeType::VcdModule);
    assert_eq!(s.name(), "top");
    assert_eq!(s.component(), "core");
    let v = Var {
        typ: VarType::VcdWire,
        direction: VarDir::Input,
        name: "clk".to_string(),
        length: 1,
        handle: 7,
        is_alias: false,
    };
    assert_eq!(v.typ(), VarType::VcdWire);
    assert_eq!(v.direction(), VarDir::Input);
    assert_eq!(v.name(), "clk");
    assert_eq!(v.length(), 1usize);
    assert_eq!(v.handle(), 7);
    assert!(!v.is_alias());
    let a = Attr {
        typ: AttrType::Misc(MiscType::Comment),
        name: "note".to_string(),
        arg: 3,
        arg_from_name: 12,
    };
    assert_eq!(a.typ(), AttrType::Misc(MiscType::Comment));
    assert_eq!(a.name(), "note");
    assert_eq!(a.arg(), 3);
    assert_eq!(a.arg_from_name(), 12);
}

#[test]
fn debug_of_each_entry() {
    assert_eq!(
        Hier::Scope(scope("top")).debug_string(),
        "Scope { typ: VcdModule, name: \"top\", component: \"core\" }"
    );
    assert_eq!(Hier::Upscope.debug_string(), "Upscope");
    assert_eq!(Hier::AttrEnd.debug_string(), "AttrEnd");
    let v = Var {
        typ: VarType::VcdWire,
        direction: VarDir::Input,
        name: "clk".to_string(),
        length: 1,
        handle: 7,
        is_alias: false,
    };
    assert_eq!(
        Hier::Var(v).debug_string(),
        "Var { typ: VcdWire, direction: Input, name: \"clk\", length: 1, handle: 7, is_alias: false }"
    );
    let a = Attr {
        typ: AttrType::Misc(MiscType::Comment),
        name: "note".to_string(),
        arg: 0,
        arg_from_name: 18446744073709551615,
    };
    assert_eq!(
        Hier::Attr(a).debug_string(),
        "Attr { typ: Misc(Comment), name: \"note\", arg: 0, arg_from_name: 18446744073709551615 }"
    );
}

#[test]
fn debug_escapes_names() {
    let s = Scope { typ: ScopeType::VhdlBlock, name: "a\"b\\c".to_string(), component: "\n".to_string() };
    assert_eq!(
        Hier::Scope(s).debug_string(),
        "Scope { typ: VhdlBlock, name: \"a\\\"b\\\\c\", component: \"\\n\" }"
    );
    assert_eq!(str_debug("x\ty"), "\"x\\ty\"");
}

#[test]
fn hier_type_numbers() {
    assert_eq!(HierType::from_code(0), Some(HierType::Scope));
    assert_eq!(HierType::from_code(1), Some(HierType::Upscope));
    assert_eq!(HierType::from_code(2), Some(HierType::Var));
    assert_eq!(HierType::from_code(3), Some(HierType::AttrBegin));
    assert_eq!(HierType::from_code(4), Some(HierType::AttrEnd));
    assert_eq!(HierType::from_code(5), None);
    assert_eq!(HierType::from_code(6), None);
}

#[test]
fn decimal_numerals() {
    assert_eq!(decimal_string(0), "0");
    assert_eq!(decimal_string(9), "9");
    assert_eq!(decimal_string(10), "10");
    assert_eq!(decimal_string(1234567890), "1234567890");
    assert_eq!(decimal_string(u64::MAX), "18446744073709551615");
}

#[test]
fn string_helpers() {
    assert!(str_eq("abc", "abc"));
    assert!(!str_eq("abc", "abd"));
    assert!(!str_eq("abc", "ab"));
    assert!(str_eq("", ""));
    assert!(str_eq("é", "é"));
    assert_eq!(trim_leading_zeros("00101"), "101");
    assert_eq!(trim_leading_zeros("000"), "");
    assert_eq!(trim_leading_zeros("x0"), "x0");
}
