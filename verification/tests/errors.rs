use cmli::error::{Error, ErrorKind};
use cmli::intern::Symbol;
use cmli::target::{PropertyValue, TargetInfo, TargetProperties};
use cmli::arch::x86::Width;
use cmli::text::{decimal, str_eq};

#[test]
fn kinds_that_say_nothing() {
    assert!(ErrorKind::Other.unrecognized());
    assert!(ErrorKind::Uncategorized.unrecognized());
    assert!(!ErrorKind::BadInstr.unrecognized());
    assert!(!ErrorKind::Io.unrecognized());
}

#[test]
fn kinds_in_words() {
    assert_eq!(ErrorKind::Other.describe(), "other");
    assert_eq!(ErrorKind::BadInstr.describe(), "invalid instruction");
    assert_eq!(ErrorKind::Io.describe(), "I/O operation error");
    assert_eq!(ErrorKind::Uncategorized.describe(), "");
}

#[test]
fn messages() {
    assert_eq!(Error::from_kind(ErrorKind::Io).message(), "I/O operation error");
    assert_eq!(Error::from_kind(ErrorKind::Uncategorized).message(), "(uncategorized error)");
    assert_eq!(Error::new(ErrorKind::BadInstr, String::from("no such op")).message(), "invalid instruction: no such op");
    assert_eq!(Error::uncategorized(String::from("odd")).message(), "odd");
    assert_eq!(
        Error::new_with_source(ErrorKind::Other, String::from("bad"), String::from("a.s")).message(),
        "[a.s] other: bad"
    );
    assert_eq!(
        Error::uncategorized_with_source(String::from("bad"), String::from("a.s")).message(),
        "[a.s] bad"
    );
    assert_eq!(Error::new(ErrorKind::Other, String::new()).message(), "other: ");
}

#[test]
fn parts_of_an_error() {
    let e = Error::new_with_source(ErrorKind::Io, String::from("gone"), String::from("x.s"));
    assert_eq!(e.kind(), ErrorKind::Io);
    assert_eq!(e.payload(), Some("gone"));
    assert_eq!(e.source_file(), Some("x.s"));
    let e = Error::from_kind(ErrorKind::BadInstr);
    assert_eq!(e.kind(), ErrorKind::BadInstr);
    assert_eq!(e.payload(), None);
    assert_eq!(e.source_file(), None);
    let e = Error::uncategorized(String::from("p"));
    assert_eq!(e.kind(), ErrorKind::Uncategorized);
    assert_eq!(e.payload(), Some("p"));
    let e = Error::uncategorized_with_source(String::from("p"), String::from("s"));
    assert_eq!(e.kind(), ErrorKind::Uncategorized);
    assert_eq!(e.source_file(), Some("s"));
    let e = Error::new(ErrorKind::Other, String::from("p"));
    assert_eq!(e.kind(), ErrorKind::Other);
    assert_eq!(e.source_file(), None);
}

#[test]
fn override_is_looked_up_before_the_base() {
    let mut p = TargetProperties::new();
    assert_eq!(p.lookup(Symbol(1)), None);
    p.set(Symbol(1), PropertyValue::Int(4));
    p.set(Symbol(2), PropertyValue::Bool(true));
    assert_eq!(p.lookup(Symbol(1)), Some(PropertyValue::Int(4)));
    p.set_override(Symbol(1), PropertyValue::Int(8));
    p.set_override(Symbol(3), PropertyValue::String(Symbol(9)));
    assert_eq!(p.lookup(Symbol(1)), Some(PropertyValue::Int(8)));
    assert_eq!(p.lookup(Symbol(2)), Some(PropertyValue::Bool(true)));
    assert_eq!(p.lookup(Symbol(3)), Some(PropertyValue::String(Symbol(9))));
    assert_eq!(p.lookup(Symbol(4)), None);
    p.set(Symbol(1), PropertyValue::Int(16));
    assert_eq!(p.lookup(Symbol(1)), Some(PropertyValue::Int(8)));
    let info = TargetInfo { properties: p, ptr_width: 64 };
    assert_eq!(info.property(Symbol(1)), Some(PropertyValue::Int(8)));
    assert_eq!(info.property(Symbol(4)), None);
    assert_eq!(info.ptr_width, 64);
}

#[test]
fn widths_in_bits() {
    assert_eq!(Width::Bits(16).bits(64), 16);
    assert_eq!(Width::Native.bits(64), 64);
    assert_eq!(Width::Native.bits(16), 16);
}

#[test]
fn decimal_notation() {
    assert_eq!(decimal(0), "0");
    assert_eq!(decimal(9), "9");
    assert_eq!(decimal(10), "10");
    assert_eq!(decimal(1234567890), "1234567890");
    assert_eq!(decimal(u64::MAX), "18446744073709551615");
    assert!(str_eq("abc", "abc"));
    assert!(!str_eq("abc", "abd"));
    assert!(!str_eq("abc", "ab"));
    assert!(str_eq("", ""));
}
