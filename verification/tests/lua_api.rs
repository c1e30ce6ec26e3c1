use wasmlib::lua_api::{
    str_to_bytes, utf8_to_string, Exportable, F32Bits, F64Bits, HostQueue, HostValue, Importable,
    LuaError, LuaResult, Typed,
};

fn bytes(s: &str) -> Vec<u8> {
    s.as_bytes().to_vec()
}

fn err_text<T>(r: LuaResult<T>) -> String {
    match r {
        Ok(_) => panic!("expected an error"),
        Err(e) => e.as_str().to_string(),
    }
}

#[test]
fn from_i32_decodes_every_code() {
    assert_eq!(Typed::from_i32(0), Typed::Nil);
    assert_eq!(Typed::from_i32(1), Typed::I32);
    assert_eq!(Typed::from_i32(2), Typed::I64);
    assert_eq!(Typed::from_i32(3), Typed::String);
    assert_eq!(Typed::from_i32(4), Typed::F32);
    assert_eq!(Typed::from_i32(5), Typed::F64);
    assert_eq!(Typed::from_i32(6), Typed::Type);
    assert_eq!(Typed::from_i32(7), Typed::Error);
    assert_eq!(Typed::from_i32(-1), Typed::Error);
    assert_eq!(Typed::from_i32(i32::MAX), Typed::Error);
}

#[test]
fn lua_error_constructors_keep_the_message() {
    assert_eq!(LuaError::from_str("boom").as_str(), "boom");
    assert_eq!(LuaError::from_string(String::from("bang")).as_str(), "bang");
    assert_eq!(LuaError::default().as_str(), "");
    let e = LuaError::from_string(String::from("copy"));
    assert_eq!(e.clone().as_str(), "copy");
    assert_eq!(LuaError::from_str("static").clone().as_str(), "static");
}

#[test]
fn lua_error_from_display_uses_its_text() {
    assert_eq!(LuaError::from(42).as_str(), "42");
    assert_eq!(LuaError::from("text").as_str(), "text");
    assert_eq!(LuaError::from(String::from("owned")).as_str(), "owned");
}

#[test]
fn queue_reports_front_type_and_pops_in_order() {
    let mut q = HostQueue::new(vec![
        HostValue::I32(1),
        HostValue::I64(2),
        HostValue::Str(bytes("x")),
        HostValue::F32(3),
        HostValue::F64(4),
        HostValue::Type(5),
        HostValue::Unknown(9),
    ]);
    let expected = [
        Typed::I32,
        Typed::I64,
        Typed::String,
        Typed::F32,
        Typed::F64,
        Typed::Type,
        Typed::Error,
    ];
    for (i, t) in expected.iter().enumerate() {
        assert_eq!(q.len(), 7 - i);
        assert_eq!(q.next_type(), *t);
        assert!(q.pop_front().is_some());
    }
    assert_eq!(q.len(), 0);
    assert_eq!(q.next_type(), Typed::Nil);
    assert!(q.pop_front().is_none());
}

#[test]
fn pop_front_gives_the_first_value() {
    let mut q = HostQueue::new(vec![HostValue::I32(7), HostValue::I32(8)]);
    assert!(matches!(q.pop_front(), Some(HostValue::I32(7))));
    assert!(matches!(q.pop_front(), Some(HostValue::I32(8))));
}

#[test]
fn import_numbers() {
    let mut q = HostQueue::new(vec![
        HostValue::I32(-5),
        HostValue::I64(1 << 40),
        HostValue::F32(1.5f32.to_bits()),
        HostValue::F64(2.25f64.to_bits()),
    ]);
    assert_eq!(<i32 as Importable>::import(&mut q).unwrap(), -5);
    assert_eq!(<i64 as Importable>::import(&mut q).unwrap(), 1 << 40);
    assert_eq!(f32::from_bits(<F32Bits as Importable>::import(&mut q).unwrap().0), 1.5);
    assert_eq!(f64::from_bits(<F64Bits as Importable>::import(&mut q).unwrap().0), 2.25);
    assert_eq!(q.len(), 0);
}

#[test]
fn import_of_wrong_type_fails_and_takes_nothing() {
    let mut q = HostQueue::new(vec![HostValue::Str(bytes("s"))]);
    assert_eq!(err_text(<i32 as Importable>::import(&mut q)), "not receiving i32");
    assert_eq!(err_text(<i64 as Importable>::import(&mut q)), "not receiving i64");
    assert_eq!(err_text(<F32Bits as Importable>::import(&mut q)), "not receiving f32");
    assert_eq!(err_text(<F64Bits as Importable>::import(&mut q)), "not receiving f64");
    assert_eq!(err_text(<Typed as Importable>::import(&mut q)), "not receiving type");
    assert_eq!(q.len(), 1);
    let mut q = HostQueue::new(vec![HostValue::I32(1)]);
    assert_eq!(err_text(<String as Importable>::import(&mut q)), "not receiving String");
    assert_eq!(q.len(), 1);
}

#[test]
fn import_from_empty_queue_fails() {
    let mut q = HostQueue::new(vec![]);
    assert_eq!(err_text(<i32 as Importable>::import(&mut q)), "not receiving i32");
    assert_eq!(err_text(<String as Importable>::import(&mut q)), "not receiving String");
}

#[test]
fn import_type_code() {
    let mut q = HostQueue::new(vec![HostValue::Type(3), HostValue::Type(42)]);
    assert_eq!(<Typed as Importable>::import(&mut q).unwrap(), Typed::String);
    assert_eq!(<Typed as Importable>::import(&mut q).unwrap(), Typed::Error);
}

#[test]
fn import_string_decodes_utf8() {
    let mut q = HostQueue::new(vec![HostValue::Str(bytes("héllo")), HostValue::I32(1)]);
    assert_eq!(<String as Importable>::import(&mut q).unwrap(), "héllo");
    assert_eq!(q.len(), 1);
}

#[test]
fn import_string_rejects_invalid_utf8_and_takes_it() {
    let mut q = HostQueue::new(vec![HostValue::Str(vec![0xff, 0xfe]), HostValue::I32(1)]);
    assert_eq!(err_text(<String as Importable>::import(&mut q)), "non utf8 string");
    assert_eq!(q.len(), 1);
    assert_eq!(q.next_type(), Typed::I32);
}

#[test]
fn import_unit_takes_nothing() {
    let mut q = HostQueue::new(vec![HostValue::I32(1)]);
    assert!(<() as Importable>::import(&mut q).is_ok());
    assert_eq!(q.len(), 1);
}

#[test]
fn import_option() {
    let mut q = HostQueue::new(vec![HostValue::I32(4)]);
    assert_eq!(<Option<i32> as Importable>::import(&mut q).unwrap(), Some(4));
    assert_eq!(<Option<i32> as Importable>::import(&mut q).unwrap(), None);
    let mut q = HostQueue::new(vec![HostValue::Str(bytes("no"))]);
    assert_eq!(err_text(<Option<i32> as Importable>::import(&mut q)), "not receiving i32");
    let mut q = HostQueue::new(vec![HostValue::Unknown(11)]);
    assert_eq!(err_text(<Option<i64> as Importable>::import(&mut q)), "not receiving i64");
}

#[test]
fn export_values() {
    let mut out = Vec::new();
    7i32.export(&mut out);
    (-8i64).export(&mut out);
    F32Bits(0.5f32.to_bits()).export(&mut out);
    F64Bits(0.25f64.to_bits()).export(&mut out);
    String::from("ü").export(&mut out);
    "s".export(&mut out);
    ().export(&mut out);
    Some(9i32).export(&mut out);
    None::<i32>.export(&mut out);
    assert_eq!(out.len(), 7);
    assert!(matches!(out[0], HostValue::I32(7)));
    assert!(matches!(out[1], HostValue::I64(-8)));
    assert!(matches!(out[2], HostValue::F32(b) if b == 0.5f32.to_bits()));
    assert!(matches!(out[3], HostValue::F64(b) if b == 0.25f64.to_bits()));
    assert!(matches!(&out[4], HostValue::Str(b) if b == &vec![0xc3, 0xbc]));
    assert!(matches!(&out[5], HostValue::Str(b) if b == &vec![b's']));
    assert!(matches!(out[6], HostValue::I32(9)));
}

#[test]
fn utf8_helpers() {
    assert_eq!(str_to_bytes("aé"), vec![b'a', 0xc3, 0xa9]);
    assert_eq!(str_to_bytes(""), Vec::<u8>::new());
    assert_eq!(utf8_to_string(vec![b'a', 0xc3, 0xa9]).unwrap(), "aé");
    assert!(utf8_to_string(vec![0xc3]).is_none());
    assert!(utf8_to_string(vec![0xed, 0xa0, 0x80]).is_none());
}

#[test]
fn lua_errors_compare_by_message() {
    assert_eq!(LuaError::from_str("same"), LuaError::from_string(String::from("same")));
    assert_ne!(LuaError::from_str("one"), LuaError::from_str("two"));
    assert_ne!(LuaError::from_str("ab"), LuaError::from_str("abc"));
    assert_eq!(LuaError::from_str("é"), LuaError::from("é"));
}
