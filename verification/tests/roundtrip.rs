use wasmlib::lua_api::{Exportable, F32Bits, F64Bits, HostQueue, HostValue, Importable};

fn written<T: Exportable + ?Sized>(v: &T, rest: Vec<HostValue>) -> HostQueue {
    let mut out = Vec::new();
    v.export(&mut out);
    out.extend(rest);
    HostQueue::new(out)
}

#[test]
fn numbers_read_back() {
    let mut q = written(&i32::MIN, vec![HostValue::I32(1)]);
    assert_eq!(<i32 as Importable>::import(&mut q).unwrap(), i32::MIN);
    assert_eq!(q.len(), 1);
    let mut q = written(&i64::MAX, vec![]);
    assert_eq!(<i64 as Importable>::import(&mut q).unwrap(), i64::MAX);
    let mut q = written(&F32Bits(f32::NAN.to_bits()), vec![]);
    assert_eq!(<F32Bits as Importable>::import(&mut q).unwrap(), F32Bits(f32::NAN.to_bits()));
    let mut q = written(&F64Bits((-0.0f64).to_bits()), vec![]);
    assert_eq!(<F64Bits as Importable>::import(&mut q).unwrap(), F64Bits((-0.0f64).to_bits()));
}

#[test]
fn strings_read_back() {
    for s in ["", "plain", "日本語", "emoji 🎉"] {
        let mut q = written(s, vec![HostValue::I32(0)]);
        assert_eq!(<String as Importable>::import(&mut q).unwrap(), s);
        assert_eq!(q.len(), 1);
    }
}

#[test]
fn options_read_back() {
    let mut q = written(&Some(3i32), vec![]);
    assert_eq!(<Option<i32> as Importable>::import(&mut q).unwrap(), Some(3));
    let mut q = written(&None::<i32>, vec![]);
    assert_eq!(<Option<i32> as Importable>::import(&mut q).unwrap(), None);
}

#[test]
fn none_followed_by_values_does_not_read_back() {
    let mut q = written(&None::<i32>, vec![HostValue::I32(5)]);
    assert_eq!(<Option<i32> as Importable>::import(&mut q).unwrap(), Some(5));
}
