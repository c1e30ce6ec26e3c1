use wasmlib::cc_mod::{CallOutcome, ExportFunc};
use wasmlib::lua_api::{HostQueue, HostValue, LuaError, LuaResult};

fn run<A, O, F: ExportFunc<A, O>>(f: F, args: Vec<HostValue>) -> (CallOutcome, usize) {
    let mut q = HostQueue::new(args);
    let out = ExportFunc::call(&f, &mut q);
    (out, q.len())
}

fn message(out: &CallOutcome) -> String {
    assert!(!out.succeeded);
    assert_eq!(out.values.len(), 1);
    match &out.values[0] {
        HostValue::Str(b) => String::from_utf8(b.clone()).unwrap(),
        _ => panic!("error is reported as a string"),
    }
}

#[test]
fn no_arguments() {
    let (out, left) = run(|| -> LuaResult<i32> { Ok(3) }, vec![HostValue::I32(1)]);
    assert!(out.succeeded);
    assert!(matches!(out.values[..], [HostValue::I32(3)]));
    assert_eq!(left, 1);
}

#[test]
fn one_argument() {
    let (out, left) = run(|x: i32| -> LuaResult<i64> { Ok(x as i64 * 2) }, vec![HostValue::I32(21)]);
    assert!(out.succeeded);
    assert!(matches!(out.values[..], [HostValue::I64(42)]));
    assert_eq!(left, 0);
}

#[test]
fn two_arguments_string_result() {
    let f = |a: String, b: Option<i32>| -> LuaResult<String> { Ok(format!("{}{:?}", a, b)) };
    let (out, _) = run(f, vec![HostValue::Str(b"x".to_vec())]);
    assert!(out.succeeded);
    assert!(matches!(&out.values[..], [HostValue::Str(s)] if s == b"xNone"));
}

#[test]
fn three_and_four_arguments() {
    let f = |a: i32, b: i32, c: i32| -> LuaResult<i32> { Ok(a + b + c) };
    let (out, _) = run(f, vec![HostValue::I32(1), HostValue::I32(2), HostValue::I32(3)]);
    assert!(matches!(out.values[..], [HostValue::I32(6)]));
    let g = |a: i32, b: i64, c: String, d: Option<i32>| -> LuaResult<Option<i64>> {
        Ok(Some(a as i64 + b + c.len() as i64 + d.unwrap_or(0) as i64))
    };
    let args = vec![
        HostValue::I32(1),
        HostValue::I64(10),
        HostValue::Str(b"abc".to_vec()),
        HostValue::I32(100),
    ];
    let (out, left) = run(g, args);
    assert!(out.succeeded);
    assert!(matches!(out.values[..], [HostValue::I64(114)]));
    assert_eq!(left, 0);
}

#[test]
fn unit_result_writes_nothing() {
    let (out, _) = run(|_x: i32| -> LuaResult<()> { Ok(()) }, vec![HostValue::I32(1)]);
    assert!(out.succeeded);
    assert!(out.values.is_empty());
}

#[test]
fn function_error_is_reported() {
    let (out, _) = run(|| -> LuaResult<i32> { Err(LuaError::from_str("bad input")) }, vec![]);
    assert_eq!(message(&out), "bad input");
}

#[test]
fn argument_error_is_reported_and_function_not_run() {
    let f = |_a: i32, _b: String| -> LuaResult<i32> { panic!("must not run") };
    let (out, left) = run(f, vec![HostValue::I32(1), HostValue::I64(2)]);
    assert_eq!(message(&out), "not receiving String");
    assert_eq!(left, 1);
    let (out, left) = run(f, vec![]);
    assert_eq!(message(&out), "not receiving i32");
    assert_eq!(left, 0);
}

#[test]
fn missing_optional_arguments_are_none() {
    let f = |a: Option<i32>, b: Option<i32>| -> LuaResult<i32> {
        Ok(a.unwrap_or(-1) * 10 + b.unwrap_or(-1))
    };
    let (out, _) = run(f, vec![HostValue::I32(4)]);
    assert!(matches!(out.values[..], [HostValue::I32(39)]));
}
