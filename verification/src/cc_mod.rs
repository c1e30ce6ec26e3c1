//! Running a module function on the arguments the host offers, and reporting
//! its outcome to the host.

use crate::lua_api::{
    vals, Exportable, HostQueue, HostValue, Importable, LuaError, LuaResult, Val,
};
use vstd::prelude::*;
use vstd::utf8::encode_utf8;

verus! {

/// What a call reports to the host: whether it succeeded, and the values it
/// writes (the function's result on success, the error message on failure).
pub struct CallOutcome {
    pub succeeded: bool,
    pub values: Vec<HostValue>,
}

impl View for CallOutcome {
    type V = (bool, Seq<Val>);

    open spec fn view(&self) -> (bool, Seq<Val>) {
        (self.succeeded, vals(self.values@))
    }
}

/// The report of a call that failed with the given message.
pub open spec fn failure(msg: Seq<char>) -> (bool, Seq<Val>) {
    (false, seq![Val::Str(encode_utf8(msg))])
}

/// The report of a call whose function returned `r`.
pub open spec fn report_of<O: Exportable>(r: LuaResult<O>) -> (bool, Seq<Val>) {
    match r {
        Ok(o) => (true, O::export_spec(o.deep_view())),
        Err(e) => failure(e@),
    }
}

/// Builds the report of a call whose function returned `r`.
fn report<O: Exportable>(r: LuaResult<O>) -> (out: CallOutcome)
    ensures
        out@ == report_of(r),
{
    match r {
        Ok(o) => {
            let mut values: Vec<HostValue> = Vec::new();
            o.export(&mut values);
            assert(vals(Seq::<HostValue>::empty()) =~= Seq::<Val>::empty());
            CallOutcome { succeeded: true, values }
        },
        Err(err) => fail_with(err),
    }
}

/// Builds the report of a call that failed with `err`.
fn fail_with(err: LuaError) -> (out: CallOutcome)
    ensures
        out@ == failure(err@),
{
    let mut values: Vec<HostValue> = Vec::new();
    err.as_str().export(&mut values);
    assert(vals(Seq::<HostValue>::empty()) =~= Seq::<Val>::empty());
    CallOutcome { succeeded: false, values }
}

/// A function that the module offers to the host: it reads its arguments from
/// the host's queue, runs, and reports its outcome.
pub trait ExportFunc<Args, Out> {
    /// Whether the function may be called on any arguments.
    spec fn callable(&self) -> bool;

    /// Reads the arguments from `args`, runs the function and reports its outcome.
    fn call(&self, args: &mut HostQueue) -> (out: CallOutcome)
        requires
            self.callable(),
    ;
}

/// A function of no arguments: it runs at once and takes nothing from the queue.
impl<O: Exportable, F: Fn() -> LuaResult<O>> ExportFunc<(), O> for F {
    open spec fn callable(&self) -> bool {
        call_requires(*self, ())
    }

    fn call(&self, args: &mut HostQueue) -> (out: CallOutcome)
        ensures
            final(args)@ == old(args)@,
            exists|r: LuaResult<O>| call_ensures(*self, (), r) && out@ == report_of(r),
    {
        let r = self();
        report(r)
    }
}

/// A function of one argument, read from the queue in order; the first one that
/// cannot be read is reported as the failure, and the rest stay in the queue.
impl<T0: Importable, O: Exportable, F: Fn(T0) -> LuaResult<O>> ExportFunc<(T0,), O> for F {
    open spec fn callable(&self) -> bool {
        forall|a0: T0| call_requires(*self, (a0,))
    }

    fn call(&self, args: &mut HostQueue) -> (out: CallOutcome)
        ensures
            ({
                let q0 = old(args)@;
                let (m0, n0) = T0::import_spec(q0);
                let q1 = q0.skip(n0 as int);
                &&& final(args)@ == q1
                &&& (m0 matches Err(e) ==> out@ == failure(e))
                &&& (m0 is Ok ==> exists|a0: T0, r: LuaResult<O>|
                    Ok::<_, Seq<char>>(a0.deep_view()) == m0
                    && call_ensures(*self, (a0,), r) && out@ == report_of(r))
            }),
    {
        let a0 = match T0::import(args) {
            Ok(v) => v,
            Err(e) => return fail_with(e),
        };
        let r = self(a0);
        report(r)
    }
}

/// A function of two arguments, read from the queue in order; the first one that
/// cannot be read is reported as the failure, and the rest stay in the queue.
impl<T0: Importable, T1: Importable, O: Exportable, F: Fn(T0, T1) -> LuaResult<O>> ExportFunc<(T0, T1), O> for F {
    open spec fn callable(&self) -> bool {
        forall|a0: T0, a1: T1| call_requires(*self, (a0, a1))
    }

    fn call(&self, args: &mut HostQueue) -> (out: CallOutcome)
        ensures
            ({
                let q0 = old(args)@;
                let (m0, n0) = T0::import_spec(q0);
                let q1 = q0.skip(n0 as int);
                let (m1, n1) = T1::import_spec(q1);
                let q2 = q1.skip(n1 as int);
                &&& final(args)@ == (if m0 is Err { q1 } else { q2 })
                &&& (m0 matches Err(e) ==> out@ == failure(e))
                &&& (m0 is Ok ==> (m1 matches Err(e) ==> out@ == failure(e)))
                &&& (m0 is Ok && m1 is Ok ==> exists|a0: T0, a1: T1, r: LuaResult<O>|
                    Ok::<_, Seq<char>>(a0.deep_view()) == m0 && Ok::<_, Seq<char>>(a1.deep_view()) == m1
                    && call_ensures(*self, (a0, a1), r) && out@ == report_of(r))
            }),
    {
        let a0 = match T0::import(args) {
            Ok(v) => v,
            Err(e) => return fail_with(e),
        };
        let a1 = match T1::import(args) {
            Ok(v) => v,
            Err(e) => return fail_with(e),
        };
        let r = self(a0, a1);
        report(r)
    }
}

/// A function of three arguments, read from the queue in order; the first one that
/// cannot be read is reported as the failure, and the rest stay in the queue.
impl<T0: Importable, T1: Importable, T2: Importable, O: Exportable, F: Fn(T0, T1, T2) -> LuaResult<O>> ExportFunc<(T0, T1, T2), O> for F {
    open spec fn callable(&self) -> bool {
        forall|a0: T0, a1: T1, a2: T2| call_requires(*self, (a0, a1, a2))
    }

    fn call(&self, args: &mut HostQueue) -> (out: CallOutcome)
        ensures
            ({
                let q0 = old(args)@;
                let (m0, n0) = T0::import_spec(q0);
                let q1 = q0.skip(n0 as int);
                let (m1, n1) = T1::import_spec(q1);
                let q2 = q1.skip(n1 as int);
                let (m2, n2) = T2::import_spec(q2);
                let q3 = q2.skip(n2 as int);
                &&& final(args)@ == (if m0 is Err { q1 } else { if m1 is Err { q2 } else { q3 } })
                &&& (m0 matches Err(e) ==> out@ == failure(e))
                &&& (m0 is Ok ==> (m1 matches Err(e) ==> out@ == failure(e)))
                &&& (m0 is Ok && m1 is Ok ==> (m2 matches Err(e) ==> out@ == failure(e)))
                &&& (m0 is Ok && m1 is Ok && m2 is Ok ==> exists|a0: T0, a1: T1, a2: T2, r: LuaResult<O>|
                    Ok::<_, Seq<char>>(a0.deep_view()) == m0 && Ok::<_, Seq<char>>(a1.deep_view()) == m1 && Ok::<_, Seq<char>>(a2.deep_view()) == m2
                    && call_ensures(*self, (a0, a1, a2), r) && out@ == report_of(r))
            }),
    {
        let a0 = match T0::import(args) {
            Ok(v) => v,
            Err(e) => return fail_with(e),
        };
        let a1 = match T1::import(args) {
            Ok(v) => v,
            Err(e) => return fail_with(e),
        };
        let a2 = match T2::import(args) {
            Ok(v) => v,
            Err(e) => return fail_with(e),
        };
        let r = self(a0, a1, a2);
        report(r)
    }
}

/// A function of four arguments, read from the queue in order; the first one that
/// cannot be read is reported as the failure, and the rest stay in the queue.
impl<T0: Importable, T1: Importable, T2: Importable, T3: Importable, O: Exportable, F: Fn(T0, T1, T2, T3) -> LuaResult<O>> ExportFunc<(T0, T1, T2, T3), O> for F {
    open spec fn callable(&self) -> bool {
        forall|a0: T0, a1: T1, a2: T2, a3: T3| call_requires(*self, (a0, a1, a2, a3))
    }

    fn call(&self, args: &mut HostQueue) -> (out: CallOutcome)
        ensures
            ({
                let q0 = old(args)@;
                let (m0, n0) = T0::import_spec(q0);
                let q1 = q0.skip(n0 as int);
                let (m1, n1) = T1::import_spec(q1);
                let q2 = q1.skip(n1 as int);
                let (m2, n2) = T2::import_spec(q2);
                let q3 = q2.skip(n2 as int);
                let (m3, n3) = T3::import_spec(q3);
                let q4 = q3.skip(n3 as int);
                &&& final(args)@ == (if m0 is Err { q1 } else { if m1 is Err { q2 } else { if m2 is Err { q3 } else { q4 } } })
                &&& (m0 matches Err(e) ==> out@ == failure(e))
                &&& (m0 is Ok ==> (m1 matches Err(e) ==> out@ == failure(e)))
                &&& (m0 is Ok && m1 is Ok ==> (m2 matches Err(e) ==> out@ == failure(e)))
                &&& (m0 is Ok && m1 is Ok && m2 is Ok ==> (m3 matches Err(e) ==> out@ == failure(e)))
                &&& (m0 is Ok && m1 is Ok && m2 is Ok && m3 is Ok ==> exists|a0: T0, a1: T1, a2: T2, a3: T3, r: LuaResult<O>|
                    Ok::<_, Seq<char>>(a0.deep_view()) == m0 && Ok::<_, Seq<char>>(a1.deep_view()) == m1 && Ok::<_, Seq<char>>(a2.deep_view()) == m2 && Ok::<_, Seq<char>>(a3.deep_view()) == m3
                    && call_ensures(*self, (a0, a1, a2, a3), r) && out@ == report_of(r))
            }),
    {
        let a0 = match T0::import(args) {
            Ok(v) => v,
            Err(e) => return fail_with(e),
        };
        let a1 = match T1::import(args) {
            Ok(v) => v,
            Err(e) => return fail_with(e),
        };
        let a2 = match T2::import(args) {
            Ok(v) => v,
            Err(e) => return fail_with(e),
        };
        let a3 = match T3::import(args) {
            Ok(v) => v,
            Err(e) => return fail_with(e),
        };
        let r = self(a0, a1, a2, a3);
        report(r)
    }
}

} // verus!
