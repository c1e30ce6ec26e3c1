//! What reading and writing host values give: each reader takes the front
//! value of its own type unchanged, each writer writes one value carrying its
//! input unchanged, and the host reads back what the module writes.

use crate::lua_api::{next_type_spec, typed_of_code, Exportable, F32Bits, F64Bits, Importable, Typed, Val};
use vstd::prelude::*;
use vstd::utf8::*;

verus! {

/// Reading a `T` from a queue that starts with what writing `v` produced, followed
/// by `rest`, gives `v` back and takes exactly the written values.
pub open spec fn reads_back<T: Importable + Exportable>(v: <T as DeepView>::V, rest: Seq<Val>) -> bool {
    T::import_spec(T::export_spec(v) + rest) == (
        Ok::<<T as DeepView>::V, Seq<char>>(v),
        T::export_spec(v).len(),
    )
}

/// An `i32` written to the host is read back unchanged, whatever follows it.
pub proof fn lemma_i32_reads_back(v: i32, rest: Seq<Val>)
    ensures
        reads_back::<i32>(v, rest),
{
    assert((seq![Val::I32(v)] + rest)[0] == Val::I32(v));
}

/// An `i64` written to the host is read back unchanged, whatever follows it.
pub proof fn lemma_i64_reads_back(v: i64, rest: Seq<Val>)
    ensures
        reads_back::<i64>(v, rest),
{
    assert((seq![Val::I64(v)] + rest)[0] == Val::I64(v));
}

/// A 32-bit float written to the host is read back with the same bits.
pub proof fn lemma_f32_reads_back(v: u32, rest: Seq<Val>)
    ensures
        reads_back::<F32Bits>(v, rest),
{
    assert((seq![Val::F32(v)] + rest)[0] == Val::F32(v));
}

/// A 64-bit float written to the host is read back with the same bits.
pub proof fn lemma_f64_reads_back(v: u64, rest: Seq<Val>)
    ensures
        reads_back::<F64Bits>(v, rest),
{
    assert((seq![Val::F64(v)] + rest)[0] == Val::F64(v));
}

/// A string written to the host is read back unchanged, whatever follows it.
pub proof fn lemma_string_reads_back(s: Seq<char>, rest: Seq<Val>)
    ensures
        reads_back::<String>(s, rest),
{
    broadcast use encode_utf8_valid_utf8, encode_utf8_decode_utf8;

    let q = seq![Val::Str(encode_utf8(s))] + rest;
    assert(q[0] == Val::Str(encode_utf8(s)));
}

/// The unit value writes nothing and reads back from any queue.
pub proof fn lemma_unit_reads_back(rest: Seq<Val>)
    ensures
        reads_back::<()>((), rest),
{
}

/// A present optional value reads back as present when its own value reads back
/// and writes at least one host value.
pub proof fn lemma_some_reads_back<T: Importable + Exportable>(v: <T as DeepView>::V, rest: Seq<Val>)
    requires
        reads_back::<T>(v, rest),
        T::export_spec(v).len() > 0,
    ensures
        reads_back::<Option<T>>(Some(v), rest),
{
    let q = T::export_spec(v) + rest;
    assert(q[0] == T::export_spec(v)[0]);
    assert(next_type_spec(q) != Typed::Nil) by {
        match q[0] {
            Val::Unknown(_) => {},
            _ => {},
        }
    }
}

/// An absent optional value writes nothing, and reads back as absent when nothing
/// else waits in the queue.
pub proof fn lemma_none_reads_back<T: Importable + Exportable>(rest: Seq<Val>)
    requires
        next_type_spec(rest) == Typed::Nil,
    ensures
        reads_back::<Option<T>>(None, rest),
{
    assert(Seq::<Val>::empty() + rest =~= rest);
}

/// Reading an `i32` from a queue whose front is `I32(v)` gives `v` itself and
/// takes that one value, whatever follows.
pub proof fn lemma_i32_read_front(v: i32, rest: Seq<Val>)
    ensures
        <i32 as Importable>::import_spec(seq![Val::I32(v)] + rest) == (Ok::<i32, Seq<char>>(v), 1nat),
{
    assert((seq![Val::I32(v)] + rest)[0] == Val::I32(v));
}

/// Reading an `i32` from a queue whose front is not an `i32` (or that is empty)
/// is refused and takes nothing.
pub proof fn lemma_i32_read_refused(q: Seq<Val>)
    requires
        !(q.len() > 0 && q[0] is I32),
    ensures
        <i32 as Importable>::import_spec(q) == (Err::<i32, Seq<char>>("not receiving i32"@), 0nat),
{
}

/// Writing an `i32` writes the one value `I32(v)`.
pub proof fn lemma_i32_write(v: i32)
    ensures
        <i32 as Exportable>::export_spec(v) == seq![Val::I32(v)],
{
}

/// Reading an `i64` from a queue whose front is `I64(v)` gives `v` itself and
/// takes that one value, whatever follows.
pub proof fn lemma_i64_read_front(v: i64, rest: Seq<Val>)
    ensures
        <i64 as Importable>::import_spec(seq![Val::I64(v)] + rest) == (Ok::<i64, Seq<char>>(v), 1nat),
{
    assert((seq![Val::I64(v)] + rest)[0] == Val::I64(v));
}

/// Reading an `i64` from a queue whose front is not an `i64` is refused and takes nothing.
pub proof fn lemma_i64_read_refused(q: Seq<Val>)
    requires
        !(q.len() > 0 && q[0] is I64),
    ensures
        <i64 as Importable>::import_spec(q) == (Err::<i64, Seq<char>>("not receiving i64"@), 0nat),
{
}

/// Writing an `i64` writes the one value `I64(v)`.
pub proof fn lemma_i64_write(v: i64)
    ensures
        <i64 as Exportable>::export_spec(v) == seq![Val::I64(v)],
{
}

/// Reading a 32-bit float from a front `F32(b)` gives the same bit pattern and
/// takes that one value.
pub proof fn lemma_f32_read_front(b: u32, rest: Seq<Val>)
    ensures
        <F32Bits as Importable>::import_spec(seq![Val::F32(b)] + rest) == (Ok::<u32, Seq<char>>(b), 1nat),
{
    assert((seq![Val::F32(b)] + rest)[0] == Val::F32(b));
}

/// Reading a 32-bit float from any other front is refused and takes nothing.
pub proof fn lemma_f32_read_refused(q: Seq<Val>)
    requires
        !(q.len() > 0 && q[0] is F32),
    ensures
        <F32Bits as Importable>::import_spec(q) == (Err::<u32, Seq<char>>("not receiving f32"@), 0nat),
{
}

/// Writing a 32-bit float writes the one value `F32(b)` with the same bits.
pub proof fn lemma_f32_write(b: u32)
    ensures
        <F32Bits as Exportable>::export_spec(b) == seq![Val::F32(b)],
{
}

/// Reading a 64-bit float from a front `F64(b)` gives the same bit pattern and
/// takes that one value.
pub proof fn lemma_f64_read_front(b: u64, rest: Seq<Val>)
    ensures
        <F64Bits as Importable>::import_spec(seq![Val::F64(b)] + rest) == (Ok::<u64, Seq<char>>(b), 1nat),
{
    assert((seq![Val::F64(b)] + rest)[0] == Val::F64(b));
}

/// Reading a 64-bit float from any other front is refused and takes nothing.
pub proof fn lemma_f64_read_refused(q: Seq<Val>)
    requires
        !(q.len() > 0 && q[0] is F64),
    ensures
        <F64Bits as Importable>::import_spec(q) == (Err::<u64, Seq<char>>("not receiving f64"@), 0nat),
{
}

/// Writing a 64-bit float writes the one value `F64(b)` with the same bits.
pub proof fn lemma_f64_write(b: u64)
    ensures
        <F64Bits as Exportable>::export_spec(b) == seq![Val::F64(b)],
{
}

/// The host protocol's type codes: 0 to 6 name `Nil`, `I32`, `I64`, `String`,
/// `F32`, `F64` and `Type` in that order, and every other code names `Error`.
pub proof fn lemma_type_codes(c: i32)
    ensures
        typed_of_code(0) == Typed::Nil,
        typed_of_code(1) == Typed::I32,
        typed_of_code(2) == Typed::I64,
        typed_of_code(3) == Typed::String,
        typed_of_code(4) == Typed::F32,
        typed_of_code(5) == Typed::F64,
        typed_of_code(6) == Typed::Type,
        c < 0 || c > 6 ==> typed_of_code(c) == Typed::Error,
{
}

/// Reading a type from a front type code `c` gives the type that code names in
/// the host protocol and takes that one value.
pub proof fn lemma_type_read_front(c: i32, rest: Seq<Val>)
    ensures
        <Typed as Importable>::import_spec(seq![Val::Type(c)] + rest) == (
            Ok::<Typed, Seq<char>>(typed_of_code(c)),
            1nat,
        ),
{
    assert((seq![Val::Type(c)] + rest)[0] == Val::Type(c));
}

/// Reading a type from any other front is refused and takes nothing.
pub proof fn lemma_type_read_refused(q: Seq<Val>)
    requires
        !(q.len() > 0 && q[0] is Type),
    ensures
        <Typed as Importable>::import_spec(q) == (Err::<Typed, Seq<char>>("not receiving type"@), 0nat),
{
}

/// Reading a string from a front string value takes exactly that one value,
/// whatever follows: it gives the text the bytes encode when they are valid
/// UTF-8, and is refused otherwise.
pub proof fn lemma_string_read_front(b: Seq<u8>, rest: Seq<Val>)
    ensures
        valid_utf8(b) ==> <String as Importable>::import_spec(seq![Val::Str(b)] + rest) == (
            Ok::<Seq<char>, Seq<char>>(decode_utf8(b)),
            1nat,
        ),
        !valid_utf8(b) ==> <String as Importable>::import_spec(seq![Val::Str(b)] + rest) == (
            Err::<Seq<char>, Seq<char>>("non utf8 string"@),
            1nat,
        ),
{
    assert((seq![Val::Str(b)] + rest)[0] == Val::Str(b));
}

/// Reading a string from any other front is refused and takes nothing.
pub proof fn lemma_string_read_refused(q: Seq<Val>)
    requires
        !(q.len() > 0 && q[0] is Str),
    ensures
        <String as Importable>::import_spec(q) == (
            Err::<Seq<char>, Seq<char>>("not receiving String"@),
            0nat,
        ),
{
}

/// Writing a string, owned or borrowed, writes exactly one value: its UTF-8 bytes.
pub proof fn lemma_string_write(s: Seq<char>)
    ensures
        <String as Exportable>::export_spec(s) == seq![Val::Str(encode_utf8(s))],
        <str as Exportable>::export_spec(s) == seq![Val::Str(encode_utf8(s))],
        <String as Exportable>::export_spec(s).len() == 1,
{
}

} // verus!
