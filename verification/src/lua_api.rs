//! Values exchanged with the Lua host: the error type, the type codes the host
//! reports, the host's value queue, and the conversions between host values and
//! Rust values.

use std::borrow::Cow;
use vstd::prelude::*;
use vstd::std_specs::cmp::PartialEqSpecImpl;
use vstd::std_specs::convert::FromSpecImpl;
use vstd::string::to_string_from_display_ensures;
use vstd::utf8::*;

verus! {

/// Result of a call that can fail with a message for the Lua side.
pub type LuaResult<T> = Result<T, LuaError>;

/// An error reported to the Lua side as a message.
#[derive(Debug, Hash)]
pub struct LuaError(Cow<'static, str>);

impl View for LuaError {
    type V = Seq<char>;

    closed spec fn view(&self) -> Seq<char> {
        self.0@
    }
}

impl Clone for LuaError {
    fn clone(&self) -> (r: LuaError)
        ensures
            r@ == self@,
    {
        match &self.0 {
            Cow::Borrowed(s) => LuaError(Cow::Borrowed(s)),
            Cow::Owned(s) => LuaError(Cow::Owned(s.clone())),
        }
    }
}

impl Default for LuaError {
    /// The error with an empty message.
    fn default() -> (r: LuaError)
        ensures
            r@.len() == 0,
    {
        proof {
            reveal_strlit("");
        }
        LuaError(Cow::Borrowed(""))
    }
}

impl PartialEq for LuaError {
    /// Two errors are equal when their messages are.
    fn eq(&self, other: &LuaError) -> (r: bool) {
        let a = self.as_str().as_bytes();
        let b = other.as_str().as_bytes();
        proof {
            broadcast use encode_utf8_valid_utf8, encode_utf8_decode_utf8;

            assert(self@ == other@ <==> a@ == b@) by {
                if a@ == b@ {
                    assert(decode_utf8(encode_utf8(self@)) == decode_utf8(encode_utf8(other@)));
                }
            }
        }
        if a.len() != b.len() {
            return false;
        }
        let mut i: usize = 0;
        while i < a.len()
            invariant
                a@.len() == b@.len(),
                i <= a@.len(),
                forall|j: int| 0 <= j < i ==> a@[j] == b@[j],
                self@ == other@ <==> a@ == b@,
            decreases a@.len() - i,
        {
            if a[i] != b[i] {
                assert(a@[i as int] != b@[i as int]);
                return false;
            }
            i = i + 1;
        }
        assert(a@ =~= b@);
        true
    }
}

impl PartialEqSpecImpl for LuaError {
    open spec fn obeys_eq_spec() -> bool {
        true
    }

    open spec fn eq_spec(&self, other: &LuaError) -> bool {
        self@ == other@
    }
}

impl Eq for LuaError {
}

/// Any value with a text form converts into an error carrying that text.
impl<T: std::fmt::Display> From<T> for LuaError {
    fn from(value: T) -> (r: LuaError)
        ensures
            exists|s: String| to_string_from_display_ensures::<T>(&value, s) && r@ == s@,
    {
        let s = value.to_string();
        let r = LuaError(Cow::Owned(s));
        assert(to_string_from_display_ensures::<T>(&value, s) && r@ == s@);
        r
    }
}

/// The conversion is not described by a spec function: its text comes from the
/// value's `Display` impl, so callers only learn what `from` itself ensures.
impl<T: std::fmt::Display> FromSpecImpl<T> for LuaError {
    open spec fn obeys_from_spec() -> bool {
        false
    }

    open spec fn from_spec(v: T) -> LuaError {
        arbitrary()
    }
}

impl LuaError {
    /// An error whose message is the given static text.
    pub fn from_str(msg: &'static str) -> (r: LuaError)
        ensures
            r@ == msg@,
    {
        LuaError(Cow::Borrowed(msg))
    }

    /// An error whose message is the given text.
    pub fn from_string(msg: String) -> (r: LuaError)
        ensures
            r@ == msg@,
    {
        LuaError(Cow::Owned(msg))
    }

    /// The message of this error.
    pub fn as_str(&self) -> (r: &str)
        ensures
            r@ == self@,
    {
        match &self.0 {
            Cow::Borrowed(s) => s,
            Cow::Owned(s) => s.as_str(),
        }
    }
}

/// The type of the next value that the host offers.
#[derive(Debug, Clone, Copy, PartialEq, Eq, Structural, PartialOrd, Ord)]
pub enum Typed {
    Nil,
    I32,
    I64,
    String,
    F32,
    F64,
    Type,
    Error,
}

/// The type named by a numeric type code of the host protocol.
pub open spec fn typed_of_code(t: i32) -> Typed {
    if t == 0 {
        Typed::Nil
    } else if t == 1 {
        Typed::I32
    } else if t == 2 {
        Typed::I64
    } else if t == 3 {
        Typed::String
    } else if t == 4 {
        Typed::F32
    } else if t == 5 {
        Typed::F64
    } else if t == 6 {
        Typed::Type
    } else {
        Typed::Error
    }
}

impl Typed {
    /// Decodes a numeric type code of the host protocol.
    pub fn from_i32(t: i32) -> (r: Typed)
        ensures
            r == typed_of_code(t),
    {
        match t {
            0 => Typed::Nil,
            1 => Typed::I32,
            2 => Typed::I64,
            3 => Typed::String,
            4 => Typed::F32,
            5 => Typed::F64,
            6 => Typed::Type,
            _ => Typed::Error,
        }
    }
}

/// A value waiting in the host's queue, or written to it.
///
/// Floating-point values travel as their IEEE-754 bit patterns.
pub enum HostValue {
    I32(i32),
    I64(i64),
    /// A string as its UTF-8 bytes (not necessarily valid UTF-8 when it comes from the host).
    Str(Vec<u8>),
    F32(u32),
    F64(u64),
    /// A type code.
    Type(i32),
    /// A value of a type code that this module does not know; it cannot be read.
    Unknown(i32),
}

/// The mathematical model of a [`HostValue`].
pub enum Val {
    I32(i32),
    I64(i64),
    Str(Seq<u8>),
    F32(u32),
    F64(u64),
    Type(i32),
    Unknown(i32),
}

impl View for HostValue {
    type V = Val;

    open spec fn view(&self) -> Val {
        match self {
            HostValue::I32(v) => Val::I32(*v),
            HostValue::I64(v) => Val::I64(*v),
            HostValue::Str(b) => Val::Str(b@),
            HostValue::F32(v) => Val::F32(*v),
            HostValue::F64(v) => Val::F64(*v),
            HostValue::Type(t) => Val::Type(*t),
            HostValue::Unknown(t) => Val::Unknown(*t),
        }
    }
}

/// The models of a sequence of host values.
pub open spec fn vals(s: Seq<HostValue>) -> Seq<Val> {
    s.map_values(|v: HostValue| v@)
}

/// The type the host reports for the front of a queue; an empty queue reports `Nil`.
pub open spec fn next_type_spec(q: Seq<Val>) -> Typed {
    if q.len() == 0 {
        Typed::Nil
    } else {
        match q[0] {
            Val::I32(_) => Typed::I32,
            Val::I64(_) => Typed::I64,
            Val::Str(_) => Typed::String,
            Val::F32(_) => Typed::F32,
            Val::F64(_) => Typed::F64,
            Val::Type(_) => Typed::Type,
            Val::Unknown(_) => Typed::Error,
        }
    }
}

/// The host's queue of values offered to the module, front first.
pub struct HostQueue {
    /// The values in reverse order: the front of the queue is the last element.
    rev: Vec<HostValue>,
}

impl View for HostQueue {
    type V = Seq<Val>;

    closed spec fn view(&self) -> Seq<Val> {
        vals(self.rev@).reverse()
    }
}

impl HostQueue {
    /// A queue that offers the given values, first to last.
    pub fn new(values: Vec<HostValue>) -> (q: HostQueue)
        ensures
            q@ == vals(values@),
    {
        let mut values = values;
        let ghost orig = values@;
        let mut rev: Vec<HostValue> = Vec::new();
        while values.len() > 0
            invariant
                orig.len() == values@.len() + rev@.len(),
                values@ == orig.take(values@.len() as int),
                forall|i: int| 0 <= i < rev@.len() ==> #[trigger] rev@[i] == orig[orig.len() - 1 - i],
            decreases values@.len(),
        {
            let v = values.pop().unwrap();
            rev.push(v);
        }
        let q = HostQueue { rev };
        assert(q@ =~= vals(orig));
        q
    }

    /// The number of values still waiting.
    pub fn len(&self) -> (n: usize)
        ensures
            n == self@.len(),
    {
        self.rev.len()
    }

    /// The type of the value at the front; `Nil` when nothing waits.
    pub fn next_type(&self) -> (t: Typed)
        ensures
            t == next_type_spec(self@),
    {
        let n = self.rev.len();
        if n == 0 {
            return Typed::Nil;
        }
        proof {
            assert(self@[0] == self.rev@[n - 1]@);
        }
        match &self.rev[n - 1] {
            HostValue::I32(_) => Typed::I32,
            HostValue::I64(_) => Typed::I64,
            HostValue::Str(_) => Typed::String,
            HostValue::F32(_) => Typed::F32,
            HostValue::F64(_) => Typed::F64,
            HostValue::Type(_) => Typed::Type,
            HostValue::Unknown(_) => Typed::Error,
        }
    }

    /// Removes and returns the value at the front.
    pub fn pop_front(&mut self) -> (v: Option<HostValue>)
        ensures
            old(self)@.len() == 0 ==> v is None && final(self)@ == old(self)@,
            old(self)@.len() > 0 ==> (v matches Some(x) && x@ == old(self)@[0]),
            old(self)@.len() > 0 ==> final(self)@ == old(self)@.drop_first(),
    {
        let v = self.rev.pop();
        proof {
            let o = old(self)@;
            if o.len() > 0 {
                assert(self@ =~= o.drop_first());
            }
        }
        v
    }
}

impl DeepView for Typed {
    type V = Typed;

    open spec fn deep_view(&self) -> Typed {
        *self
    }
}

/// A 32-bit float carried as its IEEE-754 bit pattern.
#[derive(Debug, Clone, Copy, PartialEq, Eq, Structural)]
pub struct F32Bits(pub u32);

/// A 64-bit float carried as its IEEE-754 bit pattern.
#[derive(Debug, Clone, Copy, PartialEq, Eq, Structural)]
pub struct F64Bits(pub u64);

impl DeepView for F32Bits {
    type V = u32;

    open spec fn deep_view(&self) -> u32 {
        self.0
    }
}

impl DeepView for F64Bits {
    type V = u64;

    open spec fn deep_view(&self) -> u64 {
        self.0
    }
}

/// Whether an imported result agrees with its model: the value's model, or the
/// error's message.
pub open spec fn import_agrees<T: DeepView>(r: LuaResult<T>, m: Result<T::V, Seq<char>>) -> bool {
    match r {
        Ok(v) => m == Ok::<T::V, Seq<char>>(v.deep_view()),
        Err(e) => m == Err::<T::V, Seq<char>>(e@),
    }
}

/// A type that can be read from the host's queue.
pub trait Importable: Sized + DeepView {
    /// What reading from a queue with the given contents gives, and how many
    /// values it takes from the front of the queue.
    spec fn import_spec(q: Seq<Val>) -> (Result<<Self as DeepView>::V, Seq<char>>, nat);

    /// Reading never takes more values than the queue holds.
    proof fn lemma_import_within(q: Seq<Val>)
        ensures
            Self::import_spec(q).1 <= q.len(),
    ;

    /// Reads a value from the front of the queue.
    fn import(q: &mut HostQueue) -> (r: LuaResult<Self>)
        ensures
            import_agrees(r, Self::import_spec(old(q)@).0),
            final(q)@ == old(q)@.skip(Self::import_spec(old(q)@).1 as int),
    ;
}

/// A type that can be written to the host.
pub trait Exportable: DeepView {
    /// The host values that writing a value with the given model produces.
    spec fn export_spec(v: <Self as DeepView>::V) -> Seq<Val>;

    /// Appends this value's host values to `out`.
    fn export(&self, out: &mut Vec<HostValue>)
        ensures
            vals(final(out)@) == vals(old(out)@) + Self::export_spec(self.deep_view()),
    ;
}

/// `String::from_utf8`, with the error dropped.
///
/// The standard library documents that it fails exactly when the bytes are not
/// valid UTF-8, and otherwise gives the string they encode.
#[verifier::external_body]
fn string_from_utf8(bytes: Vec<u8>) -> (r: Option<String>)
    ensures
        r is Some <==> valid_utf8(bytes@),
        r matches Some(s) ==> s@ == decode_utf8(bytes@),
{
    String::from_utf8(bytes).ok()
}

/// Decodes UTF-8 bytes into a string; `None` when they are not valid UTF-8.
pub fn utf8_to_string(bytes: Vec<u8>) -> (r: Option<String>)
    ensures
        r is Some <==> valid_utf8(bytes@),
        r matches Some(s) ==> s@ == decode_utf8(bytes@),
{
    string_from_utf8(bytes)
}

/// The UTF-8 bytes of a string.
pub fn str_to_bytes(s: &str) -> (r: Vec<u8>)
    ensures
        r@ == encode_utf8(s@),
{
    let b = s.as_bytes();
    let mut r: Vec<u8> = Vec::new();
    let mut i: usize = 0;
    while i < b.len()
        invariant
            i <= b@.len(),
            b@ == encode_utf8(s@),
            r@ == b@.take(i as int),
        decreases b@.len() - i,
    {
        r.push(b[i]);
        i = i + 1;
        assert(r@ =~= b@.take(i as int));
    }
    assert(r@ =~= b@);
    r
}

/// The value at the front of a queue that reports `I32`.
pub open spec fn front_i32(q: Seq<Val>) -> i32 {
    match q[0] {
        Val::I32(v) => v,
        _ => 0,
    }
}

pub open spec fn front_i64(q: Seq<Val>) -> i64 {
    match q[0] {
        Val::I64(v) => v,
        _ => 0,
    }
}

pub open spec fn front_f32(q: Seq<Val>) -> u32 {
    match q[0] {
        Val::F32(v) => v,
        _ => 0,
    }
}

pub open spec fn front_f64(q: Seq<Val>) -> u64 {
    match q[0] {
        Val::F64(v) => v,
        _ => 0,
    }
}

pub open spec fn front_type(q: Seq<Val>) -> i32 {
    match q[0] {
        Val::Type(t) => t,
        _ => 0,
    }
}

pub open spec fn front_bytes(q: Seq<Val>) -> Seq<u8> {
    match q[0] {
        Val::Str(b) => b,
        _ => Seq::empty(),
    }
}

impl Importable for i32 {
    open spec fn import_spec(q: Seq<Val>) -> (Result<i32, Seq<char>>, nat) {
        if next_type_spec(q) == Typed::I32 {
            (Ok(front_i32(q)), 1)
        } else {
            (Err("not receiving i32"@), 0)
        }
    }

    proof fn lemma_import_within(q: Seq<Val>) {
    }

    /// A front value of this type is read as its payload, unchanged, and taken;
    /// any other front (or an empty queue) is refused and nothing is taken.
    fn import(q: &mut HostQueue) -> (r: LuaResult<i32>)
        ensures
            old(q)@.len() > 0 && old(q)@[0] is I32 ==> (r matches Ok(x) && old(q)@[0] == Val::I32(x)),
            old(q)@.len() > 0 && old(q)@[0] is I32 ==> final(q)@ == old(q)@.drop_first(),
            !(old(q)@.len() > 0 && old(q)@[0] is I32) ==> (r matches Err(e) && e@ == "not receiving i32"@),
            !(old(q)@.len() > 0 && old(q)@[0] is I32) ==> final(q)@ == old(q)@,
    {
        if q.next_type() != Typed::I32 {
            return Err(LuaError::from_str("not receiving i32"));
        }
        match q.pop_front() {
            Some(HostValue::I32(v)) => Ok(v),
            _ => {
                proof {
                    assert(false);
                }
                Err(LuaError::from_str("not receiving i32"))
            },
        }
    }
}

impl Exportable for i32 {
    open spec fn export_spec(v: i32) -> Seq<Val> {
        seq![Val::I32(v)]
    }

    /// Appends exactly one host value, carrying this value unchanged.
    fn export(&self, out: &mut Vec<HostValue>)
        ensures
            vals(final(out)@) == vals(old(out)@).push(Val::I32(*self)),
    {
        out.push(HostValue::I32(*self));
        assert(vals(out@) =~= vals(old(out)@) + Self::export_spec(*self));
    }
}

impl Importable for i64 {
    open spec fn import_spec(q: Seq<Val>) -> (Result<i64, Seq<char>>, nat) {
        if next_type_spec(q) == Typed::I64 {
            (Ok(front_i64(q)), 1)
        } else {
            (Err("not receiving i64"@), 0)
        }
    }

    proof fn lemma_import_within(q: Seq<Val>) {
    }

    /// A front value of this type is read as its payload, unchanged, and taken;
    /// any other front (or an empty queue) is refused and nothing is taken.
    fn import(q: &mut HostQueue) -> (r: LuaResult<i64>)
        ensures
            old(q)@.len() > 0 && old(q)@[0] is I64 ==> (r matches Ok(x) && old(q)@[0] == Val::I64(x)),
            old(q)@.len() > 0 && old(q)@[0] is I64 ==> final(q)@ == old(q)@.drop_first(),
            !(old(q)@.len() > 0 && old(q)@[0] is I64) ==> (r matches Err(e) && e@ == "not receiving i64"@),
            !(old(q)@.len() > 0 && old(q)@[0] is I64) ==> final(q)@ == old(q)@,
    {
        if q.next_type() != Typed::I64 {
            return Err(LuaError::from_str("not receiving i64"));
        }
        match q.pop_front() {
            Some(HostValue::I64(v)) => Ok((v)),
            _ => {
                proof {
                    assert(false);
                }
                Err(LuaError::from_str("not receiving i64"))
            },
        }
    }
}

impl Exportable for i64 {
    open spec fn export_spec(v: i64) -> Seq<Val> {
        seq![Val::I64(v)]
    }

    /// Appends exactly one host value, carrying this value unchanged.
    fn export(&self, out: &mut Vec<HostValue>)
        ensures
            vals(final(out)@) == vals(old(out)@).push(Val::I64(*self)),
    {
        out.push(HostValue::I64(*self));
        assert(vals(out@) =~= vals(old(out)@) + Self::export_spec(self.deep_view()));
    }
}

impl Importable for F32Bits {
    open spec fn import_spec(q: Seq<Val>) -> (Result<u32, Seq<char>>, nat) {
        if next_type_spec(q) == Typed::F32 {
            (Ok(front_f32(q)), 1)
        } else {
            (Err("not receiving f32"@), 0)
        }
    }

    proof fn lemma_import_within(q: Seq<Val>) {
    }

    /// A front value of this type is read as its payload, unchanged, and taken;
    /// any other front (or an empty queue) is refused and nothing is taken.
    fn import(q: &mut HostQueue) -> (r: LuaResult<F32Bits>)
        ensures
            old(q)@.len() > 0 && old(q)@[0] is F32 ==> (r matches Ok(x) && old(q)@[0] == Val::F32(x.0)),
            old(q)@.len() > 0 && old(q)@[0] is F32 ==> final(q)@ == old(q)@.drop_first(),
            !(old(q)@.len() > 0 && old(q)@[0] is F32) ==> (r matches Err(e) && e@ == "not receiving f32"@),
            !(old(q)@.len() > 0 && old(q)@[0] is F32) ==> final(q)@ == old(q)@,
    {
        if q.next_type() != Typed::F32 {
            return Err(LuaError::from_str("not receiving f32"));
        }
        match q.pop_front() {
            Some(HostValue::F32(v)) => Ok(F32Bits(v)),
            _ => {
                proof {
                    assert(false);
                }
                Err(LuaError::from_str("not receiving f32"))
            },
        }
    }
}

impl Exportable for F32Bits {
    open spec fn export_spec(v: u32) -> Seq<Val> {
        seq![Val::F32(v)]
    }

    /// Appends exactly one host value, carrying this value unchanged.
    fn export(&self, out: &mut Vec<HostValue>)
        ensures
            vals(final(out)@) == vals(old(out)@).push(Val::F32(self.0)),
    {
        out.push(HostValue::F32(self.0));
        assert(vals(out@) =~= vals(old(out)@) + Self::export_spec(self.deep_view()));
    }
}

impl Importable for F64Bits {
    open spec fn import_spec(q: Seq<Val>) -> (Result<u64, Seq<char>>, nat) {
        if next_type_spec(q) == Typed::F64 {
            (Ok(front_f64(q)), 1)
        } else {
            (Err("not receiving f64"@), 0)
        }
    }

    proof fn lemma_import_within(q: Seq<Val>) {
    }

    /// A front value of this type is read as its payload, unchanged, and taken;
    /// any other front (or an empty queue) is refused and nothing is taken.
    fn import(q: &mut HostQueue) -> (r: LuaResult<F64Bits>)
        ensures
            old(q)@.len() > 0 && old(q)@[0] is F64 ==> (r matches Ok(x) && old(q)@[0] == Val::F64(x.0)),
            old(q)@.len() > 0 && old(q)@[0] is F64 ==> final(q)@ == old(q)@.drop_first(),
            !(old(q)@.len() > 0 && old(q)@[0] is F64) ==> (r matches Err(e) && e@ == "not receiving f64"@),
            !(old(q)@.len() > 0 && old(q)@[0] is F64) ==> final(q)@ == old(q)@,
    {
        if q.next_type() != Typed::F64 {
            return Err(LuaError::from_str("not receiving f64"));
        }
        match q.pop_front() {
            Some(HostValue::F64(v)) => Ok(F64Bits(v)),
            _ => {
                proof {
                    assert(false);
                }
                Err(LuaError::from_str("not receiving f64"))
            },
        }
    }
}

impl Exportable for F64Bits {
    open spec fn export_spec(v: u64) -> Seq<Val> {
        seq![Val::F64(v)]
    }

    /// Appends exactly one host value, carrying this value unchanged.
    fn export(&self, out: &mut Vec<HostValue>)
        ensures
            vals(final(out)@) == vals(old(out)@).push(Val::F64(self.0)),
    {
        out.push(HostValue::F64(self.0));
        assert(vals(out@) =~= vals(old(out)@) + Self::export_spec(self.deep_view()));
    }
}

impl Importable for Typed {
    open spec fn import_spec(q: Seq<Val>) -> (Result<Typed, Seq<char>>, nat) {
        if next_type_spec(q) == Typed::Type {
            (Ok(typed_of_code(front_type(q))), 1)
        } else {
            (Err("not receiving type"@), 0)
        }
    }

    proof fn lemma_import_within(q: Seq<Val>) {
    }

    /// A front type code `c` is read as the type that `Typed::from_i32` decodes
    /// from `c`, and taken; any other front is refused and nothing is taken.
    fn import(q: &mut HostQueue) -> (r: LuaResult<Typed>)
        ensures
            forall|c: i32| old(q)@.len() > 0 && old(q)@[0] == Val::Type(c) ==> r == Ok::<Typed, LuaError>(typed_of_code(c)),
            old(q)@.len() > 0 && old(q)@[0] is Type ==> final(q)@ == old(q)@.drop_first(),
            !(old(q)@.len() > 0 && old(q)@[0] is Type) ==> (r matches Err(e) && e@ == "not receiving type"@),
            !(old(q)@.len() > 0 && old(q)@[0] is Type) ==> final(q)@ == old(q)@,
    {
        if q.next_type() != Typed::Type {
            return Err(LuaError::from_str("not receiving type"));
        }
        match q.pop_front() {
            Some(HostValue::Type(t)) => Ok(Typed::from_i32(t)),
            _ => {
                proof {
                    assert(false);
                }
                Err(LuaError::from_str("not receiving type"))
            },
        }
    }
}

impl Importable for String {
    open spec fn import_spec(q: Seq<Val>) -> (Result<Seq<char>, Seq<char>>, nat) {
        if next_type_spec(q) != Typed::String {
            (Err("not receiving String"@), 0)
        } else if valid_utf8(front_bytes(q)) {
            (Ok(decode_utf8(front_bytes(q))), 1)
        } else {
            (Err("non utf8 string"@), 1)
        }
    }

    proof fn lemma_import_within(q: Seq<Val>) {
    }

    /// A front string value is taken whatever its bytes; it is read as the text
    /// its bytes encode when they are valid UTF-8, and refused otherwise. Any
    /// other front is refused and nothing is taken.
    fn import(q: &mut HostQueue) -> (r: LuaResult<String>)
        ensures
            forall|b: Seq<u8>| old(q)@.len() > 0 && old(q)@[0] == Val::Str(b) && valid_utf8(b)
                ==> (r matches Ok(s) && s@ == decode_utf8(b)),
            forall|b: Seq<u8>| old(q)@.len() > 0 && old(q)@[0] == Val::Str(b) && !valid_utf8(b)
                ==> (r matches Err(e) && e@ == "non utf8 string"@),
            old(q)@.len() > 0 && old(q)@[0] is Str ==> final(q)@ == old(q)@.drop_first(),
            !(old(q)@.len() > 0 && old(q)@[0] is Str) ==> (r matches Err(e) && e@ == "not receiving String"@),
            !(old(q)@.len() > 0 && old(q)@[0] is Str) ==> final(q)@ == old(q)@,
    {
        if q.next_type() != Typed::String {
            return Err(LuaError::from_str("not receiving String"));
        }
        match q.pop_front() {
            Some(HostValue::Str(bytes)) => match utf8_to_string(bytes) {
                Some(s) => Ok(s),
                None => Err(LuaError::from_str("non utf8 string")),
            },
            _ => {
                proof {
                    assert(false);
                }
                Err(LuaError::from_str("not receiving String"))
            },
        }
    }
}

impl Exportable for String {
    open spec fn export_spec(v: Seq<char>) -> Seq<Val> {
        seq![Val::Str(encode_utf8(v))]
    }

    /// Appends exactly one host value: the UTF-8 bytes of the text.
    fn export(&self, out: &mut Vec<HostValue>)
        ensures
            vals(final(out)@) == vals(old(out)@).push(Val::Str(encode_utf8(self@))),
    {
        self.as_str().export(out);
    }
}

impl Exportable for str {
    open spec fn export_spec(v: Seq<char>) -> Seq<Val> {
        seq![Val::Str(encode_utf8(v))]
    }

    /// Appends exactly one host value: the UTF-8 bytes of the text.
    fn export(&self, out: &mut Vec<HostValue>)
        ensures
            vals(final(out)@) == vals(old(out)@).push(Val::Str(encode_utf8(self@))),
    {
        let bytes = str_to_bytes(self);
        out.push(HostValue::Str(bytes));
        assert(vals(out@) =~= vals(old(out)@) + Self::export_spec(self.deep_view()));
    }
}

impl Importable for () {
    open spec fn import_spec(q: Seq<Val>) -> (Result<(), Seq<char>>, nat) {
        (Ok(()), 0)
    }

    proof fn lemma_import_within(q: Seq<Val>) {
    }

    fn import(q: &mut HostQueue) -> (r: LuaResult<()>) {
        Ok(())
    }
}

impl Exportable for () {
    open spec fn export_spec(v: ()) -> Seq<Val> {
        Seq::empty()
    }

    /// Writing the unit value writes nothing: `out` is left as it was.
    fn export(&self, out: &mut Vec<HostValue>)
        ensures
            final(out)@ == old(out)@,
    {
        assert(vals(out@) =~= vals(out@) + Self::export_spec(()));
    }
}

impl<T: Importable> Importable for Option<T> {
    open spec fn import_spec(q: Seq<Val>) -> (Result<Option<T::V>, Seq<char>>, nat) {
        if next_type_spec(q) == Typed::Nil {
            (Ok(None), 0)
        } else {
            match T::import_spec(q) {
                (Ok(v), n) => (Ok(Some(v)), n),
                (Err(e), n) => (Err(e), n),
            }
        }
    }

    proof fn lemma_import_within(q: Seq<Val>) {
        T::lemma_import_within(q);
    }

    fn import(q: &mut HostQueue) -> (r: LuaResult<Option<T>>) {
        if q.next_type() == Typed::Nil {
            Ok(None)
        } else {
            match T::import(q) {
                Ok(v) => Ok(Some(v)),
                Err(e) => Err(e),
            }
        }
    }
}

impl<T: Exportable> Exportable for Option<T> {
    open spec fn export_spec(v: Option<T::V>) -> Seq<Val> {
        match v {
            Some(x) => T::export_spec(x),
            None => Seq::empty(),
        }
    }

    fn export(&self, out: &mut Vec<HostValue>) {
        match self {
            Some(v) => v.export(out),
            None => {
                assert(vals(out@) =~= vals(out@) + Seq::<Val>::empty());
            },
        }
    }
}

} // verus!
