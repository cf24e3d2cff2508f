//! Value conversion between host and engine.
//!
//! Host primitives become engine values through [`LazyValue`], always under
//! the narrowest tag that preserves the value; the conversion never fails.
//! The way back is split: exact accessors succeed only on the matching tag,
//! while the coercing readers follow the engine's coercion rules for the
//! values this layer carries. What only the engine itself can coerce — a
//! string parsed as a number, an object asked for its primitive — is
//! reported as a failed coercion here: numeric parsing belongs to the
//! engine, not to this layer.

use vstd::prelude::*;

use crate::context::{ContextRef, CtxtV};
use crate::error::{spec_pending_valid, spec_throw_error};
use crate::handle::Local;
use crate::heap::{DataV, HeapData, SlotV};
use crate::runtime::{spec_alloc, spec_clone_value, valid_ref};
use crate::text::{i32_text, i64_text, spec_idec};
use crate::value::{FloatVal, Value, FALSE_VALUE, TRUE_VALUE};

verus! {

/// Conversion between the engine's status integers and booleans.
pub trait ToBool {
    /// The converted shape.
    type Bool;

    /// Convert.
    fn to_bool(self) -> Self::Bool;
}

impl ToBool for i32 {
    type Bool = bool;

    /// Any status other than false is true.
    fn to_bool(self) -> (r: bool)
        ensures
            r == (self != FALSE_VALUE),
    {
        self != FALSE_VALUE
    }
}

impl ToBool for bool {
    type Bool = i32;

    /// The engine's integer for this boolean.
    fn to_bool(self) -> (r: i32)
        ensures
            r == (if self {
                TRUE_VALUE
            } else {
                FALSE_VALUE
            }),
    {
        if self {
            TRUE_VALUE
        } else {
            FALSE_VALUE
        }
    }
}

/// The text of a value, as the engine's string conversion produces it for
/// the values this layer carries; `None` where only the engine could
/// produce one (symbols, modules, bytecode) or the cell is gone.
pub open spec fn spec_value_text(slots: Seq<SlotV>, v: Value) -> Option<Seq<char>> {
    match v {
        Value::Int(n) => Some(spec_idec(n as int)),
        Value::Bool(b) => Some(
            if b {
                "true"@
            } else {
                "false"@
            },
        ),
        Value::Null => Some("null"@),
        Value::Undefined => Some("undefined"@),
        Value::Float(FloatVal::Whole(w)) => Some(spec_idec(w as int)),
        Value::Float(FloatVal::NotANumber) => Some("NaN"@),
        Value::Str(id) => if id < slots.len() && slots[id as int].live {
            match slots[id as int].data {
                DataV::Text(t) => Some(t),
                _ => None,
            }
        } else {
            None
        },
        Value::Object(_) => Some("[object Object]"@),
        Value::BigInt(id) => if id < slots.len() && slots[id as int].live {
            match slots[id as int].data {
                DataV::BigNum(n) => Some(spec_idec(n as int)),
                _ => None,
            }
        } else {
            None
        },
        _ => None,
    }
}

/// The boolean a value coerces to, for the values this layer carries.
pub open spec fn spec_to_bool(slots: Seq<SlotV>, v: Value) -> Option<bool> {
    match v {
        Value::Int(n) => Some(n != 0),
        Value::Bool(b) => Some(b),
        Value::Null => Some(false),
        Value::Undefined => Some(false),
        Value::Float(FloatVal::Whole(w)) => Some(w != 0),
        Value::Float(FloatVal::NotANumber) => Some(false),
        Value::Str(id) => if id < slots.len() && slots[id as int].live {
            match slots[id as int].data {
                DataV::Text(t) => Some(t.len() > 0),
                _ => None,
            }
        } else {
            None
        },
        Value::Object(_) => Some(true),
        Value::Symbol(_) => Some(true),
        Value::Module(_) => Some(true),
        Value::FunctionBytecode(_) => Some(true),
        Value::BigInt(id) => if id < slots.len() && slots[id as int].live {
            match slots[id as int].data {
                DataV::BigNum(n) => Some(n != 0),
                _ => None,
            }
        } else {
            None
        },
        Value::BigFloat(_) => Some(true),
        Value::BigDecimal(_) => Some(true),
        _ => None,
    }
}

/// A 64-bit number reduced to the signed 32-bit range, modulo two to the
/// thirty-second.
pub open spec fn spec_wrap_i32(w: int) -> int {
    let m = w % 4294967296;
    if m >= 2147483648 {
        m - 4294967296
    } else {
        m
    }
}

/// The 32-bit integer a value coerces to: numbers reduce modulo two to the
/// thirty-second, the not-a-number marker becomes zero. Strings and
/// objects coerce only through the engine and fail here.
pub open spec fn spec_to_int32(v: Value) -> Option<i32> {
    match v {
        Value::Int(n) => Some(n),
        Value::Bool(b) => Some(
            if b {
                1i32
            } else {
                0i32
            },
        ),
        Value::Null => Some(0i32),
        Value::Undefined => Some(0i32),
        Value::Float(FloatVal::Whole(w)) => Some(spec_wrap_i32(w as int) as i32),
        Value::Float(FloatVal::NotANumber) => Some(0i32),
        _ => None,
    }
}

/// The 64-bit integer a value coerces to.
pub open spec fn spec_to_int64(v: Value) -> Option<i64> {
    match v {
        Value::Int(n) => Some(n as i64),
        Value::Bool(b) => Some(
            if b {
                1i64
            } else {
                0i64
            },
        ),
        Value::Null => Some(0i64),
        Value::Undefined => Some(0i64),
        Value::Float(FloatVal::Whole(w)) => Some(w),
        Value::Float(FloatVal::NotANumber) => Some(0i64),
        _ => None,
    }
}

/// The largest number an engine index may hold.
pub const MAX_SAFE_INTEGER: u64 = 9007199254740991;

/// The array index a value coerces to: a negative number is out of range
/// and fails, as does anything past the largest safe integer.
pub open spec fn spec_to_index(v: Value) -> Option<u64> {
    match v {
        Value::Int(n) => if n >= 0 {
            Some(n as u64)
        } else {
            None
        },
        Value::Bool(b) => Some(
            if b {
                1u64
            } else {
                0u64
            },
        ),
        Value::Null => Some(0u64),
        Value::Undefined => Some(0u64),
        Value::Float(FloatVal::Whole(w)) => if 0 <= w <= MAX_SAFE_INTEGER {
            Some(w as u64)
        } else {
            None
        },
        Value::Float(FloatVal::NotANumber) => Some(0u64),
        _ => None,
    }
}

/// The 64-bit integer a big integer cell holds.
pub open spec fn spec_to_bigint64(slots: Seq<SlotV>, v: Value) -> Option<i64> {
    match v {
        Value::BigInt(id) => if id < slots.len() && slots[id as int].live {
            match slots[id as int].data {
                DataV::BigNum(n) => Some(n),
                _ => None,
            }
        } else {
            None
        },
        _ => None,
    }
}

impl ContextRef {
    /// The boolean `val` coerces to.
    pub fn to_bool(&self, val: &Value) -> (r: Option<bool>)
        ensures
            r == spec_to_bool(self@.rt.slots, *val),
    {
        match val {
            Value::Int(n) => Some(*n != 0),
            Value::Bool(b) => Some(*b),
            Value::Null => Some(false),
            Value::Undefined => Some(false),
            Value::Float(FloatVal::Whole(w)) => Some(*w != 0),
            Value::Float(FloatVal::NotANumber) => Some(false),
            Value::Str(id) => {
                let i = *id as usize;
                if i < self.rt.slots.len() && self.rt.slots[i].live {
                    match &self.rt.slots[i].data {
                        HeapData::Text(t) => Some(!t.as_str().is_empty()),
                        _ => None,
                    }
                } else {
                    None
                }
            },
            Value::Object(_) => Some(true),
            Value::Symbol(_) => Some(true),
            Value::Module(_) => Some(true),
            Value::FunctionBytecode(_) => Some(true),
            Value::BigInt(id) => {
                let i = *id as usize;
                if i < self.rt.slots.len() && self.rt.slots[i].live {
                    match &self.rt.slots[i].data {
                        HeapData::BigNum(n) => Some(*n != 0),
                        _ => None,
                    }
                } else {
                    None
                }
            },
            Value::BigFloat(_) => Some(true),
            Value::BigDecimal(_) => Some(true),
            _ => None,
        }
    }

    /// The 32-bit integer `val` coerces to.
    pub fn to_int32(&self, val: &Value) -> (r: Option<i32>)
        ensures
            r == spec_to_int32(*val),
    {
        match val {
            Value::Int(n) => Some(*n),
            Value::Bool(b) => Some(
                if *b {
                    1
                } else {
                    0
                },
            ),
            Value::Null => Some(0),
            Value::Undefined => Some(0),
            Value::Float(FloatVal::Whole(w)) => {
                let m: i64 = *w % 4294967296;
                let m2: i64 = if m < 0 {
                    m + 4294967296
                } else {
                    m
                };
                let r: i32 = if m2 >= 2147483648 {
                    (m2 - 4294967296) as i32
                } else {
                    m2 as i32
                };
                Some(r)
            },
            Value::Float(FloatVal::NotANumber) => Some(0),
            _ => None,
        }
    }

    /// The 64-bit integer `val` coerces to.
    pub fn to_int64(&self, val: &Value) -> (r: Option<i64>)
        ensures
            r == spec_to_int64(*val),
    {
        match val {
            Value::Int(n) => Some(*n as i64),
            Value::Bool(b) => Some(
                if *b {
                    1
                } else {
                    0
                },
            ),
            Value::Null => Some(0),
            Value::Undefined => Some(0),
            Value::Float(FloatVal::Whole(w)) => Some(*w),
            Value::Float(FloatVal::NotANumber) => Some(0),
            _ => None,
        }
    }

    /// The 64-bit integer `val` coerces to, big integers included.
    pub fn to_int64_ext(&self, val: &Value) -> (r: Option<i64>)
        ensures
            r == (if val is BigInt {
                spec_to_bigint64(self@.rt.slots, *val)
            } else {
                spec_to_int64(*val)
            }),
    {
        match val {
            Value::BigInt(_) => self.to_bigint64(val),
            _ => self.to_int64(val),
        }
    }

    /// The array index `val` coerces to.
    pub fn to_index(&self, val: &Value) -> (r: Option<u64>)
        ensures
            r == spec_to_index(*val),
    {
        match val {
            Value::Int(n) => if *n >= 0 {
                Some(*n as u64)
            } else {
                None
            },
            Value::Bool(b) => Some(
                if *b {
                    1
                } else {
                    0
                },
            ),
            Value::Null => Some(0),
            Value::Undefined => Some(0),
            Value::Float(FloatVal::Whole(w)) => if 0 <= *w && *w <= MAX_SAFE_INTEGER as i64 {
                Some(*w as u64)
            } else {
                None
            },
            Value::Float(FloatVal::NotANumber) => Some(0),
            _ => None,
        }
    }

    /// The 64-bit integer a big integer value holds.
    pub fn to_bigint64(&self, val: &Value) -> (r: Option<i64>)
        ensures
            r == spec_to_bigint64(self@.rt.slots, *val),
    {
        match val {
            Value::BigInt(id) => {
                let i = *id as usize;
                if i < self.rt.slots.len() && self.rt.slots[i].live {
                    match &self.rt.slots[i].data {
                        HeapData::BigNum(n) => Some(*n),
                        _ => None,
                    }
                } else {
                    None
                }
            },
            _ => None,
        }
    }

    /// The text of `val`, copied out of the engine: the engine's transient
    /// string is released before the call returns, and no state changes.
    pub fn to_cstring(&self, val: &Value) -> (r: Option<String>)
        ensures
            match r {
                Some(s) => spec_value_text(self@.rt.slots, *val) == Some(s@),
                None => spec_value_text(self@.rt.slots, *val) is None,
            },
    {
        match val {
            Value::Int(n) => Some(i32_text(*n)),
            Value::Bool(b) => Some(
                if *b {
                    "true".to_owned()
                } else {
                    "false".to_owned()
                },
            ),
            Value::Null => Some("null".to_owned()),
            Value::Undefined => Some("undefined".to_owned()),
            Value::Float(FloatVal::Whole(w)) => Some(i64_text(*w)),
            Value::Float(FloatVal::NotANumber) => Some("NaN".to_owned()),
            Value::Str(id) => {
                let i = *id as usize;
                if i < self.rt.slots.len() && self.rt.slots[i].live {
                    match &self.rt.slots[i].data {
                        HeapData::Text(t) => Some(t.clone()),
                        _ => None,
                    }
                } else {
                    None
                }
            },
            Value::Object(_) => Some("[object Object]".to_owned()),
            Value::BigInt(id) => {
                let i = *id as usize;
                if i < self.rt.slots.len() && self.rt.slots[i].live {
                    match &self.rt.slots[i].data {
                        HeapData::BigNum(n) => Some(i64_text(*n)),
                        _ => None,
                    }
                } else {
                    None
                }
            },
            _ => None,
        }
    }

    /// A fresh string cell holding the text of `val`; where only the
    /// engine could produce the text, the pending exception is set and the
    /// exception sentinel returned.
    pub fn to_str(&mut self, val: &Value) -> (l: Local<Value>)
        requires
            spec_pending_valid(old(self)@),
            old(self)@.rt.slots.len() + 4 < u32::MAX,
        ensures
            match spec_value_text(old(self)@.rt.slots, *val) {
                Some(t) => l.inner == Value::Str(old(self)@.rt.slots.len() as u32) && final(self)@ == (CtxtV {
                    rt: spec_alloc(old(self)@.rt, DataV::Text(t)),
                    ..old(self)@
                }),
                None => l.inner == Value::Exception && final(self)@ == spec_throw_error(
                    old(self)@,
                    "TypeError"@,
                    "cannot convert to string"@,
                    None,
                ),
            },
    {
        match self.to_cstring(val) {
            Some(text) => {
                let id = self.rt.alloc_cell(HeapData::Text(text));
                Local { inner: Value::Str(id) }
            },
            None => self.throw_type_error("cannot convert to string"),
        }
    }

    /// A fresh string cell usable as a property key, with the same
    /// behaviour as the string conversion.
    pub fn to_property_key(&mut self, val: &Value) -> (l: Local<Value>)
        requires
            spec_pending_valid(old(self)@),
            old(self)@.rt.slots.len() + 4 < u32::MAX,
        ensures
            match spec_value_text(old(self)@.rt.slots, *val) {
                Some(t) => l.inner == Value::Str(old(self)@.rt.slots.len() as u32) && final(self)@ == (CtxtV {
                    rt: spec_alloc(old(self)@.rt, DataV::Text(t)),
                    ..old(self)@
                }),
                None => l.inner == Value::Exception && final(self)@ == spec_throw_error(
                    old(self)@,
                    "TypeError"@,
                    "cannot convert to string"@,
                    None,
                ),
            },
    {
        self.to_str(val)
    }

    /// Convert a host value and bind it, unless it converted to
    /// `undefined`.
    pub fn new_value<T: LazyValue>(&mut self, s: T) -> (r: Option<Local<Value>>)
        requires
            s.lazy_req(old(self)@),
        ensures
            final(self)@ == s.lazy_post(old(self)@),
            r == (if s.lazy_result(old(self)@) is Undefined {
                None::<Local<Value>>
            } else {
                Some(Local { inner: s.lazy_result(old(self)@) })
            }),
    {
        let v = s.new_value(self);
        match v.check_undefined() {
            Some(v) => Some(Local { inner: v }),
            None => None,
        }
    }
}

/// A host value that converts into an engine value. The conversion picks
/// the narrowest engine tag that preserves the value, never fails, and
/// allocates at most one cell.
pub trait LazyValue: Sized {
    /// What the conversion asks of the context.
    spec fn lazy_req(&self, pre: CtxtV) -> bool;

    /// The value the conversion produces.
    spec fn lazy_result(&self, pre: CtxtV) -> Value;

    /// The context after the conversion.
    spec fn lazy_post(&self, pre: CtxtV) -> CtxtV;

    /// Convert, handing the caller one reference to the result.
    fn new_value(self, ctxt: &mut ContextRef) -> (v: Value)
        requires
            self.lazy_req(old(ctxt)@),
        ensures
            v == self.lazy_result(old(ctxt)@),
            final(ctxt)@ == self.lazy_post(old(ctxt)@),
            valid_ref(final(ctxt)@.rt, v),
    ;
}

/// The host values that convert into engine values; every [`LazyValue`]
/// does.
pub trait NewValue: LazyValue {

}

impl<T: LazyValue> NewValue for T {

}

impl LazyValue for bool {
    open spec fn lazy_req(&self, pre: CtxtV) -> bool {
        true
    }

    open spec fn lazy_result(&self, pre: CtxtV) -> Value {
        Value::Bool(*self)
    }

    open spec fn lazy_post(&self, pre: CtxtV) -> CtxtV {
        pre
    }

    fn new_value(self, ctxt: &mut ContextRef) -> Value {
        Value::Bool(self)
    }
}

impl LazyValue for i32 {
    open spec fn lazy_req(&self, pre: CtxtV) -> bool {
        true
    }

    open spec fn lazy_result(&self, pre: CtxtV) -> Value {
        Value::Int(*self)
    }

    open spec fn lazy_post(&self, pre: CtxtV) -> CtxtV {
        pre
    }

    fn new_value(self, ctxt: &mut ContextRef) -> Value {
        Value::Int(self)
    }
}

impl LazyValue for i8 {
    open spec fn lazy_req(&self, pre: CtxtV) -> bool {
        true
    }

    open spec fn lazy_result(&self, pre: CtxtV) -> Value {
        Value::Int(*self as i32)
    }

    open spec fn lazy_post(&self, pre: CtxtV) -> CtxtV {
        pre
    }

    fn new_value(self, ctxt: &mut ContextRef) -> Value {
        Value::Int(self as i32)
    }
}

impl LazyValue for i16 {
    open spec fn lazy_req(&self, pre: CtxtV) -> bool {
        true
    }

    open spec fn lazy_result(&self, pre: CtxtV) -> Value {
        Value::Int(*self as i32)
    }

    open spec fn lazy_post(&self, pre: CtxtV) -> CtxtV {
        pre
    }

    fn new_value(self, ctxt: &mut ContextRef) -> Value {
        Value::Int(self as i32)
    }
}

impl LazyValue for u8 {
    open spec fn lazy_req(&self, pre: CtxtV) -> bool {
        true
    }

    open spec fn lazy_result(&self, pre: CtxtV) -> Value {
        Value::Int(*self as i32)
    }

    open spec fn lazy_post(&self, pre: CtxtV) -> CtxtV {
        pre
    }

    fn new_value(self, ctxt: &mut ContextRef) -> Value {
        Value::Int(self as i32)
    }
}

impl LazyValue for u16 {
    open spec fn lazy_req(&self, pre: CtxtV) -> bool {
        true
    }

    open spec fn lazy_result(&self, pre: CtxtV) -> Value {
        Value::Int(*self as i32)
    }

    open spec fn lazy_post(&self, pre: CtxtV) -> CtxtV {
        pre
    }

    fn new_value(self, ctxt: &mut ContextRef) -> Value {
        Value::Int(self as i32)
    }
}

impl LazyValue for i64 {
    open spec fn lazy_req(&self, pre: CtxtV) -> bool {
        true
    }

    open spec fn lazy_result(&self, pre: CtxtV) -> Value {
        crate::value::spec_new_int64(*self)
    }

    open spec fn lazy_post(&self, pre: CtxtV) -> CtxtV {
        pre
    }

    fn new_value(self, ctxt: &mut ContextRef) -> Value {
        crate::value::JS_NewInt64(self)
    }
}

impl LazyValue for u32 {
    open spec fn lazy_req(&self, pre: CtxtV) -> bool {
        true
    }

    open spec fn lazy_result(&self, pre: CtxtV) -> Value {
        crate::value::spec_new_uint32(*self)
    }

    open spec fn lazy_post(&self, pre: CtxtV) -> CtxtV {
        pre
    }

    fn new_value(self, ctxt: &mut ContextRef) -> Value {
        crate::value::JS_NewUint32(self)
    }
}

/// A 64-bit unsigned number reinterpreted in the signed range, as the
/// engine does without big-number support.
pub open spec fn spec_u64_as_i64(n: u64) -> i64 {
    if n <= i64::MAX {
        n as i64
    } else {
        ((n - 9223372036854775808) as i64 + i64::MIN) as i64
    }
}

impl LazyValue for u64 {
    open spec fn lazy_req(&self, pre: CtxtV) -> bool {
        true
    }

    open spec fn lazy_result(&self, pre: CtxtV) -> Value {
        crate::value::spec_new_int64(spec_u64_as_i64(*self))
    }

    open spec fn lazy_post(&self, pre: CtxtV) -> CtxtV {
        pre
    }

    fn new_value(self, ctxt: &mut ContextRef) -> Value {
        let signed: i64 = if self <= i64::MAX as u64 {
            self as i64
        } else {
            (self - 9223372036854775808u64) as i64 + i64::MIN
        };
        crate::value::JS_NewInt64(signed)
    }
}

impl<'a> LazyValue for &'a str {
    open spec fn lazy_req(&self, pre: CtxtV) -> bool {
        pre.rt.slots.len() < u32::MAX
    }

    open spec fn lazy_result(&self, pre: CtxtV) -> Value {
        Value::Str(pre.rt.slots.len() as u32)
    }

    open spec fn lazy_post(&self, pre: CtxtV) -> CtxtV {
        CtxtV { rt: spec_alloc(pre.rt, DataV::Text(self@)), ..pre }
    }

    fn new_value(self, ctxt: &mut ContextRef) -> Value {
        let id = ctxt.rt.alloc_cell(HeapData::Text(self.to_owned()));
        Value::Str(id)
    }
}

impl LazyValue for String {
    open spec fn lazy_req(&self, pre: CtxtV) -> bool {
        pre.rt.slots.len() < u32::MAX
    }

    open spec fn lazy_result(&self, pre: CtxtV) -> Value {
        Value::Str(pre.rt.slots.len() as u32)
    }

    open spec fn lazy_post(&self, pre: CtxtV) -> CtxtV {
        CtxtV { rt: spec_alloc(pre.rt, DataV::Text(self@)), ..pre }
    }

    fn new_value(self, ctxt: &mut ContextRef) -> Value {
        let id = ctxt.rt.alloc_cell(HeapData::Text(self));
        Value::Str(id)
    }
}

impl LazyValue for Value {
    open spec fn lazy_req(&self, pre: CtxtV) -> bool {
        valid_ref(pre.rt, *self)
    }

    open spec fn lazy_result(&self, pre: CtxtV) -> Value {
        *self
    }

    open spec fn lazy_post(&self, pre: CtxtV) -> CtxtV {
        pre
    }

    fn new_value(self, ctxt: &mut ContextRef) -> Value {
        self
    }
}

impl<'a> LazyValue for &'a Value {
    open spec fn lazy_req(&self, pre: CtxtV) -> bool {
        valid_ref(pre.rt, **self) && ((*self).spec_has_ref_cnt() ==> pre.rt.slots[(
        *self).spec_ref_id() as int].refs < u32::MAX)
    }

    open spec fn lazy_result(&self, pre: CtxtV) -> Value {
        **self
    }

    open spec fn lazy_post(&self, pre: CtxtV) -> CtxtV {
        CtxtV { rt: spec_clone_value(pre.rt, **self), ..pre }
    }

    fn new_value(self, ctxt: &mut ContextRef) -> Value {
        ctxt.clone_value(self)
    }
}

impl<'a> LazyValue for Local<Value> {
    open spec fn lazy_req(&self, pre: CtxtV) -> bool {
        valid_ref(pre.rt, self.inner)
    }

    open spec fn lazy_result(&self, pre: CtxtV) -> Value {
        self.inner
    }

    open spec fn lazy_post(&self, pre: CtxtV) -> CtxtV {
        pre
    }

    fn new_value(self, ctxt: &mut ContextRef) -> Value {
        self.into_inner()
    }
}

/// A host value readable back out of an engine value: the exact accessor
/// of its type first, falling back to the engine's coercion where the
/// exact read refuses.
pub trait ExtractValue: Sized + DeepView {
    /// What extraction yields on the given context and value, if anything.
    spec fn extract_spec(pre: CtxtV, v: Value) -> Option<Self::V>;

    /// Extract, without changing any state.
    fn extract_value(v: &Local<Value>, ctxt: &ContextRef) -> (r: Option<Self>)
        ensures
            r.deep_view() == Self::extract_spec(ctxt@, v.inner),
    ;
}

impl ExtractValue for () {
    open spec fn extract_spec(pre: CtxtV, v: Value) -> Option<()> {
        if v is Null {
            None
        } else {
            Some(())
        }
    }

    fn extract_value(v: &Local<Value>, ctxt: &ContextRef) -> (r: Option<()>) {
        if v.inner.is_null() {
            None
        } else {
            Some(())
        }
    }
}

impl ExtractValue for bool {
    open spec fn extract_spec(pre: CtxtV, v: Value) -> Option<bool> {
        if v is Bool {
            Some(v->Bool_0)
        } else {
            spec_to_bool(pre.rt.slots, v)
        }
    }

    fn extract_value(v: &Local<Value>, ctxt: &ContextRef) -> (r: Option<bool>) {
        match v.inner.as_bool() {
            Some(b) => Some(b),
            None => ctxt.to_bool(&v.inner),
        }
    }
}

impl ExtractValue for i32 {
    open spec fn extract_spec(pre: CtxtV, v: Value) -> Option<i32> {
        if v is Int {
            Some(v->Int_0)
        } else {
            spec_to_int32(v)
        }
    }

    fn extract_value(v: &Local<Value>, ctxt: &ContextRef) -> (r: Option<i32>) {
        match v.inner.as_int() {
            Some(n) => Some(n),
            None => ctxt.to_int32(&v.inner),
        }
    }
}

impl ExtractValue for i64 {
    open spec fn extract_spec(pre: CtxtV, v: Value) -> Option<i64> {
        if v is Int {
            Some(v->Int_0 as i64)
        } else {
            spec_to_int64(v)
        }
    }

    fn extract_value(v: &Local<Value>, ctxt: &ContextRef) -> (r: Option<i64>) {
        match v.inner.as_int() {
            Some(n) => Some(n as i64),
            None => ctxt.to_int64(&v.inner),
        }
    }
}

impl ExtractValue for u64 {
    open spec fn extract_spec(pre: CtxtV, v: Value) -> Option<u64> {
        spec_to_index(v)
    }

    fn extract_value(v: &Local<Value>, ctxt: &ContextRef) -> (r: Option<u64>) {
        ctxt.to_index(&v.inner)
    }
}

impl ExtractValue for String {
    open spec fn extract_spec(pre: CtxtV, v: Value) -> Option<Seq<char>> {
        spec_value_text(pre.rt.slots, v)
    }

    fn extract_value(v: &Local<Value>, ctxt: &ContextRef) -> (r: Option<String>) {
        ctxt.to_cstring(&v.inner)
    }
}

impl Value {
    /// The boolean this value coerces to on the given context.
    pub fn to_bool(&self, ctxt: &ContextRef) -> (r: Option<bool>)
        ensures
            r == spec_to_bool(ctxt@.rt.slots, *self),
    {
        ctxt.to_bool(self)
    }

    /// The 32-bit integer this value coerces to.
    pub fn to_int32(&self, ctxt: &ContextRef) -> (r: Option<i32>)
        ensures
            r == spec_to_int32(*self),
    {
        ctxt.to_int32(self)
    }

    /// The 64-bit integer this value coerces to.
    pub fn to_int64(&self, ctxt: &ContextRef) -> (r: Option<i64>)
        ensures
            r == spec_to_int64(*self),
    {
        ctxt.to_int64(self)
    }

    /// The array index this value coerces to.
    pub fn to_index(&self, ctxt: &ContextRef) -> (r: Option<u64>)
        ensures
            r == spec_to_index(*self),
    {
        ctxt.to_index(self)
    }

    /// The 64-bit integer this big integer value holds.
    pub fn to_bigint64(&self, ctxt: &ContextRef) -> (r: Option<i64>)
        ensures
            r == spec_to_bigint64(ctxt@.rt.slots, *self),
    {
        ctxt.to_bigint64(self)
    }

    /// A fresh string cell holding the text of this value.
    pub fn to_str(&self, ctxt: &mut ContextRef) -> (l: Local<Value>)
        requires
            spec_pending_valid(old(ctxt)@),
            old(ctxt)@.rt.slots.len() + 4 < u32::MAX,
        ensures
            match spec_value_text(old(ctxt)@.rt.slots, *self) {
                Some(t) => l.inner == Value::Str(old(ctxt)@.rt.slots.len() as u32) && final(ctxt)@ == (CtxtV {
                    rt: spec_alloc(old(ctxt)@.rt, DataV::Text(t)),
                    ..old(ctxt)@
                }),
                None => l.inner == Value::Exception && final(ctxt)@ == spec_throw_error(
                    old(ctxt)@,
                    "TypeError"@,
                    "cannot convert to string"@,
                    None,
                ),
            },
    {
        ctxt.to_str(self)
    }

    /// A fresh string cell usable as a property key.
    pub fn to_property_key(&self, ctxt: &mut ContextRef) -> (l: Local<Value>)
        requires
            spec_pending_valid(old(ctxt)@),
            old(ctxt)@.rt.slots.len() + 4 < u32::MAX,
        ensures
            match spec_value_text(old(ctxt)@.rt.slots, *self) {
                Some(t) => l.inner == Value::Str(old(ctxt)@.rt.slots.len() as u32) && final(ctxt)@ == (CtxtV {
                    rt: spec_alloc(old(ctxt)@.rt, DataV::Text(t)),
                    ..old(ctxt)@
                }),
                None => l.inner == Value::Exception && final(ctxt)@ == spec_throw_error(
                    old(ctxt)@,
                    "TypeError"@,
                    "cannot convert to string"@,
                    None,
                ),
            },
    {
        ctxt.to_property_key(self)
    }

    /// The text of this value, copied out of the engine.
    pub fn to_cstring(&self, ctxt: &ContextRef) -> (r: Option<String>)
        ensures
            match r {
                Some(s) => spec_value_text(ctxt@.rt.slots, *self) == Some(s@),
                None => spec_value_text(ctxt@.rt.slots, *self) is None,
            },
    {
        ctxt.to_cstring(self)
    }
}

impl Local<Value> {
    /// The boolean the held value coerces to.
    pub fn to_bool(&self, ctxt: &ContextRef) -> (r: Option<bool>)
        ensures
            r == spec_to_bool(ctxt@.rt.slots, self.inner),
    {
        ctxt.to_bool(&self.inner)
    }

    /// The 32-bit integer the held value coerces to.
    pub fn to_int32(&self, ctxt: &ContextRef) -> (r: Option<i32>)
        ensures
            r == spec_to_int32(self.inner),
    {
        ctxt.to_int32(&self.inner)
    }

    /// The 64-bit integer the held value coerces to.
    pub fn to_int64(&self, ctxt: &ContextRef) -> (r: Option<i64>)
        ensures
            r == spec_to_int64(self.inner),
    {
        ctxt.to_int64(&self.inner)
    }

    /// The array index the held value coerces to.
    pub fn to_index(&self, ctxt: &ContextRef) -> (r: Option<u64>)
        ensures
            r == spec_to_index(self.inner),
    {
        ctxt.to_index(&self.inner)
    }

    /// The 64-bit integer the held big integer value holds.
    pub fn to_bigint64(&self, ctxt: &ContextRef) -> (r: Option<i64>)
        ensures
            r == spec_to_bigint64(ctxt@.rt.slots, self.inner),
    {
        ctxt.to_bigint64(&self.inner)
    }

    /// The text of the held value, copied out of the engine.
    pub fn to_cstring(&self, ctxt: &ContextRef) -> (r: Option<String>)
        ensures
            match r {
                Some(s) => spec_value_text(ctxt@.rt.slots, self.inner) == Some(s@),
                None => spec_value_text(ctxt@.rt.slots, self.inner) is None,
            },
    {
        ctxt.to_cstring(&self.inner)
    }

    /// A fresh string cell holding the text of the held value.
    pub fn to_str(&self, ctxt: &mut ContextRef) -> (l: Local<Value>)
        requires
            spec_pending_valid(old(ctxt)@),
            old(ctxt)@.rt.slots.len() + 4 < u32::MAX,
        ensures
            match spec_value_text(old(ctxt)@.rt.slots, self.inner) {
                Some(t) => l.inner == Value::Str(old(ctxt)@.rt.slots.len() as u32) && final(ctxt)@ == (CtxtV {
                    rt: spec_alloc(old(ctxt)@.rt, DataV::Text(t)),
                    ..old(ctxt)@
                }),
                None => l.inner == Value::Exception && final(ctxt)@ == spec_throw_error(
                    old(ctxt)@,
                    "TypeError"@,
                    "cannot convert to string"@,
                    None,
                ),
            },
    {
        ctxt.to_str(&self.inner)
    }

    /// A fresh string cell usable as a property key.
    pub fn to_property_key(&self, ctxt: &mut ContextRef) -> (l: Local<Value>)
        requires
            spec_pending_valid(old(ctxt)@),
            old(ctxt)@.rt.slots.len() + 4 < u32::MAX,
        ensures
            match spec_value_text(old(ctxt)@.rt.slots, self.inner) {
                Some(t) => l.inner == Value::Str(old(ctxt)@.rt.slots.len() as u32) && final(ctxt)@ == (CtxtV {
                    rt: spec_alloc(old(ctxt)@.rt, DataV::Text(t)),
                    ..old(ctxt)@
                }),
                None => l.inner == Value::Exception && final(ctxt)@ == spec_throw_error(
                    old(ctxt)@,
                    "TypeError"@,
                    "cannot convert to string"@,
                    None,
                ),
            },
    {
        ctxt.to_property_key(&self.inner)
    }
}

} // verus!
