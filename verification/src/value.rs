//! The engine's tagged value word.
//!
//! A value is a tag plus an immediate payload: a small integer, a boolean, a
//! catch offset, a float64 number, or the index of a reference-counted heap
//! cell (strings, objects, symbols, modules, bytecode and big numbers).
//! Values carry no ownership by themselves: holding a reference to a heap
//! cell is a matter of the cell's reference count, managed by the context.
//!
//! The float64 payload is kept only at the precision this layer ever
//! observes: a whole number, or the not-a-number marker. The layer itself
//! performs no float arithmetic; everything finer belongs to the engine.

use vstd::prelude::*;

verus! {

/// Engine tag for big decimal values (the lowest reference-counted tag).
pub const JS_TAG_BIG_DECIMAL: i32 = -11;
/// Engine tag for big integer values.
pub const JS_TAG_BIG_INT: i32 = -10;
/// Engine tag for big float values.
pub const JS_TAG_BIG_FLOAT: i32 = -9;
/// Engine tag for symbols.
pub const JS_TAG_SYMBOL: i32 = -8;
/// Engine tag for strings.
pub const JS_TAG_STRING: i32 = -7;
/// Engine tag for modules.
pub const JS_TAG_MODULE: i32 = -3;
/// Engine tag for compiled function bytecode.
pub const JS_TAG_FUNCTION_BYTECODE: i32 = -2;
/// Engine tag for objects.
pub const JS_TAG_OBJECT: i32 = -1;
/// Engine tag for 32-bit integers.
pub const JS_TAG_INT: i32 = 0;
/// Engine tag for booleans.
pub const JS_TAG_BOOL: i32 = 1;
/// Engine tag for `null`.
pub const JS_TAG_NULL: i32 = 2;
/// Engine tag for `undefined`.
pub const JS_TAG_UNDEFINED: i32 = 3;
/// Engine tag for uninitialized slots.
pub const JS_TAG_UNINITIALIZED: i32 = 4;
/// Engine tag for catch offsets (internal to the interpreter).
pub const JS_TAG_CATCH_OFFSET: i32 = 5;
/// Engine tag for the exception sentinel.
pub const JS_TAG_EXCEPTION: i32 = 6;
/// Engine tag for float64 numbers.
pub const JS_TAG_FLOAT64: i32 = 7;
/// The lowest tag value; every tag from here up to [`JS_TAG_OBJECT`] marks a
/// reference-counted heap cell.
pub const JS_TAG_FIRST: i32 = -11;

/// The integer the engine uses for a true boolean result.
pub const TRUE_VALUE: i32 = 1;
/// The integer the engine uses for a false boolean result.
pub const FALSE_VALUE: i32 = 0;
/// The status integer the engine uses to report a failed call.
pub const ERR: i32 = -1;

/// A float64 payload as far as this layer observes it: a whole number
/// (integers widened past the 32-bit tag keep their exact value here), or
/// the not-a-number marker. The engine owns every finer float semantic.
#[derive(Clone, Copy, Debug, PartialEq, Eq, Structural)]
pub enum FloatVal {
    /// A whole float64 number, carried exactly.
    Whole(i64),
    /// The not-a-number marker.
    NotANumber,
}

/// The engine's tagged value word.
#[derive(Clone, Copy, Debug, PartialEq, Eq, Structural)]
pub enum Value {
    /// A 32-bit integer.
    Int(i32),
    /// A boolean.
    Bool(bool),
    /// The `null` value.
    Null,
    /// The `undefined` value.
    Undefined,
    /// An uninitialized slot.
    Uninitialized,
    /// A catch offset, internal to the interpreter loop.
    CatchOffset(i32),
    /// The exception sentinel: the real exception is pending on the context.
    Exception,
    /// A float64 number.
    Float(FloatVal),
    /// A reference-counted string cell.
    Str(u32),
    /// A reference-counted object cell.
    Object(u32),
    /// A reference-counted symbol cell.
    Symbol(u32),
    /// A reference-counted module cell.
    Module(u32),
    /// A reference-counted cell of compiled function bytecode.
    FunctionBytecode(u32),
    /// A reference-counted big integer cell.
    BigInt(u32),
    /// A reference-counted big float cell.
    BigFloat(u32),
    /// A reference-counted big decimal cell.
    BigDecimal(u32),
}

impl Value {
    /// The engine tag of this value.
    pub open spec fn spec_tag(&self) -> i32 {
        match self {
            Value::Int(_) => JS_TAG_INT,
            Value::Bool(_) => JS_TAG_BOOL,
            Value::Null => JS_TAG_NULL,
            Value::Undefined => JS_TAG_UNDEFINED,
            Value::Uninitialized => JS_TAG_UNINITIALIZED,
            Value::CatchOffset(_) => JS_TAG_CATCH_OFFSET,
            Value::Exception => JS_TAG_EXCEPTION,
            Value::Float(_) => JS_TAG_FLOAT64,
            Value::Str(_) => JS_TAG_STRING,
            Value::Object(_) => JS_TAG_OBJECT,
            Value::Symbol(_) => JS_TAG_SYMBOL,
            Value::Module(_) => JS_TAG_MODULE,
            Value::FunctionBytecode(_) => JS_TAG_FUNCTION_BYTECODE,
            Value::BigInt(_) => JS_TAG_BIG_INT,
            Value::BigFloat(_) => JS_TAG_BIG_FLOAT,
            Value::BigDecimal(_) => JS_TAG_BIG_DECIMAL,
        }
    }

    /// Whether this value's tag marks a reference-counted heap cell.
    pub open spec fn spec_has_ref_cnt(&self) -> bool {
        JS_TAG_FIRST <= self.spec_tag() <= JS_TAG_OBJECT
    }

    /// The heap cell index of a reference-counted value.
    pub open spec fn spec_ref_id(&self) -> u32
        recommends
            self.spec_has_ref_cnt(),
    {
        match self {
            Value::Str(id) => *id,
            Value::Object(id) => *id,
            Value::Symbol(id) => *id,
            Value::Module(id) => *id,
            Value::FunctionBytecode(id) => *id,
            Value::BigInt(id) => *id,
            Value::BigFloat(id) => *id,
            Value::BigDecimal(id) => *id,
            _ => 0,
        }
    }

    /// The engine tag of this value.
    #[verifier::when_used_as_spec(spec_tag)]
    pub fn tag(&self) -> (t: i32)
        ensures
            t == self.spec_tag(),
    {
        match self {
            Value::Int(_) => JS_TAG_INT,
            Value::Bool(_) => JS_TAG_BOOL,
            Value::Null => JS_TAG_NULL,
            Value::Undefined => JS_TAG_UNDEFINED,
            Value::Uninitialized => JS_TAG_UNINITIALIZED,
            Value::CatchOffset(_) => JS_TAG_CATCH_OFFSET,
            Value::Exception => JS_TAG_EXCEPTION,
            Value::Float(_) => JS_TAG_FLOAT64,
            Value::Str(_) => JS_TAG_STRING,
            Value::Object(_) => JS_TAG_OBJECT,
            Value::Symbol(_) => JS_TAG_SYMBOL,
            Value::Module(_) => JS_TAG_MODULE,
            Value::FunctionBytecode(_) => JS_TAG_FUNCTION_BYTECODE,
            Value::BigInt(_) => JS_TAG_BIG_INT,
            Value::BigFloat(_) => JS_TAG_BIG_FLOAT,
            Value::BigDecimal(_) => JS_TAG_BIG_DECIMAL,
        }
    }

    /// Whether this value's tag marks a reference-counted heap cell; such a
    /// value carries a release obligation when held.
    #[verifier::when_used_as_spec(spec_has_ref_cnt)]
    pub fn has_ref_cnt(&self) -> (r: bool)
        ensures
            r == self.spec_has_ref_cnt(),
    {
        let t = self.tag();
        JS_TAG_FIRST <= t && t <= JS_TAG_OBJECT
    }

    /// The heap cell index of a reference-counted value.
    #[verifier::when_used_as_spec(spec_ref_id)]
    pub fn ref_id(&self) -> (id: u32)
        requires
            self.spec_has_ref_cnt(),
        ensures
            id == self.spec_ref_id(),
    {
        match self {
            Value::Str(id) => *id,
            Value::Object(id) => *id,
            Value::Symbol(id) => *id,
            Value::Module(id) => *id,
            Value::FunctionBytecode(id) => *id,
            Value::BigInt(id) => *id,
            Value::BigFloat(id) => *id,
            Value::BigDecimal(id) => *id,
            _ => 0,
        }
    }

    /// Whether this value is a number: an integer or a float64.
    pub fn is_number(&self) -> (r: bool)
        ensures
            r == (self is Int || self is Float),
    {
        matches!(self, Value::Int(_) | Value::Float(_))
    }

    /// Whether this value is a 32-bit integer.
    pub fn is_integer(&self) -> (r: bool)
        ensures
            r == (self is Int),
    {
        matches!(self, Value::Int(_))
    }

    /// Whether this value is a big integer.
    pub fn is_big_int(&self) -> (r: bool)
        ensures
            r == (self is BigInt),
    {
        matches!(self, Value::BigInt(_))
    }

    /// Whether this value is a big float.
    pub fn is_big_float(&self) -> (r: bool)
        ensures
            r == (self is BigFloat),
    {
        matches!(self, Value::BigFloat(_))
    }

    /// Whether this value is a big decimal.
    pub fn is_big_decimal(&self) -> (r: bool)
        ensures
            r == (self is BigDecimal),
    {
        matches!(self, Value::BigDecimal(_))
    }

    /// Whether this value is a boolean.
    pub fn is_bool(&self) -> (r: bool)
        ensures
            r == (self is Bool),
    {
        matches!(self, Value::Bool(_))
    }

    /// Whether this value is `null`.
    pub fn is_null(&self) -> (r: bool)
        ensures
            r == (self is Null),
    {
        matches!(self, Value::Null)
    }

    /// Whether this value is `undefined`.
    pub fn is_undefined(&self) -> (r: bool)
        ensures
            r == (self is Undefined),
    {
        matches!(self, Value::Undefined)
    }

    /// Whether this value is the exception sentinel.
    pub fn is_exception(&self) -> (r: bool)
        ensures
            r == (self is Exception),
    {
        matches!(self, Value::Exception)
    }

    /// Whether this value is the uninitialized marker.
    pub fn is_uninitialized(&self) -> (r: bool)
        ensures
            r == (self is Uninitialized),
    {
        matches!(self, Value::Uninitialized)
    }

    /// Whether this value is a string cell.
    pub fn is_string(&self) -> (r: bool)
        ensures
            r == (self is Str),
    {
        matches!(self, Value::Str(_))
    }

    /// Whether this value is a symbol cell.
    pub fn is_symbol(&self) -> (r: bool)
        ensures
            r == (self is Symbol),
    {
        matches!(self, Value::Symbol(_))
    }

    /// Whether this value is a module cell.
    pub fn is_module(&self) -> (r: bool)
        ensures
            r == (self is Module),
    {
        matches!(self, Value::Module(_))
    }

    /// Whether this value is compiled function bytecode.
    pub fn is_function_bytecode(&self) -> (r: bool)
        ensures
            r == (self is FunctionBytecode),
    {
        matches!(self, Value::FunctionBytecode(_))
    }

    /// Whether this value is an object cell.
    pub fn is_object(&self) -> (r: bool)
        ensures
            r == (self is Object),
    {
        matches!(self, Value::Object(_))
    }

    /// The integer payload, only when the tag is exactly the integer tag:
    /// no coercion happens here.
    pub fn as_int(&self) -> (r: Option<i32>)
        ensures
            r == (if self is Int {
                Some(self->Int_0)
            } else {
                None::<i32>
            }),
    {
        match self {
            Value::Int(n) => Some(*n),
            _ => None,
        }
    }

    /// The boolean payload, only when the tag is exactly the boolean tag.
    pub fn as_bool(&self) -> (r: Option<bool>)
        ensures
            r == (if self is Bool {
                Some(self->Bool_0)
            } else {
                None::<bool>
            }),
    {
        match self {
            Value::Bool(b) => Some(*b),
            _ => None,
        }
    }

    /// The object cell index, only when the tag is the object tag.
    pub fn as_object(&self) -> (r: Option<u32>)
        ensures
            r == (if self is Object {
                Some(self->Object_0)
            } else {
                None::<u32>
            }),
    {
        match self {
            Value::Object(id) => Some(*id),
            _ => None,
        }
    }

    /// The float64 payload, only when the tag is the float64 tag.
    pub fn as_float(&self) -> (r: Option<FloatVal>)
        ensures
            r == (if self is Float {
                Some(self->Float_0)
            } else {
                None::<FloatVal>
            }),
    {
        match self {
            Value::Float(f) => Some(*f),
            _ => None,
        }
    }

    /// This value, unless it is `undefined`.
    pub fn check_undefined(self) -> (r: Option<Value>)
        ensures
            r == (if self is Undefined {
                None::<Value>
            } else {
                Some(self)
            }),
    {
        if self.is_undefined() {
            None
        } else {
            Some(self)
        }
    }

    /// This raw value word, copied.
    pub fn raw(&self) -> (r: Value)
        ensures
            r == self,
    {
        *self
    }

    /// The raw value word held by this value.
    pub fn inner(&self) -> (r: Value)
        ensures
            r == self,
    {
        *self
    }

    /// Consume this value, handing the raw word to the caller together with
    /// whatever release obligation it carries.
    pub fn into_inner(self) -> (r: Value)
        ensures
            r == self,
    {
        self
    }

    /// A value from a tag and an immediate payload; `None` when the tag does
    /// not take an immediate payload.
    pub fn new(tag: i32, val: i32) -> (r: Option<Value>)
        ensures
            r == spec_mkval(tag, val),
    {
        match tag {
            JS_TAG_INT => Some(Value::Int(val)),
            JS_TAG_BOOL => Some(Value::Bool(val != FALSE_VALUE)),
            JS_TAG_NULL => Some(Value::Null),
            JS_TAG_UNDEFINED => Some(Value::Undefined),
            JS_TAG_UNINITIALIZED => Some(Value::Uninitialized),
            JS_TAG_CATCH_OFFSET => Some(Value::CatchOffset(val)),
            JS_TAG_EXCEPTION => Some(Value::Exception),
            _ => None,
        }
    }

    /// The float64 not-a-number value.
    pub fn nan() -> (r: Value)
        ensures
            r == Value::Float(FloatVal::NotANumber),
    {
        Value::Float(FloatVal::NotANumber)
    }

    /// The `null` value.
    pub fn null() -> (r: Value)
        ensures
            r == Value::Null,
    {
        Value::Null
    }

    /// The `undefined` value.
    pub fn undefined() -> (r: Value)
        ensures
            r == Value::Undefined,
    {
        Value::Undefined
    }

    /// The boolean false value.
    pub fn false_value() -> (r: Value)
        ensures
            r == Value::Bool(false),
    {
        Value::Bool(false)
    }

    /// The boolean true value.
    pub fn true_value() -> (r: Value)
        ensures
            r == Value::Bool(true),
    {
        Value::Bool(true)
    }

    /// The exception sentinel value.
    pub fn exception() -> (r: Value)
        ensures
            r == Value::Exception,
    {
        Value::Exception
    }

    /// The uninitialized marker value.
    pub fn uninitialized() -> (r: Value)
        ensures
            r == Value::Uninitialized,
    {
        Value::Uninitialized
    }
}

/// The value that a tag and an immediate payload form, when the tag takes an
/// immediate payload at all.
pub open spec fn spec_mkval(tag: i32, val: i32) -> Option<Value> {
    if tag == JS_TAG_INT {
        Some(Value::Int(val))
    } else if tag == JS_TAG_BOOL {
        Some(Value::Bool(val != FALSE_VALUE))
    } else if tag == JS_TAG_NULL {
        Some(Value::Null)
    } else if tag == JS_TAG_UNDEFINED {
        Some(Value::Undefined)
    } else if tag == JS_TAG_UNINITIALIZED {
        Some(Value::Uninitialized)
    } else if tag == JS_TAG_CATCH_OFFSET {
        Some(Value::CatchOffset(val))
    } else if tag == JS_TAG_EXCEPTION {
        Some(Value::Exception)
    } else {
        None
    }
}

/// A value from a tag that takes an immediate integer payload.
pub fn mkval(tag: i32, val: i32) -> (r: Value)
    requires
        spec_mkval(tag, val) is Some,
    ensures
        Some(r) == spec_mkval(tag, val),
{
    Value::new(tag, val).unwrap()
}

/// The value that a reference-counted tag and a heap cell index form, when
/// the tag is reference-counted at all.
pub open spec fn spec_mkptr(tag: i32, id: u32) -> Option<Value> {
    if tag == JS_TAG_STRING {
        Some(Value::Str(id))
    } else if tag == JS_TAG_OBJECT {
        Some(Value::Object(id))
    } else if tag == JS_TAG_SYMBOL {
        Some(Value::Symbol(id))
    } else if tag == JS_TAG_MODULE {
        Some(Value::Module(id))
    } else if tag == JS_TAG_FUNCTION_BYTECODE {
        Some(Value::FunctionBytecode(id))
    } else if tag == JS_TAG_BIG_INT {
        Some(Value::BigInt(id))
    } else if tag == JS_TAG_BIG_FLOAT {
        Some(Value::BigFloat(id))
    } else if tag == JS_TAG_BIG_DECIMAL {
        Some(Value::BigDecimal(id))
    } else {
        None
    }
}

/// A value from a reference-counted tag and a heap cell index.
pub fn mkptr(tag: i32, id: u32) -> (r: Value)
    requires
        spec_mkptr(tag, id) is Some,
    ensures
        Some(r) == spec_mkptr(tag, id),
{
    match tag {
        JS_TAG_STRING => Value::Str(id),
        JS_TAG_OBJECT => Value::Object(id),
        JS_TAG_SYMBOL => Value::Symbol(id),
        JS_TAG_MODULE => Value::Module(id),
        JS_TAG_FUNCTION_BYTECODE => Value::FunctionBytecode(id),
        JS_TAG_BIG_INT => Value::BigInt(id),
        JS_TAG_BIG_FLOAT => Value::BigFloat(id),
        _ => Value::BigDecimal(id),
    }
}

/// A boolean value.
#[allow(non_snake_case)]
pub fn JS_NewBool(val: bool) -> (r: Value)
    ensures
        r == Value::Bool(val),
{
    Value::Bool(val)
}

/// An integer value.
#[allow(non_snake_case)]
pub fn JS_NewInt32(val: i32) -> (r: Value)
    ensures
        r == Value::Int(val),
{
    Value::Int(val)
}

/// A catch offset value.
#[allow(non_snake_case)]
pub fn JS_NewCatchOffset(val: i32) -> (r: Value)
    ensures
        r == Value::CatchOffset(val),
{
    Value::CatchOffset(val)
}

/// The narrowest value holding a 64-bit integer: the integer tag when the
/// number fits it, otherwise the float64 tag, exactly.
pub open spec fn spec_new_int64(val: i64) -> Value {
    if i32::MIN <= val <= i32::MAX {
        Value::Int(val as i32)
    } else {
        Value::Float(FloatVal::Whole(val))
    }
}

/// A 64-bit integer value, under the narrowest tag that preserves it.
#[allow(non_snake_case)]
pub fn JS_NewInt64(val: i64) -> (r: Value)
    ensures
        r == spec_new_int64(val),
{
    if i32::MIN as i64 <= val && val <= i32::MAX as i64 {
        Value::Int(val as i32)
    } else {
        Value::Float(FloatVal::Whole(val))
    }
}

/// The narrowest value holding a 32-bit unsigned integer.
pub open spec fn spec_new_uint32(val: u32) -> Value {
    if val <= i32::MAX {
        Value::Int(val as i32)
    } else {
        Value::Float(FloatVal::Whole(val as i64))
    }
}

/// A 32-bit unsigned integer value, under the narrowest tag that preserves
/// it.
#[allow(non_snake_case)]
pub fn JS_NewUint32(val: u32) -> (r: Value)
    ensures
        r == spec_new_uint32(val),
{
    if val <= i32::MAX as u32 {
        Value::Int(val as i32)
    } else {
        Value::Float(FloatVal::Whole(val as i64))
    }
}

} // verus!
