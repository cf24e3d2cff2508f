//! The exception bridge: the closed error taxonomy, classification of a
//! pending engine exception into it, and the reverse road that turns a
//! host-side error back into a thrown engine exception.
//!
//! Every engine call that can fail is checked at its call site; an
//! exception never flows onward disguised as a normal value, and the
//! pending exception is cleared before a classified error is handed to the
//! caller.

use vstd::prelude::*;

use crate::context::{ContextRef, CtxtV};
use crate::convert::spec_value_text;
use crate::handle::Local;
use crate::heap::{find_prop, find_prop_idx, Callable, CallableV, DataV, HeapData, KeyV, ObjV,
    ObjectData, PropEntry, PropKey, PropV, SlotV, CLASS_ERROR, JS_PROP_CONFIGURABLE,
    JS_PROP_C_W_E, JS_PROP_WRITABLE};
use crate::runtime::{spec_free_value, valid_ref, RtV};
use crate::text::str_eq;
use crate::value::{Value, ERR, FALSE_VALUE, TRUE_VALUE};

verus! {

/// The closed taxonomy of script errors, mirroring the engine's built-in
/// error constructors. Each variant carries the message and, where one was
/// available, a stack trace.
#[derive(Clone, Debug, PartialEq)]
pub enum ErrorKind {
    /// A thrown value that is no error instance, carried as its text.
    Throw(String),
    /// A plain error.
    Error(String, Option<String>),
    /// An error of a user-defined error class: name, message, stack.
    Custom(String, String, Option<String>),
    /// An error regarding the global eval function.
    EvalError(String, Option<String>),
    /// An internal error of the engine, out-of-memory included.
    InternalError(String, Option<String>),
    /// A numeric value outside its valid range.
    RangeError(String, Option<String>),
    /// De-referencing an invalid reference.
    ReferenceError(String, Option<String>),
    /// A syntax error while parsing.
    SyntaxError(String, Option<String>),
    /// A value of an unexpected type.
    TypeError(String, Option<String>),
    /// Malformed parameters to the URI handling functions.
    URIError(String, Option<String>),
}

/// Mathematical view of an [`ErrorKind`].
#[verifier::ext_equal]
pub enum EkV {
    /// A thrown value that is no error instance.
    Throw(Seq<char>),
    /// A plain error.
    Error(Seq<char>, Option<Seq<char>>),
    /// An error of a user-defined error class.
    Custom(Seq<char>, Seq<char>, Option<Seq<char>>),
    /// An error regarding the global eval function.
    EvalError(Seq<char>, Option<Seq<char>>),
    /// An internal error of the engine.
    InternalError(Seq<char>, Option<Seq<char>>),
    /// A numeric value outside its valid range.
    RangeError(Seq<char>, Option<Seq<char>>),
    /// De-referencing an invalid reference.
    ReferenceError(Seq<char>, Option<Seq<char>>),
    /// A syntax error while parsing.
    SyntaxError(Seq<char>, Option<Seq<char>>),
    /// A value of an unexpected type.
    TypeError(Seq<char>, Option<Seq<char>>),
    /// Malformed parameters to the URI handling functions.
    URIError(Seq<char>, Option<Seq<char>>),
}

/// The view of an optional stack string.
pub open spec fn opt_view(s: Option<String>) -> Option<Seq<char>> {
    match s {
        Some(t) => Some(t@),
        None => None,
    }
}

impl View for ErrorKind {
    type V = EkV;

    open spec fn view(&self) -> EkV {
        match self {
            ErrorKind::Throw(m) => EkV::Throw(m@),
            ErrorKind::Error(m, s) => EkV::Error(m@, opt_view(*s)),
            ErrorKind::Custom(n, m, s) => EkV::Custom(n@, m@, opt_view(*s)),
            ErrorKind::EvalError(m, s) => EkV::EvalError(m@, opt_view(*s)),
            ErrorKind::InternalError(m, s) => EkV::InternalError(m@, opt_view(*s)),
            ErrorKind::RangeError(m, s) => EkV::RangeError(m@, opt_view(*s)),
            ErrorKind::ReferenceError(m, s) => EkV::ReferenceError(m@, opt_view(*s)),
            ErrorKind::SyntaxError(m, s) => EkV::SyntaxError(m@, opt_view(*s)),
            ErrorKind::TypeError(m, s) => EkV::TypeError(m@, opt_view(*s)),
            ErrorKind::URIError(m, s) => EkV::URIError(m@, opt_view(*s)),
        }
    }
}

/// The message a kind carries.
pub open spec fn spec_message(e: EkV) -> Seq<char> {
    match e {
        EkV::Throw(m) => m,
        EkV::Error(m, _) => m,
        EkV::Custom(_, m, _) => m,
        EkV::EvalError(m, _) => m,
        EkV::InternalError(m, _) => m,
        EkV::RangeError(m, _) => m,
        EkV::ReferenceError(m, _) => m,
        EkV::SyntaxError(m, _) => m,
        EkV::TypeError(m, _) => m,
        EkV::URIError(m, _) => m,
    }
}

/// The stack trace a kind carries, when it carries one.
pub open spec fn spec_stack(e: EkV) -> Option<Seq<char>> {
    match e {
        EkV::Throw(_) => None,
        EkV::Error(_, s) => s,
        EkV::Custom(_, _, s) => s,
        EkV::EvalError(_, s) => s,
        EkV::InternalError(_, s) => s,
        EkV::RangeError(_, s) => s,
        EkV::ReferenceError(_, s) => s,
        EkV::SyntaxError(_, s) => s,
        EkV::TypeError(_, s) => s,
        EkV::URIError(_, s) => s,
    }
}

impl ErrorKind {
    /// The message this kind carries.
    pub fn message(&self) -> (m: &str)
        ensures
            m@ == spec_message(self@),
    {
        match self {
            ErrorKind::Throw(m) => m.as_str(),
            ErrorKind::Error(m, _) => m.as_str(),
            ErrorKind::Custom(_, m, _) => m.as_str(),
            ErrorKind::EvalError(m, _) => m.as_str(),
            ErrorKind::InternalError(m, _) => m.as_str(),
            ErrorKind::RangeError(m, _) => m.as_str(),
            ErrorKind::ReferenceError(m, _) => m.as_str(),
            ErrorKind::SyntaxError(m, _) => m.as_str(),
            ErrorKind::TypeError(m, _) => m.as_str(),
            ErrorKind::URIError(m, _) => m.as_str(),
        }
    }

    /// The stack trace this kind carries, when it carries one.
    pub fn stack(&self) -> (s: Option<&str>)
        ensures
            match s {
                Some(t) => spec_stack(self@) == Some(t@),
                None => spec_stack(self@) is None,
            },
    {
        let stack: &Option<String> = match self {
            ErrorKind::Throw(_) => &None,
            ErrorKind::Error(_, s) => s,
            ErrorKind::Custom(_, _, s) => s,
            ErrorKind::EvalError(_, s) => s,
            ErrorKind::InternalError(_, s) => s,
            ErrorKind::RangeError(_, s) => s,
            ErrorKind::ReferenceError(_, s) => s,
            ErrorKind::SyntaxError(_, s) => s,
            ErrorKind::TypeError(_, s) => s,
            ErrorKind::URIError(_, s) => s,
        };
        match stack {
            Some(t) => Some(t.as_str()),
            None => None,
        }
    }
}

/// The binding's own failure type: a classified script error, or a failure
/// of the binding itself (a missing expected property, a value that cannot
/// be read) — the two are never conflated.
#[derive(Clone, Debug, PartialEq)]
pub enum Error {
    /// A classified script error.
    Kind(ErrorKind),
    /// A failure internal to the binding, with its description.
    Msg(String),
}

/// Mathematical view of an [`Error`].
#[verifier::ext_equal]
pub enum ErrV {
    /// A classified script error.
    Kind(EkV),
    /// A failure internal to the binding.
    Msg(Seq<char>),
}

impl View for Error {
    type V = ErrV;

    open spec fn view(&self) -> ErrV {
        match self {
            Error::Kind(k) => ErrV::Kind(k@),
            Error::Msg(m) => ErrV::Msg(m@),
        }
    }
}

/// The text of the property `key` on object `oid`, read through the
/// stringification of the stored value.
pub open spec fn spec_prop_text(slots: Seq<SlotV>, oid: int, key: Seq<char>) -> Option<
    Seq<char>,
> {
    if 0 <= oid < slots.len() && slots[oid].live {
        match slots[oid].data {
            DataV::Obj(o) => match find_prop(o.props, KeyV::Text(key)) {
                Some(i) => spec_value_text(slots, o.props[i].value),
                None => None,
            },
            _ => None,
        }
    } else {
        None
    }
}

/// Whether `v` is an error instance: a live object of the error class.
pub open spec fn spec_is_error(slots: Seq<SlotV>, v: Value) -> bool {
    v is Object && {
        let id = v->Object_0 as int;
        &&& id < slots.len()
        &&& slots[id].live
        &&& slots[id].data matches DataV::Obj(o) && o.class_id == CLASS_ERROR
    }
}

/// How a thrown value classifies: an error instance dispatches on its
/// `name` property — the eight built-in names pick their variant, any
/// other name is a custom error — while a value that is no error instance
/// becomes `Throw` of its text. `None` marks a classification failure (a
/// missing `name` or `message` property, or a value without text), which
/// is reported as a binding failure, never as a script error.
pub open spec fn spec_classify(slots: Seq<SlotV>, v: Value) -> Option<EkV> {
    if spec_is_error(slots, v) {
        let oid = v->Object_0 as int;
        match spec_prop_text(slots, oid, "name"@) {
            None => None,
            Some(name) => match spec_prop_text(slots, oid, "message"@) {
                None => None,
                Some(msg) => {
                    let stack = spec_prop_text(slots, oid, "stack"@);
                    if name == "EvalError"@ {
                        Some(EkV::EvalError(msg, stack))
                    } else if name == "InternalError"@ {
                        Some(EkV::InternalError(msg, stack))
                    } else if name == "RangeError"@ {
                        Some(EkV::RangeError(msg, stack))
                    } else if name == "ReferenceError"@ {
                        Some(EkV::ReferenceError(msg, stack))
                    } else if name == "SyntaxError"@ {
                        Some(EkV::SyntaxError(msg, stack))
                    } else if name == "TypeError"@ {
                        Some(EkV::TypeError(msg, stack))
                    } else if name == "URIError"@ {
                        Some(EkV::URIError(msg, stack))
                    } else if name == "Error"@ {
                        Some(EkV::Error(msg, stack))
                    } else {
                        Some(EkV::Custom(name, msg, stack))
                    }
                },
            },
        }
    } else {
        match spec_value_text(slots, v) {
            Some(text) => Some(EkV::Throw(text)),
            None => None,
        }
    }
}

/// The error that taking and classifying the pending exception yields: a
/// missing exception and a failed classification are binding failures,
/// a classified exception is a script error.
pub open spec fn spec_classified_error(c: CtxtV) -> ErrV {
    match c.pending {
        None => ErrV::Msg("expected exception"@),
        Some(p) => match spec_classify(c.rt.slots, p) {
            Some(k) => ErrV::Kind(k),
            None => ErrV::Msg("exception cannot be classified"@),
        },
    }
}

impl ContextRef {
    /// Whether `val` is an error instance.
    pub fn is_error(&self, val: &Value) -> (r: bool)
        ensures
            r == spec_is_error(self@.rt.slots, *val),
    {
        match val {
            Value::Object(id) => {
                let i = *id as usize;
                i < self.rt.slots.len() && self.rt.slots[i].live && match &self.rt.slots[i]
                    .data {
                    HeapData::Obj(o) => o.class_id == CLASS_ERROR,
                    _ => false,
                }
            },
            _ => false,
        }
    }

    /// The text of the property `key` on the object `val` names, when the
    /// stored value has one.
    pub(crate) fn prop_text(&self, val: &Value, key: &str) -> (r: Option<String>)
        requires
            val is Object,
        ensures
            match r {
                Some(s) => spec_prop_text(self@.rt.slots, val->Object_0 as int, key@) == Some(
                    s@,
                ),
                None => spec_prop_text(self@.rt.slots, val->Object_0 as int, key@) is None,
            },
    {
        let id = match val {
            Value::Object(id) => *id as usize,
            _ => 0,
        };
        if id >= self.rt.slots.len() || !self.rt.slots[id].live {
            return None;
        }
        match &self.rt.slots[id].data {
            HeapData::Obj(o) => {
                let k = PropKey::Text(key.to_owned());
                match find_prop_idx(&o.props, &k) {
                    Some(i) => {
                        let v = o.props[i].value;
                        self.to_cstring(&v)
                    },
                    None => None,
                }
            },
            _ => None,
        }
    }

    /// Clear the uncatchable-error flag, so a pending exception can be
    /// inspected instead of force-propagating.
    pub fn reset_uncatchable_error(&mut self)
        ensures
            final(self)@ == (CtxtV { uncatchable: false, ..old(self)@ }),
    {
        self.uncatchable = false;
    }

    /// Take the pending exception, handing its reference to the returned
    /// handle; `None` when no exception is pending.
    pub fn get_exception(&mut self) -> (r: Option<Local<Value>>)
        ensures
            match old(self)@.pending {
                Some(p) => r matches Some(l) && l.inner == p && final(self)@ == (CtxtV {
                    pending: None,
                    ..old(self)@
                }),
                None => r is None && final(self)@ == old(self)@,
            },
    {
        match self.pending.take() {
            Some(v) => Some(Local { inner: v }),
            None => None,
        }
    }

    /// Register `exc` as the pending exception, releasing whatever was
    /// pending before, and return the exception sentinel: callers hand it
    /// on as their own result so the engine's caller sees the exception.
    pub fn throw(&mut self, exc: Value) -> (l: Local<Value>)
        requires
            spec_pending_valid(old(self)@),
            valid_ref(spec_clear_pending(old(self)@).rt, exc),
        ensures
            l.inner == Value::Exception,
            final(self)@ == spec_throw(old(self)@, exc),
    {
        match self.pending.take() {
            Some(p) => self.rt.free_value_rt(p),
            None => (),
        }
        self.pending = Some(exc);
        Local { inner: Value::Exception }
    }

    /// Classify and clear the pending exception: reset the uncatchable
    /// flag, take the exception, classify it and release its reference.
    /// Reports a binding failure when no exception is pending or
    /// classification fails.
    pub fn take_exception(&mut self) -> (r: Result<ErrorKind, Error>)
        requires
            spec_pending_valid(old(self)@),
        ensures
            final(self)@ == (CtxtV { uncatchable: false, ..spec_clear_pending(old(self)@) }),
            match old(self)@.pending {
                None => r matches Err(e) && e@ == ErrV::Msg("expected exception"@),
                Some(p) => match spec_classify(old(self)@.rt.slots, p) {
                    Some(k) => r matches Ok(ek) && ek@ == k,
                    None => r matches Err(e) && e@ == ErrV::Msg(
                        "exception cannot be classified"@,
                    ),
                },
            },
    {
        self.reset_uncatchable_error();
        let exc = match self.pending.take() {
            Some(v) => v,
            None => {
                proof {
                    assert(self@ =~= (CtxtV {
                        uncatchable: false,
                        ..spec_clear_pending(old(self)@)
                    }));
                }
                return Err(Error::Msg("expected exception".to_owned()));
            },
        };
        let r = self.classify_value(&exc);
        self.rt.free_value_rt(exc);
        r
    }

    /// Classify a thrown value, without touching any state.
    fn classify_value(&self, exc: &Value) -> (r: Result<ErrorKind, Error>)
        ensures
            match spec_classify(self@.rt.slots, *exc) {
                Some(k) => r matches Ok(ek) && ek@ == k,
                None => r matches Err(e) && e@ == ErrV::Msg(
                    "exception cannot be classified"@,
                ),
            },
    {
        if self.is_error(exc) {
            let name = match self.prop_text(exc, "name") {
                Some(n) => n,
                None => {
                    return Err(Error::Msg("exception cannot be classified".to_owned()));
                },
            };
            let msg = match self.prop_text(exc, "message") {
                Some(m) => m,
                None => {
                    return Err(Error::Msg("exception cannot be classified".to_owned()));
                },
            };
            let stack = self.prop_text(exc, "stack");
            Ok(
                if str_eq(name.as_str(), "EvalError") {
                    ErrorKind::EvalError(msg, stack)
                } else if str_eq(name.as_str(), "InternalError") {
                    ErrorKind::InternalError(msg, stack)
                } else if str_eq(name.as_str(), "RangeError") {
                    ErrorKind::RangeError(msg, stack)
                } else if str_eq(name.as_str(), "ReferenceError") {
                    ErrorKind::ReferenceError(msg, stack)
                } else if str_eq(name.as_str(), "SyntaxError") {
                    ErrorKind::SyntaxError(msg, stack)
                } else if str_eq(name.as_str(), "TypeError") {
                    ErrorKind::TypeError(msg, stack)
                } else if str_eq(name.as_str(), "URIError") {
                    ErrorKind::URIError(msg, stack)
                } else if str_eq(name.as_str(), "Error") {
                    ErrorKind::Error(msg, stack)
                } else {
                    ErrorKind::Custom(name, msg, stack)
                },
            )
        } else {
            match self.to_cstring(exc) {
                Some(text) => Ok(ErrorKind::Throw(text)),
                None => Err(Error::Msg("exception cannot be classified".to_owned())),
            }
        }
    }

    /// Check the integer status of an engine call: the failure status takes
    /// and classifies the pending exception, any other value passes
    /// through.
    pub fn check_error(&mut self, ret: i32) -> (r: Result<i32, Error>)
        requires
            spec_pending_valid(old(self)@),
        ensures
            ret != ERR ==> r == Ok::<i32, Error>(ret) && final(self)@ == old(self)@,
            ret == ERR ==> (r matches Err(e) && e@ == spec_classified_error(old(self)@))
                && final(self)@ == (CtxtV {
                uncatchable: false,
                ..spec_clear_pending(old(self)@)
            }),
    {
        if ret == ERR {
            match self.take_exception() {
                Ok(k) => Err(Error::Kind(k)),
                Err(e) => Err(e),
            }
        } else {
            Ok(ret)
        }
    }

    /// Check a boolean-valued engine status: failure classifies the
    /// pending exception; the true and false statuses pass through; any
    /// other value is a binding failure.
    pub fn check_bool(&mut self, ret: i32) -> (r: Result<bool, Error>)
        requires
            spec_pending_valid(old(self)@),
        ensures
            ret == TRUE_VALUE ==> r == Ok::<bool, Error>(true) && final(self)@ == old(self)@,
            ret == FALSE_VALUE ==> r == Ok::<bool, Error>(false) && final(self)@ == old(self)@,
            ret == ERR ==> (r matches Err(e) && e@ == spec_classified_error(old(self)@))
                && final(self)@ == (CtxtV {
                uncatchable: false,
                ..spec_clear_pending(old(self)@)
            }),
            ret != TRUE_VALUE && ret != FALSE_VALUE && ret != ERR ==> (r matches Err(e)
                && e@ == ErrV::Msg("unexpected result"@)) && final(self)@ == old(self)@,
    {
        match self.check_error(ret) {
            Err(e) => Err(e),
            Ok(v) => if v == TRUE_VALUE {
                Ok(true)
            } else if v == FALSE_VALUE {
                Ok(false)
            } else {
                Err(Error::Msg("unexpected result".to_owned()))
            },
        }
    }

    /// Check an optional engine result: absence takes and classifies the
    /// pending exception.
    pub fn check_null<T>(&mut self, ptr: Option<T>) -> (r: Result<T, Error>)
        requires
            spec_pending_valid(old(self)@),
        ensures
            match ptr {
                Some(_) => r matches Ok(v) && ptr == Some(v) && final(self)@ == old(self)@,
                None => (r matches Err(e) && e@ == spec_classified_error(old(self)@))
                    && final(self)@ == (CtxtV {
                    uncatchable: false,
                    ..spec_clear_pending(old(self)@)
                }),
            },
    {
        match ptr {
            Some(v) => Ok(v),
            None => match self.take_exception() {
                Ok(k) => Err(Error::Kind(k)),
                Err(e) => Err(e),
            },
        }
    }

    /// Check a raw value result: the exception sentinel takes and
    /// classifies the pending exception, any other value comes back bound.
    pub fn check_exception(&mut self, v: Value) -> (r: Result<Local<Value>, Error>)
        requires
            spec_pending_valid(old(self)@),
        ensures
            !(v is Exception) ==> (r matches Ok(l) && l.inner == v && final(self)@ == old(
                self,
            )@),
            v is Exception ==> r is Err && final(self)@ == (CtxtV {
                uncatchable: false,
                ..spec_clear_pending(old(self)@)
            }),
    {
        if v.is_exception() {
            match self.take_exception() {
                Ok(k) => Err(Error::Kind(k)),
                Err(e) => Err(e),
            }
        } else {
            Ok(Local { inner: v })
        }
    }
}

impl Value {
    /// Whether this value is an error instance on the given context.
    pub fn is_error(&self, ctxt: &ContextRef) -> (r: bool)
        ensures
            r == spec_is_error(ctxt@.rt.slots, *self),
    {
        ctxt.is_error(self)
    }
}

impl Local<Value> {
    /// Whether the held value is an error instance.
    pub fn is_error(&self, ctxt: &ContextRef) -> (r: bool)
        ensures
            r == spec_is_error(ctxt@.rt.slots, self.inner),
    {
        ctxt.is_error(&self.inner)
    }
}

impl Local<Value> {
    /// Turn this handle into a result: the exception sentinel takes and
    /// classifies the context's pending exception, any other value is
    /// returned as it stands.
    pub fn ok(self, ctxt: &mut ContextRef) -> (r: Result<Local<Value>, Error>)
        requires
            spec_pending_valid(old(ctxt)@),
        ensures
            !(self.inner is Exception) ==> (r matches Ok(l) && l.inner == self.inner
                && final(ctxt)@ == old(ctxt)@),
            self.inner is Exception ==> (r matches Err(e) && e@ == spec_classified_error(
                old(ctxt)@,
            )) && final(ctxt)@ == (CtxtV {
                uncatchable: false,
                ..spec_clear_pending(old(ctxt)@)
            }),
    {
        let v = self.into_inner();
        if v.is_exception() {
            match ctxt.take_exception() {
                Ok(k) => Err(Error::Kind(k)),
                Err(e) => Err(e),
            }
        } else {
            Ok(Local { inner: v })
        }
    }
}

/// The cells a fresh error object takes on a heap of length `base`: the
/// name text, the message text, the stack text when there is one, and the
/// error object whose properties point at them.
pub open spec fn spec_error_cells(
    base: int,
    name: Seq<char>,
    msg: Seq<char>,
    stack: Option<Seq<char>>,
) -> Seq<SlotV> {
    let name_cell = SlotV { live: true, refs: 1, data: DataV::Text(name) };
    let msg_cell = SlotV { live: true, refs: 1, data: DataV::Text(msg) };
    let name_prop = PropV {
        key: KeyV::Text("name"@),
        value: Value::Str(base as u32),
        flags: JS_PROP_C_W_E,
    };
    let msg_prop = PropV {
        key: KeyV::Text("message"@),
        value: Value::Str((base + 1) as u32),
        flags: JS_PROP_WRITABLE | JS_PROP_CONFIGURABLE,
    };
    match stack {
        None => seq![
            name_cell,
            msg_cell,
            SlotV {
                live: true,
                refs: 1,
                data: DataV::Obj(
                    ObjV {
                        class_id: CLASS_ERROR,
                        props: seq![name_prop, msg_prop],
                        extensible: true,
                        opaque: 0,
                        call: CallableV::NotCallable,
                    },
                ),
            },
        ],
        Some(st) => seq![
            name_cell,
            msg_cell,
            SlotV { live: true, refs: 1, data: DataV::Text(st) },
            SlotV {
                live: true,
                refs: 1,
                data: DataV::Obj(
                    ObjV {
                        class_id: CLASS_ERROR,
                        props: seq![
                            name_prop,
                            msg_prop,
                            PropV {
                                key: KeyV::Text("stack"@),
                                value: Value::Str((base + 2) as u32),
                                flags: JS_PROP_WRITABLE | JS_PROP_CONFIGURABLE,
                            },
                        ],
                        extensible: true,
                        opaque: 0,
                        call: CallableV::NotCallable,
                    },
                ),
            },
        ],
    }
}

/// The heap index the fresh error object lands on.
pub open spec fn spec_error_obj_id(base: int, stack: Option<Seq<char>>) -> int {
    base + if stack is Some {
        3int
    } else {
        2int
    }
}

/// The context after a fresh error object is built on the heap.
pub open spec fn spec_build_error(
    c: CtxtV,
    name: Seq<char>,
    msg: Seq<char>,
    stack: Option<Seq<char>>,
) -> CtxtV {
    CtxtV {
        rt: RtV {
            slots: c.rt.slots + spec_error_cells(c.rt.slots.len() as int, name, msg, stack),
            ..c.rt
        },
        ..c
    }
}

/// The context after a fresh error object of the given name, message and
/// stack is built and thrown.
pub open spec fn spec_throw_error(
    c: CtxtV,
    name: Seq<char>,
    msg: Seq<char>,
    stack: Option<Seq<char>>,
) -> CtxtV {
    spec_throw(
        spec_build_error(c, name, msg, stack),
        Value::Object(spec_error_obj_id(c.rt.slots.len() as int, stack) as u32),
    )
}

impl ContextRef {
    /// Build a fresh error object: its class is the error class, its
    /// `name`, `message` and (when given) `stack` properties hold fresh
    /// string cells.
    pub(crate) fn build_error(&mut self, name: &str, msg: String, stack: Option<String>) -> (l: Local<
        Value,
    >)
        requires
            old(self)@.rt.slots.len() + 4 < u32::MAX,
        ensures
            final(self)@ == spec_build_error(old(self)@, name@, msg@, opt_view(stack)),
            l.inner == Value::Object(
                spec_error_obj_id(old(self)@.rt.slots.len() as int, opt_view(stack)) as u32,
            ),
    {
        let name_id = self.rt.alloc_cell(HeapData::Text(name.to_owned()));
        let msg_id = self.rt.alloc_cell(HeapData::Text(msg));
        let mut props: Vec<PropEntry> = Vec::new();
        props.push(
            PropEntry {
                key: PropKey::Text("name".to_owned()),
                value: Value::Str(name_id),
                flags: JS_PROP_C_W_E,
            },
        );
        props.push(
            PropEntry {
                key: PropKey::Text("message".to_owned()),
                value: Value::Str(msg_id),
                flags: JS_PROP_WRITABLE | JS_PROP_CONFIGURABLE,
            },
        );
        match stack {
            Some(st) => {
                let st_id = self.rt.alloc_cell(HeapData::Text(st));
                props.push(
                    PropEntry {
                        key: PropKey::Text("stack".to_owned()),
                        value: Value::Str(st_id),
                        flags: JS_PROP_WRITABLE | JS_PROP_CONFIGURABLE,
                    },
                );
            },
            None => (),
        }
        let obj_id = self.rt.alloc_cell(
            HeapData::Obj(
                ObjectData {
                    class_id: CLASS_ERROR,
                    props,
                    extensible: true,
                    opaque: 0,
                    call: Callable::NotCallable,
                },
            ),
        );
        proof {
            assert(self@.rt.slots =~~= spec_build_error(
                old(self)@,
                name@,
                msg@,
                opt_view(stack),
            ).rt.slots);
        }
        Local { inner: Value::Object(obj_id) }
    }

    /// Build and throw an error object, returning the exception sentinel.
    fn throw_named_error(&mut self, name: &str, msg: String, stack: Option<String>) -> (l:
        Local<Value>)
        requires
            spec_pending_valid(old(self)@),
            old(self)@.rt.slots.len() + 4 < u32::MAX,
        ensures
            l.inner == Value::Exception,
            final(self)@ == spec_throw_error(old(self)@, name@, msg@, opt_view(stack)),
    {
        let err = self.build_error(name, msg, stack);
        proof {
            lemma_build_error_preserves_pending(old(self)@, name@, msg@, opt_view(stack));
        }
        self.throw(err.into_inner())
    }

    /// A fresh plain error object, its `name` set, bound to a handle.
    pub fn new_error(&mut self) -> (l: Local<Value>)
        requires
            old(self)@.rt.slots.len() + 4 < u32::MAX,
        ensures
            final(self)@ == spec_build_error(old(self)@, "Error"@, ""@, None),
            l.inner == Value::Object((old(self)@.rt.slots.len() + 2) as u32),
    {
        let empty = String::new();
        proof {
            reveal_strlit("");
            assert(empty@ =~= ""@);
        }
        self.build_error("Error", empty, None)
    }

    /// Throw a plain error carrying the given message and stack.
    pub fn throw_error(&mut self, msg: &str, stack: Option<String>) -> (l: Local<Value>)
        requires
            spec_pending_valid(old(self)@),
            old(self)@.rt.slots.len() + 4 < u32::MAX,
        ensures
            l.inner == Value::Exception,
            final(self)@ == spec_throw_error(old(self)@, "Error"@, msg@, opt_view(stack)),
    {
        self.throw_named_error("Error", msg.to_owned(), stack)
    }

    /// Throw an error of the named class: the class's constructor on the
    /// global object builds the error when it is there, and a plain error
    /// reporting the missing class is thrown when it is not.
    pub fn throw_custom_error(&mut self, name: &str, msg: &str, stack: Option<String>) -> (l:
        Local<Value>)
        requires
            spec_pending_valid(old(self)@),
            old(self)@.rt.slots.len() + 4 < u32::MAX,
        ensures
            l.inner == Value::Exception,
            final(self)@ == (if spec_global_has_ctor(old(self)@, name@) {
                spec_throw_error(old(self)@, name@, msg@, opt_view(stack))
            } else {
                spec_throw_error(
                    old(self)@,
                    "Error"@,
                    "class `"@ + name@ + "` not found"@,
                    opt_view(stack),
                )
            }),
    {
        if self.global_has_ctor(name) {
            self.throw_named_error(name, msg.to_owned(), stack)
        } else {
            let mut m: String = "class `".to_owned();
            m.append(name);
            m.append("` not found");
            proof {
                reveal_strlit("class `");
                reveal_strlit("` not found");
            }
            self.throw_named_error("Error", m, stack)
        }
    }

    /// Whether the global object carries a constructor of the given name.
    fn global_has_ctor(&self, name: &str) -> (r: bool)
        ensures
            r == spec_global_has_ctor(self@, name@),
    {
        let gid = self.global as usize;
        if gid >= self.rt.slots.len() || !self.rt.slots[gid].live {
            return false;
        }
        match &self.rt.slots[gid].data {
            HeapData::Obj(o) => {
                let k = PropKey::Text(name.to_owned());
                match find_prop_idx(&o.props, &k) {
                    Some(i) => {
                        let v = o.props[i].value;
                        match v {
                            Value::Object(cid) => {
                                let c = cid as usize;
                                c < self.rt.slots.len() && self.rt.slots[c].live && match &self
                                    .rt.slots[c].data {
                                    HeapData::Obj(co) => matches!(co.call, Callable::ErrorCtor(_)),
                                    _ => false,
                                }
                            },
                            _ => false,
                        }
                    },
                    None => false,
                }
            },
            _ => false,
        }
    }

    /// Throw a syntax error with the given message.
    pub fn throw_syntax_error(&mut self, msg: &str) -> (l: Local<Value>)
        requires
            spec_pending_valid(old(self)@),
            old(self)@.rt.slots.len() + 4 < u32::MAX,
        ensures
            l.inner == Value::Exception,
            final(self)@ == spec_throw_error(old(self)@, "SyntaxError"@, msg@, None),
    {
        self.throw_named_error("SyntaxError", msg.to_owned(), None)
    }

    /// Throw a type error with the given message.
    pub fn throw_type_error(&mut self, msg: &str) -> (l: Local<Value>)
        requires
            spec_pending_valid(old(self)@),
            old(self)@.rt.slots.len() + 4 < u32::MAX,
        ensures
            l.inner == Value::Exception,
            final(self)@ == spec_throw_error(old(self)@, "TypeError"@, msg@, None),
    {
        self.throw_named_error("TypeError", msg.to_owned(), None)
    }

    /// Throw a reference error with the given message.
    pub fn throw_reference_error(&mut self, msg: &str) -> (l: Local<Value>)
        requires
            spec_pending_valid(old(self)@),
            old(self)@.rt.slots.len() + 4 < u32::MAX,
        ensures
            l.inner == Value::Exception,
            final(self)@ == spec_throw_error(old(self)@, "ReferenceError"@, msg@, None),
    {
        self.throw_named_error("ReferenceError", msg.to_owned(), None)
    }

    /// Throw a range error with the given message.
    pub fn throw_range_error(&mut self, msg: &str) -> (l: Local<Value>)
        requires
            spec_pending_valid(old(self)@),
            old(self)@.rt.slots.len() + 4 < u32::MAX,
        ensures
            l.inner == Value::Exception,
            final(self)@ == spec_throw_error(old(self)@, "RangeError"@, msg@, None),
    {
        self.throw_named_error("RangeError", msg.to_owned(), None)
    }

    /// Throw an internal error with the given message.
    pub fn throw_internal_error(&mut self, msg: &str) -> (l: Local<Value>)
        requires
            spec_pending_valid(old(self)@),
            old(self)@.rt.slots.len() + 4 < u32::MAX,
        ensures
            l.inner == Value::Exception,
            final(self)@ == spec_throw_error(old(self)@, "InternalError"@, msg@, None),
    {
        self.throw_named_error("InternalError", msg.to_owned(), None)
    }

    /// Report that the engine allocator ran out of memory: an internal
    /// error with the message the engine uses for it.
    pub fn throw_out_of_memory(&mut self) -> (l: Local<Value>)
        requires
            spec_pending_valid(old(self)@),
            old(self)@.rt.slots.len() + 4 < u32::MAX,
        ensures
            l.inner == Value::Exception,
            final(self)@ == spec_throw_error(old(self)@, "InternalError"@, "out of memory"@,
                None),
    {
        self.throw_named_error("InternalError", "out of memory".to_owned(), None)
    }
}

/// Whether the global object carries a live error constructor under the
/// given name.
pub open spec fn spec_global_has_ctor(c: CtxtV, name: Seq<char>) -> bool {
    let gid = c.global as int;
    &&& gid < c.rt.slots.len()
    &&& c.rt.slots[gid].live
    &&& c.rt.slots[gid].data matches DataV::Obj(g) && match find_prop(
        g.props,
        KeyV::Text(name),
    ) {
        Some(i) => match g.props[i].value {
            Value::Object(cid) => cid < c.rt.slots.len() && c.rt.slots[cid as int].live
                && (c.rt.slots[cid as int].data matches DataV::Obj(co) && co.call is ErrorCtor),
            _ => false,
        },
        None => false,
    }
}

/// A thrown fresh error object may itself be released later: throwing
/// keeps the pending slot valid.
pub proof fn lemma_throw_error_pending_valid(
    c: CtxtV,
    name: Seq<char>,
    msg: Seq<char>,
    stack: Option<Seq<char>>,
)
    requires
        spec_pending_valid(c),
        c.rt.slots.len() + 4 < u32::MAX,
    ensures
        spec_pending_valid(spec_throw_error(c, name, msg, stack)),
{
    lemma_build_error_preserves_pending(c, name, msg, stack);
}

/// Building an error object only appends cells, so a pending exception
/// that could be released before can still be released after.
proof fn lemma_build_error_preserves_pending(
    c: CtxtV,
    name: Seq<char>,
    msg: Seq<char>,
    stack: Option<Seq<char>>,
)
    requires
        spec_pending_valid(c),
        c.rt.slots.len() + 4 < u32::MAX,
    ensures
        spec_pending_valid(spec_build_error(c, name, msg, stack)),
        valid_ref(
            spec_clear_pending(spec_build_error(c, name, msg, stack)).rt,
            Value::Object(spec_error_obj_id(c.rt.slots.len() as int, stack) as u32),
        ),
{
    let c1 = spec_build_error(c, name, msg, stack);
    let base = c.rt.slots.len() as int;
    let oid = spec_error_obj_id(base, stack);
    assert(c1.rt.slots[oid] == spec_error_cells(base, name, msg, stack)[oid - base]);
    assert(c1.rt.slots[oid].live && c1.rt.slots[oid].refs == 1);
    match c.pending {
        Some(p) => {
            if p.spec_has_ref_cnt() {
                assert(c1.rt.slots[p.spec_ref_id() as int] == c.rt.slots[p.spec_ref_id() as int]);
                assert(spec_clear_pending(c1).rt.slots[oid] == c1.rt.slots[oid]);
            } else {
                assert(spec_clear_pending(c1).rt.slots[oid] == c1.rt.slots[oid]);
            }
        },
        None => {},
    }
}

/// The context after a host error is thrown back into the engine: a
/// `Throw` becomes a thrown string value; each error kind reuses the
/// matching constructor, the custom and constructor-named kinds through
/// the global object with a plain-error fallback; the kinds the engine
/// formats itself carry no stack.
pub open spec fn spec_throw_kind(c: CtxtV, e: EkV) -> CtxtV {
    match e {
        EkV::Throw(m) => spec_throw(
            CtxtV { rt: crate::runtime::spec_alloc(c.rt, DataV::Text(m)), ..c },
            Value::Str(c.rt.slots.len() as u32),
        ),
        EkV::Error(m, st) => spec_throw_error(c, "Error"@, m, st),
        EkV::Custom(n, m, st) => if spec_global_has_ctor(c, n) {
            spec_throw_error(c, n, m, st)
        } else {
            spec_throw_error(c, "Error"@, "class `"@ + n + "` not found"@, st)
        },
        EkV::EvalError(m, st) => if spec_global_has_ctor(c, "EvalError"@) {
            spec_throw_error(c, "EvalError"@, m, st)
        } else {
            spec_throw_error(c, "Error"@, "class `"@ + "EvalError"@ + "` not found"@, st)
        },
        EkV::InternalError(m, _) => spec_throw_error(c, "InternalError"@, m, None),
        EkV::RangeError(m, _) => spec_throw_error(c, "RangeError"@, m, None),
        EkV::ReferenceError(m, _) => spec_throw_error(c, "ReferenceError"@, m, None),
        EkV::SyntaxError(m, _) => spec_throw_error(c, "SyntaxError"@, m, None),
        EkV::TypeError(m, _) => spec_throw_error(c, "TypeError"@, m, None),
        EkV::URIError(m, st) => if spec_global_has_ctor(c, "URIError"@) {
            spec_throw_error(c, "URIError"@, m, st)
        } else {
            spec_throw_error(c, "Error"@, "class `"@ + "URIError"@ + "` not found"@, st)
        },
    }
}

impl crate::convert::LazyValue for ErrorKind {
    open spec fn lazy_req(&self, pre: CtxtV) -> bool {
        spec_pending_valid(pre) && pre.rt.slots.len() + 4 < u32::MAX
    }

    open spec fn lazy_result(&self, pre: CtxtV) -> Value {
        Value::Exception
    }

    open spec fn lazy_post(&self, pre: CtxtV) -> CtxtV {
        spec_throw_kind(pre, self@)
    }

    /// Throw this host error back into the engine: the pending exception
    /// takes it over and the exception sentinel is the converted value.
    fn new_value(self, ctxt: &mut ContextRef) -> (v: Value) {
        let l = ctxt.throw_kind(self);
        l.into_inner()
    }
}

impl ContextRef {
    /// Throw a host error back into the engine, variant by variant, and
    /// return the exception sentinel.
    pub fn throw_kind(&mut self, err: ErrorKind) -> (l: Local<Value>)
        requires
            spec_pending_valid(old(self)@),
            old(self)@.rt.slots.len() + 4 < u32::MAX,
        ensures
            l.inner == Value::Exception,
            final(self)@ == spec_throw_kind(old(self)@, err@),
    {
        let ghost pre = self@;
        match err {
            ErrorKind::Throw(m) => {
                let id = self.rt.alloc_cell(HeapData::Text(m));
                proof {
                    match pre.pending {
                        Some(p) => {
                            if p.spec_has_ref_cnt() {
                                assert(self@.rt.slots[p.spec_ref_id() as int] == pre.rt.slots[
                                    p.spec_ref_id() as int]);
                                assert(spec_clear_pending(self@).rt.slots[id as int]
                                    == self@.rt.slots[id as int]);
                            }
                        },
                        None => {},
                    }
                    assert(valid_ref(spec_clear_pending(self@).rt, Value::Str(id)));
                }
                self.throw(Value::Str(id))
            },
            ErrorKind::Error(m, st) => self.throw_named_error("Error", m, st),
            ErrorKind::Custom(n, m, st) => self.throw_custom_error(n.as_str(), m.as_str(), st),
            ErrorKind::EvalError(m, st) => self.throw_custom_error(
                "EvalError",
                m.as_str(),
                st,
            ),
            ErrorKind::InternalError(m, _) => self.throw_internal_error(m.as_str()),
            ErrorKind::RangeError(m, _) => self.throw_range_error(m.as_str()),
            ErrorKind::ReferenceError(m, _) => self.throw_reference_error(m.as_str()),
            ErrorKind::SyntaxError(m, _) => self.throw_syntax_error(m.as_str()),
            ErrorKind::TypeError(m, _) => self.throw_type_error(m.as_str()),
            ErrorKind::URIError(m, st) => self.throw_custom_error("URIError", m.as_str(), st),
        }
    }
}

/// Whether the pending exception, if any, may still be released.
pub open spec fn spec_pending_valid(c: CtxtV) -> bool {
    c.pending matches Some(p) ==> valid_ref(c.rt, p)
}

/// The context after the pending exception, if any, is released.
pub open spec fn spec_clear_pending(c: CtxtV) -> CtxtV {
    match c.pending {
        Some(p) => CtxtV { rt: spec_free_value(c.rt, p), pending: None, ..c },
        None => c,
    }
}

/// The context after `exc` becomes the pending exception: whatever was
/// pending is released first, then `exc`'s reference moves into the
/// pending slot.
pub open spec fn spec_throw(c: CtxtV, exc: Value) -> CtxtV {
    CtxtV { pending: Some(exc), ..spec_clear_pending(c) }
}

} // verus!
