//! The engine context: one global scope inside a runtime.
//!
//! A context owns its runtime here, carries the pending exception slot, the
//! uncatchable-error flag and one opaque host word, and is the door through
//! which every engine operation goes. Creating a context installs the
//! global object with the built-in error constructors.

use vstd::prelude::*;

use crate::heap::{Callable, CallableV, DataV, HeapData, KeyV, ObjV, ObjectData, PropEntry,
    PropKey, PropV, SlotV, CLASS_C_FUNCTION, CLASS_OBJECT, JS_PROP_C_W_E};
use crate::handle::Local;
use crate::runtime::{spec_alloc, spec_clone_value, spec_free_value, valid_ref, RtV, Runtime,
    RuntimeRef};
use crate::value::{FloatVal, Value};

verus! {

/// Mathematical view of a context.
#[verifier::ext_equal]
pub struct CtxtV {
    /// The runtime state.
    pub rt: RtV,
    /// The heap index of the global object.
    pub global: u32,
    /// The pending exception, holding one reference while present.
    pub pending: Option<Value>,
    /// The uncatchable-error flag.
    pub uncatchable: bool,
    /// The opaque host word attached to the context (zero when none).
    pub opaque: u64,
}

/// A context: one global scope, with the runtime it owns.
#[derive(Debug)]
pub struct ContextRef {
    /// The runtime this context lives on.
    pub rt: Runtime,
    /// The heap index of the global object.
    pub global: u32,
    /// The pending exception, holding one reference while present.
    pub pending: Option<Value>,
    /// The uncatchable-error flag.
    pub uncatchable: bool,
    /// The opaque host word attached to the context (zero when none).
    pub opaque: u64,
}

/// The owned form of a [`ContextRef`].
pub type Context = ContextRef;

impl View for ContextRef {
    type V = CtxtV;

    open spec fn view(&self) -> CtxtV {
        CtxtV {
            rt: self.rt@,
            global: self.global,
            pending: self.pending,
            uncatchable: self.uncatchable,
            opaque: self.opaque,
        }
    }
}

/// The names of the built-in error constructors, in installation order.
pub open spec fn builtin_error_names() -> Seq<Seq<char>> {
    seq![
        "Error"@,
        "EvalError"@,
        "InternalError"@,
        "RangeError"@,
        "ReferenceError"@,
        "SyntaxError"@,
        "TypeError"@,
        "URIError"@,
    ]
}

/// The heap cell of a built-in error constructor.
pub open spec fn spec_error_ctor_slot(name: Seq<char>) -> SlotV {
    SlotV {
        live: true,
        refs: 1,
        data: DataV::Obj(
            ObjV {
                class_id: CLASS_C_FUNCTION,
                props: Seq::empty(),
                extensible: true,
                opaque: 0,
                call: CallableV::ErrorCtor(name),
            },
        ),
    }
}

/// The heap cell of a fresh global object whose properties name the eight
/// built-in error constructors, allocated right before it from `base` on.
pub open spec fn spec_global_slot(base: int) -> SlotV {
    SlotV {
        live: true,
        refs: 1,
        data: DataV::Obj(
            ObjV {
                class_id: CLASS_OBJECT,
                props: Seq::new(
                    8,
                    |i: int|
                        PropV {
                            key: KeyV::Text(builtin_error_names()[i]),
                            value: Value::Object((base + i) as u32),
                            flags: JS_PROP_C_W_E,
                        },
                ),
                extensible: true,
                opaque: 0,
                call: CallableV::NotCallable,
            },
        ),
    }
}

/// The cells a fresh context appends to a heap of length `base`: the eight
/// error constructors, then the global object.
pub open spec fn spec_context_slots(base: int) -> Seq<SlotV> {
    Seq::new(8, |i: int| spec_error_ctor_slot(builtin_error_names()[i])).push(
        spec_global_slot(base),
    )
}

impl ContextRef {
    /// A fresh context on the given runtime: the global object is created
    /// with the built-in error constructors; no exception is pending.
    pub fn new(runtime: Runtime) -> (ctxt: Context)
        requires
            runtime@.slots.len() + 9 < u32::MAX,
        ensures
            ctxt@.rt.slots == runtime@.slots + spec_context_slots(runtime@.slots.len() as int),
            ctxt@.rt.atoms == runtime@.atoms,
            ctxt@.rt.finalized == runtime@.finalized,
            ctxt@.rt.next_class_id == runtime@.next_class_id,
            ctxt@.global == runtime@.slots.len() + 8,
            ctxt@.pending is None,
            !ctxt@.uncatchable,
            ctxt@.opaque == 0,
    {
        let mut rt = runtime;
        let id0 = rt.alloc_cell(error_ctor_data("Error"));
        let id1 = rt.alloc_cell(error_ctor_data("EvalError"));
        let id2 = rt.alloc_cell(error_ctor_data("InternalError"));
        let id3 = rt.alloc_cell(error_ctor_data("RangeError"));
        let id4 = rt.alloc_cell(error_ctor_data("ReferenceError"));
        let id5 = rt.alloc_cell(error_ctor_data("SyntaxError"));
        let id6 = rt.alloc_cell(error_ctor_data("TypeError"));
        let id7 = rt.alloc_cell(error_ctor_data("URIError"));
        let mut props: Vec<PropEntry> = Vec::new();
        props.push(global_ctor_prop("Error", id0));
        props.push(global_ctor_prop("EvalError", id1));
        props.push(global_ctor_prop("InternalError", id2));
        props.push(global_ctor_prop("RangeError", id3));
        props.push(global_ctor_prop("ReferenceError", id4));
        props.push(global_ctor_prop("SyntaxError", id5));
        props.push(global_ctor_prop("TypeError", id6));
        props.push(global_ctor_prop("URIError", id7));
        let global = rt.alloc_cell(
            HeapData::Obj(
                ObjectData {
                    class_id: CLASS_OBJECT,
                    props,
                    extensible: true,
                    opaque: 0,
                    call: Callable::NotCallable,
                },
            ),
        );
        proof {
            assert(rt@.slots =~~= runtime@.slots + spec_context_slots(
                runtime@.slots.len() as int,
            ));
        }
        ContextRef { rt, global, pending: None, uncatchable: false, opaque: 0 }
    }

    /// A builder for a context on the given runtime.
    pub fn builder(runtime: Runtime) -> (b: Builder)
        requires
            runtime@.slots.len() + 9 < u32::MAX,
        ensures
            b.ctxt@.rt.slots == runtime@.slots + spec_context_slots(
                runtime@.slots.len() as int,
            ),
            b.ctxt@.global == runtime@.slots.len() + 8,
            b.ctxt@.pending is None,
    {
        Builder { ctxt: ContextRef::new(runtime) }
    }

    /// The runtime this context lives on.
    pub fn runtime(&self) -> (rt: &RuntimeRef)
        ensures
            rt@ == self@.rt,
    {
        &self.rt
    }

    /// The runtime this context lives on, for runtime-level operations.
    pub fn runtime_mut(&mut self) -> (rt: &mut RuntimeRef)
        ensures
            *rt == old(self).rt,
            *final(self) == (ContextRef { rt: *final(rt), ..*old(self) }),
    {
        &mut self.rt
    }

    /// The opaque host word attached to this context, zero when none.
    pub fn userdata(&self) -> (r: u64)
        ensures
            r == self@.opaque,
    {
        self.opaque
    }

    /// Attach an opaque host word to this context.
    pub fn set_userdata(&mut self, word: u64)
        ensures
            final(self)@ == (CtxtV { opaque: word, ..old(self)@ }),
    {
        self.opaque = word;
    }

    /// A fresh handle on the global object: its reference count grows by
    /// one and the handle owns the new reference.
    pub fn global_object(&mut self) -> (l: Local<Value>)
        requires
            old(self)@.global < old(self)@.rt.slots.len(),
            old(self)@.rt.slots[old(self)@.global as int].live,
            old(self)@.rt.slots[old(self)@.global as int].refs >= 1,
            old(self)@.rt.slots[old(self)@.global as int].refs < u32::MAX,
        ensures
            l.inner == Value::Object(old(self)@.global),
            final(self)@ == (CtxtV {
                rt: spec_clone_value(old(self)@.rt, Value::Object(old(self)@.global)),
                ..old(self)@
            }),
    {
        let g = Value::Object(self.global);
        let v = self.clone_value(&g);
        Local { inner: v }
    }

    /// Acquire one more reference on `v` and return the same raw value.
    pub fn clone_value(&mut self, v: &Value) -> (r: Value)
        requires
            valid_ref(old(self)@.rt, *v),
            v.spec_has_ref_cnt() ==> old(self)@.rt.slots[v.spec_ref_id() as int].refs
                < u32::MAX,
        ensures
            r == v,
            final(self)@ == (CtxtV { rt: spec_clone_value(old(self)@.rt, *v), ..old(self)@ }),
    {
        self.rt.clone_value_rt(v)
    }

    /// Release one reference on `v`: the count drops by one, and a count
    /// that reaches zero reclaims the cell (running the userdata finalizer
    /// when one is attached). No reference is ever released twice.
    pub fn free_value(&mut self, v: Value)
        requires
            valid_ref(old(self)@.rt, v),
        ensures
            final(self)@ == (CtxtV { rt: spec_free_value(old(self)@.rt, v), ..old(self)@ }),
    {
        self.rt.free_value_rt(v)
    }

    /// Allocate a fresh heap cell on this context's runtime.
    pub fn alloc_cell(&mut self, data: HeapData) -> (id: u32)
        requires
            old(self)@.rt.slots.len() < u32::MAX,
        ensures
            id == old(self)@.rt.slots.len(),
            final(self)@ == (CtxtV { rt: spec_alloc(old(self)@.rt, data@), ..old(self)@ }),
    {
        self.rt.alloc_cell(data)
    }

    /// A fresh plain object, bound to a new handle.
    pub fn new_object(&mut self) -> (l: Local<Value>)
        requires
            old(self)@.rt.slots.len() < u32::MAX,
        ensures
            l.inner == Value::Object(old(self)@.rt.slots.len() as u32),
            final(self)@ == (CtxtV {
                rt: spec_alloc(
                    old(self)@.rt,
                    DataV::Obj(
                        ObjV {
                            class_id: CLASS_OBJECT,
                            props: Seq::empty(),
                            extensible: true,
                            opaque: 0,
                            call: CallableV::NotCallable,
                        },
                    ),
                ),
                ..old(self)@
            }),
    {
        let id = self.rt.alloc_cell(
            HeapData::Obj(
                ObjectData {
                    class_id: CLASS_OBJECT,
                    props: Vec::new(),
                    extensible: true,
                    opaque: 0,
                    call: Callable::NotCallable,
                },
            ),
        );
        proof {
            assert(self@.rt.slots =~~= spec_alloc(
                old(self)@.rt,
                DataV::Obj(
                    ObjV {
                        class_id: CLASS_OBJECT,
                        props: Seq::empty(),
                        extensible: true,
                        opaque: 0,
                        call: CallableV::NotCallable,
                    },
                ),
            ).slots);
        }
        Local { inner: Value::Object(id) }
    }

    /// A fresh object of the given class, bound to a new handle.
    pub fn new_object_class(&mut self, class_id: u32) -> (l: Local<Value>)
        requires
            old(self)@.rt.slots.len() < u32::MAX,
        ensures
            l.inner == Value::Object(old(self)@.rt.slots.len() as u32),
            final(self)@ == (CtxtV {
                rt: spec_alloc(
                    old(self)@.rt,
                    DataV::Obj(
                        ObjV {
                            class_id,
                            props: Seq::empty(),
                            extensible: true,
                            opaque: 0,
                            call: CallableV::NotCallable,
                        },
                    ),
                ),
                ..old(self)@
            }),
    {
        let id = self.rt.alloc_cell(
            HeapData::Obj(
                ObjectData {
                    class_id,
                    props: Vec::new(),
                    extensible: true,
                    opaque: 0,
                    call: Callable::NotCallable,
                },
            ),
        );
        proof {
            assert(self@.rt.slots =~~= spec_alloc(
                old(self)@.rt,
                DataV::Obj(
                    ObjV {
                        class_id,
                        props: Seq::empty(),
                        extensible: true,
                        opaque: 0,
                        call: CallableV::NotCallable,
                    },
                ),
            ).slots);
        }
        Local { inner: Value::Object(id) }
    }

    /// The float64 not-a-number value, bound.
    pub fn nan(&self) -> (l: Local<Value>)
        ensures
            l.inner == Value::Float(FloatVal::NotANumber),
    {
        Local { inner: Value::Float(FloatVal::NotANumber) }
    }

    /// The `null` value, bound.
    pub fn null(&self) -> (l: Local<Value>)
        ensures
            l.inner == Value::Null,
    {
        Local { inner: Value::Null }
    }

    /// The `undefined` value, bound.
    pub fn undefined(&self) -> (l: Local<Value>)
        ensures
            l.inner == Value::Undefined,
    {
        Local { inner: Value::Undefined }
    }

    /// The boolean false value, bound.
    pub fn false_value(&self) -> (l: Local<Value>)
        ensures
            l.inner == Value::Bool(false),
    {
        Local { inner: Value::Bool(false) }
    }

    /// The boolean true value, bound.
    pub fn true_value(&self) -> (l: Local<Value>)
        ensures
            l.inner == Value::Bool(true),
    {
        Local { inner: Value::Bool(true) }
    }

    /// The exception sentinel, bound.
    pub fn exception(&self) -> (l: Local<Value>)
        ensures
            l.inner == Value::Exception,
    {
        Local { inner: Value::Exception }
    }

    /// The uninitialized marker, bound.
    pub fn uninitialized(&self) -> (l: Local<Value>)
        ensures
            l.inner == Value::Uninitialized,
    {
        Local { inner: Value::Uninitialized }
    }

    /// A fresh catch-offset value, bound.
    pub fn new_catch_offset(&self, off: i32) -> (l: Local<Value>)
        ensures
            l.inner == Value::CatchOffset(off),
    {
        Local { inner: Value::CatchOffset(off) }
    }
}

/// The heap payload of a built-in error constructor object.
fn error_ctor_data(name: &str) -> (d: HeapData)
    ensures
        d@ == DataV::Obj(
            ObjV {
                class_id: CLASS_C_FUNCTION,
                props: Seq::empty(),
                extensible: true,
                opaque: 0,
                call: CallableV::ErrorCtor(name@),
            },
        ),
{
    let d = HeapData::Obj(
        ObjectData {
            class_id: CLASS_C_FUNCTION,
            props: Vec::new(),
            extensible: true,
            opaque: 0,
            call: Callable::ErrorCtor(name.to_owned()),
        },
    );
    proof {
        assert(d@ =~~= DataV::Obj(
            ObjV {
                class_id: CLASS_C_FUNCTION,
                props: Seq::empty(),
                extensible: true,
                opaque: 0,
                call: CallableV::ErrorCtor(name@),
            },
        ));
    }
    d
}

/// A global-object property naming a built-in constructor.
fn global_ctor_prop(name: &str, id: u32) -> (p: PropEntry)
    ensures
        p@ == (PropV {
            key: KeyV::Text(name@),
            value: Value::Object(id),
            flags: JS_PROP_C_W_E,
        }),
{
    PropEntry { key: PropKey::Text(name.to_owned()), value: Value::Object(id), flags: JS_PROP_C_W_E }
}

/// A context being put together; the builder pattern mirrors how the
/// engine lets intrinsics be added one by one before use.
#[derive(Debug)]
pub struct Builder {
    /// The context under construction.
    pub ctxt: Context,
}

impl Builder {
    /// The finished context.
    pub fn build(self) -> (ctxt: Context)
        ensures
            ctxt@ == self.ctxt@,
    {
        self.ctxt
    }
}

} // verus!
