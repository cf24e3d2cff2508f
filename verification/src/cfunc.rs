//! Native functions: host closures adapted to the engine's calling
//! convention.
//!
//! The engine stores only the closure's associated data values; the host
//! keeps the closure itself and dispatches to it when the engine reports
//! an invocation, handing back the call's outcome. Whatever the closure
//! did — returned a value, or panicked — the outcome crossing back into
//! the engine is a plain value: a fault is contained at the boundary and
//! downgraded to `undefined`, never unwound through the engine's frames.

use vstd::prelude::*;

use crate::context::{ContextRef, CtxtV};
use crate::handle::Local;
use crate::heap::{Callable, CallableV, DataV, HeapData, ObjV, ObjectData, SlotV,
    CLASS_C_FUNCTION, CLASS_USERDATA};
use crate::prop::obj_at;
use crate::runtime::{spec_alloc, RtV};
use crate::value::Value;

verus! {

/// The engine's native-function prototypes.
#[derive(Clone, Copy, Debug, PartialEq, Eq)]
pub enum CFunc {
    /// An ordinary function.
    Generic,
    /// An ordinary function with a magic number.
    GenericMagic,
    /// A constructor.
    Constructor,
    /// A constructor with a magic number.
    ConstructorMagic,
    /// Callable both ways.
    ConstructorOrFunc,
    /// Callable both ways, with a magic number.
    ConstructorOrFuncMagic,
    /// A float function of one argument.
    FloatFloat,
    /// A float function of two arguments.
    FloatFloatFloat,
    /// A property getter.
    Getter,
    /// A property setter.
    Setter,
    /// A property getter with a magic number.
    GetterMagic,
    /// A property setter with a magic number.
    SetterMagic,
    /// An iterator's next function.
    IteratorNext,
}

/// What a host closure did when the engine invoked it through the
/// trampoline.
#[derive(Clone, Copy, Debug)]
pub enum HostOutcome {
    /// The closure returned a value.
    Return(Value),
    /// The closure panicked or faulted; nothing may unwind further.
    Fault,
}

/// The value the trampoline hands the engine for a host outcome: the
/// returned value as it stands, and for a fault the `undefined` sentinel —
/// a fault never corrupts the engine and never sets an exception.
pub open spec fn spec_trampoline_return(outcome: HostOutcome) -> Value {
    match outcome {
        HostOutcome::Return(v) => v,
        HostOutcome::Fault => Value::Undefined,
    }
}

/// Convert a host closure's outcome into the value returned to the
/// engine; no engine state is touched, so a fault inside the closure
/// leaves every context exactly as it was.
pub fn trampoline_return(outcome: HostOutcome) -> (v: Value)
    ensures
        v == spec_trampoline_return(outcome),
{
    match outcome {
        HostOutcome::Return(v) => v,
        HostOutcome::Fault => Value::Undefined,
    }
}

/// The cells a fresh native function takes on a heap of length `base`:
/// the userdata object holding the host word, then the function object
/// whose associated data names it.
pub open spec fn spec_c_function_cells(base: int, func: u64) -> Seq<SlotV> {
    seq![
        SlotV {
            live: true,
            refs: 1,
            data: DataV::Obj(
                ObjV {
                    class_id: CLASS_USERDATA,
                    props: Seq::empty(),
                    extensible: true,
                    opaque: func,
                    call: CallableV::NotCallable,
                },
            ),
        },
        SlotV {
            live: true,
            refs: 1,
            data: DataV::Obj(
                ObjV {
                    class_id: CLASS_C_FUNCTION,
                    props: Seq::empty(),
                    extensible: true,
                    opaque: 0,
                    call: CallableV::Native(seq![Value::Object(base as u32)]),
                },
            ),
        },
    ]
}

impl ContextRef {
    /// A fresh native function object with the given associated data
    /// values; the engine stores the data and hands it back at call time.
    /// The data references move into the function object.
    pub fn new_c_function_data(&mut self, length: u32, magic: i32, data: Vec<Value>) -> (r:
        Result<Local<Value>, crate::error::Error>)
        requires
            old(self)@.rt.slots.len() < u32::MAX,
        ensures
            r matches Ok(l) && l.inner == Value::Object(old(self)@.rt.slots.len() as u32),
            final(self)@ == (CtxtV {
                rt: spec_alloc(
                    old(self)@.rt,
                    DataV::Obj(
                        ObjV {
                            class_id: CLASS_C_FUNCTION,
                            props: Seq::empty(),
                            extensible: true,
                            opaque: 0,
                            call: CallableV::Native(data@),
                        },
                    ),
                ),
                ..old(self)@
            }),
    {
        let id = self.rt.alloc_cell(
            HeapData::Obj(
                ObjectData {
                    class_id: CLASS_C_FUNCTION,
                    props: Vec::new(),
                    extensible: true,
                    opaque: 0,
                    call: Callable::Native(data),
                },
            ),
        );
        proof {
            assert(self@.rt.slots =~~= spec_alloc(
                old(self)@.rt,
                DataV::Obj(
                    ObjV {
                        class_id: CLASS_C_FUNCTION,
                        props: Seq::empty(),
                        extensible: true,
                        opaque: 0,
                        call: CallableV::Native(data@),
                    },
                ),
            ).slots);
        }
        Ok(Local { inner: Value::Object(id) })
    }

    /// A fresh native function wrapping a host closure: the closure's
    /// word is boxed as userdata, the userdata rides along as the
    /// function's associated data, and the host recovers it at each
    /// invocation.
    pub fn new_c_function(&mut self, func: u64, length: usize) -> (r: Result<
        Local<Value>,
        crate::error::Error,
    >)
        requires
            old(self)@.rt.slots.len() + 2 < u32::MAX,
        ensures
            r matches Ok(l) && l.inner == Value::Object(
                (old(self)@.rt.slots.len() + 1) as u32,
            ),
            final(self)@ == (CtxtV {
                rt: RtV {
                    slots: old(self)@.rt.slots + spec_c_function_cells(
                        old(self)@.rt.slots.len() as int,
                        func,
                    ),
                    ..old(self)@.rt
                },
                ..old(self)@
            }),
    {
        let data_obj = self.new_userdata(func);
        let mut data: Vec<Value> = Vec::new();
        data.push(data_obj.into_inner());
        let r = self.new_c_function_data(0, 0, data);
        proof {
            assert(self@.rt.slots =~~= old(self)@.rt.slots + spec_c_function_cells(
                old(self)@.rt.slots.len() as int,
                func,
            ));
        }
        r
    }

    /// The associated data of a native function, as the engine hands it
    /// to the trampoline: a transient, non-owning view — the engine keeps
    /// the references for the duration of the call.
    pub fn native_func_data(&self, func: &Value) -> (r: Option<Vec<Value>>)
        ensures
            ({
                let d = if func is Object && (obj_at(self@.rt.slots, func->Object_0 as int)
                    matches Some(o) && o.call is Native) {
                    Some(obj_at(self@.rt.slots, func->Object_0 as int)->Some_0.call->Native_0)
                } else {
                    None
                };
                match r {
                    Some(v) => d == Some(v@),
                    None => d is None,
                }
            }),
    {
        match func {
            Value::Object(id) => {
                let i = *id as usize;
                if i < self.rt.slots.len() && self.rt.slots[i].live {
                    match &self.rt.slots[i].data {
                        HeapData::Obj(o) => match &o.call {
                            Callable::Native(data) => {
                                let mut out: Vec<Value> = Vec::new();
                                let n = data.len();
                                let mut k: usize = 0;
                                while k < n
                                    invariant
                                        k <= n,
                                        n == data@.len(),
                                        out@ == data@.subrange(0, k as int),
                                    decreases n - k,
                                {
                                    out.push(data[k]);
                                    proof {
                                        assert(out@ =~= data@.subrange(0, k + 1 as int));
                                    }
                                    k = k + 1;
                                }
                                proof {
                                    assert(out@ =~= data@);
                                }
                                Some(out)
                            },
                            _ => None,
                        },
                        _ => None,
                    }
                } else {
                    None
                }
            },
            _ => None,
        }
    }
}

} // verus!
