//! Function invocation: argument marshalling, the call itself, and the
//! release of every marshalled argument once the call is over, whether it
//! succeeded or raised.
//!
//! The engine itself can answer calls to the objects it owns — the
//! built-in error constructors. A call to a host native function leaves
//! the model: the engine hands the function's associated data back to the
//! host, which runs its own closure behind the fault boundary (see the
//! native-function layer).

use vstd::prelude::*;

use crate::context::{ContextRef, CtxtV};
use crate::convert::{spec_value_text, LazyValue};
use crate::error::{spec_build_error, EkV, ErrV, Error, ErrorKind};
use crate::handle::Local;
use crate::heap::{CallableV, HeapData, SlotV};
use crate::prop::obj_at;
use crate::runtime::{spec_free_value, valid_ref, RtV};
use crate::value::Value;

verus! {

/// An argument list that marshals into engine values, left to right.
pub trait Args: Sized {
    /// What the marshalling asks of the context.
    spec fn args_req(&self, pre: CtxtV) -> bool;

    /// The marshalled values, in order.
    spec fn args_vals(&self, pre: CtxtV) -> Seq<Value>;

    /// The context after marshalling.
    spec fn args_post(&self, pre: CtxtV) -> CtxtV;

    /// Marshal, handing the caller one reference per value.
    fn into_values(self, ctxt: &mut ContextRef) -> (vals: Vec<Value>)
        requires
            self.args_req(old(ctxt)@),
        ensures
            vals@ == self.args_vals(old(ctxt)@),
            final(ctxt)@ == self.args_post(old(ctxt)@),
            forall|i: int|
                0 <= i < vals@.len() ==> valid_ref(final(ctxt)@.rt, #[trigger] vals@[i]),
    ;
}

impl Args for () {
    open spec fn args_req(&self, pre: CtxtV) -> bool {
        true
    }

    open spec fn args_vals(&self, pre: CtxtV) -> Seq<Value> {
        Seq::empty()
    }

    open spec fn args_post(&self, pre: CtxtV) -> CtxtV {
        pre
    }

    fn into_values(self, ctxt: &mut ContextRef) -> (vals: Vec<Value>) {
        let vals: Vec<Value> = Vec::new();
        proof {
            assert(vals@ =~= Seq::<Value>::empty());
        }
        vals
    }
}

impl Args for i32 {
    open spec fn args_req(&self, pre: CtxtV) -> bool {
        true
    }

    open spec fn args_vals(&self, pre: CtxtV) -> Seq<Value> {
        seq![Value::Int(*self)]
    }

    open spec fn args_post(&self, pre: CtxtV) -> CtxtV {
        pre
    }

    fn into_values(self, ctxt: &mut ContextRef) -> (vals: Vec<Value>) {
        let mut vals: Vec<Value> = Vec::new();
        vals.push(Value::Int(self));
        proof {
            assert(vals@ =~= seq![Value::Int(self)]);
        }
        vals
    }
}

impl Args for bool {
    open spec fn args_req(&self, pre: CtxtV) -> bool {
        true
    }

    open spec fn args_vals(&self, pre: CtxtV) -> Seq<Value> {
        seq![Value::Bool(*self)]
    }

    open spec fn args_post(&self, pre: CtxtV) -> CtxtV {
        pre
    }

    fn into_values(self, ctxt: &mut ContextRef) -> (vals: Vec<Value>) {
        let mut vals: Vec<Value> = Vec::new();
        vals.push(Value::Bool(self));
        proof {
            assert(vals@ =~= seq![Value::Bool(self)]);
        }
        vals
    }
}

impl<'a> Args for &'a str {
    open spec fn args_req(&self, pre: CtxtV) -> bool {
        pre.rt.slots.len() < u32::MAX
    }

    open spec fn args_vals(&self, pre: CtxtV) -> Seq<Value> {
        seq![Value::Str(pre.rt.slots.len() as u32)]
    }

    open spec fn args_post(&self, pre: CtxtV) -> CtxtV {
        self.lazy_post(pre)
    }

    fn into_values(self, ctxt: &mut ContextRef) -> (vals: Vec<Value>) {
        let v = self.new_value(ctxt);
        let mut vals: Vec<Value> = Vec::new();
        vals.push(v);
        proof {
            assert(vals@ =~= seq![v]);
        }
        vals
    }
}

impl Args for Value {
    open spec fn args_req(&self, pre: CtxtV) -> bool {
        valid_ref(pre.rt, *self)
    }

    open spec fn args_vals(&self, pre: CtxtV) -> Seq<Value> {
        seq![*self]
    }

    open spec fn args_post(&self, pre: CtxtV) -> CtxtV {
        pre
    }

    fn into_values(self, ctxt: &mut ContextRef) -> (vals: Vec<Value>) {
        let mut vals: Vec<Value> = Vec::new();
        vals.push(self);
        proof {
            assert(vals@ =~= seq![self]);
        }
        vals
    }
}

impl Args for Vec<Value> {
    open spec fn args_req(&self, pre: CtxtV) -> bool {
        forall|i: int| 0 <= i < self@.len() ==> valid_ref(pre.rt, #[trigger] self@[i])
    }

    open spec fn args_vals(&self, pre: CtxtV) -> Seq<Value> {
        self@
    }

    open spec fn args_post(&self, pre: CtxtV) -> CtxtV {
        pre
    }

    fn into_values(self, ctxt: &mut ContextRef) -> (vals: Vec<Value>) {
        self
    }
}

impl<A: LazyValue, B: LazyValue> Args for (A, B) {
    open spec fn args_req(&self, pre: CtxtV) -> bool {
        &&& self.0.lazy_req(pre)
        &&& self.1.lazy_req(self.0.lazy_post(pre))
        &&& valid_ref(
            self.1.lazy_post(self.0.lazy_post(pre)).rt,
            self.0.lazy_result(pre),
        )
    }

    open spec fn args_vals(&self, pre: CtxtV) -> Seq<Value> {
        seq![
            self.0.lazy_result(pre),
            self.1.lazy_result(self.0.lazy_post(pre)),
        ]
    }

    open spec fn args_post(&self, pre: CtxtV) -> CtxtV {
        self.1.lazy_post(self.0.lazy_post(pre))
    }

    fn into_values(self, ctxt: &mut ContextRef) -> (vals: Vec<Value>) {
        let (a, b) = self;
        let va = a.new_value(ctxt);
        let vb = b.new_value(ctxt);
        let mut vals: Vec<Value> = Vec::new();
        vals.push(va);
        vals.push(vb);
        proof {
            assert(vals@ =~= seq![va, vb]);
        }
        vals
    }
}

/// The runtime after the first `n` values are released, in order.
pub open spec fn spec_free_all(rt: RtV, vals: Seq<Value>, n: int) -> RtV
    decreases n,
{
    if n <= 0 {
        rt
    } else {
        spec_free_value(spec_free_all(rt, vals, n - 1), vals[n - 1])
    }
}

/// Whether the first `n` values can all be released, step by step.
pub open spec fn spec_can_free_all(rt: RtV, vals: Seq<Value>, n: int) -> bool
    decreases n,
{
    if n <= 0 {
        true
    } else {
        spec_can_free_all(rt, vals, n - 1) && valid_ref(
            spec_free_all(rt, vals, n - 1),
            vals[n - 1],
        )
    }
}

/// When the first `n` values can all be released, so can each step along
/// the way.
proof fn lemma_can_free_prefix(rt: RtV, vals: Seq<Value>, i: int, n: int)
    requires
        spec_can_free_all(rt, vals, n),
        0 <= i < n,
    ensures
        valid_ref(spec_free_all(rt, vals, i), vals[i]),
    decreases n,
{
    if i < n - 1 {
        lemma_can_free_prefix(rt, vals, i, n - 1);
    }
}

/// Whether a value is a function: a live object the engine or the host
/// can call.
pub open spec fn spec_is_function(slots: Seq<SlotV>, v: Value) -> bool {
    v is Object && (obj_at(slots, v->Object_0 as int) matches Some(o) && !(o.call
        is NotCallable))
}

/// Whether a value is a constructor: the model's constructors are the
/// built-in error constructors.
pub open spec fn spec_is_constructor(slots: Seq<SlotV>, v: Value) -> bool {
    v is Object && (obj_at(slots, v->Object_0 as int) matches Some(o) && o.call is ErrorCtor)
}

/// The message text a constructor call takes from its first argument; no
/// argument, or one without text, reads as the empty message.
pub open spec fn spec_call_msg(c: CtxtV, vals: Seq<Value>) -> Seq<char> {
    if vals.len() > 0 {
        match spec_value_text(c.rt.slots, vals[0]) {
            Some(t) => t,
            None => Seq::empty(),
        }
    } else {
        Seq::empty()
    }
}

/// The context after a call the engine can answer, and the outcome: a
/// built-in error constructor builds a fresh error object from the first
/// argument's text (`Some` of its cell index), anything that is not
/// callable reports failure (`None`); either way every marshalled
/// argument is released afterwards.
pub open spec fn spec_call(c: CtxtV, fid: int, vals: Seq<Value>) -> (CtxtV, Option<int>) {
    let o = obj_at(c.rt.slots, fid)->Some_0;
    match o.call {
        CallableV::ErrorCtor(name) => {
            let built = spec_build_error(c, name, spec_call_msg(c, vals), None);
            (
                CtxtV { rt: spec_free_all(built.rt, vals, vals.len() as int), ..built },
                Some(c.rt.slots.len() as int + 2),
            )
        },
        _ => (CtxtV { rt: spec_free_all(c.rt, vals, vals.len() as int), ..c }, None),
    }
}

/// Whether a call's argument release is possible in both outcomes.
pub open spec fn spec_call_ok(c: CtxtV, fid: int, vals: Seq<Value>) -> bool {
    let o = obj_at(c.rt.slots, fid)->Some_0;
    match o.call {
        CallableV::ErrorCtor(name) => spec_can_free_all(
            spec_build_error(c, name, spec_call_msg(c, vals), None).rt,
            vals,
            vals.len() as int,
        ),
        _ => spec_can_free_all(c.rt, vals, vals.len() as int),
    }
}

impl ContextRef {
    /// Whether `val` is a function.
    pub fn is_function(&self, val: &Value) -> (r: bool)
        ensures
            r == spec_is_function(self@.rt.slots, *val),
    {
        match val {
            Value::Object(id) => {
                let i = *id as usize;
                i < self.rt.slots.len() && self.rt.slots[i].live && match &self.rt.slots[i]
                    .data {
                    HeapData::Obj(o) => !matches!(o.call, crate::heap::Callable::NotCallable),
                    _ => false,
                }
            },
            _ => false,
        }
    }

    /// Whether `val` is a constructor.
    pub fn is_constructor(&self, val: &Value) -> (r: bool)
        ensures
            r == spec_is_constructor(self@.rt.slots, *val),
    {
        match val {
            Value::Object(id) => {
                let i = *id as usize;
                i < self.rt.slots.len() && self.rt.slots[i].live && match &self.rt.slots[i]
                    .data {
                    HeapData::Obj(o) => matches!(o.call, crate::heap::Callable::ErrorCtor(_)),
                    _ => false,
                }
            },
            _ => false,
        }
    }

    /// Release a list of marshalled argument values, in order.
    fn free_values(&mut self, vals: Vec<Value>)
        requires
            spec_can_free_all(old(self)@.rt, vals@, vals@.len() as int),
        ensures
            final(self)@ == (CtxtV {
                rt: spec_free_all(old(self)@.rt, vals@, vals@.len() as int),
                ..old(self)@
            }),
    {
        let n = vals.len();
        let mut i: usize = 0;
        while i < n
            invariant
                i <= n,
                n == vals@.len(),
                spec_can_free_all(old(self)@.rt, vals@, n as int),
                self@ == (CtxtV { rt: spec_free_all(old(self)@.rt, vals@, i as int), ..old(
                    self,
                )@ }),
            decreases n - i,
        {
            proof {
                lemma_can_free_prefix(old(self)@.rt, vals@, i as int, n as int);
            }
            self.rt.free_value_rt(vals[i]);
            i = i + 1;
        }
    }

    /// Call a value the engine can answer: a built-in error constructor
    /// builds a fresh error object from the first argument's text; a
    /// value that is not callable fails with a type error. Every
    /// marshalled argument's reference is released after the call, in
    /// both outcomes. Calls into host native functions go through the
    /// host's own dispatch instead (see the native-function layer).
    pub fn call<T: Args>(&mut self, func: &Value, this: Option<&Value>, args: T) -> (r:
        Result<Local<Value>, Error>)
        requires
            args.args_req(old(self)@),
            ({
                let mid = args.args_post(old(self)@);
                let vals = args.args_vals(old(self)@);
                &&& func is Object
                &&& obj_at(mid.rt.slots, func->Object_0 as int) matches Some(o) && !(o.call
                    is Native)
                &&& spec_call_ok(mid, func->Object_0 as int, vals)
                &&& mid.rt.slots.len() + 4 < u32::MAX
            }),
        ensures
            ({
                let mid = args.args_post(old(self)@);
                let vals = args.args_vals(old(self)@);
                let (c2, res) = spec_call(mid, func->Object_0 as int, vals);
                &&& final(self)@ == c2
                &&& match res {
                    Some(oid) => r matches Ok(l) && l.inner == Value::Object(oid as u32),
                    None => r matches Err(e) && e@ == ErrV::Kind(
                        EkV::TypeError("not a function"@, None),
                    ),
                }
            }),
    {
        let vals = args.into_values(self);
        self.call_values(func, this, vals)
    }

    /// Call with already-marshalled argument values.
    pub fn call_values(&mut self, func: &Value, this: Option<&Value>, vals: Vec<Value>) -> (r:
        Result<Local<Value>, Error>)
        requires
            func is Object,
            obj_at(old(self)@.rt.slots, func->Object_0 as int) matches Some(o) && !(o.call
                is Native),
            forall|i: int|
                0 <= i < vals@.len() ==> valid_ref(old(self)@.rt, #[trigger] vals@[i]),
            spec_call_ok(old(self)@, func->Object_0 as int, vals@),
            old(self)@.rt.slots.len() + 4 < u32::MAX,
        ensures
            ({
                let (c2, res) = spec_call(old(self)@, func->Object_0 as int, vals@);
                &&& final(self)@ == c2
                &&& match res {
                    Some(oid) => r matches Ok(l) && l.inner == Value::Object(oid as u32),
                    None => r matches Err(e) && e@ == ErrV::Kind(
                        EkV::TypeError("not a function"@, None),
                    ),
                }
            }),
    {
        let fid = match func {
            Value::Object(id) => *id as usize,
            _ => 0,
        };
        let ctor_name: Option<String> = match &self.rt.slots[fid].data {
            HeapData::Obj(o) => match &o.call {
                crate::heap::Callable::ErrorCtor(name) => Some(name.clone()),
                _ => None,
            },
            _ => None,
        };
        match ctor_name {
            Some(name) => {
                let msg: String = if vals.len() > 0 {
                    match self.to_cstring(&vals[0]) {
                        Some(t) => t,
                        None => String::new(),
                    }
                } else {
                    String::new()
                };
                proof {
                    assert(msg@ =~= spec_call_msg(self@, vals@));
                }
                let obj = self.build_error(name.as_str(), msg, None);
                self.free_values(vals);
                Ok(obj)
            },
            None => {
                self.free_values(vals);
                Err(
                    Error::Kind(
                        ErrorKind::TypeError("not a function".to_owned(), None),
                    ),
                )
            },
        }
    }

    /// Call a constructor with the given arguments.
    pub fn call_constructor<T: Args>(&mut self, func: &Value, args: T) -> (r: Result<
        Local<Value>,
        Error,
    >)
        requires
            args.args_req(old(self)@),
            ({
                let mid = args.args_post(old(self)@);
                let vals = args.args_vals(old(self)@);
                &&& func is Object
                &&& obj_at(mid.rt.slots, func->Object_0 as int) matches Some(o) && !(o.call
                    is Native)
                &&& spec_call_ok(mid, func->Object_0 as int, vals)
                &&& mid.rt.slots.len() + 4 < u32::MAX
            }),
        ensures
            ({
                let mid = args.args_post(old(self)@);
                let vals = args.args_vals(old(self)@);
                let (c2, res) = spec_call(mid, func->Object_0 as int, vals);
                &&& final(self)@ == c2
                &&& match res {
                    Some(oid) => r matches Ok(l) && l.inner == Value::Object(oid as u32),
                    None => r matches Err(e) && e@ == ErrV::Kind(
                        EkV::TypeError("not a function"@, None),
                    ),
                }
            }),
    {
        self.call(func, None, args)
    }

    /// Call a constructor with an explicit new-target; the model's
    /// constructors pay the target no attention.
    pub fn call_constructor2<T: Args>(
        &mut self,
        func: &Value,
        new_target: Option<&Value>,
        args: T,
    ) -> (r: Result<Local<Value>, Error>)
        requires
            args.args_req(old(self)@),
            ({
                let mid = args.args_post(old(self)@);
                let vals = args.args_vals(old(self)@);
                &&& func is Object
                &&& obj_at(mid.rt.slots, func->Object_0 as int) matches Some(o) && !(o.call
                    is Native)
                &&& spec_call_ok(mid, func->Object_0 as int, vals)
                &&& mid.rt.slots.len() + 4 < u32::MAX
            }),
        ensures
            ({
                let mid = args.args_post(old(self)@);
                let vals = args.args_vals(old(self)@);
                let (c2, res) = spec_call(mid, func->Object_0 as int, vals);
                &&& final(self)@ == c2
                &&& match res {
                    Some(oid) => r matches Ok(l) && l.inner == Value::Object(oid as u32),
                    None => r matches Err(e) && e@ == ErrV::Kind(
                        EkV::TypeError("not a function"@, None),
                    ),
                }
            }),
    {
        self.call(func, None, args)
    }

}

/// Whether `v` is an instance of the constructor `ctor`, as far as the
/// model can answer: the objects the engine itself constructs are error
/// instances, and each is an instance of exactly the error constructor
/// whose class name it carries. `None` marks the type error the engine
/// raises when the right-hand side is no callable object.
pub open spec fn spec_instance_of(slots: Seq<SlotV>, v: Value, ctor: Value) -> Option<
    bool,
> {
    if ctor is Object && obj_at(slots, ctor->Object_0 as int) is Some {
        match obj_at(slots, ctor->Object_0 as int)->Some_0.call {
            CallableV::ErrorCtor(name) => Some(
                v is Object && crate::error::spec_is_error(slots, v)
                    && crate::error::spec_prop_text(slots, v->Object_0 as int, "name"@)
                    == Some(name),
            ),
            CallableV::Native(_) => Some(false),
            CallableV::NotCallable => None,
        }
    } else {
        None
    }
}

impl ContextRef {
    /// Whether `val` is an instance of the constructor `obj`; a
    /// right-hand side that is no callable object raises a type error.
    pub fn is_instance_of(&mut self, val: &Value, obj: &Value) -> (r: Result<bool, Error>)
        requires
            crate::error::spec_pending_valid(old(self)@),
            old(self)@.rt.slots.len() + 4 < u32::MAX,
        ensures
            match spec_instance_of(old(self)@.rt.slots, *val, *obj) {
                Some(b) => r == Ok::<bool, Error>(b) && final(self)@ == old(self)@,
                None => ({
                    let c2 = crate::error::spec_throw_error(
                        old(self)@,
                        "TypeError"@,
                        "invalid 'instanceof' right operand"@,
                        None,
                    );
                    (r matches Err(e) && e@ == crate::error::spec_classified_error(c2))
                        && final(self)@ == (CtxtV {
                        uncatchable: false,
                        ..crate::error::spec_clear_pending(c2)
                    })
                }),
            },
    {
        let ctor_name: Option<Option<String>> = match obj {
            Value::Object(id) => {
                let i = *id as usize;
                if i < self.rt.slots.len() && self.rt.slots[i].live {
                    match &self.rt.slots[i].data {
                        HeapData::Obj(o) => match &o.call {
                            crate::heap::Callable::ErrorCtor(name) => Some(Some(name.clone())),
                            crate::heap::Callable::Native(_) => Some(None),
                            crate::heap::Callable::NotCallable => None,
                        },
                        _ => None,
                    }
                } else {
                    None
                }
            },
            _ => None,
        };
        match ctor_name {
            Some(Some(name)) => {
                let r = self.is_error(val) && self.instance_name_matches(val, &name);
                Ok(r)
            },
            Some(None) => Ok(false),
            None => {
                let l = self.throw_type_error("invalid 'instanceof' right operand");
                match l.ok(self) {
                    Ok(_) => {
                        proof {
                            assert(false);
                        }
                        Err(Error::Msg(String::new()))
                    },
                    Err(e) => Err(e),
                }
            },
        }
    }

    /// Whether the `name` property of an error instance reads as the
    /// given text.
    fn instance_name_matches(&self, val: &Value, name: &String) -> (r: bool)
        requires
            val is Object,
        ensures
            r == (crate::error::spec_prop_text(self@.rt.slots, val->Object_0 as int, "name"@)
                == Some(name@)),
    {
        match self.prop_text(val, "name") {
            Some(t) => t == *name,
            None => false,
        }
    }
}

impl Value {
    /// Whether this value is an instance of the constructor `obj`.
    pub fn instance_of(&self, ctxt: &mut ContextRef, obj: &Value) -> (r: Result<bool, Error>)
        requires
            crate::error::spec_pending_valid(old(ctxt)@),
            old(ctxt)@.rt.slots.len() + 4 < u32::MAX,
        ensures
            match spec_instance_of(old(ctxt)@.rt.slots, *self, *obj) {
                Some(b) => r == Ok::<bool, Error>(b) && final(ctxt)@ == old(ctxt)@,
                None => r is Err,
            },
    {
        ctxt.is_instance_of(self, obj)
    }
}

impl Local<Value> {
    /// Whether the held value is an instance of the constructor held by
    /// `obj`.
    pub fn instance_of(&self, ctxt: &mut ContextRef, obj: &Local<Value>) -> (r: Result<
        bool,
        Error,
    >)
        requires
            crate::error::spec_pending_valid(old(ctxt)@),
            old(ctxt)@.rt.slots.len() + 4 < u32::MAX,
        ensures
            match spec_instance_of(old(ctxt)@.rt.slots, self.inner, obj.inner) {
                Some(b) => r == Ok::<bool, Error>(b) && final(ctxt)@ == old(ctxt)@,
                None => r is Err,
            },
    {
        ctxt.is_instance_of(&self.inner, &obj.inner)
    }
}

/// The context and outcome of a method invocation: the method is read
/// off the object (acquiring a reference), called with the marshalled
/// arguments, and its reference released after the call; a missing or
/// `undefined` method releases the arguments and reports a type error.
pub open spec fn spec_invoke(c: CtxtV, tid: int, key: crate::heap::KeyV, vals: Seq<Value>)
    -> (CtxtV, Option<int>) {
    match crate::prop::spec_get_prop(c.rt.slots, tid, key) {
        Some(f) => if f is Undefined {
            (CtxtV { rt: spec_free_all(c.rt, vals, vals.len() as int), ..c }, None)
        } else {
            let c1 = CtxtV { rt: crate::runtime::spec_clone_value(c.rt, f), ..c };
            let r = spec_call(c1, f->Object_0 as int, vals);
            ((CtxtV { rt: spec_free_value(r.0.rt, f), ..r.0 }), r.1)
        },
        None => (CtxtV { rt: spec_free_all(c.rt, vals, vals.len() as int), ..c }, None),
    }
}

impl ContextRef {
    /// Invoke a method by key on an object: the method is read off the
    /// object, called with `this` bound to the object, and its reference
    /// released after the call.
    pub fn invoke<N: crate::prop::GetPropertyResolve, T: Args>(
        &mut self,
        this: &Value,
        atom: N,
        args: T,
    ) -> (r: Result<Local<Value>, Error>)
        requires
            args.args_req(old(self)@),
            ({
                let mid = args.args_post(old(self)@);
                let vals = args.args_vals(old(self)@);
                let key = atom.prop_key(mid);
                &&& this is Object
                &&& (obj_at(mid.rt.slots, this->Object_0 as int) matches Some(o)
                    && crate::prop::props_ok(mid.rt.slots, o.props))
                &&& atom.prop_key_ok(mid)
                &&& mid.rt.slots.len() + 4 < u32::MAX
                &&& match crate::prop::spec_get_prop(mid.rt.slots, this->Object_0 as int,
                key) {
                    Some(f) => if f is Undefined {
                        spec_can_free_all(mid.rt, vals, vals.len() as int)
                    } else {
                        let c1 = CtxtV { rt: crate::runtime::spec_clone_value(mid.rt, f), ..mid };
                        &&& f is Object
                        &&& (obj_at(c1.rt.slots, f->Object_0 as int) matches Some(fo) && !(
                        fo.call is Native))
                        &&& spec_call_ok(c1, f->Object_0 as int, vals)
                        &&& valid_ref(spec_call(c1, f->Object_0 as int, vals).0.rt, f)
                    },
                    None => spec_can_free_all(mid.rt, vals, vals.len() as int),
                }
            }),
        ensures
            ({
                let mid = args.args_post(old(self)@);
                let vals = args.args_vals(old(self)@);
                let key = atom.prop_key(mid);
                let (c2, res) = spec_invoke(mid, this->Object_0 as int, key, vals);
                &&& final(self)@ == c2
                &&& match res {
                    Some(oid) => r matches Ok(l) && l.inner == Value::Object(oid as u32),
                    None => r matches Err(e) && e@ == ErrV::Kind(
                        EkV::TypeError("not a function"@, None),
                    ),
                }
            }),
    {
        let vals = args.into_values(self);
        let key = atom.resolve_key(self);
        match self.get_property_key(this, &key) {
            Some(f) => {
                let fv = f.into_inner();
                proof {
                    let mid = args.args_post(old(self)@);
                    let key_s = atom.prop_key(mid);
                    assert(crate::prop::spec_get_prop(
                        mid.rt.slots,
                        this->Object_0 as int,
                        key_s,
                    ) == Some(fv));
                    assert(self@ == (CtxtV { rt: crate::runtime::spec_clone_value(mid.rt, fv), ..mid }));
                    assert(fv.spec_has_ref_cnt());
                    let o = obj_at(mid.rt.slots, this->Object_0 as int)->Some_0;
                    crate::heap::lemma_find_prop_from_sound(o.props, key_s, 0);
                    let j = crate::heap::find_prop(o.props, key_s)->Some_0;
                    assert(crate::prop::prop_val_ok(mid.rt.slots, o.props[j].value));
                    assert(valid_ref(mid.rt, fv));
                    assert(self@.rt.slots.len() == mid.rt.slots.len());
                    assert forall|i: int|
                        0 <= i < vals@.len() implies valid_ref(
                        self@.rt,
                        #[trigger] vals@[i],
                    ) by {
                        assert(valid_ref(mid.rt, vals@[i]));
                        let w = vals@[i];
                        if w.spec_has_ref_cnt() {
                            let x = w.spec_ref_id() as int;
                            assert(self@.rt.slots[x].live == mid.rt.slots[x].live);
                            assert(self@.rt.slots[x].refs >= mid.rt.slots[x].refs);
                        }
                    };
                }
                let r = self.call_values(&fv, Some(this), vals);
                self.free_value(fv);
                r
            },
            None => {
                self.free_values(vals);
                Err(
                    Error::Kind(
                        ErrorKind::TypeError("not a function".to_owned(), None),
                    ),
                )
            },
        }
    }
}

impl Value {
    /// Call the held value as a function; see [`ContextRef::call`].
    pub fn call<T: Args>(&self, ctxt: &mut ContextRef, this: Option<&Value>, args: T) -> (r:
        Result<Local<Value>, Error>)
        requires
            args.args_req(old(ctxt)@),
            ({
                let mid = args.args_post(old(ctxt)@);
                let vals = args.args_vals(old(ctxt)@);
                &&& self is Object
                &&& obj_at(mid.rt.slots, self->Object_0 as int) matches Some(o) && !(o.call
                    is Native)
                &&& spec_call_ok(mid, self->Object_0 as int, vals)
                &&& mid.rt.slots.len() + 4 < u32::MAX
            }),
        ensures
            ({
                let mid = args.args_post(old(ctxt)@);
                let vals = args.args_vals(old(ctxt)@);
                let (c2, res) = spec_call(mid, self->Object_0 as int, vals);
                &&& final(ctxt)@ == c2
                &&& match res {
                    Some(oid) => r matches Ok(l) && l.inner == Value::Object(oid as u32),
                    None => r matches Err(e) && e@ == ErrV::Kind(
                        EkV::TypeError("not a function"@, None),
                    ),
                }
            }),
    {
        ctxt.call(self, this, args)
    }

    /// Invoke a method by key on the held object.
    pub fn invoke<N: crate::prop::GetPropertyResolve, T: Args>(
        &self,
        ctxt: &mut ContextRef,
        atom: N,
        args: T,
    ) -> (r: Result<Local<Value>, Error>)
        requires
            args.args_req(old(ctxt)@),
            ({
                let mid = args.args_post(old(ctxt)@);
                let vals = args.args_vals(old(ctxt)@);
                let key = atom.prop_key(mid);
                &&& self is Object
                &&& (obj_at(mid.rt.slots, self->Object_0 as int) matches Some(o)
                    && crate::prop::props_ok(mid.rt.slots, o.props))
                &&& atom.prop_key_ok(mid)
                &&& mid.rt.slots.len() + 4 < u32::MAX
                &&& match crate::prop::spec_get_prop(mid.rt.slots, self->Object_0 as int,
                key) {
                    Some(f) => if f is Undefined {
                        spec_can_free_all(mid.rt, vals, vals.len() as int)
                    } else {
                        let c1 = CtxtV { rt: crate::runtime::spec_clone_value(mid.rt, f), ..mid };
                        &&& f is Object
                        &&& (obj_at(c1.rt.slots, f->Object_0 as int) matches Some(fo) && !(
                        fo.call is Native))
                        &&& spec_call_ok(c1, f->Object_0 as int, vals)
                        &&& valid_ref(spec_call(c1, f->Object_0 as int, vals).0.rt, f)
                    },
                    None => spec_can_free_all(mid.rt, vals, vals.len() as int),
                }
            }),
        ensures
            ({
                let mid = args.args_post(old(ctxt)@);
                let vals = args.args_vals(old(ctxt)@);
                let key = atom.prop_key(mid);
                let (c2, res) = spec_invoke(mid, self->Object_0 as int, key, vals);
                &&& final(ctxt)@ == c2
                &&& match res {
                    Some(oid) => r matches Ok(l) && l.inner == Value::Object(oid as u32),
                    None => r matches Err(e) && e@ == ErrV::Kind(
                        EkV::TypeError("not a function"@, None),
                    ),
                }
            }),
    {
        ctxt.invoke(self, atom, args)
    }

    /// Call the held value as a constructor.
    pub fn call_constructor<T: Args>(&self, ctxt: &mut ContextRef, args: T) -> (r: Result<
        Local<Value>,
        Error,
    >)
        requires
            args.args_req(old(ctxt)@),
            ({
                let mid = args.args_post(old(ctxt)@);
                let vals = args.args_vals(old(ctxt)@);
                &&& self is Object
                &&& obj_at(mid.rt.slots, self->Object_0 as int) matches Some(o) && !(o.call
                    is Native)
                &&& spec_call_ok(mid, self->Object_0 as int, vals)
                &&& mid.rt.slots.len() + 4 < u32::MAX
            }),
        ensures
            ({
                let mid = args.args_post(old(ctxt)@);
                let vals = args.args_vals(old(ctxt)@);
                let (c2, res) = spec_call(mid, self->Object_0 as int, vals);
                &&& final(ctxt)@ == c2
                &&& match res {
                    Some(oid) => r matches Ok(l) && l.inner == Value::Object(oid as u32),
                    None => r matches Err(e) && e@ == ErrV::Kind(
                        EkV::TypeError("not a function"@, None),
                    ),
                }
            }),
    {
        ctxt.call_constructor(self, args)
    }

    /// Call the held value as a constructor with an explicit new-target.
    pub fn call_constructor2<T: Args>(
        &self,
        ctxt: &mut ContextRef,
        new_target: Option<&Value>,
        args: T,
    ) -> (r: Result<Local<Value>, Error>)
        requires
            args.args_req(old(ctxt)@),
            ({
                let mid = args.args_post(old(ctxt)@);
                let vals = args.args_vals(old(ctxt)@);
                &&& self is Object
                &&& obj_at(mid.rt.slots, self->Object_0 as int) matches Some(o) && !(o.call
                    is Native)
                &&& spec_call_ok(mid, self->Object_0 as int, vals)
                &&& mid.rt.slots.len() + 4 < u32::MAX
            }),
        ensures
            ({
                let mid = args.args_post(old(ctxt)@);
                let vals = args.args_vals(old(ctxt)@);
                let (c2, res) = spec_call(mid, self->Object_0 as int, vals);
                &&& final(ctxt)@ == c2
                &&& match res {
                    Some(oid) => r matches Ok(l) && l.inner == Value::Object(oid as u32),
                    None => r matches Err(e) && e@ == ErrV::Kind(
                        EkV::TypeError("not a function"@, None),
                    ),
                }
            }),
    {
        ctxt.call_constructor2(self, new_target, args)
    }

    /// Whether the held value is a function on the given context.
    pub fn is_function(&self, ctxt: &ContextRef) -> (r: bool)
        ensures
            r == spec_is_function(ctxt@.rt.slots, *self),
    {
        ctxt.is_function(self)
    }

    /// Whether the held value is a constructor on the given context.
    pub fn is_constructor(&self, ctxt: &ContextRef) -> (r: bool)
        ensures
            r == spec_is_constructor(ctxt@.rt.slots, *self),
    {
        ctxt.is_constructor(self)
    }
}

impl Local<Value> {
    /// Whether the held value is a function.
    pub fn is_function(&self, ctxt: &ContextRef) -> (r: bool)
        ensures
            r == spec_is_function(ctxt@.rt.slots, self.inner),
    {
        ctxt.is_function(&self.inner)
    }

    /// Whether the held value is a constructor.
    pub fn is_constructor(&self, ctxt: &ContextRef) -> (r: bool)
        ensures
            r == spec_is_constructor(ctxt@.rt.slots, self.inner),
    {
        ctxt.is_constructor(&self.inner)
    }

    /// Call the held value as a function.
    pub fn call<T: Args>(&self, ctxt: &mut ContextRef, this: Option<&Value>, args: T) -> (r:
        Result<Local<Value>, Error>)
        requires
            args.args_req(old(ctxt)@),
            ({
                let mid = args.args_post(old(ctxt)@);
                let vals = args.args_vals(old(ctxt)@);
                &&& self.inner is Object
                &&& obj_at(mid.rt.slots, self.inner->Object_0 as int) matches Some(o) && !(
                o.call is Native)
                &&& spec_call_ok(mid, self.inner->Object_0 as int, vals)
                &&& mid.rt.slots.len() + 4 < u32::MAX
            }),
        ensures
            ({
                let mid = args.args_post(old(ctxt)@);
                let vals = args.args_vals(old(ctxt)@);
                let (c2, res) = spec_call(mid, self.inner->Object_0 as int, vals);
                &&& final(ctxt)@ == c2
                &&& match res {
                    Some(oid) => r matches Ok(l) && l.inner == Value::Object(oid as u32),
                    None => r matches Err(e) && e@ == ErrV::Kind(
                        EkV::TypeError("not a function"@, None),
                    ),
                }
            }),
    {
        ctxt.call(&self.inner, this, args)
    }

    /// Call the held value as a constructor.
    pub fn call_constructor<T: Args>(&self, ctxt: &mut ContextRef, args: T) -> (r: Result<
        Local<Value>,
        Error,
    >)
        requires
            args.args_req(old(ctxt)@),
            ({
                let mid = args.args_post(old(ctxt)@);
                let vals = args.args_vals(old(ctxt)@);
                &&& self.inner is Object
                &&& obj_at(mid.rt.slots, self.inner->Object_0 as int) matches Some(o) && !(
                o.call is Native)
                &&& spec_call_ok(mid, self.inner->Object_0 as int, vals)
                &&& mid.rt.slots.len() + 4 < u32::MAX
            }),
        ensures
            ({
                let mid = args.args_post(old(ctxt)@);
                let vals = args.args_vals(old(ctxt)@);
                let (c2, res) = spec_call(mid, self.inner->Object_0 as int, vals);
                &&& final(ctxt)@ == c2
                &&& match res {
                    Some(oid) => r matches Ok(l) && l.inner == Value::Object(oid as u32),
                    None => r matches Err(e) && e@ == ErrV::Kind(
                        EkV::TypeError("not a function"@, None),
                    ),
                }
            }),
    {
        ctxt.call_constructor(&self.inner, args)
    }
}

} // verus!
