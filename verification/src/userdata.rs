//! Host userdata attached to engine objects.
//!
//! A userdata object carries one opaque host word in its slot — exactly
//! what the engine sees of host data. Ownership of the word's referent
//! passes to the engine when the object is created: the host must not
//! free it, and the finalizer registered for the userdata class runs
//! exactly once, when the object's cell is reclaimed, logging the word so
//! the host side reclaims its memory.

use vstd::prelude::*;

use crate::context::{ContextRef, CtxtV};
use crate::handle::Local;
use crate::heap::{Callable, CallableV, ClassId, DataV, HeapData, ObjV, ObjectData,
    CLASS_USERDATA};
use crate::prop::obj_at;
use crate::runtime::spec_alloc;
use crate::value::Value;

verus! {

impl ContextRef {
    /// A fresh userdata object holding the host word; the word's referent
    /// now belongs to the engine, to be handed back through the finalizer
    /// log when the object dies.
    pub fn new_userdata(&mut self, data: u64) -> (l: Local<Value>)
        requires
            old(self)@.rt.slots.len() < u32::MAX,
        ensures
            l.inner == Value::Object(old(self)@.rt.slots.len() as u32),
            final(self)@ == (CtxtV {
                rt: spec_alloc(
                    old(self)@.rt,
                    DataV::Obj(
                        ObjV {
                            class_id: CLASS_USERDATA,
                            props: Seq::empty(),
                            extensible: true,
                            opaque: data,
                            call: CallableV::NotCallable,
                        },
                    ),
                ),
                ..old(self)@
            }),
    {
        let id = self.rt.alloc_cell(
            HeapData::Obj(
                ObjectData {
                    class_id: CLASS_USERDATA,
                    props: Vec::new(),
                    extensible: true,
                    opaque: data,
                    call: Callable::NotCallable,
                },
            ),
        );
        proof {
            assert(self@.rt.slots =~~= spec_alloc(
                old(self)@.rt,
                DataV::Obj(
                    ObjV {
                        class_id: CLASS_USERDATA,
                        props: Seq::empty(),
                        extensible: true,
                        opaque: data,
                        call: CallableV::NotCallable,
                    },
                ),
            ).slots);
        }
        Local { inner: Value::Object(id) }
    }

    /// The opaque word of an object of the given class; zero when the
    /// value is no live object of that class, as the engine reports it.
    pub fn get_opaque(&self, obj: &Value, class_id: ClassId) -> (r: u64)
        ensures
            r == spec_opaque_of(self@, *obj, class_id),
    {
        match obj {
            Value::Object(id) => {
                let i = *id as usize;
                if i < self.rt.slots.len() && self.rt.slots[i].live {
                    match &self.rt.slots[i].data {
                        HeapData::Obj(o) => if o.class_id == class_id {
                            o.opaque
                        } else {
                            0
                        },
                        _ => 0,
                    }
                } else {
                    0
                }
            },
            _ => 0,
        }
    }

    /// The host word a userdata object holds. The caller must be certain
    /// the object really came from [`ContextRef::new_userdata`]; the word
    /// says nothing about what it points to on the host side.
    pub fn get_userdata(&self, obj: &Value) -> (r: u64)
        ensures
            r == spec_opaque_of(self@, *obj, CLASS_USERDATA),
    {
        self.get_opaque(obj, CLASS_USERDATA)
    }

    /// Attach an opaque word to an object's slot.
    pub fn set_opaque(&mut self, obj: &Value, word: u64)
        requires
            obj is Object,
            obj_at(old(self)@.rt.slots, obj->Object_0 as int) is Some,
        ensures
            final(self)@ == (CtxtV {
                rt: crate::runtime::RtV {
                    slots: spec_with_opaque(
                        old(self)@.rt.slots,
                        obj->Object_0 as int,
                        word,
                    ),
                    ..old(self)@.rt
                },
                ..old(self)@
            }),
    {
        let oid = match obj {
            Value::Object(id) => *id as usize,
            _ => 0,
        };
        let slot = &mut self.rt.slots[oid];
        match &mut slot.data {
            HeapData::Obj(o) => {
                o.opaque = word;
            },
            _ => {
                proof {
                    assert(false);
                }
            },
        }
        proof {
            assert(self@.rt.slots =~~= spec_with_opaque(
                old(self)@.rt.slots,
                oid as int,
                word,
            ));
        }
    }
}

/// The opaque word an object of the given class carries; zero otherwise.
pub open spec fn spec_opaque_of(c: CtxtV, obj: Value, class_id: ClassId) -> u64 {
    if obj is Object {
        match obj_at(c.rt.slots, obj->Object_0 as int) {
            Some(o) => if o.class_id == class_id {
                o.opaque
            } else {
                0
            },
            None => 0,
        }
    } else {
        0
    }
}

/// A heap with one object's opaque word replaced.
pub open spec fn spec_with_opaque(
    slots: Seq<crate::heap::SlotV>,
    oid: int,
    word: u64,
) -> Seq<crate::heap::SlotV> {
    let o = obj_at(slots, oid)->Some_0;
    slots.update(
        oid,
        crate::heap::SlotV { data: DataV::Obj(ObjV { opaque: word, ..o }), ..slots[oid] },
    )
}

impl Local<Value> {
    /// The opaque word of the held object under the given class.
    pub fn get_opaque(&self, ctxt: &ContextRef, class_id: ClassId) -> (r: u64)
        ensures
            r == spec_opaque_of(ctxt@, self.inner, class_id),
    {
        ctxt.get_opaque(&self.inner, class_id)
    }

    /// Attach an opaque word to the held object's slot.
    pub fn set_opaque(&self, ctxt: &mut ContextRef, word: u64)
        requires
            self.inner is Object,
            obj_at(old(ctxt)@.rt.slots, self.inner->Object_0 as int) is Some,
        ensures
            final(ctxt)@ == (CtxtV {
                rt: crate::runtime::RtV {
                    slots: spec_with_opaque(
                        old(ctxt)@.rt.slots,
                        self.inner->Object_0 as int,
                        word,
                    ),
                    ..old(ctxt)@.rt
                },
                ..old(ctxt)@
            }),
    {
        ctxt.set_opaque(&self.inner, word)
    }
}

} // verus!
