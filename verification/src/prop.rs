//! The property layer: get, set, has, delete and define operations on
//! object properties, dispatching on the key's shape — text, array index
//! or interned atom — and always routing the engine's status through the
//! error layer.
//!
//! A stored property value carries one reference owned by the object:
//! setting hands the caller's reference over, getting acquires a fresh
//! one, deleting and overwriting release the stored one.

use vstd::prelude::*;

use crate::atom::{spec_atom_valid, spec_can_intern, spec_intern, spec_intern_id};
use crate::context::{ContextRef, CtxtV};
use crate::error::{spec_pending_valid, spec_throw_error, Error};
use crate::handle::Local;
use crate::heap::{find_prop, find_prop_idx, props_view, DataV, HeapData, KeyV, ObjV, PropEntry,
    PropKey, PropV, SlotV, JS_GPN_ENUM_ONLY, JS_GPN_STRING_MASK, JS_GPN_SYMBOL_MASK, JS_PROP_CONFIGURABLE,
    JS_PROP_C_W_E, JS_PROP_ENUMERABLE, JS_PROP_WRITABLE};
use crate::runtime::{spec_clone_value, spec_free_value, valid_ref, RtV};
use crate::value::{Value, ERR, TRUE_VALUE};

verus! {

/// The live object a value names, when it names one.
pub open spec fn obj_at(slots: Seq<SlotV>, oid: int) -> Option<ObjV> {
    if 0 <= oid < slots.len() && slots[oid].live {
        match slots[oid].data {
            DataV::Obj(o) => Some(o),
            _ => None,
        }
    } else {
        None
    }
}

/// Whether a stored property value can still be handled: a
/// reference-counted one must name a live cell with room for one more
/// reference.
pub open spec fn prop_val_ok(slots: Seq<SlotV>, v: Value) -> bool {
    v.spec_has_ref_cnt() ==> {
        let id = v.spec_ref_id() as int;
        &&& id < slots.len()
        &&& slots[id].live
        &&& 1 <= slots[id].refs < u32::MAX
    }
}

/// Whether every stored value of a property list can still be handled.
pub open spec fn props_ok(slots: Seq<SlotV>, props: Seq<PropV>) -> bool {
    forall|i: int| 0 <= i < props.len() ==> prop_val_ok(slots, #[trigger] props[i].value)
}

/// The value stored under a key on an object, when the object and the
/// property exist.
pub open spec fn spec_get_prop(slots: Seq<SlotV>, oid: int, key: KeyV) -> Option<Value> {
    match obj_at(slots, oid) {
        Some(o) => match find_prop(o.props, key) {
            Some(i) => Some(o.props[i].value),
            None => None,
        },
        None => None,
    }
}

/// Whether an object carries a property under the key.
pub open spec fn spec_has_prop(slots: Seq<SlotV>, oid: int, key: KeyV) -> bool {
    spec_get_prop(slots, oid, key) is Some
}

/// A heap with one object's properties replaced.
pub open spec fn spec_with_props(slots: Seq<SlotV>, oid: int, props: Seq<PropV>) -> Seq<
    SlotV,
> {
    let o = obj_at(slots, oid)->Some_0;
    slots.update(oid, SlotV { data: DataV::Obj(ObjV { props, ..o }), ..slots[oid] })
}

/// The context and status after a plain property store: an existing
/// writable property is overwritten (the old value released after the
/// store), a missing one is appended to an extensible object with the
/// ordinary attributes, and a non-writable property or a non-extensible
/// object throw a type error, releasing the caller's reference.
pub open spec fn spec_set_prop(c: CtxtV, oid: int, key: KeyV, val: Value) -> (CtxtV, i32) {
    let o = obj_at(c.rt.slots, oid)->Some_0;
    match find_prop(o.props, key) {
        Some(i) => if o.props[i].flags & JS_PROP_WRITABLE != 0 {
            let slots1 = spec_with_props(
                c.rt.slots,
                oid,
                o.props.update(i, PropV { value: val, ..o.props[i] }),
            );
            let c1 = CtxtV { rt: RtV { slots: slots1, ..c.rt }, ..c };
            (CtxtV { rt: spec_free_value(c1.rt, o.props[i].value), ..c1 }, TRUE_VALUE)
        } else {
            let c1 = CtxtV { rt: spec_free_value(c.rt, val), ..c };
            (spec_throw_error(c1, "TypeError"@, "property is not writable"@, None), ERR)
        },
        None => if o.extensible {
            let slots1 = spec_with_props(
                c.rt.slots,
                oid,
                o.props.push(PropV { key, value: val, flags: JS_PROP_C_W_E }),
            );
            (CtxtV { rt: RtV { slots: slots1, ..c.rt }, ..c }, TRUE_VALUE)
        } else {
            let c1 = CtxtV { rt: spec_free_value(c.rt, val), ..c };
            (spec_throw_error(c1, "TypeError"@, "object is not extensible"@, None), ERR)
        },
    }
}

/// The context and status after a property definition: an existing
/// property has value and attributes replaced (the old value released
/// after the store), a missing one is appended with the given attributes,
/// and a non-extensible object refuses a fresh property with a type
/// error, releasing the caller's reference.
pub open spec fn spec_define_prop(c: CtxtV, oid: int, key: KeyV, val: Value, flags: u32) -> (
    CtxtV,
    i32,
) {
    let o = obj_at(c.rt.slots, oid)->Some_0;
    match find_prop(o.props, key) {
        Some(i) => {
            let slots1 = spec_with_props(
                c.rt.slots,
                oid,
                o.props.update(i, PropV { key: o.props[i].key, value: val, flags }),
            );
            let c1 = CtxtV { rt: RtV { slots: slots1, ..c.rt }, ..c };
            (CtxtV { rt: spec_free_value(c1.rt, o.props[i].value), ..c1 }, TRUE_VALUE)
        },
        None => if o.extensible {
            let slots1 = spec_with_props(
                c.rt.slots,
                oid,
                o.props.push(PropV { key, value: val, flags }),
            );
            (CtxtV { rt: RtV { slots: slots1, ..c.rt }, ..c }, TRUE_VALUE)
        } else {
            let c1 = CtxtV { rt: spec_free_value(c.rt, val), ..c };
            (spec_throw_error(c1, "TypeError"@, "object is not extensible"@, None), ERR)
        },
    }
}

/// The context and status after a property deletion: a configurable
/// property leaves the object and its stored value is released, a missing
/// property reports success, and a non-configurable one throws a type
/// error.
pub open spec fn spec_delete_prop(c: CtxtV, oid: int, key: KeyV) -> (CtxtV, i32) {
    let o = obj_at(c.rt.slots, oid)->Some_0;
    match find_prop(o.props, key) {
        Some(i) => if o.props[i].flags & JS_PROP_CONFIGURABLE != 0 {
            let slots1 = spec_with_props(c.rt.slots, oid, o.props.remove(i));
            let c1 = CtxtV { rt: RtV { slots: slots1, ..c.rt }, ..c };
            (CtxtV { rt: spec_free_value(c1.rt, o.props[i].value), ..c1 }, TRUE_VALUE)
        } else {
            (
                spec_throw_error(c, "TypeError"@, "property is not configurable"@, None),
                ERR,
            )
        },
        None => (c, TRUE_VALUE),
    }
}

impl ContextRef {
    /// The value stored under a key, as a fresh handle: the stored value's
    /// reference count grows by one. Absent properties, and stored
    /// `undefined`, come back as `None` with nothing changed.
    pub fn get_property_key(&mut self, this: &Value, key: &PropKey) -> (r: Option<Local<
        Value,
    >>)
        requires
            this is Object,
            obj_at(old(self)@.rt.slots, this->Object_0 as int) matches Some(o) && props_ok(
                old(self)@.rt.slots,
                o.props,
            ),
        ensures
            match spec_get_prop(old(self)@.rt.slots, this->Object_0 as int, key@) {
                Some(v) => if v is Undefined {
                    r is None && final(self)@ == old(self)@
                } else {
                    r matches Some(l) && l.inner == v && final(self)@ == (CtxtV {
                        rt: spec_clone_value(old(self)@.rt, v),
                        ..old(self)@
                    })
                },
                None => r is None && final(self)@ == old(self)@,
            },
    {
        let oid = match this {
            Value::Object(id) => *id as usize,
            _ => 0,
        };
        let found: Option<usize> = match &self.rt.slots[oid].data {
            HeapData::Obj(o) => find_prop_idx(&o.props, key),
            _ => None,
        };
        match found {
            Some(i) => {
                let v: Value = match &self.rt.slots[oid].data {
                    HeapData::Obj(o) => o.props[i].value,
                    _ => Value::Undefined,
                };
                if v.is_undefined() {
                    None
                } else {
                    proof {
                        assert(prop_val_ok(
                            self@.rt.slots,
                            obj_at(self@.rt.slots, oid as int)->Some_0.props[i as int].value,
                        ));
                    }
                    let c = self.clone_value(&v);
                    Some(Local { inner: c })
                }
            },
            None => None,
        }
    }

    /// Whether the object carries a property under the key.
    pub fn has_property_key(&self, this: &Value, key: &PropKey) -> (r: bool)
        requires
            this is Object,
            obj_at(self@.rt.slots, this->Object_0 as int) is Some,
        ensures
            r == spec_has_prop(self@.rt.slots, this->Object_0 as int, key@),
    {
        let oid = match this {
            Value::Object(id) => *id as usize,
            _ => 0,
        };
        match &self.rt.slots[oid].data {
            HeapData::Obj(o) => match find_prop_idx(&o.props, key) {
                Some(_) => true,
                None => false,
            },
            _ => false,
        }
    }

    /// Store a value under a key, handing the caller's reference to the
    /// object; the raw engine status is returned.
    pub fn set_property_raw(&mut self, this: &Value, key: PropKey, val: Value) -> (ret: i32)
        requires
            this is Object,
            obj_at(old(self)@.rt.slots, this->Object_0 as int) matches Some(o) && props_ok(
                old(self)@.rt.slots,
                o.props,
            ),
            valid_ref(old(self)@.rt, val),
            spec_pending_valid(old(self)@),
            spec_pending_valid(
                CtxtV { rt: spec_free_value(old(self)@.rt, val), ..old(self)@ },
            ),
            old(self)@.rt.slots.len() + 4 < u32::MAX,
        ensures
            (final(self)@, ret) == spec_set_prop(
                old(self)@,
                this->Object_0 as int,
                key@,
                val,
            ),
    {
        let oid = match this {
            Value::Object(id) => *id as usize,
            _ => 0,
        };
        let found: Option<usize> = match &self.rt.slots[oid].data {
            HeapData::Obj(o) => find_prop_idx(&o.props, &key),
            _ => None,
        };
        match found {
            Some(i) => {
                let writable: bool = match &self.rt.slots[oid].data {
                    HeapData::Obj(o) => o.props[i].flags & JS_PROP_WRITABLE != 0,
                    _ => false,
                };
                if writable {
                    let mut old_val: Value = Value::Undefined;
                    let slot = &mut self.rt.slots[oid];
                    match &mut slot.data {
                        HeapData::Obj(o) => {
                            old_val = o.props[i].value;
                            o.props[i].value = val;
                        },
                        _ => {
                            proof {
                                assert(false);
                            }
                        },
                    }
                    proof {
                        assert(self@.rt.slots =~~= spec_with_props(
                            old(self)@.rt.slots,
                            oid as int,
                            obj_at(old(self)@.rt.slots, oid as int)->Some_0.props.update(
                                i as int,
                                PropV {
                                    value: val,
                                    ..obj_at(old(self)@.rt.slots, oid as int)->Some_0.props[
                                        i as int]
                                },
                            ),
                        ));
                    }
                    proof {
                        let o0 = obj_at(old(self)@.rt.slots, oid as int)->Some_0;
                        assert(props_ok(old(self)@.rt.slots, o0.props));
                        assert(prop_val_ok(old(self)@.rt.slots, o0.props[i as int].value));
                        assert(old_val == o0.props[i as int].value);
                        if old_val.spec_has_ref_cnt() {
                            let x = old_val.spec_ref_id() as int;
                            assert(self@.rt.slots[x].live == old(self)@.rt.slots[x].live);
                            assert(self@.rt.slots[x].refs == old(self)@.rt.slots[x].refs);
                        }
                        assert(valid_ref(self@.rt, old_val));
                    }
                    self.rt.free_value_rt(old_val);
                    TRUE_VALUE
                } else {
                    self.rt.free_value_rt(val);
                    self.throw_type_error("property is not writable");
                    ERR
                }
            },
            None => {
                let extensible: bool = match &self.rt.slots[oid].data {
                    HeapData::Obj(o) => o.extensible,
                    _ => false,
                };
                if extensible {
                    let slot = &mut self.rt.slots[oid];
                    match &mut slot.data {
                        HeapData::Obj(o) => {
                            o.props.push(
                                PropEntry { key, value: val, flags: JS_PROP_C_W_E },
                            );
                        },
                        _ => {
                            proof {
                                assert(false);
                            }
                        },
                    }
                    proof {
                        assert(self@.rt.slots =~~= spec_with_props(
                            old(self)@.rt.slots,
                            oid as int,
                            obj_at(old(self)@.rt.slots, oid as int)->Some_0.props.push(
                                PropV { key: key@, value: val, flags: JS_PROP_C_W_E },
                            ),
                        ));
                    }
                    TRUE_VALUE
                } else {
                    self.rt.free_value_rt(val);
                    self.throw_type_error("object is not extensible");
                    ERR
                }
            },
        }
    }

    /// Define a property under a key with the given attributes, handing
    /// the caller's reference to the object; the raw engine status is
    /// returned.
    pub fn define_property_raw(&mut self, this: &Value, key: PropKey, val: Value, flags: u32)
        -> (ret: i32)
        requires
            this is Object,
            obj_at(old(self)@.rt.slots, this->Object_0 as int) matches Some(o) && props_ok(
                old(self)@.rt.slots,
                o.props,
            ),
            valid_ref(old(self)@.rt, val),
            spec_pending_valid(old(self)@),
            spec_pending_valid(
                CtxtV { rt: spec_free_value(old(self)@.rt, val), ..old(self)@ },
            ),
            old(self)@.rt.slots.len() + 4 < u32::MAX,
        ensures
            (final(self)@, ret) == spec_define_prop(
                old(self)@,
                this->Object_0 as int,
                key@,
                val,
                flags,
            ),
    {
        let oid = match this {
            Value::Object(id) => *id as usize,
            _ => 0,
        };
        let found: Option<usize> = match &self.rt.slots[oid].data {
            HeapData::Obj(o) => find_prop_idx(&o.props, &key),
            _ => None,
        };
        match found {
            Some(i) => {
                let mut old_val: Value = Value::Undefined;
                let slot = &mut self.rt.slots[oid];
                match &mut slot.data {
                    HeapData::Obj(o) => {
                        old_val = o.props[i].value;
                        o.props[i].value = val;
                        o.props[i].flags = flags;
                    },
                    _ => {
                        proof {
                            assert(false);
                        }
                    },
                }
                proof {
                    assert(self@.rt.slots =~~= spec_with_props(
                        old(self)@.rt.slots,
                        oid as int,
                        obj_at(old(self)@.rt.slots, oid as int)->Some_0.props.update(
                            i as int,
                            PropV {
                                key: obj_at(old(self)@.rt.slots, oid as int)->Some_0.props[
                                    i as int].key,
                                value: val,
                                flags,
                            },
                        ),
                    ));
                }
                proof {
                    let o0 = obj_at(old(self)@.rt.slots, oid as int)->Some_0;
                    assert(props_ok(old(self)@.rt.slots, o0.props));
                    assert(prop_val_ok(old(self)@.rt.slots, o0.props[i as int].value));
                    assert(old_val == o0.props[i as int].value);
                    if old_val.spec_has_ref_cnt() {
                        let x = old_val.spec_ref_id() as int;
                        assert(self@.rt.slots[x].live == old(self)@.rt.slots[x].live);
                        assert(self@.rt.slots[x].refs == old(self)@.rt.slots[x].refs);
                    }
                    assert(valid_ref(self@.rt, old_val));
                }
                self.rt.free_value_rt(old_val);
                TRUE_VALUE
            },
            None => {
                let extensible: bool = match &self.rt.slots[oid].data {
                    HeapData::Obj(o) => o.extensible,
                    _ => false,
                };
                if extensible {
                    let slot = &mut self.rt.slots[oid];
                    match &mut slot.data {
                        HeapData::Obj(o) => {
                            o.props.push(PropEntry { key, value: val, flags });
                        },
                        _ => {
                            proof {
                                assert(false);
                            }
                        },
                    }
                    proof {
                        assert(self@.rt.slots =~~= spec_with_props(
                            old(self)@.rt.slots,
                            oid as int,
                            obj_at(old(self)@.rt.slots, oid as int)->Some_0.props.push(
                                PropV { key: key@, value: val, flags },
                            ),
                        ));
                    }
                    TRUE_VALUE
                } else {
                    self.rt.free_value_rt(val);
                    self.throw_type_error("object is not extensible");
                    ERR
                }
            },
        }
    }

    /// Delete the property under a key, releasing its stored value; the
    /// raw engine status is returned.
    pub fn delete_property_raw(&mut self, this: &Value, key: &PropKey) -> (ret: i32)
        requires
            this is Object,
            obj_at(old(self)@.rt.slots, this->Object_0 as int) matches Some(o) && props_ok(
                old(self)@.rt.slots,
                o.props,
            ),
            spec_pending_valid(old(self)@),
            old(self)@.rt.slots.len() + 4 < u32::MAX,
        ensures
            (final(self)@, ret) == spec_delete_prop(old(self)@, this->Object_0 as int, key@),
    {
        let oid = match this {
            Value::Object(id) => *id as usize,
            _ => 0,
        };
        let found: Option<usize> = match &self.rt.slots[oid].data {
            HeapData::Obj(o) => find_prop_idx(&o.props, key),
            _ => None,
        };
        match found {
            Some(i) => {
                let configurable: bool = match &self.rt.slots[oid].data {
                    HeapData::Obj(o) => o.props[i].flags & JS_PROP_CONFIGURABLE != 0,
                    _ => false,
                };
                if configurable {
                    let mut old_val: Value = Value::Undefined;
                    let slot = &mut self.rt.slots[oid];
                    match &mut slot.data {
                        HeapData::Obj(o) => {
                            let entry = o.props.remove(i);
                            old_val = entry.value;
                        },
                        _ => {
                            proof {
                                assert(false);
                            }
                        },
                    }
                    proof {
                        assert(self@.rt.slots =~~= spec_with_props(
                            old(self)@.rt.slots,
                            oid as int,
                            obj_at(old(self)@.rt.slots, oid as int)->Some_0.props.remove(
                                i as int,
                            ),
                        ));
                    }
                    proof {
                        let o0 = obj_at(old(self)@.rt.slots, oid as int)->Some_0;
                        assert(props_ok(old(self)@.rt.slots, o0.props));
                        assert(prop_val_ok(old(self)@.rt.slots, o0.props[i as int].value));
                        assert(old_val == o0.props[i as int].value);
                        if old_val.spec_has_ref_cnt() {
                            let x = old_val.spec_ref_id() as int;
                            assert(self@.rt.slots[x].live == old(self)@.rt.slots[x].live);
                            assert(self@.rt.slots[x].refs == old(self)@.rt.slots[x].refs);
                        }
                        assert(valid_ref(self@.rt, old_val));
                    }
                    self.rt.free_value_rt(old_val);
                    TRUE_VALUE
                } else {
                    self.throw_type_error("property is not configurable");
                    ERR
                }
            },
            None => TRUE_VALUE,
        }
    }

    /// Whether the object may still take new properties.
    pub fn is_extensible(&mut self, obj: &Value) -> (r: Result<bool, Error>)
        requires
            obj is Object,
            obj_at(old(self)@.rt.slots, obj->Object_0 as int) is Some,
        ensures
            final(self)@ == old(self)@,
            r == Ok::<bool, Error>(
                obj_at(old(self)@.rt.slots, obj->Object_0 as int)->Some_0.extensible,
            ),
    {
        let oid = match obj {
            Value::Object(id) => *id as usize,
            _ => 0,
        };
        let r = match &self.rt.slots[oid].data {
            HeapData::Obj(o) => o.extensible,
            _ => false,
        };
        Ok(r)
    }

    /// Prevent new properties from ever being added to the object.
    pub fn prevent_extensions(&mut self, obj: &Value) -> (r: Result<bool, Error>)
        requires
            obj is Object,
            obj_at(old(self)@.rt.slots, obj->Object_0 as int) is Some,
        ensures
            r == Ok::<bool, Error>(true),
            final(self)@ == (CtxtV {
                rt: RtV {
                    slots: spec_with_props_ext(
                        old(self)@.rt.slots,
                        obj->Object_0 as int,
                        false,
                    ),
                    ..old(self)@.rt
                },
                ..old(self)@
            }),
    {
        let oid = match obj {
            Value::Object(id) => *id as usize,
            _ => 0,
        };
        let slot = &mut self.rt.slots[oid];
        match &mut slot.data {
            HeapData::Obj(o) => {
                o.extensible = false;
            },
            _ => {
                proof {
                    assert(false);
                }
            },
        }
        proof {
            assert(self@.rt.slots =~~= spec_with_props_ext(
                old(self)@.rt.slots,
                oid as int,
                false,
            ));
        }
        Ok(true)
    }
}

/// A heap with one object's extensibility replaced.
pub open spec fn spec_with_props_ext(slots: Seq<SlotV>, oid: int, extensible: bool) -> Seq<
    SlotV,
> {
    let o = obj_at(slots, oid)->Some_0;
    slots.update(oid, SlotV { data: DataV::Obj(ObjV { extensible, ..o }), ..slots[oid] })
}

/// A key for looking a property up: text, array index, or interned atom.
pub trait GetProperty: Sized {
    /// The property key this value resolves to on the given context.
    spec fn prop_key(&self, c: CtxtV) -> KeyV;

    /// Whether the key resolves at all (an atom must be live).
    spec fn prop_key_ok(&self, c: CtxtV) -> bool;

    /// The stored value under this key, as a fresh handle; see
    /// [`ContextRef::get_property_key`].
    fn get_property(&self, ctxt: &mut ContextRef, this: &Value) -> (r: Option<Local<Value>>)
        requires
            this is Object,
            obj_at(old(ctxt)@.rt.slots, this->Object_0 as int) matches Some(o) && props_ok(
                old(ctxt)@.rt.slots,
                o.props,
            ),
            self.prop_key_ok(old(ctxt)@),
        ensures
            match spec_get_prop(
                old(ctxt)@.rt.slots,
                this->Object_0 as int,
                self.prop_key(old(ctxt)@),
            ) {
                Some(v) => if v is Undefined {
                    r is None && final(ctxt)@ == old(ctxt)@
                } else {
                    r matches Some(l) && l.inner == v && final(ctxt)@ == (CtxtV {
                        rt: spec_clone_value(old(ctxt)@.rt, v),
                        ..old(ctxt)@
                    })
                },
                None => r is None && final(ctxt)@ == old(ctxt)@,
            },
    ;
}

impl<'s> GetProperty for &'s str {
    open spec fn prop_key(&self, c: CtxtV) -> KeyV {
        KeyV::Text(self@)
    }

    open spec fn prop_key_ok(&self, c: CtxtV) -> bool {
        true
    }

    fn get_property(&self, ctxt: &mut ContextRef, this: &Value) -> (r: Option<Local<Value>>) {
        let key = PropKey::Text((*self).to_owned());
        ctxt.get_property_key(this, &key)
    }
}

impl GetProperty for u32 {
    open spec fn prop_key(&self, c: CtxtV) -> KeyV {
        KeyV::Index(*self)
    }

    open spec fn prop_key_ok(&self, c: CtxtV) -> bool {
        true
    }

    fn get_property(&self, ctxt: &mut ContextRef, this: &Value) -> (r: Option<Local<Value>>) {
        let key = PropKey::Index(*self);
        ctxt.get_property_key(this, &key)
    }
}

impl GetProperty for crate::atom::Atom {
    open spec fn prop_key(&self, c: CtxtV) -> KeyV {
        c.rt.atoms[self.atom as int].key
    }

    open spec fn prop_key_ok(&self, c: CtxtV) -> bool {
        spec_atom_valid(c.rt, self.atom)
    }

    fn get_property(&self, ctxt: &mut ContextRef, this: &Value) -> (r: Option<Local<Value>>) {
        let key = ctxt.key_of_atom(self.atom);
        ctxt.get_property_key(this, &key)
    }
}

impl ContextRef {
    /// The key an atom stands for, copied out of the table.
    pub fn key_of_atom(&self, atom: u32) -> (k: PropKey)
        requires
            spec_atom_valid(self@.rt, atom),
        ensures
            k@ == self@.rt.atoms[atom as int].key,
    {
        match &self.rt.atoms[atom as usize].key {
            PropKey::Text(s) => PropKey::Text(s.clone()),
            PropKey::Index(n) => PropKey::Index(*n),
        }
    }

    /// The stored value under a key, dispatching on the key's shape.
    pub fn get_property<T: GetProperty>(&mut self, this: &Value, prop: T) -> (r: Option<
        Local<Value>,
    >)
        requires
            this is Object,
            obj_at(old(self)@.rt.slots, this->Object_0 as int) matches Some(o) && props_ok(
                old(self)@.rt.slots,
                o.props,
            ),
            prop.prop_key_ok(old(self)@),
        ensures
            match spec_get_prop(
                old(self)@.rt.slots,
                this->Object_0 as int,
                prop.prop_key(old(self)@),
            ) {
                Some(v) => if v is Undefined {
                    r is None && final(self)@ == old(self)@
                } else {
                    r matches Some(l) && l.inner == v && final(self)@ == (CtxtV {
                        rt: spec_clone_value(old(self)@.rt, v),
                        ..old(self)@
                    })
                },
                None => r is None && final(self)@ == old(self)@,
            },
    {
        prop.get_property(self, this)
    }

    /// Store a value under a key and check the engine status: success
    /// reports whether the store took, failure carries the classified
    /// exception.
    pub fn set_property_checked(&mut self, this: &Value, key: PropKey, val: Value) -> (r:
        Result<bool, Error>)
        requires
            this is Object,
            obj_at(old(self)@.rt.slots, this->Object_0 as int) matches Some(o) && props_ok(
                old(self)@.rt.slots,
                o.props,
            ),
            valid_ref(old(self)@.rt, val),
            spec_pending_valid(old(self)@),
            spec_pending_valid(
                CtxtV { rt: spec_free_value(old(self)@.rt, val), ..old(self)@ },
            ),
            ({
                let (c2, ret) = spec_set_prop(old(self)@, this->Object_0 as int, key@, val);
                ret == TRUE_VALUE ==> spec_pending_valid(c2)
            }),
            old(self)@.rt.slots.len() + 4 < u32::MAX,
        ensures
            ({
                let (c2, ret) = spec_set_prop(old(self)@, this->Object_0 as int, key@, val);
                if ret == TRUE_VALUE {
                    r == Ok::<bool, Error>(true) && final(self)@ == c2
                } else {
                    (r matches Err(e) && e@ == crate::error::spec_classified_error(c2))
                        && final(self)@ == (CtxtV {
                        uncatchable: false,
                        ..crate::error::spec_clear_pending(c2)
                    })
                }
            }),
    {
        let ghost pre = self@;
        let ret = self.set_property_raw(this, key, val);
        proof {
            let oid = this->Object_0 as int;
            let o = obj_at(pre.rt.slots, oid)->Some_0;
            let c1 = CtxtV { rt: spec_free_value(pre.rt, val), ..pre };
            match find_prop(o.props, key@) {
                Some(i) => if o.props[i].flags & JS_PROP_WRITABLE == 0 {
                    crate::error::lemma_throw_error_pending_valid(
                        c1,
                        "TypeError"@,
                        "property is not writable"@,
                        None,
                    );
                },
                None => if !o.extensible {
                    crate::error::lemma_throw_error_pending_valid(
                        c1,
                        "TypeError"@,
                        "object is not extensible"@,
                        None,
                    );
                },
            }
        }
        self.check_bool(ret)
    }

    /// Define a property with attributes and check the engine status.
    pub fn define_property_checked(
        &mut self,
        this: &Value,
        key: PropKey,
        val: Value,
        flags: u32,
    ) -> (r: Result<bool, Error>)
        requires
            this is Object,
            obj_at(old(self)@.rt.slots, this->Object_0 as int) matches Some(o) && props_ok(
                old(self)@.rt.slots,
                o.props,
            ),
            valid_ref(old(self)@.rt, val),
            spec_pending_valid(old(self)@),
            spec_pending_valid(
                CtxtV { rt: spec_free_value(old(self)@.rt, val), ..old(self)@ },
            ),
            ({
                let (c2, ret) = spec_define_prop(
                    old(self)@,
                    this->Object_0 as int,
                    key@,
                    val,
                    flags,
                );
                ret == TRUE_VALUE ==> spec_pending_valid(c2)
            }),
            old(self)@.rt.slots.len() + 4 < u32::MAX,
        ensures
            ({
                let (c2, ret) = spec_define_prop(
                    old(self)@,
                    this->Object_0 as int,
                    key@,
                    val,
                    flags,
                );
                if ret == TRUE_VALUE {
                    r == Ok::<bool, Error>(true) && final(self)@ == c2
                } else {
                    (r matches Err(e) && e@ == crate::error::spec_classified_error(c2))
                        && final(self)@ == (CtxtV {
                        uncatchable: false,
                        ..crate::error::spec_clear_pending(c2)
                    })
                }
            }),
    {
        let ghost pre = self@;
        let ret = self.define_property_raw(this, key, val, flags);
        proof {
            let oid = this->Object_0 as int;
            let o = obj_at(pre.rt.slots, oid)->Some_0;
            let c1 = CtxtV { rt: spec_free_value(pre.rt, val), ..pre };
            match find_prop(o.props, key@) {
                Some(_) => (),
                None => if !o.extensible {
                    crate::error::lemma_throw_error_pending_valid(
                        c1,
                        "TypeError"@,
                        "object is not extensible"@,
                        None,
                    );
                },
            }
        }
        self.check_bool(ret)
    }

    /// Delete the property under a key and check the engine status.
    pub fn delete_property_checked(&mut self, this: &Value, key: &PropKey) -> (r: Result<
        bool,
        Error,
    >)
        requires
            this is Object,
            obj_at(old(self)@.rt.slots, this->Object_0 as int) matches Some(o) && props_ok(
                old(self)@.rt.slots,
                o.props,
            ),
            spec_pending_valid(old(self)@),
            ({
                let (c2, ret) = spec_delete_prop(old(self)@, this->Object_0 as int, key@);
                ret == TRUE_VALUE ==> spec_pending_valid(c2)
            }),
            old(self)@.rt.slots.len() + 4 < u32::MAX,
        ensures
            ({
                let (c2, ret) = spec_delete_prop(old(self)@, this->Object_0 as int, key@);
                if ret == TRUE_VALUE {
                    r == Ok::<bool, Error>(true) && final(self)@ == c2
                } else {
                    (r matches Err(e) && e@ == crate::error::spec_classified_error(c2))
                        && final(self)@ == (CtxtV {
                        uncatchable: false,
                        ..crate::error::spec_clear_pending(c2)
                    })
                }
            }),
    {
        let ghost pre = self@;
        let ret = self.delete_property_raw(this, key);
        proof {
            let oid = this->Object_0 as int;
            let o = obj_at(pre.rt.slots, oid)->Some_0;
            match find_prop(o.props, key@) {
                Some(i) => if o.props[i].flags & JS_PROP_CONFIGURABLE == 0 {
                    crate::error::lemma_throw_error_pending_valid(
                        pre,
                        "TypeError"@,
                        "property is not configurable"@,
                        None,
                    );
                },
                None => (),
            }
        }
        self.check_bool(ret)
    }

    /// Whether the object carries a property under the key, dispatching on
    /// the key's shape.
    pub fn has_property<T: GetPropertyResolve>(&self, this: &Value, prop: T) -> (r: Result<
        bool,
        Error,
    >)
        requires
            this is Object,
            obj_at(self@.rt.slots, this->Object_0 as int) is Some,
            prop.prop_key_ok(self@),
        ensures
            r == Ok::<bool, Error>(
                spec_has_prop(self@.rt.slots, this->Object_0 as int, prop.prop_key(self@)),
            ),
    {
        let key = prop.resolve_key(self);
        Ok(self.has_property_key(this, &key))
    }
}

impl<'s> GetPropertyResolve for &'s str {
    fn resolve_key(&self, ctxt: &ContextRef) -> (k: PropKey) {
        PropKey::Text((*self).to_owned())
    }
}

impl GetPropertyResolve for u32 {
    fn resolve_key(&self, ctxt: &ContextRef) -> (k: PropKey) {
        PropKey::Index(*self)
    }
}

impl GetPropertyResolve for crate::atom::Atom {
    fn resolve_key(&self, ctxt: &ContextRef) -> (k: PropKey) {
        ctxt.key_of_atom(self.atom)
    }
}

/// A key that can be resolved without touching any state.
pub trait GetPropertyResolve: GetProperty {
    /// The concrete key this value resolves to.
    fn resolve_key(&self, ctxt: &ContextRef) -> (k: PropKey)
        requires
            self.prop_key_ok(ctxt@),
        ensures
            k@ == self.prop_key(ctxt@),
    ;
}

/// A property descriptor: the attributes and contents of one own
/// property. The model carries data properties, so the getter and setter
/// slots stay empty.
pub struct Descriptor {
    /// Whether the value may be changed by assignment.
    pub writable: bool,
    /// The property's value, held through a fresh handle.
    pub value: Option<Local<Value>>,
    /// A getter function, when the property has one.
    pub getter: Option<Local<Value>>,
    /// A setter function, when the property has one.
    pub setter: Option<Local<Value>>,
    /// Whether the descriptor may be changed or the property deleted.
    pub configurable: bool,
    /// Whether the property shows up during enumeration.
    pub enumerable: bool,
}

/// Whether a property is listed under the given name-listing flags.
pub open spec fn spec_keep(p: PropV, flags: u32) -> bool {
    &&& flags & JS_GPN_STRING_MASK != 0
    &&& (flags & JS_GPN_ENUM_ONLY == 0 || p.flags & JS_PROP_ENUMERABLE != 0)
}

/// The keys of the first `n` properties that the flags keep, in order.
pub open spec fn spec_kept_keys(props: Seq<PropV>, flags: u32, n: int) -> Seq<KeyV>
    decreases n,
{
    if n <= 0 {
        Seq::empty()
    } else {
        spec_kept_keys(props, flags, n - 1) + if spec_keep(props[n - 1], flags) {
            seq![props[n - 1].key]
        } else {
            Seq::empty()
        }
    }
}

/// The runtime after the first `n` keys are interned, in order.
pub open spec fn spec_intern_all(rt: RtV, keys: Seq<KeyV>, n: int) -> RtV
    decreases n,
{
    if n <= 0 {
        rt
    } else {
        spec_intern(spec_intern_all(rt, keys, n - 1), keys[n - 1])
    }
}

/// The atoms the first `n` keys intern to, in order.
pub open spec fn spec_intern_ids(rt: RtV, keys: Seq<KeyV>, n: int) -> Seq<u32>
    decreases n,
{
    if n <= 0 {
        Seq::empty()
    } else {
        spec_intern_ids(rt, keys, n - 1).push(
            spec_intern_id(spec_intern_all(rt, keys, n - 1), keys[n - 1]),
        )
    }
}

/// Whether the first `n` keys can all be interned, step by step.
pub open spec fn spec_can_intern_all(rt: RtV, keys: Seq<KeyV>, n: int) -> bool
    decreases n,
{
    if n <= 0 {
        true
    } else {
        spec_can_intern_all(rt, keys, n - 1) && spec_can_intern(
            spec_intern_all(rt, keys, n - 1),
            keys[n - 1],
        )
    }
}

/// When the first `n` keys can all be interned, so can each step along
/// the way.
proof fn lemma_can_intern_prefix(rt: RtV, keys: Seq<KeyV>, i: int, n: int)
    requires
        spec_can_intern_all(rt, keys, n),
        0 <= i < n,
    ensures
        spec_can_intern(spec_intern_all(rt, keys, i), keys[i]),
    decreases n,
{
    if i < n - 1 {
        lemma_can_intern_prefix(rt, keys, i, n - 1);
    }
}

/// The view of a key vector, element by element.
pub open spec fn keys_view(keys: &Vec<PropKey>) -> Seq<KeyV> {
    Seq::new(keys@.len(), |i: int| keys@[i]@)
}

/// The atoms held in a handle vector, in order.
pub open spec fn atoms_view(v: &Vec<crate::atom::Atom>) -> Seq<u32> {
    Seq::new(v@.len(), |i: int| v@[i].atom)
}

/// A copy of a property key.
fn clone_key(k: &PropKey) -> (r: PropKey)
    ensures
        r@ == k@,
{
    match k {
        PropKey::Text(s) => PropKey::Text(s.clone()),
        PropKey::Index(n) => PropKey::Index(*n),
    }
}

impl ContextRef {
    /// The keys of an object's own properties kept by the flags, each
    /// interned to a fresh atom reference, in property order.
    pub fn get_own_property_names(&mut self, value: &Value, flags: u32) -> (r: Result<
        Option<Vec<crate::atom::Atom>>,
        Error,
    >)
        requires
            value is Object,
            obj_at(old(self)@.rt.slots, value->Object_0 as int) is Some,
            ({
                let o = obj_at(old(self)@.rt.slots, value->Object_0 as int)->Some_0;
                let keys = spec_kept_keys(o.props, flags, o.props.len() as int);
                spec_can_intern_all(old(self)@.rt, keys, keys.len() as int)
            }),
        ensures
            ({
                let o = obj_at(old(self)@.rt.slots, value->Object_0 as int)->Some_0;
                let keys = spec_kept_keys(o.props, flags, o.props.len() as int);
                &&& r matches Ok(ro) && ro matches Some(v) && atoms_view(&v)
                    == spec_intern_ids(old(self)@.rt, keys, keys.len() as int)
                &&& final(self)@ == (CtxtV {
                    rt: spec_intern_all(old(self)@.rt, keys, keys.len() as int),
                    ..old(self)@
                })
            }),
    {
        let oid = match value {
            Value::Object(id) => *id as usize,
            _ => 0,
        };
        let ghost o = obj_at(self@.rt.slots, oid as int)->Some_0;
        let mut keys: Vec<PropKey> = Vec::new();
        match &self.rt.slots[oid].data {
            HeapData::Obj(obj) => {
                let props = &obj.props;
                let mut i: usize = 0;
                while i < props.len()
                    invariant
                        i <= props@.len(),
                        props_view(props) == o.props,
                        keys_view(&keys) == spec_kept_keys(o.props, flags, i as int),
                    decreases props@.len() - i,
                {
                    let keep = (flags & JS_GPN_STRING_MASK != 0) && (flags
                        & JS_GPN_ENUM_ONLY == 0 || props[i].flags & JS_PROP_ENUMERABLE
                        != 0);
                    if keep {
                        keys.push(clone_key(&props[i].key));
                    }
                    i = i + 1;
                    proof {
                        assert(keys_view(&keys) =~= spec_kept_keys(
                            o.props,
                            flags,
                            i as int,
                        ));
                    }
                }
            },
            _ => {
                proof {
                    assert(false);
                }
            },
        }
        let ghost kv = spec_kept_keys(o.props, flags, o.props.len() as int);
        proof {
            assert(keys_view(&keys) =~= kv);
        }
        let mut out: Vec<crate::atom::Atom> = Vec::new();
        let n = keys.len();
        let mut i: usize = 0;
        while i < n
            invariant
                i <= n,
                n == keys@.len(),
                keys_view(&keys) == kv,
                spec_can_intern_all(old(self)@.rt, kv, kv.len() as int),
                kv.len() == n,
                self@ == (CtxtV { rt: spec_intern_all(old(self)@.rt, kv, i as int), ..old(
                    self,
                )@ }),
                atoms_view(&out) == spec_intern_ids(old(self)@.rt, kv, i as int),
            decreases n - i,
        {
            proof {
                lemma_can_intern_prefix(old(self)@.rt, kv, i as int, kv.len() as int);
            }
            let k = clone_key(&keys[i]);
            let atom = self.intern_atom(k);
            out.push(crate::atom::Atom { atom });
            i = i + 1;
            proof {
                assert(atoms_view(&out) =~= spec_intern_ids(old(self)@.rt, kv, i as int));
            }
        }
        Ok(Some(out))
    }

    /// The descriptor of an own property: its attributes and its value
    /// through a fresh handle; `None` when the property is absent.
    pub fn get_own_property_descriptor<T: GetPropertyResolve>(&mut self, value: &Value,
        prop: T) -> (r: Result<Option<Descriptor>, Error>)
        requires
            value is Object,
            obj_at(old(self)@.rt.slots, value->Object_0 as int) matches Some(o) && props_ok(
                old(self)@.rt.slots,
                o.props,
            ),
            prop.prop_key_ok(old(self)@),
        ensures
            ({
                let oid = value->Object_0 as int;
                let key = prop.prop_key(old(self)@);
                let o = obj_at(old(self)@.rt.slots, oid)->Some_0;
                match find_prop(o.props, key) {
                    Some(i) => r matches Ok(ro) && ro matches Some(d) && {
                        let p = o.props[i];
                        &&& d.writable == (p.flags & JS_PROP_WRITABLE != 0)
                        &&& d.configurable == (p.flags & JS_PROP_CONFIGURABLE != 0)
                        &&& d.enumerable == (p.flags & JS_PROP_ENUMERABLE != 0)
                        &&& d.value matches Some(l) && l.inner == p.value
                        &&& d.getter is None
                        &&& d.setter is None
                        &&& final(self)@ == (CtxtV {
                            rt: spec_clone_value(old(self)@.rt, p.value),
                            ..old(self)@
                        })
                    },
                    None => r == Ok::<Option<Descriptor>, Error>(None) && final(self)@
                        == old(self)@,
                }
            }),
    {
        let key = prop.resolve_key(self);
        let oid = match value {
            Value::Object(id) => *id as usize,
            _ => 0,
        };
        let found: Option<usize> = match &self.rt.slots[oid].data {
            HeapData::Obj(o) => find_prop_idx(&o.props, &key),
            _ => None,
        };
        match found {
            Some(i) => {
                let (v, flags): (Value, u32) = match &self.rt.slots[oid].data {
                    HeapData::Obj(o) => (o.props[i].value, o.props[i].flags),
                    _ => (Value::Undefined, 0),
                };
                proof {
                    assert(prop_val_ok(
                        self@.rt.slots,
                        obj_at(self@.rt.slots, oid as int)->Some_0.props[i as int].value,
                    ));
                }
                let c = self.clone_value(&v);
                Ok(
                    Some(
                        Descriptor {
                            writable: flags & JS_PROP_WRITABLE != 0,
                            value: Some(Local { inner: c }),
                            getter: None,
                            setter: None,
                            configurable: flags & JS_PROP_CONFIGURABLE != 0,
                            enumerable: flags & JS_PROP_ENUMERABLE != 0,
                        },
                    ),
                )
            },
            None => Ok(None),
        }
    }
}


impl ContextRef {
    /// Store a value under a key, dispatching on the key's shape; the
    /// value is converted first and its reference handed to the object.
    pub fn set_property<T: GetPropertyResolve, V: crate::convert::LazyValue>(
        &mut self,
        this: &Value,
        prop: T,
        val: V,
    ) -> (r: Result<bool, Error>)
        requires
            val.lazy_req(old(self)@),
            ({
                let mid = val.lazy_post(old(self)@);
                let v = val.lazy_result(old(self)@);
                &&& this is Object
                &&& (obj_at(mid.rt.slots, this->Object_0 as int) matches Some(o) && props_ok(
                    mid.rt.slots,
                    o.props,
                ))
                &&& prop.prop_key_ok(mid)
                &&& spec_pending_valid(mid)
                &&& spec_pending_valid(CtxtV { rt: spec_free_value(mid.rt, v), ..mid })
                &&& ({
                    let (c2, ret) = spec_set_prop(
                        mid,
                        this->Object_0 as int,
                        prop.prop_key(mid),
                        v,
                    );
                    ret == TRUE_VALUE ==> spec_pending_valid(c2)
                })
                &&& mid.rt.slots.len() + 4 < u32::MAX
            }),
        ensures
            ({
                let mid = val.lazy_post(old(self)@);
                let v = val.lazy_result(old(self)@);
                let (c2, ret) = spec_set_prop(
                    mid,
                    this->Object_0 as int,
                    prop.prop_key(mid),
                    v,
                );
                if ret == TRUE_VALUE {
                    r == Ok::<bool, Error>(true) && final(self)@ == c2
                } else {
                    (r matches Err(e) && e@ == crate::error::spec_classified_error(c2))
                        && final(self)@ == (CtxtV {
                        uncatchable: false,
                        ..crate::error::spec_clear_pending(c2)
                    })
                }
            }),
    {
        let v = val.new_value(self);
        let key = prop.resolve_key(self);
        self.set_property_checked(this, key, v)
    }

    /// Delete the property under a key, dispatching on the key's shape.
    pub fn delete_property<T: GetPropertyResolve>(&mut self, this: &Value, prop: T) -> (r:
        Result<bool, Error>)
        requires
            this is Object,
            obj_at(old(self)@.rt.slots, this->Object_0 as int) matches Some(o) && props_ok(
                old(self)@.rt.slots,
                o.props,
            ),
            prop.prop_key_ok(old(self)@),
            spec_pending_valid(old(self)@),
            ({
                let (c2, ret) = spec_delete_prop(
                    old(self)@,
                    this->Object_0 as int,
                    prop.prop_key(old(self)@),
                );
                ret == TRUE_VALUE ==> spec_pending_valid(c2)
            }),
            old(self)@.rt.slots.len() + 4 < u32::MAX,
        ensures
            ({
                let (c2, ret) = spec_delete_prop(
                    old(self)@,
                    this->Object_0 as int,
                    prop.prop_key(old(self)@),
                );
                if ret == TRUE_VALUE {
                    r == Ok::<bool, Error>(true) && final(self)@ == c2
                } else {
                    (r matches Err(e) && e@ == crate::error::spec_classified_error(c2))
                        && final(self)@ == (CtxtV {
                        uncatchable: false,
                        ..crate::error::spec_clear_pending(c2)
                    })
                }
            }),
    {
        let key = prop.resolve_key(self);
        self.delete_property_checked(this, &key)
    }

    /// Define a property with attributes under a key, dispatching on the
    /// key's shape; the value's reference is handed to the object.
    pub fn define_property_value<T: GetPropertyResolve>(
        &mut self,
        this: &Value,
        prop: T,
        val: Value,
        flags: u32,
    ) -> (r: Result<bool, Error>)
        requires
            this is Object,
            obj_at(old(self)@.rt.slots, this->Object_0 as int) matches Some(o) && props_ok(
                old(self)@.rt.slots,
                o.props,
            ),
            prop.prop_key_ok(old(self)@),
            valid_ref(old(self)@.rt, val),
            spec_pending_valid(old(self)@),
            spec_pending_valid(
                CtxtV { rt: spec_free_value(old(self)@.rt, val), ..old(self)@ },
            ),
            ({
                let (c2, ret) = spec_define_prop(
                    old(self)@,
                    this->Object_0 as int,
                    prop.prop_key(old(self)@),
                    val,
                    flags,
                );
                ret == TRUE_VALUE ==> spec_pending_valid(c2)
            }),
            old(self)@.rt.slots.len() + 4 < u32::MAX,
        ensures
            ({
                let (c2, ret) = spec_define_prop(
                    old(self)@,
                    this->Object_0 as int,
                    prop.prop_key(old(self)@),
                    val,
                    flags,
                );
                if ret == TRUE_VALUE {
                    r == Ok::<bool, Error>(true) && final(self)@ == c2
                } else {
                    (r matches Err(e) && e@ == crate::error::spec_classified_error(c2))
                        && final(self)@ == (CtxtV {
                        uncatchable: false,
                        ..crate::error::spec_clear_pending(c2)
                    })
                }
            }),
    {
        let key = prop.resolve_key(self);
        self.define_property_checked(this, key, val, flags)
    }
}

impl Local<Value> {
    /// The stored value under a key on the held object, as a fresh handle.
    pub fn get_property<T: GetProperty>(&self, ctxt: &mut ContextRef, prop: T) -> (r:
        Option<Local<Value>>)
        requires
            self.inner is Object,
            obj_at(old(ctxt)@.rt.slots, self.inner->Object_0 as int) matches Some(o)
                && props_ok(old(ctxt)@.rt.slots, o.props),
            prop.prop_key_ok(old(ctxt)@),
        ensures
            match spec_get_prop(
                old(ctxt)@.rt.slots,
                self.inner->Object_0 as int,
                prop.prop_key(old(ctxt)@),
            ) {
                Some(v) => if v is Undefined {
                    r is None && final(ctxt)@ == old(ctxt)@
                } else {
                    r matches Some(l) && l.inner == v && final(ctxt)@ == (CtxtV {
                        rt: spec_clone_value(old(ctxt)@.rt, v),
                        ..old(ctxt)@
                    })
                },
                None => r is None && final(ctxt)@ == old(ctxt)@,
            },
    {
        prop.get_property(ctxt, &self.inner)
    }

    /// Whether the held object carries a property under the key.
    pub fn has_property<T: GetPropertyResolve>(&self, ctxt: &ContextRef, prop: T) -> (r:
        Result<bool, Error>)
        requires
            self.inner is Object,
            obj_at(ctxt@.rt.slots, self.inner->Object_0 as int) is Some,
            prop.prop_key_ok(ctxt@),
        ensures
            r == Ok::<bool, Error>(
                spec_has_prop(
                    ctxt@.rt.slots,
                    self.inner->Object_0 as int,
                    prop.prop_key(ctxt@),
                ),
            ),
    {
        ctxt.has_property(&self.inner, prop)
    }

    /// Store a value under a key on the held object.
    pub fn set_property<T: GetPropertyResolve, V: crate::convert::LazyValue>(
        &self,
        ctxt: &mut ContextRef,
        prop: T,
        val: V,
    ) -> (r: Result<bool, Error>)
        requires
            val.lazy_req(old(ctxt)@),
            ({
                let mid = val.lazy_post(old(ctxt)@);
                let v = val.lazy_result(old(ctxt)@);
                &&& self.inner is Object
                &&& (obj_at(mid.rt.slots, self.inner->Object_0 as int) matches Some(o)
                    && props_ok(mid.rt.slots, o.props))
                &&& prop.prop_key_ok(mid)
                &&& spec_pending_valid(mid)
                &&& spec_pending_valid(CtxtV { rt: spec_free_value(mid.rt, v), ..mid })
                &&& ({
                    let (c2, ret) = spec_set_prop(
                        mid,
                        self.inner->Object_0 as int,
                        prop.prop_key(mid),
                        v,
                    );
                    ret == TRUE_VALUE ==> spec_pending_valid(c2)
                })
                &&& mid.rt.slots.len() + 4 < u32::MAX
            }),
        ensures
            ({
                let mid = val.lazy_post(old(ctxt)@);
                let v = val.lazy_result(old(ctxt)@);
                let (c2, ret) = spec_set_prop(
                    mid,
                    self.inner->Object_0 as int,
                    prop.prop_key(mid),
                    v,
                );
                if ret == TRUE_VALUE {
                    r == Ok::<bool, Error>(true) && final(ctxt)@ == c2
                } else {
                    (r matches Err(e) && e@ == crate::error::spec_classified_error(c2))
                        && final(ctxt)@ == (CtxtV {
                        uncatchable: false,
                        ..crate::error::spec_clear_pending(c2)
                    })
                }
            }),
    {
        ctxt.set_property(&self.inner, prop, val)
    }

    /// Delete the property under a key on the held object.
    pub fn delete_property<T: GetPropertyResolve>(&self, ctxt: &mut ContextRef, prop: T)
        -> (r: Result<bool, Error>)
        requires
            self.inner is Object,
            obj_at(old(ctxt)@.rt.slots, self.inner->Object_0 as int) matches Some(o)
                && props_ok(old(ctxt)@.rt.slots, o.props),
            prop.prop_key_ok(old(ctxt)@),
            spec_pending_valid(old(ctxt)@),
            ({
                let (c2, ret) = spec_delete_prop(
                    old(ctxt)@,
                    self.inner->Object_0 as int,
                    prop.prop_key(old(ctxt)@),
                );
                ret == TRUE_VALUE ==> spec_pending_valid(c2)
            }),
            old(ctxt)@.rt.slots.len() + 4 < u32::MAX,
        ensures
            ({
                let (c2, ret) = spec_delete_prop(
                    old(ctxt)@,
                    self.inner->Object_0 as int,
                    prop.prop_key(old(ctxt)@),
                );
                if ret == TRUE_VALUE {
                    r == Ok::<bool, Error>(true) && final(ctxt)@ == c2
                } else {
                    (r matches Err(e) && e@ == crate::error::spec_classified_error(c2))
                        && final(ctxt)@ == (CtxtV {
                        uncatchable: false,
                        ..crate::error::spec_clear_pending(c2)
                    })
                }
            }),
    {
        ctxt.delete_property(&self.inner, prop)
    }

    /// Define a property with attributes on the held object.
    pub fn define_property_value<T: GetPropertyResolve>(
        &self,
        ctxt: &mut ContextRef,
        prop: T,
        val: Value,
        flags: u32,
    ) -> (r: Result<bool, Error>)
        requires
            self.inner is Object,
            obj_at(old(ctxt)@.rt.slots, self.inner->Object_0 as int) matches Some(o)
                && props_ok(old(ctxt)@.rt.slots, o.props),
            prop.prop_key_ok(old(ctxt)@),
            valid_ref(old(ctxt)@.rt, val),
            spec_pending_valid(old(ctxt)@),
            spec_pending_valid(
                CtxtV { rt: spec_free_value(old(ctxt)@.rt, val), ..old(ctxt)@ },
            ),
            ({
                let (c2, ret) = spec_define_prop(
                    old(ctxt)@,
                    self.inner->Object_0 as int,
                    prop.prop_key(old(ctxt)@),
                    val,
                    flags,
                );
                ret == TRUE_VALUE ==> spec_pending_valid(c2)
            }),
            old(ctxt)@.rt.slots.len() + 4 < u32::MAX,
        ensures
            ({
                let (c2, ret) = spec_define_prop(
                    old(ctxt)@,
                    self.inner->Object_0 as int,
                    prop.prop_key(old(ctxt)@),
                    val,
                    flags,
                );
                if ret == TRUE_VALUE {
                    r == Ok::<bool, Error>(true) && final(ctxt)@ == c2
                } else {
                    (r matches Err(e) && e@ == crate::error::spec_classified_error(c2))
                        && final(ctxt)@ == (CtxtV {
                        uncatchable: false,
                        ..crate::error::spec_clear_pending(c2)
                    })
                }
            }),
    {
        ctxt.define_property_value(&self.inner, prop, val, flags)
    }

    /// Whether the held object may still take new properties.
    pub fn is_extensible(&self, ctxt: &mut ContextRef) -> (r: Result<bool, Error>)
        requires
            self.inner is Object,
            obj_at(old(ctxt)@.rt.slots, self.inner->Object_0 as int) is Some,
        ensures
            final(ctxt)@ == old(ctxt)@,
            r == Ok::<bool, Error>(
                obj_at(old(ctxt)@.rt.slots, self.inner->Object_0 as int)->Some_0.extensible,
            ),
    {
        ctxt.is_extensible(&self.inner)
    }

    /// Prevent new properties from ever being added to the held object.
    pub fn prevent_extensions(&self, ctxt: &mut ContextRef) -> (r: Result<bool, Error>)
        requires
            self.inner is Object,
            obj_at(old(ctxt)@.rt.slots, self.inner->Object_0 as int) is Some,
        ensures
            r == Ok::<bool, Error>(true),
            final(ctxt)@ == (CtxtV {
                rt: RtV {
                    slots: spec_with_props_ext(
                        old(ctxt)@.rt.slots,
                        self.inner->Object_0 as int,
                        false,
                    ),
                    ..old(ctxt)@.rt
                },
                ..old(ctxt)@
            }),
    {
        ctxt.prevent_extensions(&self.inner)
    }

    /// The atoms of the held object's enumerable text properties, in
    /// property order.
    pub fn keys(&self, ctxt: &mut ContextRef) -> (r: Result<
        Option<Vec<crate::atom::Atom>>,
        Error,
    >)
        requires
            self.inner is Object,
            obj_at(old(ctxt)@.rt.slots, self.inner->Object_0 as int) is Some,
            ({
                let o = obj_at(old(ctxt)@.rt.slots, self.inner->Object_0 as int)->Some_0;
                let keys = spec_kept_keys(
                    o.props,
                    JS_GPN_ENUM_ONLY | JS_GPN_STRING_MASK,
                    o.props.len() as int,
                );
                spec_can_intern_all(old(ctxt)@.rt, keys, keys.len() as int)
            }),
        ensures
            ({
                let o = obj_at(old(ctxt)@.rt.slots, self.inner->Object_0 as int)->Some_0;
                let keys = spec_kept_keys(
                    o.props,
                    JS_GPN_ENUM_ONLY | JS_GPN_STRING_MASK,
                    o.props.len() as int,
                );
                &&& r matches Ok(ro) && ro matches Some(v) && atoms_view(&v)
                    == spec_intern_ids(old(ctxt)@.rt, keys, keys.len() as int)
                &&& final(ctxt)@ == (CtxtV {
                    rt: spec_intern_all(old(ctxt)@.rt, keys, keys.len() as int),
                    ..old(ctxt)@
                })
            }),
    {
        ctxt.get_own_property_names(&self.inner, JS_GPN_ENUM_ONLY | JS_GPN_STRING_MASK)
    }

    /// The atoms of all the held object's own properties, in property
    /// order.
    pub fn get_own_property_names(&self, ctxt: &mut ContextRef) -> (r: Result<
        Option<Vec<crate::atom::Atom>>,
        Error,
    >)
        requires
            self.inner is Object,
            obj_at(old(ctxt)@.rt.slots, self.inner->Object_0 as int) is Some,
            ({
                let o = obj_at(old(ctxt)@.rt.slots, self.inner->Object_0 as int)->Some_0;
                let keys = spec_kept_keys(
                    o.props,
                    JS_GPN_STRING_MASK | JS_GPN_SYMBOL_MASK,
                    o.props.len() as int,
                );
                spec_can_intern_all(old(ctxt)@.rt, keys, keys.len() as int)
            }),
        ensures
            ({
                let o = obj_at(old(ctxt)@.rt.slots, self.inner->Object_0 as int)->Some_0;
                let keys = spec_kept_keys(
                    o.props,
                    JS_GPN_STRING_MASK | JS_GPN_SYMBOL_MASK,
                    o.props.len() as int,
                );
                &&& r matches Ok(ro) && ro matches Some(v) && atoms_view(&v)
                    == spec_intern_ids(old(ctxt)@.rt, keys, keys.len() as int)
                &&& final(ctxt)@ == (CtxtV {
                    rt: spec_intern_all(old(ctxt)@.rt, keys, keys.len() as int),
                    ..old(ctxt)@
                })
            }),
    {
        ctxt.get_own_property_names(&self.inner, JS_GPN_STRING_MASK | JS_GPN_SYMBOL_MASK)
    }

    /// The descriptor of an own property of the held object.
    pub fn get_own_property_descriptor<T: GetPropertyResolve>(
        &self,
        ctxt: &mut ContextRef,
        prop: T,
    ) -> (r: Result<Option<Descriptor>, Error>)
        requires
            self.inner is Object,
            obj_at(old(ctxt)@.rt.slots, self.inner->Object_0 as int) matches Some(o)
                && props_ok(old(ctxt)@.rt.slots, o.props),
            prop.prop_key_ok(old(ctxt)@),
        ensures
            ({
                let oid = self.inner->Object_0 as int;
                let key = prop.prop_key(old(ctxt)@);
                let o = obj_at(old(ctxt)@.rt.slots, oid)->Some_0;
                match find_prop(o.props, key) {
                    Some(i) => r matches Ok(ro) && ro matches Some(d) && {
                        let p = o.props[i];
                        &&& d.writable == (p.flags & JS_PROP_WRITABLE != 0)
                        &&& d.configurable == (p.flags & JS_PROP_CONFIGURABLE != 0)
                        &&& d.enumerable == (p.flags & JS_PROP_ENUMERABLE != 0)
                        &&& d.value matches Some(l) && l.inner == p.value
                        &&& d.getter is None
                        &&& d.setter is None
                        &&& final(ctxt)@ == (CtxtV {
                            rt: spec_clone_value(old(ctxt)@.rt, p.value),
                            ..old(ctxt)@
                        })
                    },
                    None => r == Ok::<Option<Descriptor>, Error>(None) && final(ctxt)@
                        == old(ctxt)@,
                }
            }),
    {
        ctxt.get_own_property_descriptor(&self.inner, prop)
    }
}

} // verus!
