//! Array buffers: engine-owned byte buffers reachable from host code.

use vstd::prelude::*;

use crate::context::{ContextRef, CtxtV};
use crate::handle::Local;
use crate::heap::{DataV, HeapData, SlotV};
use crate::runtime::{spec_alloc, RtV};
use crate::value::Value;

verus! {

/// A handle on an engine array buffer.
#[derive(Debug)]
pub struct ArrayBuffer {
    /// The buffer cell, held through a value handle.
    pub value: Local<Value>,
}

/// A handle on an engine shared array buffer.
#[derive(Debug)]
pub struct SharedArrayBuffer {
    /// The buffer cell, held through a value handle.
    pub value: Local<Value>,
}

/// Whether a value names a live buffer cell with the given sharing.
pub open spec fn buffer_at(slots: Seq<SlotV>, v: Value, shared: bool) -> Option<Seq<u8>> {
    if v is Str {
        None
    } else {
        match v {
            Value::Object(id) => if id < slots.len() && slots[id as int].live {
                match slots[id as int].data {
                    DataV::Buffer(data, s) => if s == shared {
                        Some(data)
                    } else {
                        None
                    },
                    _ => None,
                }
            } else {
                None
            },
            _ => None,
        }
    }
}

impl ContextRef {
    /// A fresh array buffer holding the given bytes.
    pub fn new_array_buffer(&mut self, data: Vec<u8>) -> (b: ArrayBuffer)
        requires
            old(self)@.rt.slots.len() < u32::MAX,
        ensures
            b.value.inner == Value::Object(old(self)@.rt.slots.len() as u32),
            final(self)@ == (CtxtV {
                rt: spec_alloc(old(self)@.rt, DataV::Buffer(data@, false)),
                ..old(self)@
            }),
    {
        let id = self.rt.alloc_cell(HeapData::Buffer { data, shared: false });
        ArrayBuffer { value: Local { inner: Value::Object(id) } }
    }

    /// A fresh shared array buffer holding the given bytes.
    pub fn new_shared_array_buffer(&mut self, data: Vec<u8>) -> (b: SharedArrayBuffer)
        requires
            old(self)@.rt.slots.len() < u32::MAX,
        ensures
            b.value.inner == Value::Object(old(self)@.rt.slots.len() as u32),
            final(self)@ == (CtxtV {
                rt: spec_alloc(old(self)@.rt, DataV::Buffer(data@, true)),
                ..old(self)@
            }),
    {
        let id = self.rt.alloc_cell(HeapData::Buffer { data, shared: true });
        SharedArrayBuffer { value: Local { inner: Value::Object(id) } }
    }
}

impl ArrayBuffer {
    /// The buffer's bytes.
    pub fn get<'a>(&self, ctxt: &'a ContextRef) -> (r: &'a Vec<u8>)
        requires
            buffer_at(ctxt@.rt.slots, self.value.inner, false) is Some,
        ensures
            r@ == buffer_at(ctxt@.rt.slots, self.value.inner, false)->Some_0,
    {
        let id = match &self.value.inner {
            Value::Object(id) => *id as usize,
            _ => 0,
        };
        match &ctxt.rt.slots[id].data {
            HeapData::Buffer { data, shared } => data,
            _ => vstd::pervasive::unreached(),
        }
    }

    /// The buffer's bytes, as a slice.
    pub fn slice<'a>(&self, ctxt: &'a ContextRef) -> (r: &'a [u8])
        requires
            buffer_at(ctxt@.rt.slots, self.value.inner, false) is Some,
        ensures
            r@ == buffer_at(ctxt@.rt.slots, self.value.inner, false)->Some_0,
    {
        self.get(ctxt).as_slice()
    }

    /// The buffer's bytes, writable.
    pub fn get_mut<'a>(&self, ctxt: &'a mut ContextRef) -> (r: &'a mut Vec<u8>)
        requires
            buffer_at(old(ctxt)@.rt.slots, self.value.inner, false) is Some,
        ensures
            r@ == buffer_at(old(ctxt)@.rt.slots, self.value.inner, false)->Some_0,
            final(ctxt)@ == (CtxtV {
                rt: RtV {
                    slots: old(ctxt)@.rt.slots.update(
                        self.value.inner->Object_0 as int,
                        SlotV {
                            data: DataV::Buffer(final(r)@, false),
                            ..old(ctxt)@.rt.slots[self.value.inner->Object_0 as int]
                        },
                    ),
                    ..old(ctxt)@.rt
                },
                ..old(ctxt)@
            }),
    {
        let id = match &self.value.inner {
            Value::Object(id) => *id as usize,
            _ => 0,
        };
        let slot = &mut ctxt.rt.slots[id];
        match &mut slot.data {
            HeapData::Buffer { data, shared } => data,
            _ => vstd::pervasive::unreached(),
        }
    }

    /// The buffer's bytes, as a writable slice.
    pub fn slice_mut<'a>(&self, ctxt: &'a mut ContextRef) -> (r: &'a mut Vec<u8>)
        requires
            buffer_at(old(ctxt)@.rt.slots, self.value.inner, false) is Some,
        ensures
            r@ == buffer_at(old(ctxt)@.rt.slots, self.value.inner, false)->Some_0,
            final(ctxt)@ == (CtxtV {
                rt: RtV {
                    slots: old(ctxt)@.rt.slots.update(
                        self.value.inner->Object_0 as int,
                        SlotV {
                            data: DataV::Buffer(final(r)@, false),
                            ..old(ctxt)@.rt.slots[self.value.inner->Object_0 as int]
                        },
                    ),
                    ..old(ctxt)@.rt
                },
                ..old(ctxt)@
            }),
    {
        self.get_mut(ctxt)
    }
}

impl SharedArrayBuffer {
    /// The buffer's bytes.
    pub fn get<'a>(&self, ctxt: &'a ContextRef) -> (r: &'a Vec<u8>)
        requires
            buffer_at(ctxt@.rt.slots, self.value.inner, true) is Some,
        ensures
            r@ == buffer_at(ctxt@.rt.slots, self.value.inner, true)->Some_0,
    {
        let id = match &self.value.inner {
            Value::Object(id) => *id as usize,
            _ => 0,
        };
        match &ctxt.rt.slots[id].data {
            HeapData::Buffer { data, shared } => data,
            _ => vstd::pervasive::unreached(),
        }
    }

    /// The buffer's bytes, as a slice.
    pub fn slice<'a>(&self, ctxt: &'a ContextRef) -> (r: &'a [u8])
        requires
            buffer_at(ctxt@.rt.slots, self.value.inner, true) is Some,
        ensures
            r@ == buffer_at(ctxt@.rt.slots, self.value.inner, true)->Some_0,
    {
        self.get(ctxt).as_slice()
    }

    /// The buffer's bytes, writable.
    pub fn get_mut<'a>(&self, ctxt: &'a mut ContextRef) -> (r: &'a mut Vec<u8>)
        requires
            buffer_at(old(ctxt)@.rt.slots, self.value.inner, true) is Some,
        ensures
            r@ == buffer_at(old(ctxt)@.rt.slots, self.value.inner, true)->Some_0,
            final(ctxt)@ == (CtxtV {
                rt: RtV {
                    slots: old(ctxt)@.rt.slots.update(
                        self.value.inner->Object_0 as int,
                        SlotV {
                            data: DataV::Buffer(final(r)@, true),
                            ..old(ctxt)@.rt.slots[self.value.inner->Object_0 as int]
                        },
                    ),
                    ..old(ctxt)@.rt
                },
                ..old(ctxt)@
            }),
    {
        let id = match &self.value.inner {
            Value::Object(id) => *id as usize,
            _ => 0,
        };
        let slot = &mut ctxt.rt.slots[id];
        match &mut slot.data {
            HeapData::Buffer { data, shared } => data,
            _ => vstd::pervasive::unreached(),
        }
    }

    /// The buffer's bytes, as a writable slice.
    pub fn slice_mut<'a>(&self, ctxt: &'a mut ContextRef) -> (r: &'a mut Vec<u8>)
        requires
            buffer_at(old(ctxt)@.rt.slots, self.value.inner, true) is Some,
        ensures
            r@ == buffer_at(old(ctxt)@.rt.slots, self.value.inner, true)->Some_0,
            final(ctxt)@ == (CtxtV {
                rt: RtV {
                    slots: old(ctxt)@.rt.slots.update(
                        self.value.inner->Object_0 as int,
                        SlotV {
                            data: DataV::Buffer(final(r)@, true),
                            ..old(ctxt)@.rt.slots[self.value.inner->Object_0 as int]
                        },
                    ),
                    ..old(ctxt)@.rt
                },
                ..old(ctxt)@
            }),
    {
        self.get_mut(ctxt)
    }
}

} // verus!
