//! The engine runtime: one heap of reference-counted cells, one atom table,
//! the class registry, and the log of finalized userdata words.
//!
//! Several runtimes can exist at the same time but they never exchange
//! values; inside one runtime no concurrency is supported. The reference
//! count of a cell is the only shared mutable resource this layer manages,
//! and every change to it goes through the acquire/release operations
//! defined here.

use vstd::prelude::*;

use crate::heap::{AtomSlot, AtomV, ClassId, DataV, HeapData, Slot, SlotV, CLASS_ID_FIRST_FREE,
    CLASS_USERDATA};
use crate::value::Value;

verus! {

/// Mathematical view of a runtime.
#[verifier::ext_equal]
pub struct RtV {
    /// The heap cells, by index.
    pub slots: Seq<SlotV>,
    /// The interned atoms, by index.
    pub atoms: Seq<AtomV>,
    /// The next class identifier to hand out.
    pub next_class_id: ClassId,
    /// The opaque words whose finalizer has run, in order.
    pub finalized: Seq<u64>,
    /// The queued jobs, oldest first: each holds the values the host's
    /// job function is handed when the job runs.
    pub jobs: Seq<Seq<Value>>,
}

/// A runtime: the engine's heap together with its atom table and class
/// registry.
#[derive(Debug)]
pub struct Runtime {
    /// The heap cells, by index.
    pub slots: Vec<Slot>,
    /// The interned atoms, by index.
    pub atoms: Vec<AtomSlot>,
    /// The next class identifier to hand out.
    pub next_class_id: ClassId,
    /// The opaque words whose finalizer has run, in order.
    pub finalized: Vec<u64>,
    /// The queued jobs, oldest first.
    pub jobs: Vec<Vec<Value>>,
}

/// The borrowed form of a [`Runtime`].
pub type RuntimeRef = Runtime;

impl View for Runtime {
    type V = RtV;

    open spec fn view(&self) -> RtV {
        RtV {
            slots: Seq::new(self.slots@.len(), |i: int| self.slots@[i]@),
            atoms: Seq::new(self.atoms@.len(), |i: int| self.atoms@[i]@),
            next_class_id: self.next_class_id,
            finalized: self.finalized@,
            jobs: Seq::new(self.jobs@.len(), |i: int| self.jobs@[i]@),
        }
    }
}

/// Whether a value may be handed to the runtime: a value without a
/// reference count always may; a reference-counted one must name a live
/// cell that still holds at least one reference.
pub open spec fn valid_ref(rt: RtV, v: Value) -> bool {
    v.spec_has_ref_cnt() ==> {
        let id = v.spec_ref_id() as int;
        &&& id < rt.slots.len()
        &&& rt.slots[id].live
        &&& rt.slots[id].refs >= 1
    }
}

/// The runtime after one more reference is acquired on `v`; without a
/// reference count nothing changes.
pub open spec fn spec_clone_value(rt: RtV, v: Value) -> RtV {
    if !v.spec_has_ref_cnt() {
        rt
    } else {
        let id = v.spec_ref_id() as int;
        let s = rt.slots[id];
        RtV { slots: rt.slots.update(id, SlotV { refs: (s.refs + 1) as u32, ..s }), ..rt }
    }
}

/// Whether releasing `v` reclaims its cell: it does exactly when the cell's
/// count is about to reach zero.
pub open spec fn spec_free_reclaims(rt: RtV, v: Value) -> bool {
    v.spec_has_ref_cnt() && rt.slots[v.spec_ref_id() as int].refs == 1
}

/// Whether reclaiming the cell of `v` runs the userdata finalizer: the cell
/// is an object of the userdata class with an opaque word attached.
pub open spec fn spec_free_finalizes(rt: RtV, v: Value) -> Option<u64> {
    if spec_free_reclaims(rt, v) {
        match rt.slots[v.spec_ref_id() as int].data {
            DataV::Obj(o) => if o.class_id == CLASS_USERDATA && o.opaque != 0 {
                Some(o.opaque)
            } else {
                None
            },
            _ => None,
        }
    } else {
        None
    }
}

/// The runtime after one reference to `v` is released: the count drops by
/// one; when it reaches zero the cell is reclaimed, and a reclaimed
/// userdata object has its finalizer run exactly once, appending its opaque
/// word to the log.
pub open spec fn spec_free_value(rt: RtV, v: Value) -> RtV {
    if !v.spec_has_ref_cnt() {
        rt
    } else {
        let id = v.spec_ref_id() as int;
        let s = rt.slots[id];
        if s.refs > 1 {
            RtV { slots: rt.slots.update(id, SlotV { refs: (s.refs - 1) as u32, ..s }), ..rt }
        } else {
            RtV {
                slots: rt.slots.update(
                    id,
                    SlotV { live: false, refs: 0, data: DataV::Freed },
                ),
                finalized: match spec_free_finalizes(rt, v) {
                    Some(word) => rt.finalized.push(word),
                    None => rt.finalized,
                },
                ..rt
            }
        }
    }
}

/// The runtime after a fresh cell holding `data` is allocated with one
/// reference; the new cell's index is the old heap length.
pub open spec fn spec_alloc(rt: RtV, data: DataV) -> RtV {
    RtV { slots: rt.slots.push(SlotV { live: true, refs: 1, data }), ..rt }
}

/// The number of live cells in a heap.
pub open spec fn live_count(slots: Seq<SlotV>, n: int) -> int
    decreases n,
{
    if n <= 0 {
        0
    } else {
        live_count(slots, n - 1) + if slots[n - 1].live {
            1int
        } else {
            0int
        }
    }
}

/// A host interrupt handler's answer, polled by the engine during
/// execution.
#[derive(Clone, Copy, Debug, PartialEq, Eq)]
pub enum Interrupt {
    /// Break the execution.
    Break,
    /// Continue the execution.
    Continue,
}

/// The status the binding hands the engine for an interrupt handler's
/// outcome; a handler that panicked (`None`) breaks execution rather than
/// unwinding through the engine's frames.
pub fn interrupt_result(outcome: Option<Interrupt>) -> (r: i32)
    ensures
        r == (match outcome {
            Some(Interrupt::Continue) => crate::value::FALSE_VALUE,
            _ => crate::value::TRUE_VALUE,
        }),
{
    match outcome {
        Some(Interrupt::Continue) => crate::value::FALSE_VALUE,
        _ => crate::value::TRUE_VALUE,
    }
}

impl Runtime {
    /// A fresh runtime: empty heap, empty atom table, no finalized words,
    /// and the userdata class already registered.
    pub fn new() -> (rt: Runtime)
        ensures
            rt@.slots =~= Seq::<SlotV>::empty(),
            rt@.atoms =~= Seq::<AtomV>::empty(),
            rt@.finalized =~= Seq::<u64>::empty(),
            rt@.jobs =~= Seq::<Seq<Value>>::empty(),
            rt@.next_class_id == CLASS_ID_FIRST_FREE,
    {
        Runtime {
            slots: Vec::new(),
            atoms: Vec::new(),
            next_class_id: CLASS_ID_FIRST_FREE,
            finalized: Vec::new(),
            jobs: Vec::new(),
        }
    }

    /// The class identifier under which host userdata objects live; it is
    /// registered once, when the runtime is created.
    pub fn userdata_class_id() -> (id: ClassId)
        ensures
            id == CLASS_USERDATA,
    {
        CLASS_USERDATA
    }

    /// A fresh class identifier, never handed out before on this runtime.
    pub fn new_class_id(&mut self) -> (id: ClassId)
        requires
            old(self)@.next_class_id < u32::MAX,
        ensures
            id == old(self)@.next_class_id,
            final(self)@ == (RtV { next_class_id: (id + 1) as u32, ..old(self)@ }),
    {
        let id = self.next_class_id;
        self.next_class_id = id + 1;
        proof {
            assert(self@.slots =~= old(self)@.slots);
            assert(self@.atoms =~= old(self)@.atoms);
        }
        id
    }

    /// Whether `v` names a live object cell of this runtime.
    pub fn is_live_object(&self, v: &Value) -> (r: bool)
        ensures
            r == (v.spec_has_ref_cnt() && v.spec_ref_id() < self@.slots.len()
                && self@.slots[v.spec_ref_id() as int].live),
    {
        if !v.has_ref_cnt() {
            return false;
        }
        let id = v.ref_id();
        (id as usize) < self.slots.len() && self.slots[id as usize].live
    }

    /// Force a garbage collection cycle. Reference counting in this model
    /// reclaims every cell as its last reference goes away and no cell ever
    /// forms a cycle, so a collection pass finds nothing left to free.
    pub fn run_gc(&mut self)
        ensures
            final(self)@ == old(self)@,
    {
        proof {
            assert(self@.slots =~= old(self)@.slots);
            assert(self@.atoms =~= old(self)@.atoms);
        }
    }

    /// The number of live heap cells: the model's measure of engine memory
    /// in use.
    pub fn memory_usage(&self) -> (n: usize)
        ensures
            n == live_count(self@.slots, self@.slots.len() as int),
    {
        let mut n: usize = 0;
        let mut i: usize = 0;
        while i < self.slots.len()
            invariant
                i <= self.slots@.len(),
                n == live_count(self@.slots, i as int),
                n <= i,
            decreases self.slots@.len() - i,
        {
            if self.slots[i].live {
                n = n + 1;
            }
            i = i + 1;
        }
        n
    }

    /// Acquire one more reference on `v`.
    pub fn clone_value_rt(&mut self, v: &Value) -> (r: Value)
        requires
            valid_ref(old(self)@, *v),
            v.spec_has_ref_cnt() ==> old(self)@.slots[v.spec_ref_id() as int].refs < u32::MAX,
        ensures
            r == v,
            final(self)@ == spec_clone_value(old(self)@, *v),
    {
        if v.has_ref_cnt() {
            let id = v.ref_id() as usize;
            let refs = self.slots[id].refs;
            self.slots[id].refs = refs + 1;
            proof {
                assert(self@.slots =~= spec_clone_value(old(self)@, *v).slots);
                assert(self@.atoms =~= old(self)@.atoms);
            }
        }
        *v
    }

    /// Release one reference on `v`; reclaim its cell when the count
    /// reaches zero, running the userdata finalizer if one is attached.
    pub fn free_value_rt(&mut self, v: Value)
        requires
            valid_ref(old(self)@, v),
        ensures
            final(self)@ == spec_free_value(old(self)@, v),
    {
        if v.has_ref_cnt() {
            let id = v.ref_id() as usize;
            let refs = self.slots[id].refs;
            if refs > 1 {
                self.slots[id].refs = refs - 1;
                proof {
                    assert(self@.slots =~= spec_free_value(old(self)@, v).slots);
                    assert(self@.atoms =~= old(self)@.atoms);
                }
            } else {
                let word: u64 = match &self.slots[id].data {
                    HeapData::Obj(o) => if o.class_id == CLASS_USERDATA {
                        o.opaque
                    } else {
                        0
                    },
                    _ => 0,
                };
                if word != 0 {
                    self.finalized.push(word);
                }
                self.slots[id] = Slot { live: false, refs: 0, data: HeapData::Freed };
                proof {
                    assert(self@.slots =~= spec_free_value(old(self)@, v).slots);
                    assert(self@.atoms =~= old(self)@.atoms);
                }
            }
        }
    }

    /// Allocate a fresh cell holding `data`, with one reference; the new
    /// cell's index is returned.
    pub fn alloc_cell(&mut self, data: HeapData) -> (id: u32)
        requires
            old(self)@.slots.len() < u32::MAX,
        ensures
            id == old(self)@.slots.len(),
            final(self)@ == spec_alloc(old(self)@, data@),
    {
        let id = self.slots.len() as u32;
        self.slots.push(Slot { live: true, refs: 1, data });
        proof {
            assert(self@.slots =~= spec_alloc(old(self)@, data@).slots);
            assert(self@.atoms =~= old(self)@.atoms);
        }
        id
    }

    /// Whether a queued job is still waiting to run.
    pub fn is_job_pending(&self) -> (r: bool)
        ensures
            r == (self@.jobs.len() > 0),
    {
        self.jobs.len() > 0
    }

    /// The reference count of the cell `v` names, when it names one.
    pub fn ref_cnt(&self, v: &Value) -> (r: Option<u32>)
        requires
            valid_ref(self@, *v),
        ensures
            r == (if v.spec_has_ref_cnt() {
                Some(self@.slots[v.spec_ref_id() as int].refs)
            } else {
                None::<u32>
            }),
    {
        if v.has_ref_cnt() {
            Some(self.slots[v.ref_id() as usize].refs)
        } else {
            None
        }
    }
}

} // verus!
