//! The laws of the binding layer, proved once and for all over the model:
//! reference counting round trips, last-release reclamation, exact integer
//! conversion round trips, property round trips, the atom/text key
//! agreement, single finalization, and the classification of thrown
//! errors.

use vstd::prelude::*;

use crate::atom::{spec_can_intern, spec_intern, spec_intern_id};
use crate::context::CtxtV;
use crate::convert::{spec_to_int64, spec_value_text};
use crate::error::{spec_classify, spec_throw_error, EkV};
use crate::heap::{find_atom, find_prop, lemma_find_atom_from_sound, KeyV, PropV, SlotV,
    CLASS_USERDATA, JS_PROP_CONFIGURABLE, JS_PROP_C_W_E};
use crate::prop::{obj_at, spec_delete_prop, spec_get_prop, spec_has_prop, spec_set_prop};
use crate::runtime::{live_count, spec_clone_value, spec_free_value, valid_ref, RtV};
use crate::value::{spec_new_int64, FloatVal, Value, TRUE_VALUE};

verus! {

/// Replacing a live cell by a dead one lowers the number of live cells by
/// exactly one, over any prefix that contains it.
proof fn lemma_live_count_update(a: Seq<SlotV>, b: Seq<SlotV>, i: int, n: int)
    requires
        a.len() == b.len(),
        0 <= i < a.len(),
        a[i].live,
        !b[i].live,
        forall|j: int| 0 <= j < a.len() && j != i ==> a[j] == #[trigger] b[j],
        0 <= n <= a.len(),
    ensures
        live_count(b, n) == live_count(a, n) - if i < n {
            1int
        } else {
            0int
        },
    decreases n,
{
    if n > 0 {
        lemma_live_count_update(a, b, i, n - 1);
    }
}

/// Releasing the last reference to a cell reclaims it: the cell is no
/// longer live, its count is zero, and the engine's memory in use drops
/// by one cell.
pub proof fn lemma_release_last_reference(rt: RtV, v: Value)
    requires
        valid_ref(rt, v),
        v.spec_has_ref_cnt(),
        rt.slots[v.spec_ref_id() as int].refs == 1,
    ensures
        ({
            let rt1 = spec_free_value(rt, v);
            &&& !rt1.slots[v.spec_ref_id() as int].live
            &&& rt1.slots[v.spec_ref_id() as int].refs == 0
            &&& live_count(rt1.slots, rt1.slots.len() as int) == live_count(
                rt.slots,
                rt.slots.len() as int,
            ) - 1
        }),
{
    let rt1 = spec_free_value(rt, v);
    lemma_live_count_update(
        rt.slots,
        rt1.slots,
        v.spec_ref_id() as int,
        rt.slots.len() as int,
    );
}

/// Acquiring a reference and then releasing it leaves the runtime exactly
/// as it was: a clone followed by the release of both claims changes no
/// reference count.
pub proof fn lemma_clone_release_round_trip(rt: RtV, v: Value)
    requires
        valid_ref(rt, v),
        v.spec_has_ref_cnt() ==> rt.slots[v.spec_ref_id() as int].refs < u32::MAX,
    ensures
        spec_free_value(spec_clone_value(rt, v), v) == rt,
{
    if v.spec_has_ref_cnt() {
        let rt1 = spec_clone_value(rt, v);
        let rt2 = spec_free_value(rt1, v);
        assert(rt2.slots =~= rt.slots);
        assert(rt2 == rt);
    }
}

/// A host integer inside the engine's native-int range converts under the
/// integer tag and reads back exactly; a wider one falls back to the
/// float64 tag and round-trips through the coercing reader instead.
pub proof fn lemma_native_int_round_trip(n: i64)
    ensures
        i32::MIN <= n <= i32::MAX ==> spec_new_int64(n) == Value::Int(n as i32),
        !(i32::MIN <= n <= i32::MAX) ==> spec_new_int64(n) == Value::Float(
            FloatVal::Whole(n),
        ),
        spec_to_int64(spec_new_int64(n)) == Some(n),
{
}

/// A key missing from a property list is found exactly at the end after
/// it is appended there.
proof fn lemma_find_prop_from_push(props: Seq<PropV>, key: KeyV, p: PropV, i: int)
    requires
        0 <= i <= props.len(),
        crate::heap::find_prop_from(props, key, i) is None,
        p.key == key,
    ensures
        crate::heap::find_prop_from(props.push(p), key, i) == Some(props.len() as int),
    decreases props.len() - i,
{
    if i < props.len() {
        lemma_find_prop_from_push(props, key, p, i + 1);
    }
}

/// Setting a fresh property on an extensible object succeeds, and getting
/// it back by the same key returns exactly the stored value; deleting it
/// afterwards succeeds and leaves the key absent.
pub proof fn lemma_property_round_trip(c: CtxtV, oid: int, key: KeyV, val: Value)
    requires
        obj_at(c.rt.slots, oid) matches Some(o) && o.extensible && find_prop(o.props, key)
            is None,
        valid_ref(c.rt, val),
    ensures
        ({
            let (c2, ret) = spec_set_prop(c, oid, key, val);
            &&& ret == TRUE_VALUE
            &&& spec_get_prop(c2.rt.slots, oid, key) == Some(val)
            &&& spec_has_prop(c2.rt.slots, oid, key)
            &&& ({
                let (c3, ret3) = spec_delete_prop(c2, oid, key);
                ret3 == TRUE_VALUE && !spec_has_prop(c3.rt.slots, oid, key)
            })
        }),
{
    let o = obj_at(c.rt.slots, oid)->Some_0;
    let p = PropV { key, value: val, flags: JS_PROP_C_W_E };
    lemma_find_prop_from_push(o.props, key, p, 0);
    let (c2, ret) = spec_set_prop(c, oid, key, val);
    let o2 = obj_at(c2.rt.slots, oid)->Some_0;
    assert(o2.props == o.props.push(p));
    assert(spec_get_prop(c2.rt.slots, oid, key) == Some(val));
    assert(JS_PROP_C_W_E & JS_PROP_CONFIGURABLE != 0) by (bit_vector);
    let (c3, ret3) = spec_delete_prop(c2, oid, key);
    assert(o2.props.remove(o.props.len() as int) =~= o.props);
    if val.spec_has_ref_cnt() {
        let x = val.spec_ref_id() as int;
        if x != oid {
            assert(obj_at(c3.rt.slots, oid)->Some_0.props == o.props);
        }
    }
    if obj_at(c3.rt.slots, oid) is Some {
        let o3 = obj_at(c3.rt.slots, oid)->Some_0;
        assert(o3.props == o.props);
    }
}

/// Two property lists with the same keys at the same places are searched
/// alike.
proof fn lemma_find_prop_same_keys(a: Seq<PropV>, b: Seq<PropV>, key: KeyV, s: int)
    requires
        a.len() == b.len(),
        forall|j: int| 0 <= j < a.len() ==> a[j].key == #[trigger] b[j].key,
        0 <= s <= a.len(),
    ensures
        crate::heap::find_prop_from(a, key, s) == crate::heap::find_prop_from(b, key, s),
    decreases a.len() - s,
{
    if s < a.len() {
        lemma_find_prop_same_keys(a, b, key, s + 1);
    }
}

/// Overwriting an existing writable property succeeds, and getting the
/// key back returns exactly the new value. The one store left out is a
/// stored self-reference that is the object's last reference: the object
/// would die under the overwrite.
pub proof fn lemma_property_overwrite(c: CtxtV, oid: int, key: KeyV, val: Value)
    requires
        obj_at(c.rt.slots, oid) matches Some(o) && match find_prop(o.props, key) {
            Some(i) => o.props[i].flags & crate::heap::JS_PROP_WRITABLE != 0
                && crate::prop::prop_val_ok(c.rt.slots, o.props[i].value) && (o.props[
                i].value.spec_has_ref_cnt() ==> !(o.props[i].value.spec_ref_id() == oid
                && c.rt.slots[oid].refs == 1)),
            None => false,
        },
    ensures
        ({
            let (c2, ret) = spec_set_prop(c, oid, key, val);
            &&& ret == TRUE_VALUE
            &&& spec_get_prop(c2.rt.slots, oid, key) == Some(val)
        }),
{
    let o = obj_at(c.rt.slots, oid)->Some_0;
    let i = find_prop(o.props, key)->Some_0;
    crate::heap::lemma_find_prop_from_sound(o.props, key, 0);
    let props2 = o.props.update(i, PropV { value: val, ..o.props[i] });
    lemma_find_prop_same_keys(o.props, props2, key, 0);
    let (c2, ret) = spec_set_prop(c, oid, key, val);
    let old_val = o.props[i].value;
    if old_val.spec_has_ref_cnt() {
        let x = old_val.spec_ref_id() as int;
        if x == oid {
            assert(c2.rt.slots[oid].live);
            assert(obj_at(c2.rt.slots, oid)->Some_0.props == props2);
        } else {
            assert(obj_at(c2.rt.slots, oid)->Some_0.props == props2);
        }
    } else {
        assert(obj_at(c2.rt.slots, oid)->Some_0.props == props2);
    }
}

/// The atom interned for a key stands for exactly that key: a property
/// reached through the atom is the property reached through the key's
/// own text or index.
pub proof fn lemma_intern_resolves_key(rt: RtV, key: KeyV)
    requires
        spec_can_intern(rt, key),
        rt.atoms.len() < u32::MAX,
    ensures
        spec_intern(rt, key).atoms[spec_intern_id(rt, key) as int].key == key,
        spec_intern(rt, key).atoms[spec_intern_id(rt, key) as int].live,
{
    lemma_find_atom_from_sound(rt.atoms, key, 0);
    match find_atom(rt.atoms, key) {
        Some(i) => {
            assert(rt.atoms[i].key == key);
        },
        None => {},
    }
}

/// The finalizer of a userdata object runs exactly once: releasing the
/// last reference appends the object's opaque word to the finalizer log,
/// while every earlier release leaves the log untouched.
pub proof fn lemma_finalizer_runs_once(rt: RtV, v: Value)
    requires
        valid_ref(rt, v),
        v is Object,
        obj_at(rt.slots, v->Object_0 as int) matches Some(o) && o.class_id == CLASS_USERDATA
            && o.opaque != 0,
    ensures
        ({
            let o = obj_at(rt.slots, v->Object_0 as int)->Some_0;
            &&& rt.slots[v->Object_0 as int].refs == 1 ==> spec_free_value(rt, v).finalized
                == rt.finalized.push(o.opaque)
            &&& rt.slots[v->Object_0 as int].refs > 1 ==> spec_free_value(rt, v).finalized
                == rt.finalized
        }),
{
}

/// A thrown value that is no error instance classifies as `Throw` of its
/// text.
pub proof fn lemma_thrown_value_classifies(slots: Seq<SlotV>, v: Value)
    requires
        !(v is Object),
        spec_value_text(slots, v) is Some,
    ensures
        spec_classify(slots, v) == Some(EkV::Throw(spec_value_text(slots, v)->Some_0)),
{
}

/// Throwing a type error and classifying the pending exception round
/// trips: the classification recovers exactly the message and stack the
/// throw carried.
pub proof fn lemma_throw_classify_round_trip(c: CtxtV, msg: Seq<char>, stack: Option<Seq<
    char,
>>)
    requires
        crate::error::spec_pending_valid(c),
        c.rt.slots.len() + 4 < u32::MAX,
    ensures
        ({
            let c2 = spec_throw_error(c, "TypeError"@, msg, stack);
            &&& c2.pending matches Some(p) && spec_classify(c2.rt.slots, p) == Some(
                EkV::TypeError(msg, stack),
            )
        }),
{
    lemma_throw_error_classifies(c, "TypeError"@, msg, stack);
    reveal_strlit("TypeError");
    reveal_strlit("EvalError");
    reveal_strlit("InternalError");
    reveal_strlit("RangeError");
    reveal_strlit("ReferenceError");
    reveal_strlit("SyntaxError");
    reveal_strlit("URIError");
    reveal_strlit("Error");
    assert("TypeError"@ != "EvalError"@) by {
        assert("TypeError"@[0] != "EvalError"@[0]);
    }
    assert("TypeError"@ != "InternalError"@) by {
        assert("TypeError"@.len() != "InternalError"@.len());
    }
    assert("TypeError"@ != "RangeError"@) by {
        assert("TypeError"@.len() != "RangeError"@.len());
    }
    assert("TypeError"@ != "ReferenceError"@) by {
        assert("TypeError"@.len() != "ReferenceError"@.len());
    }
    assert("TypeError"@ != "SyntaxError"@) by {
        assert("TypeError"@[0] != "SyntaxError"@[0]);
    }
    assert("TypeError"@ != "URIError"@) by {
        assert("TypeError"@.len() != "URIError"@.len());
    }
}

/// Throwing a named error leaves a pending error instance whose `name`,
/// `message` and `stack` read back as thrown.
pub proof fn lemma_throw_error_classifies(
    c: CtxtV,
    name: Seq<char>,
    msg: Seq<char>,
    stack: Option<Seq<char>>,
)
    requires
        crate::error::spec_pending_valid(c),
        c.rt.slots.len() + 4 < u32::MAX,
    ensures
        ({
            let c2 = spec_throw_error(c, name, msg, stack);
            &&& c2.pending matches Some(p)
            &&& crate::error::spec_is_error(c2.rt.slots, p)
            &&& crate::error::spec_prop_text(c2.rt.slots, p->Object_0 as int, "name"@)
                == Some(name)
            &&& crate::error::spec_prop_text(c2.rt.slots, p->Object_0 as int, "message"@)
                == Some(msg)
            &&& crate::error::spec_prop_text(c2.rt.slots, p->Object_0 as int, "stack"@)
                == stack
        }),
{
    let base = c.rt.slots.len() as int;
    let cells = crate::error::spec_error_cells(base, name, msg, stack);
    let oid = crate::error::spec_error_obj_id(base, stack);
    let built = crate::error::spec_build_error(c, name, msg, stack);
    let c2 = spec_throw_error(c, name, msg, stack);
    reveal_strlit("name");
    reveal_strlit("message");
    reveal_strlit("stack");
    assert("name"@ != "message"@) by {
        assert("name"@.len() != "message"@.len());
    }
    assert("name"@ != "stack"@) by {
        assert("name"@[0] != "stack"@[0]);
    }
    assert("message"@ != "stack"@) by {
        assert("message"@.len() != "stack"@.len());
    }
    assert(built.rt.slots[oid] == cells[oid - base]);
    assert(built.rt.slots[base] == cells[0]);
    assert(built.rt.slots[base + 1] == cells[1]);
    match stack {
        Some(_) => {
            assert(built.rt.slots[base + 2] == cells[2]);
        },
        None => {},
    }
    match c.pending {
        Some(p0) => {
            if p0.spec_has_ref_cnt() {
                let x = p0.spec_ref_id() as int;
                assert(x < base);
                assert(c2.rt.slots[oid] == built.rt.slots[oid]);
                assert(c2.rt.slots[base] == built.rt.slots[base]);
                assert(c2.rt.slots[base + 1] == built.rt.slots[base + 1]);
                match stack {
                    Some(_) => {
                        assert(c2.rt.slots[base + 2] == built.rt.slots[base + 2]);
                    },
                    None => {},
                }
            } else {
                assert(c2.rt.slots == built.rt.slots);
            }
        },
        None => {
            assert(c2.rt.slots == built.rt.slots);
        },
    }
    let po = obj_at(c2.rt.slots, oid)->Some_0;
    let props = po.props;
    assert(props[0].key == KeyV::Text("name"@) && props[0].value == Value::Str(base as u32));
    assert(props[1].key == KeyV::Text("message"@) && props[1].value == Value::Str(
        (base + 1) as u32,
    ));
    assert(find_prop(props, KeyV::Text("name"@)) == Some(0int));
    assert(spec_value_text(c2.rt.slots, Value::Str(base as u32)) == Some(name));
    assert(crate::error::spec_prop_text(c2.rt.slots, oid, "name"@) == Some(name));
    assert(crate::heap::find_prop_from(props, KeyV::Text("message"@), 1) == Some(1int));
    assert(find_prop(props, KeyV::Text("message"@)) == Some(1int));
    assert(spec_value_text(c2.rt.slots, Value::Str((base + 1) as u32)) == Some(msg));
    assert(crate::error::spec_prop_text(c2.rt.slots, oid, "message"@) == Some(msg));
    match stack {
        Some(st) => {
            assert(props[2].key == KeyV::Text("stack"@) && props[2].value == Value::Str(
                (base + 2) as u32,
            ));
            assert(crate::heap::find_prop_from(props, KeyV::Text("stack"@), 2) == Some(
                2int,
            ));
            assert(crate::heap::find_prop_from(props, KeyV::Text("stack"@), 1) == Some(
                2int,
            ));
            assert(find_prop(props, KeyV::Text("stack"@)) == Some(2int));
            assert(spec_value_text(c2.rt.slots, Value::Str((base + 2) as u32)) == Some(st));
            assert(crate::error::spec_prop_text(c2.rt.slots, oid, "stack"@) == Some(st));
        },
        None => {
            assert(crate::heap::find_prop_from(props, KeyV::Text("stack"@), 2) is None);
            assert(crate::heap::find_prop_from(props, KeyV::Text("stack"@), 1) is None);
            assert(find_prop(props, KeyV::Text("stack"@)) is None);
            assert(crate::error::spec_prop_text(c2.rt.slots, oid, "stack"@) is None);
        },
    }
}

} // verus!
