//! The model of the engine's heap.
//!
//! The engine owns a heap of reference-counted cells — strings, objects,
//! buffers, big numbers — and a table of interned atoms. This module holds
//! the executable representation of that state together with its
//! mathematical view: every cell maps to a [`SlotV`], every atom to an
//! [`AtomV`], and the contracts of the whole crate are stated over these
//! views.

use vstd::prelude::*;

use crate::value::Value;

verus! {

/// Identifier of an engine object class.
pub type ClassId = u32;

/// Class of plain objects.
pub const CLASS_OBJECT: ClassId = 1;
/// Class of error objects.
pub const CLASS_ERROR: ClassId = 2;
/// Class of native function objects.
pub const CLASS_C_FUNCTION: ClassId = 3;
/// Class of array buffer objects.
pub const CLASS_ARRAY_BUFFER: ClassId = 4;
/// Class of shared array buffer objects.
pub const CLASS_SHARED_ARRAY_BUFFER: ClassId = 5;
/// Class registered for host userdata objects when a runtime is created.
pub const CLASS_USERDATA: ClassId = 6;
/// First class identifier handed out to the embedding application.
pub const CLASS_ID_FIRST_FREE: ClassId = 7;

/// Property attribute: the descriptor may be changed or the property
/// deleted.
pub const JS_PROP_CONFIGURABLE: u32 = 1;
/// Property attribute: the value may be changed by assignment.
pub const JS_PROP_WRITABLE: u32 = 2;
/// Property attribute: the property shows up during enumeration.
pub const JS_PROP_ENUMERABLE: u32 = 4;
/// The three ordinary attributes together.
pub const JS_PROP_C_W_E: u32 = 7;
/// Ask a failing property operation to throw instead of reporting false.
pub const JS_PROP_THROW: u32 = 16384;

/// Name-listing mask: include string keys.
pub const JS_GPN_STRING_MASK: u32 = 1;
/// Name-listing mask: include symbol keys.
pub const JS_GPN_SYMBOL_MASK: u32 = 2;
/// Name-listing mask: only include enumerable properties.
pub const JS_GPN_ENUM_ONLY: u32 = 16;

/// A property key: interned text, or an array index.
#[derive(Clone, Debug, PartialEq, Eq)]
pub enum PropKey {
    /// A textual key.
    Text(String),
    /// An array index key.
    Index(u32),
}

/// Mathematical view of a property key.
#[verifier::ext_equal]
pub enum KeyV {
    /// A textual key.
    Text(Seq<char>),
    /// An array index key.
    Index(u32),
}

impl View for PropKey {
    type V = KeyV;

    open spec fn view(&self) -> KeyV {
        match self {
            PropKey::Text(s) => KeyV::Text(s@),
            PropKey::Index(i) => KeyV::Index(*i),
        }
    }
}

impl PropKey {
    /// Whether two keys denote the same property.
    pub fn same_key(&self, other: &PropKey) -> (r: bool)
        ensures
            r == (self@ == other@),
    {
        match (self, other) {
            (PropKey::Text(a), PropKey::Text(b)) => *a == *b,
            (PropKey::Index(a), PropKey::Index(b)) => *a == *b,
            _ => false,
        }
    }
}

/// One property of an object: key, value and attribute flags. The stored
/// value carries one reference that the object owns.
#[derive(Clone, Debug)]
pub struct PropEntry {
    /// The property's key.
    pub key: PropKey,
    /// The stored value; the object holds one reference to it.
    pub value: Value,
    /// Attribute flags (writable, configurable, enumerable).
    pub flags: u32,
}

/// Mathematical view of a property.
#[verifier::ext_equal]
pub struct PropV {
    /// The property's key.
    pub key: KeyV,
    /// The stored value.
    pub value: Value,
    /// Attribute flags.
    pub flags: u32,
}

impl View for PropEntry {
    type V = PropV;

    open spec fn view(&self) -> PropV {
        PropV { key: self.key@, value: self.value, flags: self.flags }
    }
}

/// What calling an object does, as far as the engine itself can answer the
/// call. Calls into host closures leave the model: the engine only carries
/// the closure's associated data and hands it back at call time.
#[derive(Clone, Debug)]
pub enum Callable {
    /// Not a function object.
    NotCallable,
    /// A built-in error constructor, carrying the error class name.
    ErrorCtor(String),
    /// A host native function: the engine stores the associated data values
    /// and returns them to the host when the function is invoked.
    Native(Vec<Value>),
}

/// Mathematical view of a callable.
#[verifier::ext_equal]
pub enum CallableV {
    /// Not a function object.
    NotCallable,
    /// A built-in error constructor, carrying the error class name.
    ErrorCtor(Seq<char>),
    /// A host native function with its associated data values.
    Native(Seq<Value>),
}

impl View for Callable {
    type V = CallableV;

    open spec fn view(&self) -> CallableV {
        match self {
            Callable::NotCallable => CallableV::NotCallable,
            Callable::ErrorCtor(name) => CallableV::ErrorCtor(name@),
            Callable::Native(data) => CallableV::Native(data@),
        }
    }
}

/// An object cell: class, properties, extensibility, the opaque host word
/// and what calling the object does.
#[derive(Clone, Debug)]
pub struct ObjectData {
    /// The object's class identifier.
    pub class_id: ClassId,
    /// The object's own properties, in insertion order.
    pub props: Vec<PropEntry>,
    /// Whether new properties may still be added.
    pub extensible: bool,
    /// The opaque host word (zero when none is attached).
    pub opaque: u64,
    /// What calling this object does.
    pub call: Callable,
}

/// Mathematical view of an object cell.
#[verifier::ext_equal]
pub struct ObjV {
    /// The object's class identifier.
    pub class_id: ClassId,
    /// The object's own properties, in insertion order.
    pub props: Seq<PropV>,
    /// Whether new properties may still be added.
    pub extensible: bool,
    /// The opaque host word (zero when none is attached).
    pub opaque: u64,
    /// What calling this object does.
    pub call: CallableV,
}

/// The view of a property vector, element by element.
pub open spec fn props_view(props: &Vec<PropEntry>) -> Seq<PropV> {
    Seq::new(props@.len(), |i: int| props@[i]@)
}

impl View for ObjectData {
    type V = ObjV;

    open spec fn view(&self) -> ObjV {
        ObjV {
            class_id: self.class_id,
            props: props_view(&self.props),
            extensible: self.extensible,
            opaque: self.opaque,
            call: self.call@,
        }
    }
}

/// The index of the first property with the given key, found by one pass
/// over the vector.
pub fn find_prop_idx(props: &Vec<PropEntry>, key: &PropKey) -> (r: Option<usize>)
    ensures
        match r {
            Some(i) => i < props@.len() && find_prop(props_view(props), key@) == Some(
                i as int,
            ) && props_view(props)[i as int].key == key@,
            None => find_prop(props_view(props), key@) is None,
        },
{
    let mut i: usize = 0;
    while i < props.len()
        invariant
            i <= props@.len(),
            find_prop(props_view(props), key@) == find_prop_from(props_view(props), key@,
                i as int),
        decreases props@.len() - i,
    {
        if props[i].key.same_key(key) {
            return Some(i);
        }
        i = i + 1;
    }
    None
}

/// What a heap cell holds.
#[derive(Clone, Debug)]
pub enum HeapData {
    /// A string cell.
    Text(String),
    /// An object cell.
    Obj(ObjectData),
    /// An array buffer cell; `shared` marks a shared buffer.
    Buffer { data: Vec<u8>, shared: bool },
    /// A big number cell, at the precision this layer observes.
    BigNum(i64),
    /// A reclaimed cell holds nothing.
    Freed,
}

/// Mathematical view of a heap cell's payload.
#[verifier::ext_equal]
pub enum DataV {
    /// A string cell.
    Text(Seq<char>),
    /// An object cell.
    Obj(ObjV),
    /// An array buffer cell; the flag marks a shared buffer.
    Buffer(Seq<u8>, bool),
    /// A big number cell.
    BigNum(i64),
    /// A reclaimed cell.
    Freed,
}

impl View for HeapData {
    type V = DataV;

    open spec fn view(&self) -> DataV {
        match self {
            HeapData::Text(s) => DataV::Text(s@),
            HeapData::Obj(o) => DataV::Obj(o@),
            HeapData::Buffer { data, shared } => DataV::Buffer(data@, *shared),
            HeapData::BigNum(n) => DataV::BigNum(*n),
            HeapData::Freed => DataV::Freed,
        }
    }
}

/// One heap cell: liveness, reference count and payload.
#[derive(Clone, Debug)]
pub struct Slot {
    /// Whether the cell is still allocated.
    pub live: bool,
    /// The cell's reference count.
    pub refs: u32,
    /// The cell's payload.
    pub data: HeapData,
}

/// Mathematical view of a heap cell.
#[verifier::ext_equal]
pub struct SlotV {
    /// Whether the cell is still allocated.
    pub live: bool,
    /// The cell's reference count.
    pub refs: u32,
    /// The cell's payload.
    pub data: DataV,
}

impl View for Slot {
    type V = SlotV;

    open spec fn view(&self) -> SlotV {
        SlotV { live: self.live, refs: self.refs, data: self.data@ }
    }
}

/// One interned atom: liveness, reference count and the key it stands for.
#[derive(Clone, Debug)]
pub struct AtomSlot {
    /// Whether the atom is still interned.
    pub live: bool,
    /// The atom's reference count.
    pub refs: u32,
    /// The key this atom stands for.
    pub key: PropKey,
}

/// Mathematical view of an interned atom.
#[verifier::ext_equal]
pub struct AtomV {
    /// Whether the atom is still interned.
    pub live: bool,
    /// The atom's reference count.
    pub refs: u32,
    /// The key this atom stands for.
    pub key: KeyV,
}

impl View for AtomSlot {
    type V = AtomV;

    open spec fn view(&self) -> AtomV {
        AtomV { live: self.live, refs: self.refs, key: self.key@ }
    }
}

/// The index of the first property with the given key, searching from `i`.
pub open spec fn find_prop_from(props: Seq<PropV>, key: KeyV, i: int) -> Option<int>
    decreases props.len() - i,
{
    if i < 0 || i >= props.len() {
        None
    } else if props[i].key == key {
        Some(i)
    } else {
        find_prop_from(props, key, i + 1)
    }
}

/// The index of the first property with the given key.
pub open spec fn find_prop(props: Seq<PropV>, key: KeyV) -> Option<int> {
    find_prop_from(props, key, 0)
}

/// The index of the live atom interned for the given key, searching from
/// `i`.
pub open spec fn find_atom_from(atoms: Seq<AtomV>, key: KeyV, i: int) -> Option<int>
    decreases atoms.len() - i,
{
    if i < 0 || i >= atoms.len() {
        None
    } else if atoms[i].live && atoms[i].key == key {
        Some(i)
    } else {
        find_atom_from(atoms, key, i + 1)
    }
}

/// The index of the live atom interned for the given key.
pub open spec fn find_atom(atoms: Seq<AtomV>, key: KeyV) -> Option<int> {
    find_atom_from(atoms, key, 0)
}

/// A found property index lies in range and matches the key, and is the
/// first such index.
pub proof fn lemma_find_prop_from_sound(props: Seq<PropV>, key: KeyV, i: int)
    requires
        0 <= i <= props.len(),
    ensures
        match find_prop_from(props, key, i) {
            Some(j) => i <= j < props.len() && props[j].key == key && (forall|k: int|
                i <= k < j ==> props[k].key != key),
            None => forall|k: int| i <= k < props.len() ==> props[k].key != key,
        },
    decreases props.len() - i,
{
    if i < props.len() && props[i].key != key {
        lemma_find_prop_from_sound(props, key, i + 1);
    }
}

/// A found atom index lies in range, is live and matches the key.
pub proof fn lemma_find_atom_from_sound(atoms: Seq<AtomV>, key: KeyV, i: int)
    requires
        0 <= i <= atoms.len(),
    ensures
        match find_atom_from(atoms, key, i) {
            Some(j) => i <= j < atoms.len() && atoms[j].live && atoms[j].key == key,
            None => forall|k: int| i <= k < atoms.len() ==> !(atoms[k].live && atoms[k].key
                == key),
        },
    decreases atoms.len() - i,
{
    if i < atoms.len() && !(atoms[i].live && atoms[i].key == key) {
        lemma_find_atom_from_sound(atoms, key, i + 1);
    }
}

} // verus!
