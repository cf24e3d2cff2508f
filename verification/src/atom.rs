//! Interned atoms: the engine's unique identifiers for property names.
//!
//! An atom is acquired by interning a key — text or an array index — and
//! follows the same ownership discipline as values, on its own reference
//! count: every acquired atom is released exactly once. Interning the same
//! key twice yields the same atom while it stays alive.

use vstd::prelude::*;

use crate::context::{ContextRef, CtxtV};
use crate::handle::Local;
use crate::heap::{find_atom, find_atom_from, AtomSlot, AtomV, DataV, HeapData, KeyV, PropKey};
use crate::runtime::{spec_alloc, RtV};
use crate::text::{spec_udec, u64_text};
use crate::value::Value;

verus! {

/// The text a key displays as: its own text, or the decimal digits of the
/// index.
pub open spec fn spec_key_text(key: KeyV) -> Seq<char> {
    match key {
        KeyV::Text(s) => s,
        KeyV::Index(n) => spec_udec(n as nat),
    }
}

/// Whether a key may be interned in this runtime: a live atom for it can
/// take one more reference, and a missing one still has room in the table.
pub open spec fn spec_can_intern(rt: RtV, key: KeyV) -> bool {
    match find_atom(rt.atoms, key) {
        Some(i) => rt.atoms[i].refs < u32::MAX,
        None => rt.atoms.len() < u32::MAX,
    }
}

/// The atom interning a key resolves to: the live atom for it, or the
/// fresh slot at the end of the table.
pub open spec fn spec_intern_id(rt: RtV, key: KeyV) -> u32 {
    match find_atom(rt.atoms, key) {
        Some(i) => i as u32,
        None => rt.atoms.len() as u32,
    }
}

/// The runtime after a key is interned: the live atom's count grows by
/// one, or a fresh atom is appended with one reference.
pub open spec fn spec_intern(rt: RtV, key: KeyV) -> RtV {
    match find_atom(rt.atoms, key) {
        Some(i) => RtV {
            atoms: rt.atoms.update(
                i,
                AtomV { refs: (rt.atoms[i].refs + 1) as u32, ..rt.atoms[i] },
            ),
            ..rt
        },
        None => RtV { atoms: rt.atoms.push(AtomV { live: true, refs: 1, key }), ..rt },
    }
}

/// Whether an atom may be released: it is live and still holds a
/// reference.
pub open spec fn spec_atom_valid(rt: RtV, atom: u32) -> bool {
    &&& (atom as int) < rt.atoms.len()
    &&& rt.atoms[atom as int].live
    &&& rt.atoms[atom as int].refs >= 1
}

/// The runtime after one reference to an atom is released; at zero the
/// atom leaves the table.
pub open spec fn spec_free_atom(rt: RtV, atom: u32) -> RtV {
    let a = rt.atoms[atom as int];
    if a.refs > 1 {
        RtV { atoms: rt.atoms.update(atom as int, AtomV { refs: (a.refs - 1) as u32, ..a }), ..rt }
    } else {
        RtV {
            atoms: rt.atoms.update(
                atom as int,
                AtomV { live: false, refs: 0, key: KeyV::Index(0) },
            ),
            ..rt
        }
    }
}

/// A key that can be turned into an atom on a context.
pub trait NewAtom: Sized {
    /// The key this value interns as.
    spec fn atom_key(&self) -> KeyV;

    /// Intern the key, acquiring one reference on the atom.
    fn new_atom(self, ctxt: &mut ContextRef) -> (atom: u32)
        requires
            spec_can_intern(old(ctxt)@.rt, self.atom_key()),
        ensures
            atom == spec_intern_id(old(ctxt)@.rt, self.atom_key()),
            final(ctxt)@ == (CtxtV { rt: spec_intern(old(ctxt)@.rt, self.atom_key()), ..old(ctxt)@ }),
    ;
}

impl<'a> NewAtom for &'a str {
    open spec fn atom_key(&self) -> KeyV {
        KeyV::Text(self@)
    }

    fn new_atom(self, ctxt: &mut ContextRef) -> (atom: u32) {
        ctxt.intern_atom(PropKey::Text(self.to_owned()))
    }
}

impl NewAtom for String {
    open spec fn atom_key(&self) -> KeyV {
        KeyV::Text(self@)
    }

    fn new_atom(self, ctxt: &mut ContextRef) -> (atom: u32) {
        ctxt.intern_atom(PropKey::Text(self))
    }
}

impl NewAtom for u32 {
    open spec fn atom_key(&self) -> KeyV {
        KeyV::Index(*self)
    }

    fn new_atom(self, ctxt: &mut ContextRef) -> (atom: u32) {
        ctxt.intern_atom(PropKey::Index(self))
    }
}

/// An owned atom handle: one reference on an interned key, released
/// exactly once.
#[derive(Debug)]
pub struct Atom {
    /// The atom's index in the runtime's table.
    pub atom: u32,
}

impl ContextRef {
    /// Intern a key, acquiring one reference on its atom.
    pub fn intern_atom(&mut self, key: PropKey) -> (atom: u32)
        requires
            spec_can_intern(old(self)@.rt, key@),
        ensures
            atom == spec_intern_id(old(self)@.rt, key@),
            final(self)@ == (CtxtV { rt: spec_intern(old(self)@.rt, key@), ..old(self)@ }),
    {
        let n = self.rt.atoms.len();
        let mut i: usize = 0;
        while i < n
            invariant
                i <= n,
                n == self.rt.atoms@.len(),
                *self == *old(self),
                spec_can_intern(old(self)@.rt, key@),
                find_atom(self@.rt.atoms, key@) == find_atom_from(self@.rt.atoms, key@,
                    i as int),
            decreases n - i,
        {
            let hit = self.rt.atoms[i].live && self.rt.atoms[i].key.same_key(&key);
            if hit {
                proof {
                    assert(find_atom(self@.rt.atoms, key@) == Some(i as int));
                }
                let refs = self.rt.atoms[i].refs;
                self.rt.atoms[i].refs = refs + 1;
                proof {
                    assert(self@.rt.atoms =~= spec_intern(old(self)@.rt, key@).atoms);
                    assert(self@.rt.slots =~= old(self)@.rt.slots);
                }
                return i as u32;
            }
            i = i + 1;
        }
        let id = self.rt.atoms.len() as u32;
        self.rt.atoms.push(AtomSlot { live: true, refs: 1, key });
        proof {
            assert(self@.rt.atoms =~= spec_intern(old(self)@.rt, key@).atoms);
            assert(self@.rt.slots =~= old(self)@.rt.slots);
        }
        id
    }

    /// Intern a key through [`NewAtom`] and take the atom as a handle.
    pub fn new_atom<T: NewAtom>(&mut self, v: T) -> (a: Atom)
        requires
            spec_can_intern(old(self)@.rt, v.atom_key()),
        ensures
            a.atom == spec_intern_id(old(self)@.rt, v.atom_key()),
            final(self)@ == (CtxtV { rt: spec_intern(old(self)@.rt, v.atom_key()), ..old(self)@ }),
    {
        Atom { atom: v.new_atom(self) }
    }

    /// Release one reference on an atom; at zero the atom leaves the
    /// table.
    pub fn free_atom(&mut self, atom: u32)
        requires
            spec_atom_valid(old(self)@.rt, atom),
        ensures
            final(self)@ == (CtxtV { rt: spec_free_atom(old(self)@.rt, atom), ..old(self)@ }),
    {
        let i = atom as usize;
        let refs = self.rt.atoms[i].refs;
        if refs > 1 {
            self.rt.atoms[i].refs = refs - 1;
            proof {
                assert(self@.rt.atoms =~= spec_free_atom(old(self)@.rt, atom).atoms);
                assert(self@.rt.slots =~= old(self)@.rt.slots);
            }
        } else {
            self.rt.atoms[i] = AtomSlot { live: false, refs: 0, key: PropKey::Index(0) };
            proof {
                assert(self@.rt.atoms =~= spec_free_atom(old(self)@.rt, atom).atoms);
                assert(self@.rt.slots =~= old(self)@.rt.slots);
            }
        }
    }

    /// Acquire one more reference on an atom, as a fresh handle.
    pub fn clone_atom(&mut self, atom: u32) -> (a: Atom)
        requires
            spec_atom_valid(old(self)@.rt, atom),
            old(self)@.rt.atoms[atom as int].refs < u32::MAX,
        ensures
            a.atom == atom,
            final(self)@ == (CtxtV {
                rt: RtV {
                    atoms: old(self)@.rt.atoms.update(
                        atom as int,
                        AtomV {
                            refs: (old(self)@.rt.atoms[atom as int].refs + 1) as u32,
                            ..old(self)@.rt.atoms[atom as int]
                        },
                    ),
                    ..old(self)@.rt
                },
                ..old(self)@
            }),
    {
        let i = atom as usize;
        let refs = self.rt.atoms[i].refs;
        self.rt.atoms[i].refs = refs + 1;
        proof {
            assert(self@.rt.atoms =~= (CtxtV {
                rt: RtV {
                    atoms: old(self)@.rt.atoms.update(
                        atom as int,
                        AtomV {
                            refs: (old(self)@.rt.atoms[atom as int].refs + 1) as u32,
                            ..old(self)@.rt.atoms[atom as int]
                        },
                    ),
                    ..old(self)@.rt
                },
                ..old(self)@
            }).rt.atoms);
            assert(self@.rt.slots =~= old(self)@.rt.slots);
        }
        Atom { atom }
    }

    /// The text an atom displays as, copied out of the table.
    pub fn atom_to_cstring(&self, atom: u32) -> (s: String)
        requires
            spec_atom_valid(self@.rt, atom),
        ensures
            s@ == spec_key_text(self@.rt.atoms[atom as int].key),
    {
        match &self.rt.atoms[atom as usize].key {
            PropKey::Text(t) => t.clone(),
            PropKey::Index(n) => u64_text(*n as u64),
        }
    }

    /// A fresh string cell holding an atom's text, bound to a handle.
    pub fn atom_to_value(&mut self, atom: u32) -> (l: Local<Value>)
        requires
            spec_atom_valid(old(self)@.rt, atom),
            old(self)@.rt.slots.len() < u32::MAX,
        ensures
            l.inner == Value::Str(old(self)@.rt.slots.len() as u32),
            final(self)@ == (CtxtV {
                rt: spec_alloc(
                    old(self)@.rt,
                    DataV::Text(spec_key_text(old(self)@.rt.atoms[atom as int].key)),
                ),
                ..old(self)@
            }),
    {
        let text = self.atom_to_cstring(atom);
        let id = self.rt.alloc_cell(HeapData::Text(text));
        Local { inner: Value::Str(id) }
    }

    /// A fresh string cell holding an atom's text, as the engine's string
    /// conversion of the atom.
    pub fn atom_to_string(&mut self, atom: u32) -> (l: Local<Value>)
        requires
            spec_atom_valid(old(self)@.rt, atom),
            old(self)@.rt.slots.len() < u32::MAX,
        ensures
            l.inner == Value::Str(old(self)@.rt.slots.len() as u32),
            final(self)@ == (CtxtV {
                rt: spec_alloc(
                    old(self)@.rt,
                    DataV::Text(spec_key_text(old(self)@.rt.atoms[atom as int].key)),
                ),
                ..old(self)@
            }),
    {
        self.atom_to_value(atom)
    }
}

impl Atom {
    /// Release this atom's reference.
    pub fn free(self, ctxt: &mut ContextRef)
        requires
            spec_atom_valid(old(ctxt)@.rt, self.atom),
        ensures
            final(ctxt)@ == (CtxtV { rt: spec_free_atom(old(ctxt)@.rt, self.atom), ..old(ctxt)@ }),
    {
        ctxt.free_atom(self.atom)
    }

    /// A fresh string value holding this atom's text.
    pub fn to_value(&self, ctxt: &mut ContextRef) -> (l: Local<Value>)
        requires
            spec_atom_valid(old(ctxt)@.rt, self.atom),
            old(ctxt)@.rt.slots.len() < u32::MAX,
        ensures
            l.inner == Value::Str(old(ctxt)@.rt.slots.len() as u32),
            final(ctxt)@ == (CtxtV {
                rt: spec_alloc(
                    old(ctxt)@.rt,
                    DataV::Text(spec_key_text(old(ctxt)@.rt.atoms[self.atom as int].key)),
                ),
                ..old(ctxt)@
            }),
    {
        ctxt.atom_to_value(self.atom)
    }

    /// A fresh string value holding this atom's text.
    pub fn to_str(&self, ctxt: &mut ContextRef) -> (l: Local<Value>)
        requires
            spec_atom_valid(old(ctxt)@.rt, self.atom),
            old(ctxt)@.rt.slots.len() < u32::MAX,
        ensures
            l.inner == Value::Str(old(ctxt)@.rt.slots.len() as u32),
            final(ctxt)@ == (CtxtV {
                rt: spec_alloc(
                    old(ctxt)@.rt,
                    DataV::Text(spec_key_text(old(ctxt)@.rt.atoms[self.atom as int].key)),
                ),
                ..old(ctxt)@
            }),
    {
        ctxt.atom_to_string(self.atom)
    }

    /// A fresh string value holding this atom's text, as the engine's
    /// string conversion of the atom.
    pub fn to_string(&self, ctxt: &mut ContextRef) -> (l: Local<Value>)
        requires
            spec_atom_valid(old(ctxt)@.rt, self.atom),
            old(ctxt)@.rt.slots.len() < u32::MAX,
        ensures
            l.inner == Value::Str(old(ctxt)@.rt.slots.len() as u32),
            final(ctxt)@ == (CtxtV {
                rt: spec_alloc(
                    old(ctxt)@.rt,
                    DataV::Text(spec_key_text(old(ctxt)@.rt.atoms[self.atom as int].key)),
                ),
                ..old(ctxt)@
            }),
    {
        ctxt.atom_to_string(self.atom)
    }

    /// This atom's text, copied out of the table.
    pub fn to_cstr(&self, ctxt: &ContextRef) -> (s: String)
        requires
            spec_atom_valid(ctxt@.rt, self.atom),
        ensures
            s@ == spec_key_text(ctxt@.rt.atoms[self.atom as int].key),
    {
        ctxt.atom_to_cstring(self.atom)
    }
}

} // verus!
