//! The bound-value handle.
//!
//! A [`Local`] pairs a raw engine datum with the claim on one reference to
//! it. Binding is free: the raw value must already stand for one held
//! reference (or be a value without a reference count). A handle gives the
//! reference up in exactly one of two ways: release it on its context, or
//! forfeit it through [`Local::into_inner`], which hands the obligation to
//! the caller. No code path may release the same claim twice.

use vstd::prelude::*;

use crate::context::ContextRef;
use crate::runtime::{spec_free_value, valid_ref};
use crate::value::Value;

verus! {

/// A handle holding one claim on the raw datum inside.
#[derive(Debug)]
pub struct Local<T> {
    /// The raw datum; the handle stands for one held reference to it.
    pub inner: T,
}

impl<T> Local<T> {
    /// Wrap a raw datum that already stands for one held reference.
    pub fn new(inner: T) -> (l: Local<T>)
        ensures
            l.inner == inner,
    {
        Local { inner }
    }

    /// A copy of the raw datum; the handle keeps its claim.
    pub fn inner(&self) -> (r: T) where T: Copy
        ensures
            r == self.inner,
    {
        self.inner
    }

    /// Forfeit the handle's claim: the raw datum is returned and the one
    /// held reference now belongs to the caller, who must bind it again or
    /// release it. This is the single route for moving ownership across a
    /// boundary without touching the reference count.
    pub fn into_inner(self) -> (r: T)
        ensures
            r == self.inner,
    {
        self.inner
    }

    /// Turn the held datum into another, keeping the handle shape; the
    /// claim follows whatever the closure returns.
    pub fn map<U, F: FnOnce(T) -> U>(self, f: F) -> (l: Local<U>)
        requires
            call_requires(f, (self.inner,)),
        ensures
            call_ensures(f, (self.inner,), l.inner),
    {
        Local { inner: f(self.inner) }
    }
}

/// A datum that can be bound to a context and released on it.
pub trait Bindable: Sized {
    /// Whether the datum may be released on the given context.
    spec fn can_unbind(&self, ctxt: ContextRef) -> bool;

    /// How releasing the datum changes the context.
    spec fn unbind_post(&self, pre: ContextRef, post: ContextRef) -> bool;

    /// Bind the datum, with no change to any reference count: it must
    /// already stand for one held reference.
    fn bind(self, ctxt: &ContextRef) -> (l: Local<Self>)
        ensures
            l.inner == self,
    ;

    /// Release the one reference the datum stands for.
    fn unbind(self, ctxt: &mut ContextRef)
        requires
            self.can_unbind(*old(ctxt)),
        ensures
            self.unbind_post(*old(ctxt), *final(ctxt)),
    ;
}

/// A datum that a context can release, named from the context's side.
pub trait Unbindable: Sized {
    /// Whether the datum may be released on the given context.
    spec fn can_release(&self, ctxt: ContextRef) -> bool;

    /// How releasing the datum changes the context.
    spec fn release_post(&self, pre: ContextRef, post: ContextRef) -> bool;

    /// Release the one reference the datum stands for.
    fn unbind(ctxt: &mut ContextRef, inner: Self)
        requires
            inner.can_release(*old(ctxt)),
        ensures
            inner.release_post(*old(ctxt), *final(ctxt)),
    ;
}

impl Bindable for Value {
    open spec fn can_unbind(&self, ctxt: ContextRef) -> bool {
        valid_ref(ctxt.rt@, *self)
    }

    open spec fn unbind_post(&self, pre: ContextRef, post: ContextRef) -> bool {
        post@ == crate::context::CtxtV { rt: spec_free_value(pre@.rt, *self), ..pre@ }
    }

    fn bind(self, ctxt: &ContextRef) -> (l: Local<Value>) {
        Local { inner: self }
    }

    fn unbind(self, ctxt: &mut ContextRef) {
        ctxt.free_value(self);
    }
}

impl Unbindable for Value {
    open spec fn can_release(&self, ctxt: ContextRef) -> bool {
        valid_ref(ctxt.rt@, *self)
    }

    open spec fn release_post(&self, pre: ContextRef, post: ContextRef) -> bool {
        post@ == crate::context::CtxtV { rt: spec_free_value(pre@.rt, *self), ..pre@ }
    }

    fn unbind(ctxt: &mut ContextRef, inner: Value) {
        ctxt.free_value(inner);
    }
}

impl Local<Value> {
    /// Release the one reference this handle stands for.
    pub fn free(self, ctxt: &mut ContextRef)
        requires
            valid_ref(old(ctxt)@.rt, self.inner),
        ensures
            final(ctxt)@ == (crate::context::CtxtV {
                rt: spec_free_value(old(ctxt)@.rt, self.inner),
                ..old(ctxt)@
            }),
    {
        ctxt.free_value(self.inner)
    }

    /// This handle, unless it holds `undefined`.
    pub fn check_undefined(self) -> (r: Option<Local<Value>>)
        ensures
            r == (if self.inner is Undefined {
                None::<Local<Value>>
            } else {
                Some(self)
            }),
    {
        if self.inner.is_undefined() {
            None
        } else {
            Some(self)
        }
    }
}

impl ContextRef {
    /// Bind a raw datum to this context, with no reference-count change.
    pub fn bind<T: Bindable>(&self, inner: T) -> (l: Local<T>)
        ensures
            l.inner == inner,
    {
        inner.bind(self)
    }

    /// Bind a raw value to this context, with no reference-count change.
    pub fn bind_value(&self, value: Value) -> (l: Local<Value>)
        ensures
            l.inner == value,
    {
        Local { inner: value }
    }
}

} // verus!
