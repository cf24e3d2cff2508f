//! A safety layer over an embedded, reference-counted script engine.
//!
//! The engine itself (parser, interpreter, garbage collector) is an external
//! collaborator that lives behind a C calling convention; this crate captures
//! the engine's observable state — tagged values, a heap of reference-counted
//! cells, interned atoms, object properties and the pending exception — as an
//! explicit model, and verifies the binding layers built on top of it: the
//! handle/ownership discipline (release exactly once), value conversion with
//! exact tag choice, the closed error taxonomy with its classification rules,
//! atoms, userdata finalization, and property access.

pub mod arraybuf;
pub mod atom;
pub mod cfunc;
pub mod context;
pub mod convert;
pub mod error;
pub mod func;
pub mod handle;
pub mod heap;
pub mod job;
pub mod laws;
pub mod prop;
pub mod runtime;
pub mod text;
pub mod userdata;
pub mod value;

pub use arraybuf::{ArrayBuffer, SharedArrayBuffer};
pub use atom::{Atom, NewAtom};
pub use cfunc::{CFunc, HostOutcome};
pub use context::{Builder, Context, ContextRef};
pub use convert::{ExtractValue, LazyValue, NewValue, ToBool};
pub use error::{Error, ErrorKind};
pub use func::Args;
pub use prop::{Descriptor, GetProperty, GetPropertyResolve};
pub use handle::{Bindable, Local, Unbindable};
pub use runtime::{Interrupt, Runtime, RuntimeRef};
pub use value::{FloatVal, Value};
