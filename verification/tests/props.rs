//! The property layer, atoms, and native functions.

use qjs::cfunc::trampoline_return;
use qjs::{Context, Error, ErrorKind, HostOutcome, LazyValue, Runtime, Value};

#[test]
fn set_property() {
    let rt = Runtime::new();
    let mut ctxt = Context::new(rt);

    let obj = ctxt.new_object();

    assert!(!obj.has_property(&ctxt, "foo").unwrap());
    assert!(obj.get_property(&mut ctxt, "foo").is_none());

    assert!(obj.set_property(&mut ctxt, "foo", "bar").unwrap());
    assert!(obj.has_property(&ctxt, "foo").unwrap());
    let got = obj.get_property(&mut ctxt, "foo").unwrap();
    assert_eq!(got.to_cstring(&ctxt).unwrap(), "bar");
    let gv = got.into_inner();
    ctxt.free_value(gv);

    let names = obj.get_own_property_names(&mut ctxt).unwrap().unwrap();
    let mut texts: Vec<String> = Vec::new();
    for a in &names {
        texts.push(a.to_cstr(&ctxt));
    }
    assert_eq!(texts, vec!["foo"]);
    for a in names {
        a.free(&mut ctxt);
    }

    let desc = obj.get_own_property_descriptor(&mut ctxt, "foo").unwrap().unwrap();
    assert!(desc.writable);
    let dv = desc.value.unwrap();
    assert_eq!(dv.to_cstring(&ctxt).unwrap(), "bar");
    let dvv = dv.into_inner();
    ctxt.free_value(dvv);
    assert!(desc.getter.is_none());
    assert!(desc.setter.is_none());
    assert!(desc.configurable);
    assert!(desc.enumerable);

    assert!(obj.delete_property(&mut ctxt, "foo").unwrap());
    assert!(!obj.has_property(&ctxt, "foo").unwrap());

    let ov = obj.into_inner();
    ctxt.free_value(ov);
}

#[test]
fn extensible() {
    let rt = Runtime::new();
    let mut ctxt = Context::new(rt);

    let obj = ctxt.new_object();

    assert!(obj.is_extensible(&mut ctxt).unwrap());
    assert!(obj.prevent_extensions(&mut ctxt).unwrap());
    assert!(!obj.is_extensible(&mut ctxt).unwrap());

    assert_eq!(
        obj.set_property(&mut ctxt, "foo", "bar").unwrap_err(),
        Error::Kind(ErrorKind::TypeError("object is not extensible".into(), None))
    );

    let ov = obj.into_inner();
    ctxt.free_value(ov);
}

#[test]
fn atom() {
    let rt = Runtime::new();
    let mut ctxt = Context::new(rt);

    let foo = ctxt.new_atom("foo");
    let bar = ctxt.new_atom("bar");

    assert_eq!(foo.to_cstr(&ctxt), "foo");
    assert_eq!(bar.to_cstr(&ctxt), "bar");
    assert_ne!(foo.atom, bar.atom);

    // Interning the same text again yields the same atom.
    let foo2 = ctxt.new_atom("foo");
    assert_eq!(foo2.atom, foo.atom);

    // An atom converts to a string value holding its text.
    let s = foo.to_value(&mut ctxt);
    assert_eq!(s.to_cstring(&ctxt).unwrap(), "foo");
    let sv = s.into_inner();
    ctxt.free_value(sv);

    // A numeric atom displays as its decimal digits.
    let idx = ctxt.new_atom(42u32);
    assert_eq!(idx.to_cstr(&ctxt), "42");

    idx.free(&mut ctxt);
    foo2.free(&mut ctxt);
    bar.free(&mut ctxt);
    foo.free(&mut ctxt);
}

#[test]
fn property_by_atom() {
    let rt = Runtime::new();
    let mut ctxt = Context::new(rt);

    // Setting by text and reading back through the interned atom finds
    // the same value; an index key works the same way.
    let obj = ctxt.new_object();
    assert!(obj.set_property(&mut ctxt, "foo", "bar").unwrap());
    let atom = ctxt.new_atom("foo");
    let got = obj.get_property(&mut ctxt, atom).unwrap();
    assert_eq!(got.to_cstring(&ctxt).unwrap(), "bar");
    let gv = got.into_inner();
    ctxt.free_value(gv);

    assert!(obj.set_property(&mut ctxt, 3u32, 99i32).unwrap());
    let got = obj.get_property(&mut ctxt, 3u32).unwrap();
    assert_eq!(got.inner().as_int(), Some(99));
    assert!(obj.has_property(&ctxt, 3u32).unwrap());

    let ov = obj.into_inner();
    ctxt.free_value(ov);
}

#[test]
fn define_property() {
    let rt = Runtime::new();
    let mut ctxt = Context::new(rt);

    // A property defined without the writable attribute refuses a plain
    // store with a type error.
    let obj = ctxt.new_object();
    let v = "fixed".new_value(&mut ctxt);
    assert!(obj
        .define_property_value(&mut ctxt, "k", v, qjs::heap::JS_PROP_CONFIGURABLE)
        .unwrap());
    assert_eq!(
        obj.set_property(&mut ctxt, "k", "other").unwrap_err(),
        Error::Kind(ErrorKind::TypeError("property is not writable".into(), None))
    );

    // Not configurable either: deletion refuses too.
    let obj2 = ctxt.new_object();
    let w = 5i32.new_value(&mut ctxt);
    assert!(obj2.define_property_value(&mut ctxt, "n", w, 0).unwrap());
    assert_eq!(
        obj2.delete_property(&mut ctxt, "n").unwrap_err(),
        Error::Kind(ErrorKind::TypeError(
            "property is not configurable".into(),
            None
        ))
    );

    let o2 = obj2.into_inner();
    ctxt.free_value(o2);
    let ov = obj.into_inner();
    ctxt.free_value(ov);
}

#[test]
fn keys_are_enumerable_only() {
    let rt = Runtime::new();
    let mut ctxt = Context::new(rt);

    let obj = ctxt.new_object();
    assert!(obj.set_property(&mut ctxt, "shown", 1i32).unwrap());
    let v = 2i32.new_value(&mut ctxt);
    assert!(obj
        .define_property_value(&mut ctxt, "hidden", v, qjs::heap::JS_PROP_WRITABLE)
        .unwrap());

    let keys = obj.keys(&mut ctxt).unwrap().unwrap();
    let mut texts: Vec<String> = Vec::new();
    for a in &keys {
        texts.push(a.to_cstr(&ctxt));
    }
    assert_eq!(texts, vec!["shown"]);
    for a in keys {
        a.free(&mut ctxt);
    }

    let names = obj.get_own_property_names(&mut ctxt).unwrap().unwrap();
    assert_eq!(names.len(), 2);
    for a in names {
        a.free(&mut ctxt);
    }

    let ov = obj.into_inner();
    ctxt.free_value(ov);
}

#[test]
fn cfunc() {
    let rt = Runtime::new();
    let mut ctxt = Context::new(rt);

    // The host closure's word rides along as userdata in the function's
    // associated data, and comes back at invocation time.
    let f = ctxt.new_c_function(42, 1).unwrap();
    assert!(f.is_function(&ctxt));
    assert!(!f.is_constructor(&ctxt));
    let data = ctxt.native_func_data(&f.inner()).unwrap();
    assert_eq!(data.len(), 1);
    assert_eq!(ctxt.get_userdata(&data[0]), 42);

    let fv = f.into_inner();
    ctxt.free_value(fv);
}

#[test]
fn trampoline_fault_containment() {
    let rt = Runtime::new();
    let mut ctxt = Context::new(rt);

    // A host closure's fault is downgraded to `undefined` at the
    // boundary; it neither unwinds nor corrupts the engine, so unrelated
    // work on the same context still succeeds.
    assert_eq!(trampoline_return(HostOutcome::Fault), Value::Undefined);
    assert_eq!(
        trampoline_return(HostOutcome::Return(Value::Int(3))),
        Value::Int(3)
    );

    let obj = ctxt.new_object();
    assert!(obj.set_property(&mut ctxt, "still", "works").unwrap());
    let got = obj.get_property(&mut ctxt, "still").unwrap();
    assert_eq!(got.to_cstring(&ctxt).unwrap(), "works");
    assert!(ctxt.get_exception().is_none());

    let gv = got.into_inner();
    ctxt.free_value(gv);
    let ov = obj.into_inner();
    ctxt.free_value(ov);
}

#[test]
fn native_function_data_values() {
    let rt = Runtime::new();
    let mut ctxt = Context::new(rt);

    let v = "payload".new_value(&mut ctxt);
    let mut data: Vec<Value> = Vec::new();
    data.push(v);
    let f = ctxt.new_c_function_data(0, 0, data).unwrap();
    let back = ctxt.native_func_data(&f.inner()).unwrap();
    assert_eq!(back.len(), 1);
    assert_eq!(ctxt.to_cstring(&back[0]).unwrap(), "payload");

    let fv = f.into_inner();
    ctxt.free_value(fv);
}
