//! The error bridge: throwing, classification, and the status checks.

use qjs::{Context, Error, ErrorKind, LazyValue, Runtime, Value};

#[test]
fn std_error() {
    let rt = Runtime::new();
    let mut ctxt = Context::new(rt);

    let l = ctxt.throw_syntax_error("foobar is not defined");
    assert_eq!(
        l.ok(&mut ctxt).unwrap_err(),
        Error::Kind(ErrorKind::SyntaxError("foobar is not defined".into(), None))
    );

    let l = ctxt.throw_out_of_memory();
    assert_eq!(
        l.ok(&mut ctxt).unwrap_err(),
        Error::Kind(ErrorKind::InternalError("out of memory".into(), None))
    );

    let l = ctxt.throw_custom_error(
        "URIError",
        "malformed URI sequence",
        Some("    at <eval> (<evalScript>)\n".into()),
    );
    assert_eq!(
        l.ok(&mut ctxt).unwrap_err(),
        Error::Kind(ErrorKind::URIError(
            "malformed URI sequence".into(),
            Some("    at <eval> (<evalScript>)\n".into())
        ))
    );
}

#[test]
fn generic_error() {
    let rt = Runtime::new();
    let mut ctxt = Context::new(rt);

    let l = ctxt.throw_error("Whoops!", Some("    at <eval> (<evalScript>)\n".into()));
    assert_eq!(
        l.ok(&mut ctxt).unwrap_err(),
        Error::Kind(ErrorKind::Error(
            "Whoops!".into(),
            Some("    at <eval> (<evalScript>)\n".into())
        ))
    );
}

#[test]
fn throw_string() {
    let rt = Runtime::new();
    let mut ctxt = Context::new(rt);

    let v = "Whoops!".new_value(&mut ctxt);
    let l = ctxt.throw(v);
    assert_eq!(
        l.ok(&mut ctxt).unwrap_err(),
        Error::Kind(ErrorKind::Throw("Whoops!".into()))
    );
}

#[test]
fn throw_int() {
    let rt = Runtime::new();
    let mut ctxt = Context::new(rt);

    let v = 123i32.new_value(&mut ctxt);
    let l = ctxt.throw(v);
    assert_eq!(
        l.ok(&mut ctxt).unwrap_err(),
        Error::Kind(ErrorKind::Throw("123".into()))
    );
}

#[test]
fn custom_error() {
    let rt = Runtime::new();
    let mut ctxt = Context::new(rt);

    // An error whose class name is none of the built-in eight classifies
    // as a custom error under that name.
    let err = ctxt.new_error();
    let name = "CustomError".new_value(&mut ctxt);
    assert_eq!(err.set_property(&mut ctxt, "name", name), Ok(true));
    let msg = "Whoops!".new_value(&mut ctxt);
    assert_eq!(err.set_property(&mut ctxt, "message", msg), Ok(true));
    let v = err.into_inner();
    let l = ctxt.throw(v);
    assert_eq!(
        l.ok(&mut ctxt).unwrap_err(),
        Error::Kind(ErrorKind::Custom("CustomError".into(), "Whoops!".into(), None))
    );

    // A missing custom class falls back to a plain error that names it.
    let l = ctxt.throw_custom_error("FooError", "nope", None);
    assert_eq!(
        l.ok(&mut ctxt).unwrap_err(),
        Error::Kind(ErrorKind::Error("class `FooError` not found".into(), None))
    );
}

#[test]
fn every_error_class_throws() {
    let rt = Runtime::new();
    let mut ctxt = Context::new(rt);

    let l = ctxt.throw_type_error("t");
    assert_eq!(
        l.ok(&mut ctxt).unwrap_err(),
        Error::Kind(ErrorKind::TypeError("t".into(), None))
    );
    let l = ctxt.throw_range_error("r");
    assert_eq!(
        l.ok(&mut ctxt).unwrap_err(),
        Error::Kind(ErrorKind::RangeError("r".into(), None))
    );
    let l = ctxt.throw_reference_error("rf");
    assert_eq!(
        l.ok(&mut ctxt).unwrap_err(),
        Error::Kind(ErrorKind::ReferenceError("rf".into(), None))
    );
    let l = ctxt.throw_internal_error("i");
    assert_eq!(
        l.ok(&mut ctxt).unwrap_err(),
        Error::Kind(ErrorKind::InternalError("i".into(), None))
    );
    let l = ctxt.throw_custom_error("EvalError", "e", None);
    assert_eq!(
        l.ok(&mut ctxt).unwrap_err(),
        Error::Kind(ErrorKind::EvalError("e".into(), None))
    );
}

#[test]
fn rethrow_round_trip() {
    let rt = Runtime::new();
    let mut ctxt = Context::new(rt);

    // A classified error thrown back into the engine classifies the same
    // way when taken again.
    let l = ctxt.throw_type_error("again");
    let kind = match l.ok(&mut ctxt).unwrap_err() {
        Error::Kind(k) => k,
        Error::Msg(m) => panic!("{}", m),
    };
    let l = ctxt.throw_kind(kind.clone());
    assert_eq!(l.ok(&mut ctxt).unwrap_err(), Error::Kind(kind));

    // A bare thrown value round-trips as its text.
    let l = ctxt.throw_kind(ErrorKind::Throw("loose".into()));
    assert_eq!(
        l.ok(&mut ctxt).unwrap_err(),
        Error::Kind(ErrorKind::Throw("loose".into()))
    );

    // Re-throwing through a constructor name keeps the stack.
    let l = ctxt.throw_kind(ErrorKind::URIError("u".into(), Some("st".into())));
    assert_eq!(
        l.ok(&mut ctxt).unwrap_err(),
        Error::Kind(ErrorKind::URIError("u".into(), Some("st".into())))
    );

    // An error kind converts to the exception sentinel.
    let v = ErrorKind::RangeError("r".into(), None).new_value(&mut ctxt);
    assert_eq!(v, Value::Exception);
    assert_eq!(
        ctxt.check_exception(v).unwrap_err(),
        Error::Kind(ErrorKind::RangeError("r".into(), None))
    );
}

#[test]
fn message_and_stack() {
    let k = ErrorKind::TypeError("boom".into(), Some("trace".into()));
    assert_eq!(k.message(), "boom");
    assert_eq!(k.stack(), Some("trace"));
    let t = ErrorKind::Throw("x".into());
    assert_eq!(t.message(), "x");
    assert_eq!(t.stack(), None);
}

#[test]
fn status_checks() {
    let rt = Runtime::new();
    let mut ctxt = Context::new(rt);

    assert_eq!(ctxt.check_error(0), Ok(0));
    assert_eq!(ctxt.check_error(7), Ok(7));
    assert_eq!(ctxt.check_bool(1), Ok(true));
    assert_eq!(ctxt.check_bool(0), Ok(false));
    assert!(matches!(ctxt.check_bool(5), Err(Error::Msg(_))));

    // A failure status with no pending exception is a binding failure,
    // never a script error.
    assert!(matches!(ctxt.check_error(-1), Err(Error::Msg(_))));

    assert_eq!(ctxt.check_null(Some(3)), Ok(3));
    assert!(matches!(ctxt.check_null::<i32>(None), Err(Error::Msg(_))));

    // A non-exception value passes through; the sentinel takes the
    // pending exception.
    let ok = ctxt.check_exception(Value::Int(1)).unwrap();
    assert_eq!(ok.inner(), Value::Int(1));
    ctxt.throw_type_error("bad");
    let e = ctxt.check_exception(Value::Exception).unwrap_err();
    assert_eq!(e, Error::Kind(ErrorKind::TypeError("bad".into(), None)));
}

#[test]
fn exception_state_is_cleared() {
    let rt = Runtime::new();
    let mut ctxt = Context::new(rt);

    // Once an exception has been classified, a later check does not see a
    // stale exception.
    let l = ctxt.throw_type_error("once");
    let _ = l.ok(&mut ctxt).unwrap_err();
    assert!(ctxt.get_exception().is_none());
    assert_eq!(ctxt.check_error(0), Ok(0));
}

#[test]
fn call_error_constructor() {
    let rt = Runtime::new();
    let mut ctxt = Context::new(rt);

    let global = ctxt.global_object();
    let ctor = global.get_property(&mut ctxt, "TypeError").unwrap();
    assert!(ctor.is_constructor(&ctxt));
    let err = ctor.call_constructor(&mut ctxt, "boom").unwrap();
    let msg = err.get_property(&mut ctxt, "message").unwrap();
    assert_eq!(msg.to_cstring(&ctxt).unwrap(), "boom");
    let m = msg.into_inner();
    ctxt.free_value(m);

    let v = err.into_inner();
    let l = ctxt.throw(v);
    assert_eq!(
        l.ok(&mut ctxt).unwrap_err(),
        Error::Kind(ErrorKind::TypeError("boom".into(), None))
    );

    // Calling something that is no function reports a type error.
    let obj = ctxt.new_object();
    let r = obj.call(&mut ctxt, None, 1i32);
    assert_eq!(
        r.unwrap_err(),
        Error::Kind(ErrorKind::TypeError("not a function".into(), None))
    );

    let o = obj.into_inner();
    ctxt.free_value(o);
    let c = ctor.into_inner();
    ctxt.free_value(c);
    let g = global.into_inner();
    ctxt.free_value(g);
}

#[test]
fn instance_of() {
    let rt = Runtime::new();
    let mut ctxt = Context::new(rt);

    let global = ctxt.global_object();
    let type_ctor = global.get_property(&mut ctxt, "TypeError").unwrap();
    let range_ctor = global.get_property(&mut ctxt, "RangeError").unwrap();

    // An object built by one constructor is an instance of it and of no
    // other.
    let err = type_ctor.call_constructor(&mut ctxt, "boom").unwrap();
    assert_eq!(err.instance_of(&mut ctxt, &type_ctor), Ok(true));
    assert_eq!(err.instance_of(&mut ctxt, &range_ctor), Ok(false));

    // A right-hand side that is no callable object raises a type error.
    let plain = ctxt.new_object();
    assert!(err.instance_of(&mut ctxt, &plain).is_err());

    for l in [err, plain, type_ctor, range_ctor, global] {
        let v = l.into_inner();
        ctxt.free_value(v);
    }
}

#[test]
fn invoke_method() {
    let rt = Runtime::new();
    let mut ctxt = Context::new(rt);

    // The global object's own constructors can be invoked as methods.
    let g = ctxt.global_object();
    let gv = g.inner();
    let r = ctxt.invoke(&gv, "RangeError", "off").unwrap();
    let msg = r.get_property(&mut ctxt, "message").unwrap();
    assert_eq!(msg.to_cstring(&ctxt).unwrap(), "off");
    let m = msg.into_inner();
    ctxt.free_value(m);
    let rv = r.into_inner();
    ctxt.free_value(rv);

    // A missing method reports a type error.
    let e = ctxt.invoke(&gv, "missing", ()).unwrap_err();
    assert_eq!(
        e,
        Error::Kind(ErrorKind::TypeError("not a function".into(), None))
    );
    ctxt.free_value(gv);
}
