//! Runtime and context lifecycle, values, conversion, and reference
//! counting.

use qjs::value::{JS_NewBool, JS_NewCatchOffset, JS_NewInt32, JS_NewInt64, JS_NewUint32, mkptr,
    mkval, JS_TAG_BOOL, JS_TAG_INT, JS_TAG_OBJECT, JS_TAG_STRING, JS_TAG_UNDEFINED};
use qjs::{Context, ExtractValue, FloatVal, LazyValue, Local, Runtime, ToBool, Value};

#[test]
fn runtime() {
    let rt = Runtime::new();

    assert_eq!(rt.memory_usage(), 0);
    assert_eq!(Runtime::userdata_class_id(), 6);
    drop(rt);
}

#[test]
fn lib_runtime() {
    let mut rt = Runtime::new();

    let first = rt.new_class_id();
    let second = rt.new_class_id();
    assert_eq!(second, first + 1);
    drop(rt);
}

#[test]
fn context() {
    let rt = Runtime::new();
    let mut ctxt = Context::new(rt);

    // The global object carries the eight built-in error constructors.
    let global = ctxt.global_object();
    for name in [
        "Error",
        "EvalError",
        "InternalError",
        "RangeError",
        "ReferenceError",
        "SyntaxError",
        "TypeError",
        "URIError",
    ] {
        let ctor = global.get_property(&mut ctxt, name).expect(name);
        assert!(ctor.is_function(&ctxt));
        assert!(ctor.is_constructor(&ctxt));
        let v = ctor.into_inner();
        ctxt.free_value(v);
    }
    let g = global.into_inner();
    ctxt.free_value(g);
}

#[test]
fn value_tags() {
    assert_eq!(Value::Int(3).tag(), JS_TAG_INT);
    assert_eq!(Value::Bool(true).tag(), JS_TAG_BOOL);
    assert_eq!(Value::Undefined.tag(), JS_TAG_UNDEFINED);
    assert_eq!(Value::Str(0).tag(), JS_TAG_STRING);
    assert_eq!(Value::Object(0).tag(), JS_TAG_OBJECT);

    assert!(Value::Int(1).is_number());
    assert!(Value::Float(FloatVal::NotANumber).is_number());
    assert!(Value::Null.is_null());
    assert!(Value::Undefined.is_undefined());
    assert!(Value::Exception.is_exception());
    assert!(Value::Uninitialized.is_uninitialized());
    assert!(Value::Str(7).is_string());
    assert!(Value::Object(7).is_object());
    assert!(Value::Symbol(7).is_symbol());
    assert!(Value::Module(7).is_module());
    assert!(Value::FunctionBytecode(7).is_function_bytecode());
    assert!(Value::BigFloat(7).is_big_float());

    assert!(Value::Str(0).has_ref_cnt());
    assert!(!Value::Int(0).has_ref_cnt());
    assert_eq!(Value::Object(9).ref_id(), 9);

    assert_eq!(Value::Int(5).as_int(), Some(5));
    assert_eq!(Value::Bool(true).as_bool(), Some(true));
    assert_eq!(Value::Int(5).as_bool(), None);
    assert_eq!(Value::Object(4).as_object(), Some(4));
    assert_eq!(Value::Undefined.check_undefined(), None);
    assert_eq!(Value::Int(1).check_undefined(), Some(Value::Int(1)));

    assert_eq!(mkval(JS_TAG_INT, 8), Value::Int(8));
    assert_eq!(mkval(JS_TAG_BOOL, 1), Value::Bool(true));
    assert_eq!(mkptr(JS_TAG_STRING, 3), Value::Str(3));
    assert_eq!(mkptr(JS_TAG_OBJECT, 3), Value::Object(3));
    assert_eq!(Value::new(JS_TAG_INT, 2), Some(Value::Int(2)));
    assert_eq!(Value::new(JS_TAG_STRING, 2), None);

    assert_eq!(Value::nan(), Value::Float(FloatVal::NotANumber));
    assert_eq!(Value::null(), Value::Null);
    assert_eq!(Value::true_value(), Value::Bool(true));
    assert_eq!(Value::false_value(), Value::Bool(false));
    assert_eq!(Value::exception(), Value::Exception);
    assert_eq!(Value::uninitialized(), Value::Uninitialized);
}

#[test]
fn narrowest_tag() {
    assert_eq!(JS_NewBool(true), Value::Bool(true));
    assert_eq!(JS_NewInt32(-7), Value::Int(-7));
    assert_eq!(JS_NewCatchOffset(3), Value::CatchOffset(3));

    // A 64-bit integer keeps the integer tag while it fits, and falls back
    // to the float64 tag exactly.
    assert_eq!(JS_NewInt64(2147483647), Value::Int(2147483647));
    assert_eq!(JS_NewInt64(-2147483648), Value::Int(-2147483648));
    assert_eq!(
        JS_NewInt64(2147483648),
        Value::Float(FloatVal::Whole(2147483648))
    );
    assert_eq!(JS_NewUint32(2147483647), Value::Int(2147483647));
    assert_eq!(
        JS_NewUint32(2147483648),
        Value::Float(FloatVal::Whole(2147483648))
    );
}

#[test]
fn int_round_trip() {
    let rt = Runtime::new();
    let mut ctxt = Context::new(rt);

    // Inside the native-int range the exact accessor returns the number.
    let v = 42i64.new_value(&mut ctxt);
    assert_eq!(v.as_int(), Some(42));
    assert_eq!(v.to_int64(&ctxt), Some(42));

    // Outside it, the exact accessor refuses and the coercing accessor
    // round-trips instead.
    let w = 5_000_000_000i64.new_value(&mut ctxt);
    assert_eq!(w.as_int(), None);
    assert_eq!(w.to_int64(&ctxt), Some(5_000_000_000));
}

#[test]
fn coercions() {
    let rt = Runtime::new();
    let mut ctxt = Context::new(rt);

    assert_eq!(ctxt.to_bool(&Value::Int(0)), Some(false));
    assert_eq!(ctxt.to_bool(&Value::Int(3)), Some(true));
    assert_eq!(ctxt.to_bool(&Value::Null), Some(false));
    assert_eq!(ctxt.to_bool(&Value::Undefined), Some(false));
    assert_eq!(ctxt.to_bool(&Value::Float(FloatVal::NotANumber)), Some(false));

    let empty = "".new_value(&mut ctxt);
    let full = "x".new_value(&mut ctxt);
    assert_eq!(ctxt.to_bool(&empty), Some(false));
    assert_eq!(ctxt.to_bool(&full), Some(true));

    // 32-bit coercion reduces modulo two to the thirty-second.
    assert_eq!(
        ctxt.to_int32(&Value::Float(FloatVal::Whole(4294967301))),
        Some(5)
    );
    assert_eq!(
        ctxt.to_int32(&Value::Float(FloatVal::Whole(-4294967291))),
        Some(5)
    );
    assert_eq!(ctxt.to_int32(&Value::Float(FloatVal::NotANumber)), Some(0));
    assert_eq!(ctxt.to_int32(&Value::Bool(true)), Some(1));

    // A negative number is no index.
    assert_eq!(ctxt.to_index(&Value::Int(-1)), None);
    assert_eq!(ctxt.to_index(&Value::Int(7)), Some(7));
    assert_eq!(ctxt.to_index(&Value::Float(FloatVal::NotANumber)), Some(0));

    // String coercion to numbers belongs to the engine, not this layer.
    assert_eq!(ctxt.to_int32(&full), None);
    ctxt.free_value(empty);
    ctxt.free_value(full);
}

#[test]
fn value_text() {
    let rt = Runtime::new();
    let mut ctxt = Context::new(rt);

    assert_eq!(ctxt.to_cstring(&Value::Int(-123)).unwrap(), "-123");
    assert_eq!(ctxt.to_cstring(&Value::Int(0)).unwrap(), "0");
    assert_eq!(ctxt.to_cstring(&Value::Bool(true)).unwrap(), "true");
    assert_eq!(ctxt.to_cstring(&Value::Null).unwrap(), "null");
    assert_eq!(ctxt.to_cstring(&Value::Undefined).unwrap(), "undefined");
    assert_eq!(
        ctxt.to_cstring(&Value::Float(FloatVal::Whole(-9223372036854775808)))
            .unwrap(),
        "-9223372036854775808"
    );
    assert_eq!(
        ctxt.to_cstring(&Value::Float(FloatVal::NotANumber)).unwrap(),
        "NaN"
    );

    let s = "hello".new_value(&mut ctxt);
    assert_eq!(ctxt.to_cstring(&s).unwrap(), "hello");
    let obj = ctxt.new_object();
    assert_eq!(
        ctxt.to_cstring(&obj.inner()).unwrap(),
        "[object Object]"
    );
    ctxt.free_value(s);
    let o = obj.into_inner();
    ctxt.free_value(o);
}

#[test]
fn refcount_round_trip() {
    let rt = Runtime::new();
    let mut ctxt = Context::new(rt);

    let v = "hello".new_value(&mut ctxt);
    assert_eq!(ctxt.runtime().ref_cnt(&v), Some(1));

    // A clone acquires one reference; releasing it restores the count.
    let v2 = ctxt.clone_value(&v);
    assert_eq!(ctxt.runtime().ref_cnt(&v), Some(2));
    ctxt.free_value(v2);
    assert_eq!(ctxt.runtime().ref_cnt(&v), Some(1));

    // Releasing the last reference reclaims the cell: the memory in use
    // drops even across a collection cycle.
    let before = ctxt.runtime().memory_usage();
    ctxt.free_value(v);
    ctxt.runtime_mut().run_gc();
    assert_eq!(ctxt.runtime().memory_usage(), before - 1);
    assert!(!ctxt.runtime().is_live_object(&v));
}

#[test]
fn handle_forfeit() {
    let rt = Runtime::new();
    let mut ctxt = Context::new(rt);

    // Binding changes no count; into_inner hands the claim over; binding
    // again and releasing closes it.
    let v = "x".new_value(&mut ctxt);
    let l = ctxt.bind_value(v);
    assert_eq!(ctxt.runtime().ref_cnt(&l.inner()), Some(1));
    let raw = l.into_inner();
    let l2 = ctxt.bind(raw);
    assert_eq!(ctxt.runtime().ref_cnt(&l2.inner()), Some(1));
    let raw2 = l2.into_inner();
    ctxt.free_value(raw2);
    assert!(!ctxt.runtime().is_live_object(&raw));
}

#[test]
fn userdata_finalizer() {
    let rt = Runtime::new();
    let mut ctxt = Context::new(rt);

    let ud = ctxt.new_userdata(48879);
    assert_eq!(ctxt.get_userdata(&ud.inner()), 48879);
    assert_eq!(ud.get_opaque(&ctxt, Runtime::userdata_class_id()), 48879);
    assert_eq!(ud.get_opaque(&ctxt, 1), 0);

    // Dropping the last handle reclaims the object; the finalizer runs
    // exactly once, even across a forced collection.
    let v = ud.into_inner();
    ctxt.free_value(v);
    ctxt.runtime_mut().run_gc();
    assert_eq!(ctxt.runtime().finalized, vec![48879]);
}

#[test]
fn context_userdata_slot() {
    let rt = Runtime::new();
    let mut ctxt = Context::new(rt);

    assert_eq!(ctxt.userdata(), 0);
    ctxt.set_userdata(7);
    assert_eq!(ctxt.userdata(), 7);
}

#[test]
fn builder() {
    let rt = Runtime::new();
    let b = Context::builder(rt);
    let mut ctxt = b.build();
    let g = ctxt.global_object();
    assert!(g.inner().is_object());
    let v = g.into_inner();
    ctxt.free_value(v);
}

#[test]
fn array_buffer() {
    let rt = Runtime::new();
    let mut ctxt = Context::new(rt);

    let buf = ctxt.new_array_buffer(vec![1, 2, 3]);
    assert_eq!(buf.get(&ctxt), &vec![1u8, 2, 3]);
    assert_eq!(buf.slice(&ctxt), &[1u8, 2, 3][..]);
    buf.get_mut(&mut ctxt).push(4);
    assert_eq!(buf.slice(&ctxt), &[1u8, 2, 3, 4][..]);

    let shared = ctxt.new_shared_array_buffer(vec![9]);
    assert_eq!(shared.slice(&ctxt), &[9u8][..]);
    shared.slice_mut(&mut ctxt)[0] = 8;
    assert_eq!(shared.get(&ctxt), &vec![8u8]);
}

#[test]
fn extract_values() {
    let rt = Runtime::new();
    let mut ctxt = Context::new(rt);

    let l = ctxt.bind_value(Value::Int(7));
    assert_eq!(i32::extract_value(&l, &ctxt), Some(7));
    assert_eq!(i64::extract_value(&l, &ctxt), Some(7));
    assert_eq!(u64::extract_value(&l, &ctxt), Some(7));
    assert_eq!(bool::extract_value(&l, &ctxt), Some(true));
    assert_eq!(String::extract_value(&l, &ctxt), Some("7".to_string()));

    let n = ctxt.bind_value(Value::Null);
    assert_eq!(<() as ExtractValue>::extract_value(&n, &ctxt), None);
    let u = ctxt.bind_value(Value::Int(0));
    assert_eq!(<() as ExtractValue>::extract_value(&u, &ctxt), Some(()));
}

#[test]
fn handle_shapes() {
    let rt = Runtime::new();
    let mut ctxt = Context::new(rt);

    let l = Local::new(Value::Int(3));
    assert_eq!(l.inner(), Value::Int(3));
    let l2 = l.map(|v: Value| v.check_undefined());
    assert_eq!(l2.inner, Some(Value::Int(3)));

    assert!(ctxt.bind_value(Value::Undefined).check_undefined().is_none());
    let kept = ctxt.bind_value(Value::Int(1)).check_undefined().unwrap();
    assert_eq!(kept.into_inner(), Value::Int(1));

    // A handle is released through its context exactly once.
    let v = "once".new_value(&mut ctxt);
    let l = ctxt.bind_value(v);
    l.free(&mut ctxt);
    assert!(!ctxt.runtime().is_live_object(&v));
}

#[test]
fn atom_to_string_value() {
    let rt = Runtime::new();
    let mut ctxt = Context::new(rt);

    let a = ctxt.new_atom("word");
    let s = a.to_string(&mut ctxt);
    assert_eq!(s.to_cstring(&ctxt).unwrap(), "word");
    let sv = s.into_inner();
    ctxt.free_value(sv);
    let t = a.to_str(&mut ctxt);
    assert_eq!(t.to_cstring(&ctxt).unwrap(), "word");
    let tv = t.into_inner();
    ctxt.free_value(tv);
    a.free(&mut ctxt);
}

#[test]
fn status_conversions() {
    assert_eq!(3i32.to_bool(), true);
    assert_eq!(0i32.to_bool(), false);
    assert_eq!(true.to_bool(), 1i32);
    assert_eq!(false.to_bool(), 0i32);
}

#[test]
fn job_queue() {
    let rt = Runtime::new();
    let mut ctxt = Context::new(rt);

    assert!(!ctxt.is_job_pending());
    ctxt.enqueue_job((1i32, "x")).unwrap();
    assert!(ctxt.is_job_pending());

    // The oldest job comes back with the values it was enqueued with; the
    // host runs it and releases them.
    let vals = ctxt.execute_pending_job().unwrap();
    assert_eq!(vals[0], Value::Int(1));
    assert_eq!(ctxt.to_cstring(&vals[1]).unwrap(), "x");
    for v in vals {
        ctxt.free_value(v);
    }
    assert!(!ctxt.is_job_pending());
    assert!(ctxt.execute_pending_job().is_none());
}

#[test]
fn interrupts() {
    assert_eq!(qjs::runtime::interrupt_result(Some(qjs::Interrupt::Continue)), 0);
    assert_eq!(qjs::runtime::interrupt_result(Some(qjs::Interrupt::Break)), 1);
    // A handler that panicked breaks execution instead of unwinding.
    assert_eq!(qjs::runtime::interrupt_result(None), 1);
}
