use mrbrs::boundary::{into_mruby_enter, into_mruby_exit, into_rust, BoundaryOutcome, OutboundAction};
use mrbrs::marker::Invariant;
use mrbrs::method::{dispatch_begin, dispatch_finish, finalize_method, DispatchAction, FinalizeAction, HostStep};
use mrbrs::object::{MrbValue, MrbPtr};
use mrbrs::state::HostFault;
use mrbrs::{EvalOutcome, Mrb};

fn eval(mrb: &mut Mrb, code: &str, outcome: EvalOutcome) -> Result<String, String> {
    let ctx = mrb.context();
    let r = match ctx.load_string(&mut mrb.state, code, outcome) {
        Ok(val) => Ok(ctx.inspect(&mrb.state, val)),
        Err(err) => Err(err.to_object().inspect(&mrb.state)),
    };
    mrb.end_context(ctx);
    r
}

#[test]
fn test_open_close() {
    Mrb::open();
}

#[test]
fn test_define_class() {
    let mut mrb = Mrb::open();

    let ctx = mrb.context();
    let root = ctx.object_class(&mrb.state);
    let cls1 = ctx
        .define_class(&mut mrb.state, "MyClass", root)
        .expect("first define_class");

    let cls2 = ctx.define_class(&mut mrb.state, "MyClass", cls1);
    let err = cls2.unwrap_err();
    let msg = err.to_object().inspect(&mrb.state);
    assert_eq!(
        msg,
        "superclass mismatch for Class MyClass (Object not MyClass) (TypeError)"
    );
    mrb.end_context(ctx);
}

#[test]
fn test_define_class_same_superclass_returns_existing() {
    let mut mrb = Mrb::open();

    let ctx = mrb.context();
    let root = ctx.object_class(&mrb.state);
    let cls1 = ctx
        .define_class(&mut mrb.state, "MyClass", root)
        .expect("first define_class");
    let cls2 = ctx
        .define_class(&mut mrb.state, "MyClass", root)
        .expect("second define_class with the same superclass");
    assert_eq!(cls1.0.id, cls2.0.id);
    mrb.end_context(ctx);
}

#[test]
fn test_arguments() {
    let mut mrb = Mrb::open();

    let ctx = mrb.context();
    assert_eq!(0, ctx.arguments(&mrb.state).len());
    mrb.end_context(ctx);
}

#[test]
fn test_load_string() {
    let mut mrb = Mrb::open();

    assert_eq!(
        "3",
        eval(&mut mrb, "1 + 2", EvalOutcome::Value(MrbValue::Fixnum(3))).unwrap()
    );
    assert_eq!(
        "hello (RuntimeError)",
        eval(
            &mut mrb,
            "raise 'hello'",
            EvalOutcome::Raised {
                class_name: "RuntimeError".to_string(),
                message: "hello".to_string(),
            },
        )
        .unwrap_err()
    );
    assert_eq!(
        "syntax error (SyntaxError)",
        eval(
            &mut mrb,
            "$%^&#$W",
            EvalOutcome::Raised {
                class_name: "SyntaxError".to_string(),
                message: "syntax error".to_string(),
            },
        )
        .unwrap_err()
    );
}

#[test]
fn test_string() {
    let mut mrb = Mrb::open();

    let ctx = mrb.context();
    let s = ctx.new_string(&mut mrb.state, "Hello world!").unwrap();
    assert_eq!("\"Hello world!\"", ctx.inspect(&mrb.state, s));

    let s = ctx.new_string_static(&mut mrb.state, "A static string").unwrap();
    assert_eq!("\"A static string\"", ctx.inspect(&mrb.state, s));
    mrb.end_context(ctx);
}

#[test]
fn test_hash() {
    let mut mrb = Mrb::open();

    let ctx = mrb.context();
    let hash = ctx.new_hash(&mut mrb.state).unwrap();
    assert_eq!("{}", ctx.inspect(&mrb.state, hash));

    let a = ctx.new_string(&mut mrb.state, "A").unwrap();
    let b = ctx.new_string(&mut mrb.state, "B").unwrap();
    ctx.hash_set(&mut mrb.state, hash, a, b).unwrap();
    assert_eq!("{\"A\"=>\"B\"}", ctx.inspect(&mrb.state, hash));

    let c = ctx.new_string(&mut mrb.state, "C").unwrap();
    let d = ctx.new_string(&mut mrb.state, "D").unwrap();
    ctx.hash_set(&mut mrb.state, hash, c, d).unwrap();
    assert_eq!("{\"A\"=>\"B\", \"C\"=>\"D\"}", ctx.inspect(&mrb.state, hash));
    mrb.end_context(ctx);
}

#[test]
fn test_hash_update_keeps_place() {
    let mut mrb = Mrb::open();

    let ctx = mrb.context();
    let hash = ctx.new_hash(&mut mrb.state).unwrap();
    let a = ctx.new_string(&mut mrb.state, "A").unwrap();
    let b = ctx.new_string(&mut mrb.state, "B").unwrap();
    let c = ctx.new_string(&mut mrb.state, "C").unwrap();
    let d = ctx.new_string(&mut mrb.state, "D").unwrap();
    ctx.hash_set(&mut mrb.state, hash, a, b).unwrap();
    ctx.hash_set(&mut mrb.state, hash, c, d).unwrap();

    // a second string object whose text equals an existing key updates
    // that key's entry in place
    let a2 = ctx.new_string(&mut mrb.state, "A").unwrap();
    let x = ctx.new_string(&mut mrb.state, "X").unwrap();
    ctx.hash_set(&mut mrb.state, hash, a2, x).unwrap();
    assert_eq!("{\"A\"=>\"X\", \"C\"=>\"D\"}", ctx.inspect(&mrb.state, hash));
    mrb.end_context(ctx);
}

#[test]
fn test_equal() {
    let mut mrb = Mrb::open();

    let ctx = mrb.context();
    let foo = ctx.new_string(&mut mrb.state, "foo").unwrap();
    let bar = ctx.new_string(&mut mrb.state, "bar").unwrap();

    assert!(ctx.equal(&mut mrb.state, foo, foo).unwrap());
    assert!(ctx.equal(&mut mrb.state, bar, bar).unwrap());
    assert!(!ctx.equal(&mut mrb.state, foo, bar).unwrap());

    // two distinct string objects with the same text are equal at guest level
    let foo2 = ctx.new_string(&mut mrb.state, "foo").unwrap();
    assert!(ctx.equal(&mut mrb.state, foo, foo2).unwrap());

    assert!(ctx.equal(&mut mrb.state, MrbValue::Fixnum(7), MrbValue::Fixnum(7)).unwrap());
    assert!(!ctx.equal(&mut mrb.state, MrbValue::Fixnum(7), MrbValue::Nil).unwrap());
    assert!(ctx.equal(&mut mrb.state, MrbValue::Bool(true), MrbValue::Bool(true)).unwrap());
    mrb.end_context(ctx);
}

#[test]
fn test_fixnum_rendering() {
    let mut mrb = Mrb::open();

    let ctx = mrb.context();
    assert_eq!("0", ctx.inspect(&mrb.state, MrbValue::Fixnum(0)));
    assert_eq!("-1", ctx.inspect(&mrb.state, MrbValue::Fixnum(-1)));
    assert_eq!("42", ctx.inspect(&mrb.state, MrbValue::Fixnum(42)));
    assert_eq!(
        "9223372036854775807",
        ctx.inspect(&mrb.state, MrbValue::Fixnum(i64::MAX))
    );
    assert_eq!(
        "-9223372036854775808",
        ctx.inspect(&mrb.state, MrbValue::Fixnum(i64::MIN))
    );
    assert_eq!("nil", ctx.inspect(&mrb.state, MrbValue::Nil));
    assert_eq!("true", ctx.inspect(&mrb.state, MrbValue::Bool(true)));
    assert_eq!("false", ctx.inspect(&mrb.state, MrbValue::Bool(false)));
    mrb.end_context(ctx);
}

#[test]
fn test_nested_contexts_restore_in_reverse_order() {
    let mut mrb = Mrb::open();

    let outer = mrb.context();
    let ctx = mrb.context();
    let anchored = ctx.new_string(&mut mrb.state, "anchored").unwrap();
    let outer_len = mrb.state.arena.len();

    let inner = mrb.context();
    let _scratch = ctx.new_string(&mut mrb.state, "scratch").unwrap();
    assert_eq!(mrb.state.arena.len(), outer_len + 1);
    mrb.end_context(inner);

    // ending the inner context released exactly its own objects; what the
    // outer context anchored is still retained and still renders
    assert_eq!(mrb.state.arena.len(), outer_len);
    assert_eq!("\"anchored\"", ctx.inspect(&mrb.state, anchored));

    mrb.end_context(ctx);
    mrb.end_context(outer);
    assert_eq!(mrb.state.arena.len(), 0);
}

#[test]
fn test_define_method() {
    let mut mrb = Mrb::open();

    let ctx = mrb.context();
    let root = ctx.object_class(&mrb.state);
    ctx.define_method(&mut mrb.state, root, "my_method")
        .expect("define_method");

    // a guest call of my_method whose closure returns its receiver:
    // the runtime is told to return exactly that receiver
    let receiver = MrbValue::Obj(MrbPtr { id: 0 });
    into_mruby_enter(&mut mrb.state);
    let frame = dispatch_begin(&mut mrb.state, receiver, Vec::new());
    let step = HostStep::Return(frame.receiver);
    let act = dispatch_finish(&mut mrb.state, frame, step);
    assert!(matches!(act, DispatchAction::SetReturn(v) if v == receiver));
    let out = into_mruby_exit(&mut mrb.state);
    assert!(matches!(out, BoundaryOutcome::Clean));
    mrb.end_context(ctx);
}

#[test]
fn test_panicking_method() {
    let mut mrb = Mrb::open();

    let ctx = mrb.context();
    let root = ctx.object_class(&mrb.state);
    ctx.define_method(&mut mrb.state, root, "my_method")
        .expect("define_method");

    // a guest call, even wrapped in a guest rescue construct, cannot
    // observe a host fault: the fault never enters the exception slot and
    // comes back out of the inbound crossing as a fault
    into_mruby_enter(&mut mrb.state);
    let frame = dispatch_begin(&mut mrb.state, MrbValue::Nil, Vec::new());
    let act = dispatch_finish(
        &mut mrb.state,
        frame,
        HostStep::Fault(HostFault {
            message: "this is a rust panic!".to_string(),
        }),
    );
    assert!(matches!(act, DispatchAction::FaultCaptured));
    assert!(mrb.state.exc.is_none());
    let out = into_mruby_exit(&mut mrb.state);
    match out {
        BoundaryOutcome::HostFault(f) => assert_eq!(f.message, "this is a rust panic!"),
        _ => panic!("a captured host fault must come back out as a fault"),
    }
    assert!(mrb.state.exc.is_none());
    mrb.end_context(ctx);
}

#[test]
fn test_raising_method() {
    let mut mrb = Mrb::open();

    let ctx = mrb.context();
    let root = ctx.object_class(&mrb.state);
    ctx.define_method(&mut mrb.state, root, "my_method")
        .expect("define_method");

    // the closure raises a guest exception, created by evaluating a
    // raise statement; the caller observes a typed error equal to it
    into_mruby_enter(&mut mrb.state);
    let frame = dispatch_begin(&mut mrb.state, MrbValue::Nil, Vec::new());
    let exc = ctx
        .load_string(
            &mut mrb.state,
            "raise 'hello'",
            EvalOutcome::Raised {
                class_name: "RuntimeError".to_string(),
                message: "hello".to_string(),
            },
        )
        .unwrap_err();
    let act = dispatch_finish(&mut mrb.state, frame, HostStep::Raise(exc));
    assert!(matches!(act, DispatchAction::Raised));
    let out = into_mruby_exit(&mut mrb.state);
    match out {
        BoundaryOutcome::GuestException(e) => {
            assert_eq!(e.0.id, exc.0.id);
            assert_eq!(
                format!("Err({})", e.to_object().inspect(&mrb.state)),
                "Err(hello (RuntimeError))"
            );
        }
        _ => panic!("a raised guest error must surface as a typed error"),
    }
    mrb.end_context(ctx);
}

#[test]
fn test_dispatch_arguments() {
    let mut mrb = Mrb::open();

    let ctx = mrb.context();
    assert_eq!(0, ctx.arguments(&mrb.state).len());

    into_mruby_enter(&mut mrb.state);
    let args = vec![MrbValue::Fixnum(1), MrbValue::Fixnum(2)];
    let frame = dispatch_begin(&mut mrb.state, MrbValue::Nil, args.clone());
    assert_eq!(args, ctx.arguments(&mrb.state));
    let act = dispatch_finish(&mut mrb.state, frame, HostStep::Return(MrbValue::Nil));
    assert!(matches!(act, DispatchAction::SetReturn(MrbValue::Nil)));
    assert_eq!(0, ctx.arguments(&mrb.state).len());
    let out = into_mruby_exit(&mut mrb.state);
    assert!(matches!(out, BoundaryOutcome::Clean));
    mrb.end_context(ctx);
}

#[test]
fn test_outbound_without_slot_demands_abort() {
    let mut mrb = Mrb::open();

    // a fault with no enclosing inbound crossing is a contract violation:
    // the decision is to terminate, and the session is left untouched
    let act = into_rust(
        &mut mrb.state,
        Some(HostFault {
            message: "fault outside any crossing".to_string(),
        }),
    );
    assert!(matches!(act, OutboundAction::AbortRequired));
    assert!(mrb.state.exc.is_none());
}

#[test]
fn test_finalize_method() {
    assert!(matches!(finalize_method(false), FinalizeAction::Done));
    assert!(matches!(finalize_method(true), FinalizeAction::Abort));
}

#[test]
fn test_object_class_inspect() {
    let mut mrb = Mrb::open();

    let ctx = mrb.context();
    let root = ctx.object_class(&mrb.state);
    assert_eq!("Object", root.to_object().inspect(&mrb.state));
    let _brand: Invariant = Invariant::phantom();
    mrb.end_context(ctx);
}
