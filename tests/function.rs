use ion::function::Function;
use ion::slots::CallbackSlots;
use ion::runtime::Runtime;
use ion::value::{Exception, Value};

#[test]
fn throwing_callback_gives_report_and_consumes_exception() {
    let mut rt = Runtime::new();
    rt.throw(Exception::Thrown(Value::Int(5)));
    let r = Function::call_result(&mut rt, false, Value::Undefined);
    match r {
        Err(Some(report)) => assert!(matches!(report.exception, Exception::Thrown(Value::Int(5)))),
        _ => panic!("expected a report"),
    }
    assert!(!rt.is_exception_pending());
}

#[test]
fn failure_without_exception_is_none() {
    let mut rt = Runtime::new();
    assert!(matches!(Function::call_result(&mut rt, false, Value::Int(1)), Err(None)));
}

#[test]
fn success_returns_value() {
    let mut rt = Runtime::new();
    assert!(matches!(Function::call_result(&mut rt, true, Value::Int(1)), Ok(Value::Int(1))));
}

#[test]
fn from_object_on_non_callable_throws_type_error() {
    let mut rt = Runtime::new();
    let obj = rt.alloc_plain();
    assert!(Function::from_object(&mut rt, obj).is_none());
    match rt.take_pending_exception() {
        Some(Exception::TypeError(m)) => assert_eq!(m, "Object cannot be converted to Function"),
        _ => panic!("expected a TypeError"),
    }
}

#[test]
fn from_value_on_non_object_throws_type_error() {
    let mut rt = Runtime::new();
    assert!(Function::from_value(&mut rt, Value::Int(3)).is_none());
    match rt.take_pending_exception() {
        Some(Exception::TypeError(m)) => assert_eq!(m, "Value is not an object"),
        _ => panic!("expected a TypeError"),
    }
}

#[test]
fn from_value_adopts_function() {
    let mut rt = Runtime::new();
    let f = Function::new(&mut rt, String::from("f"), Some(4), 2, false);
    let g = Function::from_value(&mut rt, f.to_value()).unwrap();
    assert_eq!(g, f);
    assert_eq!(g.raw(), f.to_object());
    assert!(!rt.is_exception_pending());
    assert!(Function::is_function_raw(&rt, f.to_object()));
}

#[test]
fn function_attributes() {
    let mut rt = Runtime::new();
    let f = Function::new(&mut rt, String::from("resolve"), Some(4), 2, false);
    assert_eq!(f.name(&rt), Some(String::from("resolve")));
    assert_eq!(f.display_name(&rt), None);
    assert_eq!(f.nargs(&rt), 2);
    assert_eq!(f.callback(&rt), Some(4));
    assert!(!f.is_bound(&rt));
    assert!(!f.is_eval(&rt));
    assert!(!f.is_constructor(&rt));
    assert!(!f.is_function_constructor(&rt));
}

#[test]
fn native_return_throws_failure() {
    let mut rt = Runtime::new();
    let r = Function::native_return(&mut rt, Err(Exception::Thrown(Value::Int(8))));
    assert_eq!(r, (false, Value::Undefined));
    assert!(matches!(rt.take_pending_exception(), Some(Exception::Thrown(Value::Int(8)))));
    let r = Function::native_return(&mut rt, Ok(Value::Bool(true)));
    assert_eq!(r, (true, Value::Bool(true)));
    assert!(!rt.is_exception_pending());
}

#[test]
fn length_and_constructor_flag() {
    let mut rt = Runtime::new();
    let f = Function::new(&mut rt, String::from("C"), None, 3, true);
    assert_eq!(f.length(&rt), Some(3));
    assert!(f.is_constructor(&rt));
}

#[test]
fn take_callback_once() {
    let mut rt = Runtime::new();
    let mut slots = CallbackSlots::new();
    let slot = slots.insert(11u8);
    let f = Function::new(&mut rt, String::from("f"), Some(slot), 0, false);
    assert!(matches!(Function::take_callback(&mut rt, &mut slots, f), Ok(11)));
    assert!(matches!(Function::take_callback(&mut rt, &mut slots, f), Err(None)));
    rt.throw(Exception::Thrown(Value::Null));
    assert!(matches!(Function::take_callback(&mut rt, &mut slots, f), Err(Some(_))));
    assert!(!rt.is_exception_pending());
}

#[test]
fn take_callback_on_non_callable_reports_type_error() {
    let mut rt = Runtime::new();
    let mut slots: CallbackSlots<u8> = CallbackSlots::new();
    let obj = rt.alloc_plain();
    match Function::take_callback(&mut rt, &mut slots, Function::from(obj)) {
        Err(Some(report)) => match report.exception {
            Exception::TypeError(m) => assert_eq!(m, "Object cannot be converted to Function"),
            _ => panic!("expected a TypeError"),
        },
        _ => panic!("expected a report"),
    }
    assert!(!rt.is_exception_pending());
}

#[test]
fn take_callback_without_callback_fails_silently() {
    let mut rt = Runtime::new();
    let mut slots: CallbackSlots<u8> = CallbackSlots::new();
    let g = Function::new(&mut rt, String::from("g"), None, 0, false);
    assert!(matches!(Function::take_callback(&mut rt, &mut slots, g), Err(None)));
}
