use ion::function::Function;
use ion::host::{add_handler_reactions, on_rejected, queue_microtask};
use ion::microtask::{Branch, Microtask, QueueError};
use ion::promise::Promise;
use ion::runtime::{PromiseState, Runtime};
use ion::slots::CallbackSlots;
use ion::value::{Exception, Value};

/// Runs the queue to a fixed point, dispatching each job to the label held
/// in its callback slot, and returns the labels in the order they ran.
fn drain(rt: &mut Runtime, slots: &mut CallbackSlots<&'static str>) -> Vec<(&'static str, Option<Value>)> {
    let mut ran = Vec::new();
    while let Some(task) = rt.next_microtask() {
        let (handler, argument) = match task {
            Microtask::User(f) => (f, None),
            Microtask::Reaction { handler, argument, .. } => (handler, Some(argument)),
        };
        let f = Function::from_object(rt, handler).expect("callable");
        let slot = f.callback(rt).expect("native");
        let label = slots.take(slot).expect("slot dispatched once");
        ran.push((label, argument));
    }
    ran
}

fn ready() -> (Runtime, CallbackSlots<&'static str>) {
    let mut rt = Runtime::new();
    rt.init_microtasks();
    (rt, CallbackSlots::new())
}

#[test]
fn new_promise_starts_pending() {
    let mut rt = Runtime::new();
    let p = Promise::new(&mut rt);
    assert_eq!(p.state(&rt), PromiseState::Pending);
    assert_eq!(p.result(&rt), Value::Undefined);
    assert!(Promise::is_promise(&rt, p.id()));
}

#[test]
fn settled_state_never_changes() {
    let (mut rt, _) = ready();
    let p = Promise::new(&mut rt);
    assert!(p.reject(&mut rt, Value::Int(7)));
    assert_eq!(p.state(&rt), PromiseState::Rejected);
    let q = Promise::new(&mut rt);
    assert!(q.resolve(&mut rt, Value::Bool(true)));
    assert!(!p.resolve(&mut rt, Value::Int(8)));
    assert_eq!(p.state(&rt), PromiseState::Rejected);
    assert_eq!(p.result(&rt), Value::Int(7));
}

#[test]
fn second_settlement_fails() {
    let (mut rt, _) = ready();
    let p = Promise::new(&mut rt);
    assert!(p.resolve(&mut rt, Value::Int(1)));
    assert!(!p.resolve(&mut rt, Value::Int(2)));
    assert!(!p.reject(&mut rt, Value::Int(3)));
    assert_eq!(p.state(&rt), PromiseState::Fulfilled);
    assert_eq!(p.result(&rt), Value::Int(1));
}

#[test]
fn reaction_on_settled_promise_is_deferred() {
    let (mut rt, mut slots) = ready();
    let p = Promise::from_outcome(&mut rt, Ok(Value::Int(5)));
    assert!(p.then(&mut rt, &mut slots, "h"));
    assert!(slots.contains(0));
    assert_eq!(rt.queued(), 1);
    let ran = drain(&mut rt, &mut slots);
    assert_eq!(ran, vec![("h", Some(Value::Int(5)))]);
    assert!(!slots.contains(0));
}

#[test]
fn reactions_fire_in_registration_order() {
    let (mut rt, mut slots) = ready();
    let p = Promise::new(&mut rt);
    assert!(p.then(&mut rt, &mut slots, "first"));
    assert!(p.catch(&mut rt, &mut slots, "not run"));
    assert!(p.add_reactions(&mut rt, &mut slots, "second", "also not run"));
    assert_eq!(rt.queued(), 0);
    assert!(p.resolve(&mut rt, Value::Int(9)));
    let ran = drain(&mut rt, &mut slots);
    assert_eq!(ran, vec![("first", Some(Value::Int(9))), ("second", Some(Value::Int(9)))]);
}

#[test]
fn rejection_reaches_rejection_handlers_only() {
    let (mut rt, mut slots) = ready();
    let p = Promise::new(&mut rt);
    assert!(p.add_reactions(&mut rt, &mut slots, "ok", "err"));
    assert!(p.reject(&mut rt, Value::Null));
    let ran = drain(&mut rt, &mut slots);
    assert_eq!(ran, vec![("err", Some(Value::Null))]);
    assert!(slots.contains(0));
}

#[test]
fn microtask_enqueued_while_draining_runs_in_same_drain() {
    let (mut rt, mut slots) = ready();
    let first = Function::new(&mut rt, String::from("first"), Some(slots.insert("first")), 0, false);
    let second = Function::new(&mut rt, String::from("second"), Some(slots.insert("second")), 0, false);
    queue_microtask(&mut rt, first).unwrap();
    let mut ran = Vec::new();
    while let Some(task) = rt.next_microtask() {
        ran.push(task);
        if task == Microtask::User(first.to_object()) {
            queue_microtask(&mut rt, second).unwrap();
        }
    }
    assert_eq!(ran, vec![Microtask::User(first.to_object()), Microtask::User(second.to_object())]);
    assert_eq!(rt.queued(), 0);
}

#[test]
fn future_outcome_ok_fulfils() {
    let mut rt = Runtime::new();
    let p = Promise::from_outcome(&mut rt, Ok(Value::Int(3)));
    assert_eq!(p.state(&rt), PromiseState::Fulfilled);
    assert_eq!(p.result(&rt), Value::Int(3));
}

#[test]
fn future_outcome_err_rejects() {
    let mut rt = Runtime::new();
    let p = Promise::from_outcome(&mut rt, Err(Value::Int(-4)));
    assert_eq!(p.state(&rt), PromiseState::Rejected);
    assert_eq!(p.result(&rt), Value::Int(-4));
}

#[test]
fn failing_executor_rejects_promise() {
    let mut rt = Runtime::new();
    let p = Promise::new_with_executor(&mut rt, |rt, _p| (rt, Err(Value::Int(13)))).unwrap();
    assert_eq!(p.state(&rt), PromiseState::Rejected);
    assert_eq!(p.result(&rt), Value::Int(13));
}

#[test]
fn failing_executor_keeps_earlier_settlement() {
    let mut rt = Runtime::new();
    let p = Promise::new_with_executor(&mut rt, |mut rt, p| {
        p.resolve(&mut rt, Value::Int(1));
        (rt, Err(Value::Int(2)))
    })
    .unwrap();
    assert_eq!(p.state(&rt), PromiseState::Fulfilled);
    assert_eq!(p.result(&rt), Value::Int(1));
}

#[test]
fn executor_resolving_42_fulfils_after_drain() {
    let (mut rt, mut slots) = ready();
    let p = Promise::new_with_executor(&mut rt, |mut rt, p| {
        p.resolve(&mut rt, Value::Int(42));
        (rt, Ok(()))
    })
    .unwrap();
    drain(&mut rt, &mut slots);
    assert_eq!(p.state(&rt), PromiseState::Fulfilled);
    assert_eq!(p.result(&rt), Value::Int(42));
}

#[test]
fn unhandled_rejection_reported_once() {
    let (mut rt, mut slots) = ready();
    let p = Promise::from_outcome(&mut rt, Err(Value::Int(99)));
    assert!(p.then(&mut rt, &mut slots, "h"));
    let handler = Function::new(&mut rt, String::from("onRejected"), Some(slots.insert("onRejected")), 0, false);
    assert!(add_handler_reactions(&mut rt, &p, handler));
    rt.throw(Exception::Thrown(Value::Int(99)));
    let ran = drain(&mut rt, &mut slots);
    assert_eq!(ran, vec![("onRejected", Some(Value::Int(99)))]);
    let mut reports = Vec::new();
    for (_, argument) in ran {
        reports.push(on_rejected(&mut rt, argument.unwrap()));
    }
    assert_eq!(reports.len(), 1);
    assert!(matches!(reports[0].exception, Exception::Thrown(Value::Int(99))));
    assert!(!rt.is_exception_pending());
}

#[test]
fn two_user_microtasks_run_in_call_order_once() {
    let (mut rt, mut slots) = ready();
    let f = Function::new(&mut rt, String::from("f"), Some(slots.insert("f")), 0, false);
    let g = Function::new(&mut rt, String::from("g"), Some(slots.insert("g")), 0, false);
    queue_microtask(&mut rt, f).unwrap();
    queue_microtask(&mut rt, g).unwrap();
    let ran = drain(&mut rt, &mut slots);
    assert_eq!(ran, vec![("f", None), ("g", None)]);
    assert!(drain(&mut rt, &mut slots).is_empty());
}

#[test]
fn queue_microtask_before_init_fails() {
    let mut rt = Runtime::new();
    let f = Function::new(&mut rt, String::from("f"), None, 0, false);
    assert_eq!(queue_microtask(&mut rt, f), Err(QueueError::NotInitialised));
    assert_eq!(rt.queued(), 0);
    assert_eq!(QueueError::NotInitialised.message(), "Microtask Queue has not been initialised.");
}

#[test]
fn teardown_drops_queued_work() {
    let (mut rt, _) = ready();
    let f = Function::new(&mut rt, String::from("f"), None, 0, false);
    queue_microtask(&mut rt, f).unwrap();
    rt.teardown_microtasks();
    assert_eq!(rt.queued(), 0);
    assert!(!rt.microtasks_initialised());
    assert_eq!(queue_microtask(&mut rt, f), Err(QueueError::NotInitialised));
}

#[test]
fn settling_with_waiting_reactions_needs_queue() {
    let mut rt = Runtime::new();
    let mut slots = CallbackSlots::new();
    let p = Promise::new(&mut rt);
    assert!(p.then(&mut rt, &mut slots, "h"));
    assert!(!p.resolve(&mut rt, Value::Int(1)));
    assert_eq!(p.state(&rt), PromiseState::Pending);
    rt.init_microtasks();
    assert!(p.resolve(&mut rt, Value::Int(1)));
    assert_eq!(rt.queued(), 1);
}

#[test]
fn registration_failure_releases_slots() {
    let mut rt = Runtime::new();
    let mut slots = CallbackSlots::new();
    let p = Promise::from_outcome(&mut rt, Ok(Value::Int(1)));
    assert!(!p.add_reactions(&mut rt, &mut slots, "a", "b"));
    assert!(!slots.contains(0));
    assert!(!slots.contains(1));
    assert!(p.catch(&mut rt, &mut slots, "c"));
    assert_eq!(rt.queued(), 0);
}

#[test]
fn reaction_job_carries_branch_and_value() {
    let (mut rt, mut slots) = ready();
    let p = Promise::from_outcome(&mut rt, Err(Value::Object(77)));
    assert!(p.catch(&mut rt, &mut slots, "c"));
    let task = rt.next_microtask().unwrap();
    assert!(matches!(
        task,
        Microtask::Reaction { branch: Branch::Rejected, argument: Value::Object(77), .. }
    ));
}

#[test]
fn promise_from_object_checks_kind() {
    let mut rt = Runtime::new();
    let p = Promise::new(&mut rt);
    let plain = rt.alloc_plain();
    assert_eq!(Promise::from(&rt, p.id()), Some(p));
    assert_eq!(Promise::from(&rt, plain), None);
    assert_eq!(Promise::from(&rt, 1000), None);
    assert_eq!(Promise::from_unchecked(p.id()), p);
}

#[test]
fn native_reactions_registered_directly() {
    let (mut rt, mut slots) = ready();
    let p = Promise::new(&mut rt);
    let h = Function::new(&mut rt, String::from("h"), Some(slots.insert("h")), 1, false);
    assert!(p.add_reactions_native(&mut rt, Some(h), None));
    assert!(p.resolve(&mut rt, Value::Int(2)));
    assert_eq!(drain(&mut rt, &mut slots), vec![("h", Some(Value::Int(2)))]);
    let plain = rt.alloc_plain();
    assert!(!Promise::from_unchecked(plain).add_reactions_native(&mut rt, Some(h), None));
}

#[test]
fn succeeding_executor_that_settles_nothing_leaves_pending() {
    let mut rt = Runtime::new();
    let p = Promise::new_with_executor(&mut rt, |rt, _p| (rt, Ok(()))).unwrap();
    assert_eq!(p.state(&rt), PromiseState::Pending);
    assert_eq!(p.result(&rt), Value::Undefined);
}

#[test]
fn executor_rejecting_then_succeeding_leaves_rejected() {
    let mut rt = Runtime::new();
    let p = Promise::new_with_executor(&mut rt, |mut rt, p| {
        p.reject(&mut rt, Value::Int(6));
        (rt, Ok(()))
    })
    .unwrap();
    assert_eq!(p.state(&rt), PromiseState::Rejected);
    assert_eq!(p.result(&rt), Value::Int(6));
}

#[test]
fn executor_runs_once_on_the_new_promise() {
    let mut rt = Runtime::new();
    let before = Promise::new(&mut rt);
    let mut seen = Vec::new();
    let p = Promise::new_with_executor(&mut rt, |rt, p| {
        seen.push((p.id(), p.state(&rt)));
        (rt, Ok(()))
    })
    .unwrap();
    assert_eq!(seen, vec![(before.id() + 1, PromiseState::Pending)]);
    assert_eq!(p.id(), before.id() + 1);
}

#[test]
fn failed_rejection_after_executor_gives_none() {
    let mut rt = Runtime::new();
    let mut slots = CallbackSlots::new();
    let r = Promise::new_with_executor(&mut rt, |mut rt, p| {
        p.then(&mut rt, &mut slots, "h");
        (rt, Err(Value::Int(1)))
    });
    assert_eq!(r, None);
}
