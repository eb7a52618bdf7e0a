use vstd::prelude::*;
use crate::runtime::{FunctionRecord, Runtime};
use crate::slots::CallbackSlots;
use crate::value::{ErrorReport, Exception, Value};

verus! {

pub open spec fn not_callable_message() -> Seq<char> {
    "Object cannot be converted to Function"@
}

pub open spec fn not_object_message() -> Seq<char> {
    "Value is not an object"@
}

/// Whether a `TypeError` with message `msg` is pending in `rt`.
pub open spec fn type_error_pending(rt: Runtime, msg: Seq<char>) -> bool {
    match rt.pending_exception() {
        Some(Exception::TypeError(m)) => m@ == msg,
        _ => false,
    }
}

/// Whether `f` is a function of `rt` whose callback still sits in `slots`.
pub open spec fn callback_ready<T>(rt: Runtime, slots: CallbackSlots<T>, f: Function) -> bool {
    &&& f.valid(rt)
    &&& rt.function(f.object_id()).callback is Some
    &&& slots.held().contains_key(rt.function(f.object_id()).callback->Some_0)
}

/// The report made of a pending exception, if there is one.
pub open spec fn report_of(e: Option<Exception>) -> Option<ErrorReport> {
    match e {
        Some(e) => Some(ErrorReport { exception: e }),
        None => None,
    }
}

/// A handle to a callable object of the engine heap. It owns nothing: the
/// object stays in the runtime's heap.
#[derive(Clone, Copy, Debug, PartialEq, Eq, Structural)]
pub struct Function {
    object: u64,
}

impl Function {
    /// The identity of the function object this handle refers to.
    pub closed spec fn object_id(&self) -> u64 {
        self.object
    }

    /// Whether the handle refers to a function object of `rt`.
    pub open spec fn valid(&self, rt: Runtime) -> bool {
        rt.is_function_id(self.object_id())
    }

    /// A handle to object `object`, which the caller knows to be callable.
    pub fn from(object: u64) -> (f: Function)
        ensures
            f.object_id() == object,
    {
        Function { object }
    }

    /// The engine object behind the handle.
    pub fn raw(&self) -> (r: u64)
        ensures
            r == self.object_id(),
    {
        self.object
    }

    /// Creates a native function named `name`, declaring `nargs` arguments,
    /// that dispatches to the host callback in slot `callback`; `constructor`
    /// says whether it may be called with `new`.
    pub fn new(rt: &mut Runtime, name: String, callback: Option<u64>, nargs: u16, constructor: bool) -> (f: Function)
        requires
            old(rt).objects().len() < u64::MAX,
        ensures
            f.object_id() == old(rt).objects().len(),
            f.valid(*final(rt)),
            final(rt).function(f.object_id()).name == Some(name),
            final(rt).function(f.object_id()).display_name is None,
            final(rt).function(f.object_id()).nargs == nargs,
            final(rt).function(f.object_id()).length == Some(nargs),
            final(rt).function(f.object_id()).callback == callback,
            !final(rt).function(f.object_id()).bound,
            !final(rt).function(f.object_id()).eval,
            final(rt).function(f.object_id()).constructor == constructor,
            !final(rt).function(f.object_id()).function_constructor,
            final(rt).objects() == old(rt).objects().push(final(rt).objects()[f.object_id() as int]),
            final(rt).queue() == old(rt).queue(),
            final(rt).queue_initialised() == old(rt).queue_initialised(),
            final(rt).pending_exception() == old(rt).pending_exception(),
            old(rt).evolves_to(*final(rt)),
    {
        let rec = FunctionRecord {
            name: Some(name),
            display_name: None,
            nargs,
            length: Some(nargs),
            bound: false,
            eval: false,
            constructor,
            function_constructor: false,
            callback,
        };
        let id = rt.alloc_function(rec);
        Function { object: id }
    }

    /// Adopts object `obj` when it is callable. Otherwise a `TypeError` is
    /// left pending in the engine and there is no function.
    pub fn from_object(rt: &mut Runtime, obj: u64) -> (r: Option<Function>)
        ensures
            final(rt).objects() == old(rt).objects(),
            final(rt).queue() == old(rt).queue(),
            final(rt).queue_initialised() == old(rt).queue_initialised(),
            old(rt).is_function_id(obj) ==> r is Some && r->Some_0.object_id() == obj
                && final(rt).pending_exception() == old(rt).pending_exception(),
            !old(rt).is_function_id(obj) ==> r is None && type_error_pending(
                *final(rt),
                not_callable_message(),
            ),
    {
        if rt.is_function_object(obj) {
            Some(Function { object: obj })
        } else {
            rt.throw(Exception::TypeError(String::from_str("Object cannot be converted to Function")));
            None
        }
    }

    /// Adopts the object a value refers to when it is callable. A value that
    /// is not an object leaves a `TypeError` pending, as does an object that
    /// is not callable.
    pub fn from_value(rt: &mut Runtime, v: Value) -> (r: Option<Function>)
        ensures
            final(rt).objects() == old(rt).objects(),
            final(rt).queue() == old(rt).queue(),
            final(rt).queue_initialised() == old(rt).queue_initialised(),
            v is Object && old(rt).is_function_id(v->Object_0) ==> r is Some && r->Some_0.object_id() == v->Object_0 && final(rt).pending_exception() == old(rt).pending_exception(),
            v is Object && !old(rt).is_function_id(v->Object_0) ==> r is None
                && type_error_pending(*final(rt), not_callable_message()),
            !(v is Object) ==> r is None && type_error_pending(*final(rt), not_object_message()),
    {
        match v {
            Value::Object(o) => Function::from_object(rt, o),
            _ => {
                rt.throw(Exception::TypeError(String::from_str("Value is not an object")));
                None
            },
        }
    }

    /// The function as an engine object.
    pub fn to_object(&self) -> (r: u64)
        ensures
            r == self.object_id(),
    {
        self.object
    }

    /// The function as a script value.
    pub fn to_value(&self) -> (r: Value)
        ensures
            r == Value::Object(self.object_id()),
    {
        Value::Object(self.object)
    }

    /// The function's name, if it has one.
    pub fn name(&self, rt: &Runtime) -> (r: Option<String>)
        requires
            self.valid(*rt),
        ensures
            r == rt.function(self.object_id()).name,
    {
        match rt.function_record(self.object) {
            Some(rec) => rec.name.clone(),
            None => None,
        }
    }

    /// The function's display name, if it has one.
    pub fn display_name(&self, rt: &Runtime) -> (r: Option<String>)
        requires
            self.valid(*rt),
        ensures
            r == rt.function(self.object_id()).display_name,
    {
        match rt.function_record(self.object) {
            Some(rec) => rec.display_name.clone(),
            None => None,
        }
    }

    /// The declared number of arguments.
    pub fn nargs(&self, rt: &Runtime) -> (r: u16)
        requires
            self.valid(*rt),
        ensures
            r == rt.function(self.object_id()).nargs,
    {
        match rt.function_record(self.object) {
            Some(rec) => rec.nargs,
            None => 0,
        }
    }

    /// The effective parameter count; `None` when the engine cannot
    /// compute it.
    pub fn length(&self, rt: &Runtime) -> (r: Option<u16>)
        requires
            self.valid(*rt),
        ensures
            r == rt.function(self.object_id()).length,
    {
        match rt.function_record(self.object) {
            Some(rec) => rec.length,
            None => None,
        }
    }

    /// The host callback slot the function dispatches to, if any.
    pub fn callback(&self, rt: &Runtime) -> (r: Option<u64>)
        requires
            self.valid(*rt),
        ensures
            r == rt.function(self.object_id()).callback,
    {
        match rt.function_record(self.object) {
            Some(rec) => rec.callback,
            None => None,
        }
    }

    pub fn is_bound(&self, rt: &Runtime) -> (r: bool)
        requires
            self.valid(*rt),
        ensures
            r == rt.function(self.object_id()).bound,
    {
        match rt.function_record(self.object) {
            Some(rec) => rec.bound,
            None => false,
        }
    }

    pub fn is_eval(&self, rt: &Runtime) -> (r: bool)
        requires
            self.valid(*rt),
        ensures
            r == rt.function(self.object_id()).eval,
    {
        match rt.function_record(self.object) {
            Some(rec) => rec.eval,
            None => false,
        }
    }

    pub fn is_constructor(&self, rt: &Runtime) -> (r: bool)
        requires
            self.valid(*rt),
        ensures
            r == rt.function(self.object_id()).constructor,
    {
        match rt.function_record(self.object) {
            Some(rec) => rec.constructor,
            None => false,
        }
    }

    pub fn is_function_constructor(&self, rt: &Runtime) -> (r: bool)
        requires
            self.valid(*rt),
        ensures
            r == rt.function(self.object_id()).function_constructor,
    {
        match rt.function_record(self.object) {
            Some(rec) => rec.function_constructor,
            None => false,
        }
    }

    /// Whether object `obj` is callable.
    pub fn is_function_raw(rt: &Runtime, obj: u64) -> (r: bool)
        ensures
            r == rt.is_function_id(obj),
    {
        rt.is_function_object(obj)
    }

    /// Turns the engine's report of an invocation into its result: the
    /// returned value on success; on failure a report built from the pending
    /// exception, which that consumes, or `None` when none is pending.
    /// Afterwards no exception is pending.
    pub fn call_result(rt: &mut Runtime, succeeded: bool, rval: Value) -> (r: Result<
        Value,
        Option<ErrorReport>,
    >)
        ensures
            final(rt).objects() == old(rt).objects(),
            final(rt).queue() == old(rt).queue(),
            final(rt).queue_initialised() == old(rt).queue_initialised(),
            succeeded ==> r == Ok::<Value, Option<ErrorReport>>(rval) && final(rt).pending_exception()
                == old(rt).pending_exception(),
            !succeeded ==> final(rt).pending_exception() is None,
            !succeeded && old(rt).pending_exception() is Some ==> r == Err::<
                Value,
                Option<ErrorReport>,
            >(Some((ErrorReport { exception: old(rt).pending_exception()->Some_0 }))),
            !succeeded && old(rt).pending_exception() is None ==> r == Err::<
                Value,
                Option<ErrorReport>,
            >(None),
    {
        if succeeded {
            Ok(rval)
        } else {
            match rt.take_pending_exception() {
                Some(exception) => Err(Some(ErrorReport { exception })),
                None => Err(None),
            }
        }
    }
    /// What a native function reports back to the engine once its host
    /// callback returned: success with the callback's value, or, for a
    /// callback that failed, the failure left pending as the exception and
    /// an `Undefined` return value.
    pub fn native_return(rt: &mut Runtime, outcome: Result<Value, Exception>) -> (r: (bool, Value))
        ensures
            final(rt).objects() == old(rt).objects(),
            final(rt).queue() == old(rt).queue(),
            final(rt).queue_initialised() == old(rt).queue_initialised(),
            outcome is Ok ==> r == (true, outcome->Ok_0) && final(rt).pending_exception()
                == old(rt).pending_exception(),
            outcome is Err ==> r == (false, Value::Undefined) && final(rt).pending_exception()
                == Some(outcome->Err_0),
    {
        match outcome {
            Ok(v) => (true, v),
            Err(e) => {
                rt.throw(e);
                (false, Value::Undefined)
            },
        }
    }
    /// Readies an invocation of `f`: takes the host callback it dispatches
    /// to out of its slot, so that the callback runs at most once. When `f`
    /// is not callable, the call fails with a report of the `TypeError` that
    /// says so; when it has no callback left, it fails with a report of the
    /// exception pending, or `None` without one. On failure no exception is
    /// left pending and the slots are unchanged.
    pub fn take_callback<T>(rt: &mut Runtime, slots: &mut CallbackSlots<T>, f: Function) -> (r: Result<
        T,
        Option<ErrorReport>,
    >)
        ensures
            final(rt).objects() == old(rt).objects(),
            final(rt).queue() == old(rt).queue(),
            final(rt).queue_initialised() == old(rt).queue_initialised(),
            final(slots).issued() == old(slots).issued(),
            !f.valid(*old(rt)) ==> r is Err && r->Err_0 is Some && r->Err_0->Some_0.exception is TypeError
                && r->Err_0->Some_0.exception->TypeError_0@ == not_callable_message()
                && final(rt).pending_exception() is None && final(slots).held() == old(slots).held(),
            callback_ready(*old(rt), *old(slots), f) ==> r == Ok::<T, Option<ErrorReport>>(
                old(slots).held()[old(rt).function(f.object_id()).callback->Some_0],
            ) && final(slots).held() == old(slots).held().remove(
                old(rt).function(f.object_id()).callback->Some_0,
            ) && final(rt).pending_exception() == old(rt).pending_exception(),
            f.valid(*old(rt)) && !callback_ready(*old(rt), *old(slots), f) ==> final(slots).held()
                == old(slots).held() && final(rt).pending_exception() is None && r == Err::<
                T,
                Option<ErrorReport>,
            >(report_of(old(rt).pending_exception())),
    {
        if !rt.is_function_object(f.object) {
            let _ = rt.take_pending_exception();
            return Err(Some(ErrorReport {
                exception: Exception::TypeError(String::from_str("Object cannot be converted to Function")),
            }));
        }
        let callback = match rt.function_record(f.object) {
            Some(rec) => rec.callback,
            None => None,
        };
        match callback {
            Some(slot) => {
                if slots.contains(slot) {
                    match slots.take(slot) {
                        Some(cb) => Ok(cb),
                        None => Err(None),
                    }
                } else {
                    match Function::call_result(rt, false, Value::Undefined) {
                        Ok(_) => Err(None),
                        Err(e) => Err(e),
                    }
                }
            },
            None => match Function::call_result(rt, false, Value::Undefined) {
                Ok(_) => Err(None),
                Err(e) => Err(e),
            },
        }
    }
}

} // verus!
