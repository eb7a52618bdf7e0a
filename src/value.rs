use vstd::prelude::*;

verus! {

/// A script value as the host sees it. Objects are identified by the
/// engine-assigned identity of the object they refer to.
#[derive(Clone, Copy, Debug, PartialEq, Eq, Structural)]
pub enum Value {
    Undefined,
    Null,
    Bool(bool),
    Int(i64),
    Object(u64),
}

/// An exception pending in the engine's exception channel.
#[derive(Clone, Debug)]
pub enum Exception {
    /// A script value that was thrown.
    Thrown(Value),
    /// A `TypeError` raised at the host/engine boundary, with its message.
    TypeError(String),
}

/// A host-visible snapshot of an engine exception. Building one consumes
/// the pending exception.
#[derive(Clone, Debug)]
pub struct ErrorReport {
    pub exception: Exception,
}

impl Value {
    /// Whether the value refers to an object.
    pub fn is_object(&self) -> (r: bool)
        ensures
            r == (self is Object),
    {
        matches!(self, Value::Object(_))
    }
}

} // verus!
