//! A host-side bridge for a script engine's asynchronous primitives:
//! native functions, promises with their reaction protocol, a microtask
//! queue with fixed-point draining, and the registry of host callbacks
//! that reactions and user microtasks dispatch to.

pub mod value;
pub mod microtask;
pub mod slots;
pub mod runtime;
pub mod function;
pub mod promise;
pub mod host;
pub mod laws;
