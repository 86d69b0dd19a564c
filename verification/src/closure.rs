//! Closures: code bound to the module that owns it.

use vstd::prelude::*;
use crate::callable::Callable;
use crate::value::{ModuleId, Value};

verus! {

/// A callable together with its module. `upvalues` is kept for captured
/// values; nothing captures yet.
pub struct ClosureObject {
    pub callable: Callable,
    pub module: ModuleId,
    pub upvalues: Vec<Value>,
}

} // verus!
