//! Faults that table accesses report back to the runtime.

use vstd::prelude::*;

verus! {

/// The kinds of fault that a table access can raise.
#[derive(Debug, Clone, Copy, PartialEq, Eq, Hash, Structural)]
pub enum TrapCode {
    /// A read, or a write through `set`, past the current size.
    TableAccessOutOfBounds,
    /// A bulk write whose destination range runs past the current size.
    TableSetterOutOfBounds,
    /// A reference whose kind differs from the table's element type.
    TableTypeMismatch,
}

/// A fault raised by the runtime itself (not by a host function).
#[derive(Debug, Clone, Copy, PartialEq, Eq, Hash, Structural)]
pub struct Trap {
    /// What went wrong.
    pub code: TrapCode,
}

impl Trap {
    /// Creates a trap raised by the runtime with the given code.
    pub fn new_from_runtime(code: TrapCode) -> (r: Trap)
        ensures
            r.code == code,
    {
        Trap { code }
    }
}

} // verus!
