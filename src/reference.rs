//! References held by tables, and their untagged storage form.

use crate::types::ValType;
use vstd::prelude::*;

verus! {

/// An opaque handle to data owned by the host; address 0 is the null handle.
#[derive(Debug, Clone, Copy, PartialEq, Eq, Hash, Structural)]
pub struct VMExternRef {
    pub addr: usize,
}

impl VMExternRef {
    /// The null handle.
    pub fn null() -> (r: VMExternRef)
        ensures
            r.addr == 0,
    {
        VMExternRef { addr: 0 }
    }

    /// Whether this is the null handle.
    pub fn is_null(&self) -> (r: bool)
        ensures
            r == (self.addr == 0),
    {
        self.addr == 0
    }
}

/// A reference to a callable function; address 0 is the null reference.
#[derive(Debug, Clone, Copy, PartialEq, Eq, Hash, Structural)]
pub struct VMFuncRef {
    pub addr: usize,
}

impl VMFuncRef {
    /// The null reference.
    pub fn null() -> (r: VMFuncRef)
        ensures
            r.addr == 0,
    {
        VMFuncRef { addr: 0 }
    }

    /// Whether this is the null reference.
    pub fn is_null(&self) -> (r: bool)
        ensures
            r == (self.addr == 0),
    {
        self.addr == 0
    }
}

/// A reference stored in a table. Can be either an externref or a funcref.
#[derive(Debug, Clone, Copy, PartialEq, Eq, Hash, Structural)]
pub enum TableReference {
    /// Opaque pointer to arbitrary host data.
    ExternRef(VMExternRef),
    /// Pointer to function: contains enough information to call it.
    FuncRef(VMFuncRef),
}

/// The element type that a reference belongs to.
pub open spec fn kind_of(r: TableReference) -> ValType {
    match r {
        TableReference::ExternRef(_) => ValType::ExternRef,
        TableReference::FuncRef(_) => ValType::FuncRef,
    }
}

/// The untagged storage form of a reference: its address alone.
pub open spec fn bits_of(r: TableReference) -> usize {
    match r {
        TableReference::ExternRef(e) => e.addr,
        TableReference::FuncRef(f) => f.addr,
    }
}

/// Reads untagged storage as a reference of the table's element type.
pub open spec fn reference_of(ty: ValType, bits: usize) -> TableReference {
    if ty == ValType::ExternRef {
        TableReference::ExternRef(VMExternRef { addr: bits })
    } else {
        TableReference::FuncRef(VMFuncRef { addr: bits })
    }
}

/// The null reference of a table's element type.
pub open spec fn null_reference(ty: ValType) -> TableReference {
    reference_of(ty, 0)
}

impl Default for TableReference {
    fn default() -> (r: TableReference)
        ensures
            r == TableReference::FuncRef(VMFuncRef { addr: 0 }),
    {
        TableReference::FuncRef(VMFuncRef::null())
    }
}

impl TableReference {
    /// The element type this reference belongs to.
    pub fn kind(&self) -> (r: ValType)
        ensures
            r == kind_of(*self),
    {
        match self {
            TableReference::ExternRef(_) => ValType::ExternRef,
            TableReference::FuncRef(_) => ValType::FuncRef,
        }
    }

    /// The untagged storage form of this reference.
    pub(crate) fn to_bits(&self) -> (r: usize)
        ensures
            r == bits_of(*self),
    {
        match self {
            TableReference::ExternRef(e) => e.addr,
            TableReference::FuncRef(f) => f.addr,
        }
    }

    /// Reads untagged storage as a reference of the element type `ty`.
    pub(crate) fn from_bits(ty: ValType, bits: usize) -> (r: TableReference)
        ensures
            r == reference_of(ty, bits),
    {
        match ty {
            ValType::ExternRef => TableReference::ExternRef(VMExternRef { addr: bits }),
            _ => TableReference::FuncRef(VMFuncRef { addr: bits }),
        }
    }
}

/// A reference of the table's kind survives the round trip through storage.
pub proof fn lemma_bits_round_trip(ty: ValType, r: TableReference)
    requires
        ty.is_reference_spec(),
        kind_of(r) == ty,
    ensures
        reference_of(ty, bits_of(r)) == r,
{
}

} // verus!
