//! Descriptions of tables: element type, limits and implementation style.

use vstd::prelude::*;

verus! {

/// The value types that a module can declare.
#[derive(Debug, Clone, Copy, PartialEq, Eq, Hash, Structural)]
pub enum ValType {
    /// Signed 32 bit integer.
    I32,
    /// Signed 64 bit integer.
    I64,
    /// 32 bit IEEE number.
    F32,
    /// 64 bit IEEE number.
    F64,
    /// A 128 bit number.
    V128,
    /// A reference to opaque data owned by the host.
    ExternRef,
    /// A reference to a function.
    FuncRef,
}

impl ValType {
    /// Whether tables may hold elements of this type.
    pub open spec fn is_reference_spec(self) -> bool {
        self == ValType::ExternRef || self == ValType::FuncRef
    }

    /// Returns true for the two reference types, the only element types of a table.
    pub fn is_reference(self) -> (r: bool)
        ensures
            r == self.is_reference_spec(),
    {
        match self {
            ValType::ExternRef | ValType::FuncRef => true,
            _ => false,
        }
    }
}

/// The description of a table: element type and limits on its size.
#[derive(Debug, Clone, Copy, PartialEq, Eq, Hash, Structural)]
pub struct TableType {
    /// The type of data stored in elements of the table.
    pub ty: ValType,
    /// The minimum number of elements in the table.
    pub minimum: u32,
    /// The maximum number of elements in the table.
    pub maximum: Option<u32>,
}

impl TableType {
    /// Whether a table can be built from this description: a reference
    /// element type, and a maximum (if any) no lower than the minimum.
    pub open spec fn is_valid(self) -> bool {
        &&& self.ty.is_reference_spec()
        &&& (self.maximum matches Some(max) ==> self.minimum <= max)
    }

    /// Creates a description from its element type and limits.
    pub fn new(ty: ValType, minimum: u32, maximum: Option<u32>) -> (r: TableType)
        ensures
            r == (TableType { ty, minimum, maximum }),
    {
        TableType { ty, minimum, maximum }
    }
}

/// Implementation styles for tables.
#[derive(Debug, Clone, Copy, PartialEq, Eq, Hash, Structural)]
pub enum TableStyle {
    /// Signatures are stored in the table and checked in the caller.
    CallerChecksSignature,
}

} // verus!
