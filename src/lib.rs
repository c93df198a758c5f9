//! Memory management for tables: a growable, bounds-checked store of
//! references whose raw layout is read directly by compiled code.

pub mod reference;
pub mod table;
pub mod trap;
pub mod types;

pub use reference::{TableReference, VMExternRef, VMFuncRef};
pub use table::{LinearTable, TableCreationError, VMTableDefinition};
pub use trap::{Trap, TrapCode};
pub use types::{TableStyle, TableType, ValType};
