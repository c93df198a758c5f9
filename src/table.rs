//! The table manager: owns the backing storage and the raw layout that
//! compiled code reads, and implements grow, get, set and bulk copy.

use crate::reference::{bits_of, kind_of, lemma_bits_round_trip, null_reference, reference_of, TableReference};
use crate::trap::{Trap, TrapCode};
use crate::types::{TableStyle, TableType, ValType};
use vstd::prelude::*;

verus! {

/// The raw layout that compiled code reads on every table access: the
/// address of the first element, then the current number of elements.
#[derive(Debug, Clone, Copy, PartialEq, Eq, Structural)]
pub struct VMTableDefinition {
    /// Address of the first element of the backing storage.
    pub base: usize,
    /// Number of elements in the backing storage.
    pub current_elements: u32,
}

/// Why a table could not be created from its description.
#[derive(Debug, Clone, Copy, PartialEq, Eq, Structural)]
pub enum TableCreationError {
    /// Elements of this type cannot be stored in a table.
    UnsupportedElementType(ValType),
    /// The description's maximum is lower than its minimum.
    MinimumAboveMaximum { minimum: u32, maximum: u32 },
}

/// `n` null references of the element type `ty`.
pub open spec fn null_slots(ty: ValType, n: nat) -> Seq<TableReference> {
    Seq::new(n, |i: int| null_reference(ty))
}

/// Whether a table of `len` elements with the limit `maximum` can take `delta` more.
pub open spec fn grow_fits(len: int, delta: u32, maximum: Option<u32>) -> bool {
    &&& len + delta <= u32::MAX
    &&& (maximum matches Some(m) ==> len + delta <= m)
}

/// `dst` with its slots `[d, d + len)` replaced by the slots `[s, s + len)` of `src`.
pub open spec fn copy_range(
    dst: Seq<TableReference>,
    d: int,
    src: Seq<TableReference>,
    s: int,
    len: int,
) -> Seq<TableReference> {
    Seq::new(dst.len(), |i: int| if d <= i < d + len { src[s + (i - d)] } else { dst[i] })
}

/// Relies on `Vec::as_ptr`: the address of the first element, which the raw
/// layout hands to compiled code.
#[verifier::external_body]
fn storage_address(v: &Vec<usize>) -> usize {
    v.as_ptr() as usize
}

/// A table instance.
///
/// Elements are stored untagged, as the address of the reference alone; the
/// table's element type says which kind of reference each slot holds.
#[derive(Debug)]
pub struct LinearTable {
    vec: Vec<usize>,
    maximum: Option<u32>,
    table: TableType,
    style: TableStyle,
    vm_table_definition: VMTableDefinition,
}

impl View for LinearTable {
    type V = Seq<TableReference>;

    closed spec fn view(&self) -> Seq<TableReference> {
        self.vec@.map_values(|b: usize| reference_of(self.table.ty, b))
    }
}

impl LinearTable {
    /// The table's invariant: a reference element type, a raw layout whose
    /// count matches the storage, and a size within the limits.
    pub closed spec fn wf(&self) -> bool {
        &&& self.table.ty.is_reference_spec()
        &&& self.maximum == self.table.maximum
        &&& self.vm_table_definition.current_elements as int == self.vec@.len()
        &&& self.vec@.len() <= u32::MAX
        &&& (self.maximum matches Some(m) ==> self.vec@.len() <= m)
    }

    /// The description the table was created from.
    pub closed spec fn spec_ty(&self) -> TableType {
        self.table
    }

    /// The implementation style the table was created with.
    pub closed spec fn spec_style(&self) -> TableStyle {
        self.style
    }

    /// The element type of the table.
    pub open spec fn element_type(&self) -> ValType {
        self.spec_ty().ty
    }

    /// The limit on the table's size, if any.
    pub open spec fn maximum_size(&self) -> Option<u32> {
        self.spec_ty().maximum
    }

    /// What the invariant gives callers: the element type is a reference
    /// type, every slot holds a reference of it, and the size stays within
    /// the limits.
    pub proof fn lemma_wf(&self)
        requires
            self.wf(),
        ensures
            self.element_type().is_reference_spec(),
            self@.len() <= u32::MAX,
            self.maximum_size() matches Some(m) ==> self@.len() <= m,
            forall|i: int| 0 <= i < self@.len() ==> kind_of(#[trigger] self@[i]) == self.element_type(),
    {
    }

    /// Create a new linear table whose raw layout the table owns itself.
    ///
    /// Fails when the element type is not a reference type, or when the
    /// maximum is lower than the minimum.
    pub fn new(table: &TableType, style: &TableStyle) -> (r: Result<LinearTable, TableCreationError>)
        ensures
            !table.ty.is_reference_spec() ==> r == Err::<LinearTable, TableCreationError>(
                TableCreationError::UnsupportedElementType(table.ty),
            ),
            table.ty.is_reference_spec() && table.maximum.is_some() && table.maximum.unwrap()
                < table.minimum ==> r == Err::<LinearTable, TableCreationError>(
                TableCreationError::MinimumAboveMaximum {
                    minimum: table.minimum,
                    maximum: table.maximum.unwrap(),
                },
            ),
            table.is_valid() ==> (r matches Ok(t) && {
                &&& t.wf()
                &&& t.spec_ty() == *table
                &&& t.spec_style() == *style
                &&& t@ == null_slots(table.ty, table.minimum as nat)
            }),
    {
        if !table.ty.is_reference() {
            return Err(TableCreationError::UnsupportedElementType(table.ty));
        }
        if let Some(max) = table.maximum {
            if max < table.minimum {
                return Err(TableCreationError::MinimumAboveMaximum { minimum: table.minimum, maximum: max });
            }
        }
        let table_minimum = table.minimum as usize;
        let mut vec: Vec<usize> = Vec::new();
        let mut i: usize = 0;
        while i < table_minimum
            invariant
                i <= table_minimum,
                vec@.len() == i,
                forall|j: int| 0 <= j < i ==> vec@[j] == 0,
            decreases table_minimum - i,
        {
            vec.push(0);
            i += 1;
        }
        let base = storage_address(&vec);
        match style {
            TableStyle::CallerChecksSignature => {
                let t = LinearTable {
                    vec,
                    maximum: table.maximum,
                    table: *table,
                    style: *style,
                    vm_table_definition: VMTableDefinition { base, current_elements: table.minimum },
                };
                assert(t@ =~= null_slots(table.ty, table.minimum as nat));
                Ok(t)
            },
        }
    }

    /// Returns the description of this table.
    pub fn ty(&self) -> (r: &TableType)
        ensures
            *r == self.spec_ty(),
    {
        &self.table
    }

    /// Returns the implementation style of this table.
    pub fn style(&self) -> (r: &TableStyle)
        ensures
            *r == self.spec_style(),
    {
        &self.style
    }

    /// Returns the number of elements, as the raw layout records it.
    pub fn size(&self) -> (r: u32)
        requires
            self.wf(),
        ensures
            r == self@.len(),
    {
        self.vm_table_definition.current_elements
    }

    /// Returns the raw layout, for exposing the table to compiled code.
    pub fn vmtable(&self) -> (r: &VMTableDefinition)
        requires
            self.wf(),
        ensures
            r.current_elements == self@.len(),
    {
        &self.vm_table_definition
    }
}

impl LinearTable {
    /// Grow the table by `delta` null elements of its element type.
    ///
    /// Returns `None`, leaving the table as it was, when the new size does
    /// not fit in `u32` or exceeds the maximum; otherwise returns the size
    /// before growth.
    pub fn grow(&mut self, delta: u32) -> (r: Option<u32>)
        requires
            old(self).wf(),
        ensures
            final(self).wf(),
            final(self).spec_ty() == old(self).spec_ty(),
            final(self).spec_style() == old(self).spec_style(),
            r.is_some() <==> grow_fits(old(self)@.len() as int, delta, old(self).maximum_size()),
            r matches Some(s) ==> {
                &&& s == old(self)@.len()
                &&& final(self)@ == old(self)@ + null_slots(old(self).element_type(), delta as nat)
            },
            r is None ==> *final(self) == *old(self),
    {
        let size = self.size();
        let new_len = match size.checked_add(delta) {
            Some(n) => n,
            None => return None,
        };
        if let Some(max) = self.maximum {
            if new_len > max {
                return None;
            }
        }
        let ghost before = self.vec@;
        let mut i: u32 = 0;
        while i < delta
            invariant
                i <= delta,
                size as int + delta as int == new_len as int,
                before == old(self).vec@,
                before.len() == size as int,
                self.vec@.len() == size as int + i as int,
                self.vec@.subrange(0, size as int) == before,
                forall|j: int| size <= j < size + i ==> self.vec@[j] == 0,
                self.table == old(self).table,
                self.style == old(self).style,
                self.maximum == old(self).maximum,
            decreases delta - i,
        {
            self.vec.push(0);
            i += 1;
            assert(self.vec@.subrange(0, size as int) =~= before);
        }
        self.vm_table_definition.current_elements = new_len;
        self.vm_table_definition.base = storage_address(&self.vec);
        proof {
            let ty = self.table.ty;
            assert forall|j: int| 0 <= j < size implies self.vec@[j] == before[j] by {
                assert(self.vec@.subrange(0, size as int)[j] == self.vec@[j]);
            }
            assert(self@ =~= old(self)@ + null_slots(ty, delta as nat));
        }
        Some(size)
    }

    /// Get the reference at `index`.
    ///
    /// Fails with `TableAccessOutOfBounds` when `index` is not below the size.
    pub fn get(&self, index: u32) -> (r: Result<TableReference, Trap>)
        requires
            self.wf(),
        ensures
            index < self@.len() ==> r == Ok::<TableReference, Trap>(self@[index as int]),
            index >= self@.len() ==> r == Err::<TableReference, Trap>(
                Trap { code: TrapCode::TableAccessOutOfBounds },
            ),
    {
        let i = index as usize;
        if i < self.vec.len() {
            Ok(TableReference::from_bits(self.table.ty, self.vec[i]))
        } else {
            Err(Trap::new_from_runtime(TrapCode::TableAccessOutOfBounds))
        }
    }

    /// Set the slot at `index` to `reference`.
    ///
    /// Fails with `TableAccessOutOfBounds` when `index` is not below the
    /// size, and with `TableTypeMismatch` when the reference is not of the
    /// table's element type; on failure the table is left as it was.
    pub fn set(&mut self, index: u32, reference: TableReference) -> (r: Result<(), Trap>)
        requires
            old(self).wf(),
        ensures
            final(self).wf(),
            final(self).spec_ty() == old(self).spec_ty(),
            final(self).spec_style() == old(self).spec_style(),
            index >= old(self)@.len() ==> r == Err::<(), Trap>(
                Trap { code: TrapCode::TableAccessOutOfBounds },
            ),
            index < old(self)@.len() && kind_of(reference) != old(self).element_type() ==> r
                == Err::<(), Trap>(Trap { code: TrapCode::TableTypeMismatch }),
            index < old(self)@.len() && kind_of(reference) == old(self).element_type() ==> {
                &&& r == Ok::<(), Trap>(())
                &&& final(self)@ == old(self)@.update(index as int, reference)
            },
            r is Err ==> *final(self) == *old(self),
    {
        let i = index as usize;
        if i >= self.vec.len() {
            return Err(Trap::new_from_runtime(TrapCode::TableAccessOutOfBounds));
        }
        if reference.kind() != self.table.ty {
            return Err(Trap::new_from_runtime(TrapCode::TableTypeMismatch));
        }
        self.vec.set(i, reference.to_bits());
        proof {
            lemma_bits_round_trip(self.table.ty, reference);
            assert(self@ =~= old(self)@.update(index as int, reference));
        }
        Ok(())
    }
}

impl LinearTable {
    /// Copy `len` elements from `src_table[src_index..]` into
    /// `self[dst_index..]`, each through `get` and `set`.
    ///
    /// Fails with `TableAccessOutOfBounds` when the source range runs past
    /// the source's size, with `TableSetterOutOfBounds` when the destination
    /// range runs past this table's size, and with `TableTypeMismatch` when
    /// elements would move between tables of different element types. On
    /// failure this table is left as it was.
    pub fn copy(&mut self, src_table: &LinearTable, dst_index: u32, src_index: u32, len: u32) -> (r:
        Result<(), Trap>)
        requires
            old(self).wf(),
            src_table.wf(),
        ensures
            final(self).wf(),
            final(self).spec_ty() == old(self).spec_ty(),
            final(self).spec_style() == old(self).spec_style(),
            src_index + len > src_table@.len() ==> r == Err::<(), Trap>(
                Trap { code: TrapCode::TableAccessOutOfBounds },
            ),
            src_index + len <= src_table@.len() && dst_index + len > old(self)@.len() ==> r
                == Err::<(), Trap>(Trap { code: TrapCode::TableSetterOutOfBounds }),
            src_index + len <= src_table@.len() && dst_index + len <= old(self)@.len() && len > 0
                && src_table.element_type() != old(self).element_type() ==> r == Err::<(), Trap>(
                Trap { code: TrapCode::TableTypeMismatch },
            ),
            src_index + len <= src_table@.len() && dst_index + len <= old(self)@.len() && (len == 0
                || src_table.element_type() == old(self).element_type()) ==> {
                &&& r == Ok::<(), Trap>(())
                &&& final(self)@ == copy_range(
                    old(self)@,
                    dst_index as int,
                    src_table@,
                    src_index as int,
                    len as int,
                )
            },
            r is Err ==> *final(self) == *old(self),
    {
        let src_in_bounds = match src_index.checked_add(len) {
            Some(n) => n <= src_table.size(),
            None => false,
        };
        if !src_in_bounds {
            return Err(Trap::new_from_runtime(TrapCode::TableAccessOutOfBounds));
        }
        let dst_in_bounds = match dst_index.checked_add(len) {
            Some(m) => m <= self.size(),
            None => false,
        };
        if !dst_in_bounds {
            return Err(Trap::new_from_runtime(TrapCode::TableSetterOutOfBounds));
        }
        proof {
            src_table.lemma_wf();
        }
        let mut i: u32 = 0;
        while i < len
            invariant
                i <= len,
                self.wf(),
                src_table.wf(),
                self.spec_ty() == old(self).spec_ty(),
                self.spec_style() == old(self).spec_style(),
                src_index + len <= src_table@.len(),
                dst_index + len <= old(self)@.len(),
                self@.len() == old(self)@.len(),
                i == 0 ==> *self == *old(self),
                i > 0 ==> src_table.element_type() == old(self).element_type(),
                forall|k: int| 0 <= k < src_table@.len() ==> kind_of(#[trigger] src_table@[k]) == src_table.element_type(),
                forall|k: int|
                    0 <= k < self@.len() ==> #[trigger] self@[k] == if dst_index <= k < dst_index + i {
                        src_table@[src_index + (k - dst_index)]
                    } else {
                        old(self)@[k]
                    },
            decreases len - i,
        {
            let reference = match src_table.get(src_index + i) {
                Ok(reference) => reference,
                Err(e) => return Err(e),
            };
            match self.set(dst_index + i, reference) {
                Ok(()) => {},
                Err(e) => return Err(e),
            }
            i += 1;
        }
        assert(self@ =~= copy_range(old(self)@, dst_index as int, src_table@, src_index as int, len as int));
        Ok(())
    }

    /// Copy `len` elements of this table from `src_index..` to `dst_index..`,
    /// each through `get` and `set`, correct when the ranges overlap: front
    /// to back when `dst_index <= src_index`, back to front otherwise.
    ///
    /// Fails with `TableAccessOutOfBounds` when the source range runs past
    /// the size, and with `TableSetterOutOfBounds` when the destination range
    /// does; on failure the table is left as it was.
    pub fn copy_within(&mut self, dst_index: u32, src_index: u32, len: u32) -> (r: Result<(), Trap>)
        requires
            old(self).wf(),
        ensures
            final(self).wf(),
            final(self).spec_ty() == old(self).spec_ty(),
            final(self).spec_style() == old(self).spec_style(),
            src_index + len > old(self)@.len() ==> r == Err::<(), Trap>(
                Trap { code: TrapCode::TableAccessOutOfBounds },
            ),
            src_index + len <= old(self)@.len() && dst_index + len > old(self)@.len() ==> r
                == Err::<(), Trap>(Trap { code: TrapCode::TableSetterOutOfBounds }),
            src_index + len <= old(self)@.len() && dst_index + len <= old(self)@.len() ==> {
                &&& r == Ok::<(), Trap>(())
                &&& final(self)@ == copy_range(
                    old(self)@,
                    dst_index as int,
                    old(self)@,
                    src_index as int,
                    len as int,
                )
            },
            r is Err ==> *final(self) == *old(self),
    {
        let src_in_bounds = match src_index.checked_add(len) {
            Some(n) => n <= self.size(),
            None => false,
        };
        if !src_in_bounds {
            return Err(Trap::new_from_runtime(TrapCode::TableAccessOutOfBounds));
        }
        let dst_in_bounds = match dst_index.checked_add(len) {
            Some(m) => m <= self.size(),
            None => false,
        };
        if !dst_in_bounds {
            return Err(Trap::new_from_runtime(TrapCode::TableSetterOutOfBounds));
        }
        proof {
            self.lemma_wf();
        }
        let ghost before = self@;
        if dst_index <= src_index {
            let mut i: u32 = 0;
            while i < len
                invariant
                    i <= len,
                    dst_index <= src_index,
                    self.wf(),
                    self.spec_ty() == old(self).spec_ty(),
                    self.spec_style() == old(self).spec_style(),
                    before == old(self)@,
                    src_index + len <= before.len(),
                    dst_index + len <= before.len(),
                    self@.len() == before.len(),
                    forall|k: int| 0 <= k < before.len() ==> kind_of(#[trigger] before[k]) == self.element_type(),
                    forall|k: int|
                        0 <= k < self@.len() ==> #[trigger] self@[k] == if dst_index <= k < dst_index + i {
                            before[src_index + (k - dst_index)]
                        } else {
                            before[k]
                        },
                decreases len - i,
            {
                let reference = match self.get(src_index + i) {
                    Ok(reference) => reference,
                    Err(e) => return Err(e),
                };
                match self.set(dst_index + i, reference) {
                    Ok(()) => {},
                    Err(e) => return Err(e),
                }
                i += 1;
            }
        } else {
            let mut i: u32 = len;
            while i > 0
                invariant
                    i <= len,
                    dst_index > src_index,
                    self.wf(),
                    self.spec_ty() == old(self).spec_ty(),
                    self.spec_style() == old(self).spec_style(),
                    before == old(self)@,
                    src_index + len <= before.len(),
                    dst_index + len <= before.len(),
                    self@.len() == before.len(),
                    forall|k: int| 0 <= k < before.len() ==> kind_of(#[trigger] before[k]) == self.element_type(),
                    forall|k: int|
                        0 <= k < self@.len() ==> #[trigger] self@[k] == if dst_index + i <= k < dst_index + len {
                            before[src_index + (k - dst_index)]
                        } else {
                            before[k]
                        },
                decreases i,
            {
                i -= 1;
                let reference = match self.get(src_index + i) {
                    Ok(reference) => reference,
                    Err(e) => return Err(e),
                };
                match self.set(dst_index + i, reference) {
                    Ok(()) => {},
                    Err(e) => return Err(e),
                }
            }
        }
        assert(self@ =~= copy_range(before, dst_index as int, before, src_index as int, len as int));
        Ok(())
    }
}

/// Growing by zero always succeeds, and leaves the contents as they were.
pub proof fn lemma_grow_zero(t: &LinearTable)
    requires
        t.wf(),
    ensures
        grow_fits(t@.len() as int, 0, t.maximum_size()),
        t@ + null_slots(t.element_type(), 0) == t@,
{
    t.lemma_wf();
    assert(t@ + null_slots(t.element_type(), 0) =~= t@);
}

/// Reading a slot after writing a reference of the table's element type into
/// it gives that reference back, and the other slots keep their values.
pub proof fn lemma_set_then_get(t: &LinearTable, index: u32, reference: TableReference)
    requires
        t.wf(),
        index < t@.len(),
        kind_of(reference) == t.element_type(),
    ensures
        t@.update(index as int, reference)[index as int] == reference,
        forall|k: int|
            0 <= k < t@.len() && k != index ==> #[trigger] t@.update(index as int, reference)[k]
                == t@[k],
{
}

} // verus!
