use wasmer_vm::{
    LinearTable, TableCreationError, TableReference, TableStyle, TableType, Trap, TrapCode,
    VMExternRef, VMFuncRef, ValType,
};

fn func(addr: usize) -> TableReference {
    TableReference::FuncRef(VMFuncRef { addr })
}

fn extern_ref(addr: usize) -> TableReference {
    TableReference::ExternRef(VMExternRef { addr })
}

fn func_table(minimum: u32, maximum: Option<u32>) -> LinearTable {
    LinearTable::new(
        &TableType::new(ValType::FuncRef, minimum, maximum),
        &TableStyle::CallerChecksSignature,
    )
    .unwrap()
}

fn trap(code: TrapCode) -> Trap {
    Trap::new_from_runtime(code)
}

fn contents(t: &LinearTable) -> Vec<TableReference> {
    (0..t.size()).map(|i| t.get(i).unwrap()).collect()
}

/// A table of six slots holding the markers 10..=15.
fn marked_table() -> LinearTable {
    let mut t = func_table(6, None);
    for i in 0..6u32 {
        t.set(i, func(10 + i as usize)).unwrap();
    }
    t
}

#[test]
fn concrete_scenario() {
    let mut t = func_table(2, Some(4));
    assert_eq!(t.size(), 2);
    assert_eq!(t.grow(1), Some(2));
    assert_eq!(t.size(), 3);
    assert_eq!(t.grow(2), None);
    assert_eq!(t.size(), 3);
    let ref_a = func(0x1234);
    assert_eq!(t.set(2, ref_a), Ok(()));
    assert_eq!(t.get(2), Ok(ref_a));
    assert_eq!(t.get(3), Err(trap(TrapCode::TableAccessOutOfBounds)));
}

#[test]
fn new_table_holds_null_references() {
    let t = func_table(5, Some(9));
    assert_eq!(t.size(), 5);
    assert_eq!(t.vmtable().current_elements, 5);
    for i in 0..5 {
        assert_eq!(t.get(i), Ok(func(0)));
    }
    let e = LinearTable::new(
        &TableType::new(ValType::ExternRef, 3, None),
        &TableStyle::CallerChecksSignature,
    )
    .unwrap();
    assert_eq!(e.size(), 3);
    for i in 0..3 {
        assert_eq!(e.get(i), Ok(extern_ref(0)));
    }
    assert_eq!(*e.ty(), TableType::new(ValType::ExternRef, 3, None));
    assert_eq!(*e.style(), TableStyle::CallerChecksSignature);
}

#[test]
fn empty_table() {
    let mut t = func_table(0, Some(0));
    assert_eq!(t.size(), 0);
    assert_eq!(t.get(0), Err(trap(TrapCode::TableAccessOutOfBounds)));
    assert_eq!(t.grow(0), Some(0));
    assert_eq!(t.grow(1), None);
    assert_eq!(t.size(), 0);
}

#[test]
fn creation_rejects_non_reference_types() {
    for ty in [ValType::I32, ValType::I64, ValType::F32, ValType::F64, ValType::V128] {
        let r = LinearTable::new(&TableType::new(ty, 1, None), &TableStyle::CallerChecksSignature);
        assert_eq!(r.unwrap_err(), TableCreationError::UnsupportedElementType(ty));
    }
}

#[test]
fn creation_rejects_maximum_below_minimum() {
    let r = LinearTable::new(
        &TableType::new(ValType::FuncRef, 5, Some(4)),
        &TableStyle::CallerChecksSignature,
    );
    assert_eq!(
        r.unwrap_err(),
        TableCreationError::MinimumAboveMaximum { minimum: 5, maximum: 4 }
    );
    assert!(LinearTable::new(
        &TableType::new(ValType::FuncRef, 4, Some(4)),
        &TableStyle::CallerChecksSignature
    )
    .is_ok());
}

#[test]
fn grow_zero_returns_size() {
    let mut t = marked_table();
    let before = contents(&t);
    assert_eq!(t.grow(0), Some(6));
    assert_eq!(t.size(), 6);
    assert_eq!(contents(&t), before);
}

#[test]
fn grow_past_maximum_fails_unchanged() {
    let mut t = func_table(3, Some(5));
    t.set(1, func(42)).unwrap();
    assert_eq!(t.grow(3), None);
    assert_eq!(t.size(), 3);
    assert_eq!(contents(&t), vec![func(0), func(42), func(0)]);
    assert_eq!(t.grow(2), Some(3));
    assert_eq!(t.size(), 5);
}

#[test]
fn grow_overflowing_u32_fails() {
    let mut t = func_table(1, None);
    assert_eq!(t.grow(u32::MAX), None);
    assert_eq!(t.size(), 1);
}

#[test]
fn grow_appends_null_slots_and_keeps_prefix() {
    let mut t = marked_table();
    let before = contents(&t);
    assert_eq!(t.grow(3), Some(6));
    assert_eq!(t.size(), 9);
    assert_eq!(t.vmtable().current_elements, 9);
    let after = contents(&t);
    assert_eq!(&after[..6], &before[..]);
    assert_eq!(&after[6..], &[func(0), func(0), func(0)]);
}

#[test]
fn set_then_get_round_trip() {
    let mut t = func_table(4, None);
    for i in 0..4u32 {
        let r = func(100 + i as usize);
        assert_eq!(t.set(i, r), Ok(()));
        assert_eq!(t.get(i), Ok(r));
    }
    let mut e = LinearTable::new(
        &TableType::new(ValType::ExternRef, 2, None),
        &TableStyle::CallerChecksSignature,
    )
    .unwrap();
    assert_eq!(e.set(1, extern_ref(77)), Ok(()));
    assert_eq!(e.get(1), Ok(extern_ref(77)));
    assert_eq!(e.get(0), Ok(extern_ref(0)));
}

#[test]
fn out_of_bounds_access_fails_unchanged() {
    let mut t = marked_table();
    let before = contents(&t);
    assert_eq!(t.get(6), Err(trap(TrapCode::TableAccessOutOfBounds)));
    assert_eq!(t.get(u32::MAX), Err(trap(TrapCode::TableAccessOutOfBounds)));
    assert_eq!(t.set(6, func(1)), Err(trap(TrapCode::TableAccessOutOfBounds)));
    assert_eq!(t.set(u32::MAX, func(1)), Err(trap(TrapCode::TableAccessOutOfBounds)));
    assert_eq!(contents(&t), before);
}

#[test]
fn set_of_wrong_kind_is_a_type_mismatch() {
    let mut t = marked_table();
    let before = contents(&t);
    assert_eq!(t.set(2, extern_ref(5)), Err(trap(TrapCode::TableTypeMismatch)));
    assert_eq!(contents(&t), before);
}

#[test]
fn copy_within_forward_overlap() {
    let mut t = marked_table();
    assert_eq!(t.copy_within(1, 0, 4), Ok(()));
    assert_eq!(
        contents(&t),
        vec![func(10), func(10), func(11), func(12), func(13), func(15)]
    );
}

#[test]
fn copy_within_backward_overlap() {
    let mut t = marked_table();
    assert_eq!(t.copy_within(0, 1, 4), Ok(()));
    assert_eq!(
        contents(&t),
        vec![func(11), func(12), func(13), func(14), func(14), func(15)]
    );
}

#[test]
fn copy_within_bounds_checked_before_mutation() {
    let mut t = marked_table();
    let before = contents(&t);
    assert_eq!(t.copy_within(0, 3, 4), Err(trap(TrapCode::TableAccessOutOfBounds)));
    assert_eq!(t.copy_within(3, 0, 4), Err(trap(TrapCode::TableSetterOutOfBounds)));
    assert_eq!(t.copy_within(0, u32::MAX, 2), Err(trap(TrapCode::TableAccessOutOfBounds)));
    assert_eq!(t.copy_within(u32::MAX, 0, 2), Err(trap(TrapCode::TableSetterOutOfBounds)));
    assert_eq!(contents(&t), before);
    assert_eq!(t.copy_within(6, 6, 0), Ok(()));
    assert_eq!(contents(&t), before);
}

#[test]
fn copy_between_tables() {
    let src = marked_table();
    let mut dst = func_table(4, None);
    assert_eq!(dst.copy(&src, 1, 3, 3), Ok(()));
    assert_eq!(contents(&dst), vec![func(0), func(13), func(14), func(15)]);
    assert_eq!(contents(&src).len(), 6);
}

#[test]
fn copy_between_tables_bounds_checked_before_mutation() {
    let src = marked_table();
    let mut dst = func_table(4, None);
    dst.set(0, func(9)).unwrap();
    let before = contents(&dst);
    assert_eq!(dst.copy(&src, 0, 4, 3), Err(trap(TrapCode::TableAccessOutOfBounds)));
    assert_eq!(dst.copy(&src, 2, 0, 3), Err(trap(TrapCode::TableSetterOutOfBounds)));
    assert_eq!(dst.copy(&src, 0, u32::MAX, 1), Err(trap(TrapCode::TableAccessOutOfBounds)));
    assert_eq!(contents(&dst), before);
}

#[test]
fn copy_between_kinds_is_a_type_mismatch() {
    let src = LinearTable::new(
        &TableType::new(ValType::ExternRef, 3, None),
        &TableStyle::CallerChecksSignature,
    )
    .unwrap();
    let mut dst = marked_table();
    let before = contents(&dst);
    assert_eq!(dst.copy(&src, 0, 0, 2), Err(trap(TrapCode::TableTypeMismatch)));
    assert_eq!(contents(&dst), before);
    assert_eq!(dst.copy(&src, 0, 0, 0), Ok(()));
}

#[test]
fn reference_helpers() {
    assert!(VMFuncRef::null().is_null());
    assert!(!VMFuncRef { addr: 3 }.is_null());
    assert!(VMExternRef::null().is_null());
    assert_eq!(TableReference::default(), func(0));
    assert_eq!(func(1).kind(), ValType::FuncRef);
    assert_eq!(extern_ref(1).kind(), ValType::ExternRef);
    assert!(ValType::FuncRef.is_reference());
    assert!(!ValType::I32.is_reference());
}
