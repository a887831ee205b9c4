use fork::SysError;
use fork::fd_table::{FdBinding, FdTable};

#[test]
fn open_on_empty_table_starts_at_zero() {
    let mut t = FdTable::empty();
    assert_eq!(t.open_descriptor(FdBinding::File(10)), 0);
    assert_eq!(t.open_descriptor(FdBinding::File(11)), 1);
    assert_eq!(t.open_descriptor(FdBinding::File(12)), 2);
    assert_eq!(t.binding_at(0), Some(FdBinding::File(10)));
    assert_eq!(t.binding_at(1), Some(FdBinding::File(11)));
    assert_eq!(t.binding_at(2), Some(FdBinding::File(12)));
}

#[test]
fn standard_table_binds_three_terminal_streams() {
    let t = FdTable::standard();
    assert_eq!(t.binding_at(0), Some(FdBinding::Terminal));
    assert_eq!(t.binding_at(1), Some(FdBinding::Terminal));
    assert_eq!(t.binding_at(2), Some(FdBinding::Terminal));
    assert_eq!(t.binding_at(3), None);
    assert!(t.is_open(2));
    assert!(!t.is_open(3));
}

#[test]
fn open_fills_the_lowest_free_slot() {
    let mut t = FdTable::standard();
    assert_eq!(t.open_descriptor(FdBinding::File(1)), 3);
    t.close_descriptor(1).expect("descriptor 1 is open");
    // Slot 1 is now the lowest free number, so the next open reuses it.
    assert_eq!(t.open_descriptor(FdBinding::File(2)), 1);
    assert_eq!(t.binding_at(1), Some(FdBinding::File(2)));
    // With 0..3 occupied again, allocation continues above.
    assert_eq!(t.open_descriptor(FdBinding::File(3)), 4);
}

#[test]
fn close_frees_the_slot_and_closing_twice_fails() {
    let mut t = FdTable::standard();
    assert_eq!(t.close_descriptor(0), Ok(()));
    assert_eq!(t.binding_at(0), None);
    assert_eq!(t.close_descriptor(0), Err(SysError::BadDescriptor));
    assert_eq!(t.close_descriptor(99), Err(SysError::BadDescriptor));
    // The failed closes left the rest untouched.
    assert_eq!(t.binding_at(1), Some(FdBinding::Terminal));
    assert_eq!(t.binding_at(2), Some(FdBinding::Terminal));
}

#[test]
fn dup2_rebinds_the_target_in_place() {
    let mut t = FdTable::standard();
    let n = t.open_descriptor(FdBinding::NullDevice);
    assert_eq!(n, 3);
    assert_eq!(t.dup2(n, 1), Ok(1));
    assert_eq!(t.binding_at(1), Some(FdBinding::NullDevice));
    // The other slots, and the source, keep their bindings.
    assert_eq!(t.binding_at(0), Some(FdBinding::Terminal));
    assert_eq!(t.binding_at(2), Some(FdBinding::Terminal));
    assert_eq!(t.binding_at(3), Some(FdBinding::NullDevice));
}

#[test]
fn dup2_from_a_closed_source_fails() {
    let mut t = FdTable::standard();
    assert_eq!(t.dup2(5, 1), Err(SysError::BadDescriptor));
    assert_eq!(t.binding_at(1), Some(FdBinding::Terminal));
}

#[test]
fn dup2_onto_itself_keeps_the_binding() {
    let mut t = FdTable::standard();
    assert_eq!(t.dup2(2, 2), Ok(2));
    assert_eq!(t.binding_at(2), Some(FdBinding::Terminal));
}

#[test]
fn dup2_can_bind_beyond_the_current_range() {
    let mut t = FdTable::standard();
    assert_eq!(t.dup2(0, 7), Ok(7));
    assert_eq!(t.binding_at(7), Some(FdBinding::Terminal));
    // The skipped numbers stay free, so the next open takes the lowest.
    assert_eq!(t.open_descriptor(FdBinding::File(1)), 3);
}

#[test]
fn duplicate_copies_every_binding() {
    let mut t = FdTable::standard();
    t.close_descriptor(1).expect("descriptor 1 is open");
    let copy = t.duplicate();
    assert_eq!(copy.binding_at(0), Some(FdBinding::Terminal));
    assert_eq!(copy.binding_at(1), None);
    assert_eq!(copy.binding_at(2), Some(FdBinding::Terminal));
}
