use wakey_2d_engine::column::Column;

#[test]
fn new_column_holds_nothing() {
    let c: Column<u32> = Column::new();
    assert_eq!(c.get(0), None);
    assert_eq!(c.get(usize::MAX), None);
}

#[test]
fn put_and_get_in_any_order() {
    let mut c: Column<u32> = Column::new();
    c.put(5, Some(50));
    assert_eq!(c.get(5), Some(50));
    for i in 0..5 {
        assert_eq!(c.get(i), None);
    }
    assert_eq!(c.get(6), None);
    c.put(2, Some(20));
    c.put(5, Some(55));
    assert_eq!(c.get(2), Some(20));
    assert_eq!(c.get(5), Some(55));
    c.put(2, None);
    assert_eq!(c.get(2), None);
    assert_eq!(c.get(5), Some(55));
}

#[test]
fn putting_nothing_beyond_the_end_changes_nothing() {
    let mut c: Column<u32> = Column::new();
    c.put(1_000_000_000_000, None);
    assert_eq!(c.get(1_000_000_000_000), None);
    c.put(0, Some(1));
    assert_eq!(c.get(0), Some(1));
}
