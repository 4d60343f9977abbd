use comp_lib::passes::lower_ast::symbol_table::ScopedTable;

#[test]
fn declare_gives_stable_ids() {
    let mut table: ScopedTable<u32> = ScopedTable::new();
    assert_eq!(table.len(), 0);
    assert_eq!(table.depth(), 1);
    assert_eq!(table.declare("a".to_owned(), 10), Ok(0));
    assert_eq!(table.declare("b".to_owned(), 20), Ok(1));
    assert_eq!(table.lookup(&"a".to_owned()), Some(0));
    assert_eq!(table.lookup(&"b".to_owned()), Some(1));
    assert_eq!(table.lookup(&"c".to_owned()), None);
    assert_eq!(*table.get(0), 10);
    assert_eq!(*table.get(1), 20);
    assert_eq!(table.len(), 2);
}

#[test]
fn redeclaration_in_one_scope_keeps_the_first() {
    let mut table: ScopedTable<u32> = ScopedTable::new();
    assert_eq!(table.declare("a".to_owned(), 10), Ok(0));
    assert_eq!(table.declare("a".to_owned(), 99), Err(0));
    assert_eq!(table.len(), 1);
    assert_eq!(*table.get(0), 10);
    assert_eq!(table.lookup(&"a".to_owned()), Some(0));
}

#[test]
fn inner_scope_shadows_and_closing_restores() {
    let mut table: ScopedTable<u32> = ScopedTable::new();
    assert_eq!(table.declare("a".to_owned(), 10), Ok(0));
    table.new_scope();
    assert_eq!(table.depth(), 2);
    // still the outer one until the inner declaration
    assert_eq!(table.lookup(&"a".to_owned()), Some(0));
    assert_eq!(table.declare("a".to_owned(), 20), Ok(1));
    assert_eq!(table.lookup(&"a".to_owned()), Some(1));
    assert_eq!(table.declare("b".to_owned(), 30), Ok(2));
    table.close_scope();
    assert_eq!(table.depth(), 1);
    assert_eq!(table.lookup(&"a".to_owned()), Some(0));
    assert_eq!(table.lookup(&"b".to_owned()), None);
    // the items outlive their scope
    assert_eq!(*table.get(1), 20);
    assert_eq!(*table.get(2), 30);
    assert_eq!(table.len(), 3);
    // and their ids are not given out again
    assert_eq!(table.declare("b".to_owned(), 40), Ok(3));
}

#[test]
fn lookup_goes_through_every_open_scope() {
    let mut table: ScopedTable<u32> = ScopedTable::new();
    assert_eq!(table.declare("g".to_owned(), 1), Ok(0));
    table.new_scope();
    assert_eq!(table.declare("f".to_owned(), 2), Ok(1));
    table.new_scope();
    assert_eq!(table.declare("h".to_owned(), 3), Ok(2));
    assert_eq!(table.lookup(&"g".to_owned()), Some(0));
    assert_eq!(table.lookup(&"f".to_owned()), Some(1));
    assert_eq!(table.lookup(&"h".to_owned()), Some(2));
    table.close_scope();
    table.close_scope();
    assert_eq!(table.lookup(&"g".to_owned()), Some(0));
    assert_eq!(table.lookup(&"f".to_owned()), None);
}

#[test]
fn into_table_keeps_every_item() {
    let mut table: ScopedTable<u32> = ScopedTable::new();
    table.declare("a".to_owned(), 10).unwrap();
    table.new_scope();
    table.declare("a".to_owned(), 20).unwrap();
    table.close_scope();
    let finished = table.into_table();
    assert_eq!(finished.len(), 2);
    assert_eq!(*finished.get(0), 10);
    assert_eq!(*finished.get(1), 20);
}
