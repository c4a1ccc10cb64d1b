use nes6502::name_attr_tables_mapper::{
    FourWayMirroringNameAndAttributeTable, HorizontalMirroringNameAndAttributeTable,
    NameAndAttributeTablesMemoryMapper, SingleNameAndAttributeTable,
    VerticalMirroringNameAndAttributeTable, NAME_TABLE_SIZE,
};

fn shared<T: NameAndAttributeTablesMemoryMapper>(mut t: T, written: u8, read: u8) -> bool {
    t.write8(written, 0x3c5, 0x5a);
    t.read8(read, 0x3c5) == 0x5a
}

#[test]
fn horizontal_mirroring_pairs_tables_0_1_and_2_3() {
    assert!(shared(HorizontalMirroringNameAndAttributeTable::new(), 0, 1));
    assert!(shared(HorizontalMirroringNameAndAttributeTable::new(), 3, 2));
    assert!(!shared(HorizontalMirroringNameAndAttributeTable::new(), 0, 2));
}

#[test]
fn vertical_mirroring_pairs_tables_0_2_and_1_3() {
    assert!(shared(VerticalMirroringNameAndAttributeTable::new(), 0, 2));
    assert!(shared(VerticalMirroringNameAndAttributeTable::new(), 1, 3));
    assert!(!shared(VerticalMirroringNameAndAttributeTable::new(), 0, 1));
}

#[test]
fn single_table_backs_all_four() {
    assert!(shared(SingleNameAndAttributeTable::new(), 0, 3));
    assert!(shared(SingleNameAndAttributeTable::new(), 2, 1));
}

#[test]
fn four_way_tables_are_distinct() {
    assert!(shared(FourWayMirroringNameAndAttributeTable::new(), 3, 3));
    assert!(!shared(FourWayMirroringNameAndAttributeTable::new(), 1, 3));
    let t = FourWayMirroringNameAndAttributeTable::new();
    assert_eq!(t.read8(2, NAME_TABLE_SIZE - 1), 0);
}
