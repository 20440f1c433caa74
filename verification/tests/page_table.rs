use raspi_os::page_table::{Address, PageTable, TableDescriptor, TableEntry, TableMemory};

#[test]
fn fresh_table_maps_nothing() {
    let mut memory = TableMemory::new();
    let table = PageTable::new_unmapped(&mut memory);
    assert_eq!(table.pgd, 0xFFFF_0000_0000_1000);
    assert_eq!(table.get_ttbr(), 0x1000);
    assert!(!table.is_addr_mapped(0x4000_0000, &memory));
    assert!(!table.is_addr_mapped(0, &memory));
}

#[test]
fn map_then_is_mapped() {
    let mut memory = TableMemory::new();
    let table = PageTable::new_unmapped(&mut memory);
    table.map_user_address(0x0000_0040_0020_3000, 0x0008_0000, &mut memory);
    assert!(table.is_addr_mapped(0x0000_0040_0020_3000, &memory));
    // A neighbouring page shares every table but the last descriptor.
    assert!(!table.is_addr_mapped(0x0000_0040_0020_4000, &memory));
    // The walk made three more tables.
    assert_eq!(memory.tables.len(), 4);
    // Mapping a second page in the same last-level table adds no table.
    table.map_user_address(0x0000_0040_0020_4000, 0x0009_0000, &mut memory);
    assert_eq!(memory.tables.len(), 4);
    assert!(table.is_addr_mapped(0x0000_0040_0020_4000, &memory));
    assert!(table.is_addr_mapped(0x0000_0040_0020_3000, &memory));
}

#[test]
fn leaf_descriptor_bits() {
    let mut memory = TableMemory::new();
    let table = PageTable::new_unmapped(&mut memory);
    table.map_user_address(0x1000, 0x0008_0000, &mut memory);
    // The last table made is the fourth; entry 1 of it holds the page.
    let leaf = TableEntry::from(memory.tables[3][1]);
    assert_eq!(leaf.get_id(), 0b11);
    assert_eq!(leaf.get_access_permission(), 0b01);
    assert_eq!(leaf.get_access_flag(), 1);
    assert_eq!(leaf.get_value() & 0xFFFF_FFFF_F000, 0x0008_0000);
}

#[test]
fn address_fields() {
    let a = Address::new(0x0000_0040_0020_3123);
    assert_eq!(a.get_offset(), 0x123);
    assert_eq!(a.get_pte(), 3);
    assert_eq!(a.get_pld(), 1);
    assert_eq!(a.get_pud(), 256);
    assert_eq!(a.get_pgd(), 0);
    let d = TableDescriptor::new(0x2003);
    assert!(d.is_valid());
    assert_eq!(d.get_next_table_address(), 0x2000);
    assert!(!TableDescriptor::new(0x2002).is_valid());
}

#[test]
fn ttbr_round_trip() {
    let t = PageTable::from(0x1234_5000);
    assert_eq!(t.get_ttbr(), 0x1234_5000);
}
