//! Four-level translation tables of the AArch64 MMU with a 4 KiB granule,
//! kept in a table memory: walking them, and mapping user pages.
use vstd::prelude::*;
use crate::bitfield::{field64, get_field64, set_field64, with_field64};

verus! {

/// Bytes in a page, and in a table.
pub const PAGE_SIZE: u64 = 4096;

/// Entries in a table.
pub const TABLE_LENGTH: usize = 512;

/// Bits of an address the MMU uses: the low 48.
pub const ADDRESS_MASK: u64 = 0xFFFF_FFFF_FFFF;

/// The value the translation table base register takes for a table address:
/// its low 48 bits.
pub const TTBR_ADDRESS_MASK: u64 = 0xFFFF_FFFF_FFFF;

/// Bits of a descriptor that hold the next table's or the page's address.
pub const NEXT_TABLE_MASK: u64 = 0xFFFF_FFFF_F000;

/// Where the kernel sees physical memory: the physical address plus this.
pub const KERNEL_VA_OFFSET: u64 = 0xFFFF_0000_0000_0000;

/// The most tables the table memory holds.
pub const MAX_TABLES: usize = 0x100_0000;

/// A virtual or physical address split as the MMU reads it: the page offset and the index into each of the four tables.
#[derive(Copy, Clone, Debug, PartialEq, Eq, Structural)]
pub struct Address {
    pub value: u64,
}

impl Address {
    pub fn get_offset(self) -> (r: u64)
        ensures
            r == field64(self.value, 0, 11),
    {
        get_field64(self.value, 0, 11)
    }

    pub fn set_offset(self, value: u64) -> (r: Self)
        ensures
            r.value == with_field64(self.value, 0, 11, value),
    {
        Address { value: set_field64(self.value, 0, 11, value) }
    }

    pub fn get_pte(self) -> (r: u64)
        ensures
            r == field64(self.value, 12, 20),
    {
        get_field64(self.value, 12, 20)
    }

    pub fn set_pte(self, value: u64) -> (r: Self)
        ensures
            r.value == with_field64(self.value, 12, 20, value),
    {
        Address { value: set_field64(self.value, 12, 20, value) }
    }

    pub fn get_pld(self) -> (r: u64)
        ensures
            r == field64(self.value, 21, 29),
    {
        get_field64(self.value, 21, 29)
    }

    pub fn set_pld(self, value: u64) -> (r: Self)
        ensures
            r.value == with_field64(self.value, 21, 29, value),
    {
        Address { value: set_field64(self.value, 21, 29, value) }
    }

    pub fn get_pud(self) -> (r: u64)
        ensures
            r == field64(self.value, 30, 38),
    {
        get_field64(self.value, 30, 38)
    }

    pub fn set_pud(self, value: u64) -> (r: Self)
        ensures
            r.value == with_field64(self.value, 30, 38, value),
    {
        Address { value: set_field64(self.value, 30, 38, value) }
    }

    pub fn get_pgd(self) -> (r: u64)
        ensures
            r == field64(self.value, 39, 47),
    {
        get_field64(self.value, 39, 47)
    }

    pub fn set_pgd(self, value: u64) -> (r: Self)
        ensures
            r.value == with_field64(self.value, 39, 47, value),
    {
        Address { value: set_field64(self.value, 39, 47, value) }
    }

    pub fn new(value: u64) -> (r: Self)
        ensures
            r.value == value,
    {
        Address { value }
    }

    /// The address as a page descriptor holds it: bits 12..47.
    pub fn get_pte_entry(&self) -> (r: u64)
        ensures
            r == self.value & NEXT_TABLE_MASK,
    {
        self.value & NEXT_TABLE_MASK
    }

}

/// A table descriptor: valid when bit 0 is set; bits 12..47 hold the next table's address.
#[derive(Copy, Clone, Debug, PartialEq, Eq, Structural)]
pub struct TableDescriptor {
    pub value: u64,
}

impl TableDescriptor {
    pub fn get_identifier(self) -> (r: u64)
        ensures
            r == field64(self.value, 0, 1),
    {
        get_field64(self.value, 0, 1)
    }

    pub fn set_identifier(self, value: u64) -> (r: Self)
        ensures
            r.value == with_field64(self.value, 0, 1, value),
    {
        TableDescriptor { value: set_field64(self.value, 0, 1, value) }
    }

    pub fn new(value: u64) -> (r: Self)
        ensures
            r.value == value,
    {
        TableDescriptor { value }
    }

    pub fn is_valid(&self) -> (r: bool)
        ensures
            r == descriptor_valid(self.value),
    {
        self.value & 1 == 1
    }

    pub fn get_next_table_address(&self) -> (r: u64)
        ensures
            r == self.value & NEXT_TABLE_MASK,
    {
        self.value & NEXT_TABLE_MASK
    }

    pub fn get_value(&self) -> (r: u64)
        ensures
            r == self.value,
    {
        self.value
    }

}

/// A page descriptor of the last level: bits 0..1 mark a page, bits 6..7 the access permissions, bit 10 the access flag, bits 12..47 the page's address.
#[derive(Copy, Clone, Debug, PartialEq, Eq, Structural)]
pub struct TableEntry {
    pub value: u64,
}

impl TableEntry {
    pub fn get_id(self) -> (r: u64)
        ensures
            r == field64(self.value, 0, 1),
    {
        get_field64(self.value, 0, 1)
    }

    pub fn set_id(self, value: u64) -> (r: Self)
        ensures
            r.value == with_field64(self.value, 0, 1, value),
    {
        TableEntry { value: set_field64(self.value, 0, 1, value) }
    }

    pub fn get_attribute_index(self) -> (r: u64)
        ensures
            r == field64(self.value, 2, 4),
    {
        get_field64(self.value, 2, 4)
    }

    pub fn set_attribute_index(self, value: u64) -> (r: Self)
        ensures
            r.value == with_field64(self.value, 2, 4, value),
    {
        TableEntry { value: set_field64(self.value, 2, 4, value) }
    }

    pub fn get_access_permission(self) -> (r: u64)
        ensures
            r == field64(self.value, 6, 7),
    {
        get_field64(self.value, 6, 7)
    }

    pub fn set_access_permission(self, value: u64) -> (r: Self)
        ensures
            r.value == with_field64(self.value, 6, 7, value),
    {
        TableEntry { value: set_field64(self.value, 6, 7, value) }
    }

    pub fn get_shareability(self) -> (r: u64)
        ensures
            r == field64(self.value, 8, 9),
    {
        get_field64(self.value, 8, 9)
    }

    pub fn set_shareability(self, value: u64) -> (r: Self)
        ensures
            r.value == with_field64(self.value, 8, 9, value),
    {
        TableEntry { value: set_field64(self.value, 8, 9, value) }
    }

    pub fn get_access_flag(self) -> (r: u64)
        ensures
            r == field64(self.value, 10, 10),
    {
        get_field64(self.value, 10, 10)
    }

    pub fn set_access_flag(self, value: u64) -> (r: Self)
        ensures
            r.value == with_field64(self.value, 10, 10, value),
    {
        TableEntry { value: set_field64(self.value, 10, 10, value) }
    }

    pub fn from(value: u64) -> (r: Self)
        ensures
            r.value == value,
    {
        TableEntry { value }
    }

    pub fn get_value(&self) -> (r: u64)
        ensures
            r == self.value,
    {
        self.value
    }

}


/// A descriptor with bit 0 set is valid.
pub open spec fn descriptor_valid(e: u64) -> bool {
    e & 1u64 == 1u64
}

/// The descriptor written for a new next-level table at `address`.
pub open spec fn table_descriptor_for(address: u64) -> u64 {
    with_field64(address & ADDRESS_MASK, 0, 1, 3)
}

/// The page descriptor written for the page at `physical_address`: a page,
/// user read/write (permission 01), accessed.
pub open spec fn page_descriptor_for(physical_address: u64) -> u64 {
    with_field64(
        with_field64(with_field64((physical_address & NEXT_TABLE_MASK) & ADDRESS_MASK, 0, 1, 3), 6, 7, 1),
        10,
        10,
        1,
    )
}

/// A fresh table descriptor is valid and points at its table.
proof fn lemma_table_descriptor(address: u64)
    by (bit_vector)
    requires
        address & 0xFFFu64 == 0,
        address < 0x1_0000_0000_0000u64,
    ensures
        table_descriptor_for(address) & 1u64 == 1u64,
        table_descriptor_for(address) & 0xFFFF_FFFF_F000u64 == address,
{
}

/// A page descriptor is valid and holds the page's address.
proof fn lemma_page_descriptor(physical_address: u64)
    by (bit_vector)
    ensures
        page_descriptor_for(physical_address) & 1u64 == 1u64,
        page_descriptor_for(physical_address) & 0xFFFF_FFFF_F000u64 == physical_address
            & 0xFFFF_FFFF_F000u64,
{
}

/// The page descriptor for `physical_address` holds the page's address
/// (bits 12..47), marks a page (bits 0..1 = 0b11), user read/write (AP, bits
/// 6..7 = 0b01) and accessed (AF, bit 10), and has every other bit clear: in
/// particular no execute-never bit (52..54), so code runs from the page.
pub proof fn lemma_page_descriptor_layout(physical_address: u64)
    ensures
        page_descriptor_for(physical_address) == (physical_address & 0xFFFF_FFFF_F000u64) | 0x443u64,
{
    assert(page_descriptor_for(physical_address) == (physical_address & 0xFFFF_FFFF_F000u64)
        | 0x443u64) by (bit_vector);
}

/// The descriptor for a next-level table at `address` holds the table's
/// address (bits 2..47 of it, the table being page aligned) and marks a
/// table (bits 0..1 = 0b11); every other bit is clear.
pub proof fn lemma_table_descriptor_layout(address: u64)
    ensures
        table_descriptor_for(address) == (address & 0xFFFF_FFFF_FFFCu64) | 0b11u64,
{
    assert(table_descriptor_for(address) == (address & 0xFFFF_FFFF_FFFCu64) | 0b11u64) by (bit_vector);
}

/// The index into the table of the given level (0 = top) for `v`.
pub open spec fn level_index(v: u64, level: int) -> int {
    if level == 0 {
        field64(v, 39, 47) as int
    } else if level == 1 {
        field64(v, 30, 38) as int
    } else if level == 2 {
        field64(v, 21, 29) as int
    } else {
        field64(v, 12, 20) as int
    }
}

/// A virtual address picks its entry in each of the four levels with nine
/// bits: bits 39..47 at the top level, then 30..38, 21..29 and 12..20 in
/// the last; its low twelve bits are the offset in the page.
pub proof fn lemma_level_index_bits(v: u64)
    ensures
        level_index(v, 0) == (v >> 39u64) & 0x1FFu64,
        level_index(v, 1) == (v >> 30u64) & 0x1FFu64,
        level_index(v, 2) == (v >> 21u64) & 0x1FFu64,
        level_index(v, 3) == (v >> 12u64) & 0x1FFu64,
{
    assert(field64(v, 39, 47) == (v >> 39u64) & 0x1FFu64 && field64(v, 30, 38) == (v >> 30u64)
        & 0x1FFu64 && field64(v, 21, 29) == (v >> 21u64) & 0x1FFu64 && field64(v, 12, 20) == (v
        >> 12u64) & 0x1FFu64) by (bit_vector);
}

proof fn lemma_level_index_bound(v: u64)
    ensures
        forall|level: int| 0 <= level <= 3 ==> 0 <= #[trigger] level_index(v, level) < 512,
        field64(v, 39, 47) < 512,
        field64(v, 30, 38) < 512,
        field64(v, 21, 29) < 512,
        field64(v, 12, 20) < 512,
{
    assert(field64(v, 39, 47) < 512 && field64(v, 30, 38) < 512 && field64(v, 21, 29) < 512
        && field64(v, 12, 20) < 512) by (bit_vector);
}

/// Memory holding translation tables: table `i` is the page at physical
/// address `(i + 1) * PAGE_SIZE`.
pub struct TableMemory {
    pub tables: Vec<Vec<u64>>,
}

/// The table at physical (or kernel virtual) address `address`.
pub open spec fn table_index(address: u64) -> int {
    (address & ADDRESS_MASK) as int / PAGE_SIZE as int - 1
}

/// The page-aligned `address` is one of the tables of `tables`.
pub open spec fn has_table(tables: Seq<Vec<u64>>, address: u64) -> bool {
    &&& (address & ADDRESS_MASK) as int % PAGE_SIZE as int == 0
    &&& 0 <= table_index(address) < tables.len()
}

/// Entry `i` of the table at `address`.
pub open spec fn table_entry(tables: Seq<Vec<u64>>, address: u64, i: int) -> u64 {
    tables[table_index(address)]@[i]
}

/// The address of the table of the given level on the way to `v` from the
/// top table at `root`, if the walk gets that far.
pub open spec fn walk_to(tables: Seq<Vec<u64>>, root: u64, v: u64, level: nat) -> Option<u64>
    decreases level,
{
    if level == 0 {
        Some(root)
    } else {
        match walk_to(tables, root, v, (level - 1) as nat) {
            Some(t) => if has_table(tables, t) && descriptor_valid(
                table_entry(tables, t, level_index(v, level - 1)),
            ) {
                Some(table_entry(tables, t, level_index(v, level - 1)) & NEXT_TABLE_MASK)
            } else {
                None
            },
            None => None,
        }
    }
}

/// Every table the walk to `v` reaches is in the table memory.
pub open spec fn walk_in_memory(tables: Seq<Vec<u64>>, root: u64, v: u64) -> bool {
    forall|level: nat|
        level <= 3 ==> (#[trigger] walk_to(tables, root, v, level) matches Some(t) ==> has_table(
            tables,
            t,
        ))
}

/// The page descriptor for `v`, if the walk reaches the last level.
pub open spec fn leaf_entry(tables: Seq<Vec<u64>>, root: u64, v: u64) -> Option<u64> {
    match walk_to(tables, root, v, 3) {
        Some(t) => Some(table_entry(tables, t, level_index(v, 3))),
        None => None,
    }
}

/// `v` is mapped: the walk reaches a valid page descriptor.
pub open spec fn is_mapped(tables: Seq<Vec<u64>>, root: u64, v: u64) -> bool {
    leaf_entry(tables, root, v) matches Some(e) && descriptor_valid(e)
}

impl TableMemory {
    /// Every table has 512 entries, and the tables fit below 2^48.
    pub open spec fn wf(&self) -> bool {
        &&& self.tables@.len() <= MAX_TABLES
        &&& forall|i: int| 0 <= i < self.tables@.len() ==> (#[trigger] self.tables@[i])@.len() == TABLE_LENGTH
    }

    /// A table memory with no tables.
    pub fn new() -> (r: Self)
        ensures
            r.wf(),
            r.tables@.len() == 0,
    {
        TableMemory { tables: Vec::new() }
    }

    /// Adds a zeroed table and gives its physical address.
    pub fn allocate_zeroed_page(&mut self) -> (address: u64)
        requires
            old(self).wf(),
            old(self).tables@.len() < MAX_TABLES,
        ensures
            final(self).wf(),
            final(self).tables@.len() == old(self).tables@.len() + 1,
            forall|i: int| 0 <= i < old(self).tables@.len() ==> final(self).tables@[i] == old(self).tables@[i],
            forall|j: int| 0 <= j < TABLE_LENGTH ==> final(self).tables@.last()@[j] == 0,
            address == (old(self).tables@.len() + 1) * PAGE_SIZE,
            table_index(address) == old(self).tables@.len(),
            has_table(final(self).tables@, address),
            address & 0xFFF == 0,
            address < 0x1_0000_0000_0000,
    {
        let mut table: Vec<u64> = Vec::new();
        let mut j: usize = 0;
        while j < TABLE_LENGTH
            invariant
                j <= TABLE_LENGTH,
                table@.len() == j,
                forall|k: int| 0 <= k < j ==> table@[k] == 0,
            decreases TABLE_LENGTH - j,
        {
            table.push(0);
            j = j + 1;
        }
        let n = self.tables.len() as u64;
        self.tables.push(table);
        let address = (n + 1) * PAGE_SIZE;
        proof {
            assert(address < 0x1_0000_0000_0000);
            assert(address & ADDRESS_MASK == address) by (bit_vector)
                requires
                    address < 0x1_0000_0000_0000u64,
            ;
            assert(address & 0xFFF == 0) by (bit_vector)
                requires
                    address == (n + 1) * 4096u64,
                    n < 0x100_0000u64,
            ;
        }
        address
    }

    /// Entry `i` of the table at `address`.
    pub fn read(&self, address: u64, i: usize) -> (r: u64)
        requires
            self.wf(),
            has_table(self.tables@, address),
            i < TABLE_LENGTH,
        ensures
            r == table_entry(self.tables@, address, i as int),
    {
        let t = ((address & ADDRESS_MASK) / PAGE_SIZE - 1) as usize;
        self.tables[t][i]
    }

    /// Writes entry `i` of the table at `address`.
    pub fn write(&mut self, address: u64, i: usize, value: u64)
        requires
            old(self).wf(),
            has_table(old(self).tables@, address),
            i < TABLE_LENGTH,
        ensures
            final(self).wf(),
            final(self).tables@.len() == old(self).tables@.len(),
            final(self).tables@[table_index(address)]@ == old(self).tables@[table_index(address)]@.update(i as int, value),
            forall|k: int| 0 <= k < old(self).tables@.len() && k != table_index(address) ==> final(self).tables@[k] == old(self).tables@[k],
    {
        let t = ((address & ADDRESS_MASK) / PAGE_SIZE - 1) as usize;
        self.tables[t].set(i, value);
    }
}

/// The tables on the walk to `v` are distinct tables.
pub open spec fn path_tables_distinct(tables: Seq<Vec<u64>>, root: u64, v: u64) -> bool {
    forall|j: nat, k: nat|
        #![trigger walk_to(tables, root, v, j), walk_to(tables, root, v, k)]
        j < k <= 3 && walk_to(tables, root, v, j) is Some && walk_to(tables, root, v, k) is Some
            ==> table_index(walk_to(tables, root, v, j).unwrap()) != table_index(
            walk_to(tables, root, v, k).unwrap(),
        )
}

/// Reading an entry gives back what was last written to it; writing one
/// entry leaves every other entry of every table as it was.
pub proof fn lemma_read_after_write(
    before: Seq<Vec<u64>>,
    after: Seq<Vec<u64>>,
    address: u64,
    i: int,
    value: u64,
    other_address: u64,
    j: int,
)
    requires
        has_table(before, address),
        has_table(before, other_address),
        0 <= i < TABLE_LENGTH,
        0 <= j < TABLE_LENGTH,
        before[table_index(address)]@.len() == TABLE_LENGTH,
        after.len() == before.len(),
        after[table_index(address)]@ == before[table_index(address)]@.update(i, value),
        forall|k: int| 0 <= k < before.len() && k != table_index(address) ==> after[k] == before[k],
    ensures
        table_entry(after, address, i) == value,
        !(table_index(other_address) == table_index(address) && j == i) ==> table_entry(
            after,
            other_address,
            j,
        ) == table_entry(before, other_address, j),
{
}

/// Adding tables after the ones a walk goes through changes neither the
/// walk nor the descriptor it ends at.
pub proof fn lemma_walk_extends(before: Seq<Vec<u64>>, after: Seq<Vec<u64>>, root: u64, v: u64)
    requires
        before.len() <= after.len(),
        forall|i: int| 0 <= i < before.len() ==> after[i] == before[i],
        walk_in_memory(before, root, v),
    ensures
        forall|level: nat| level <= 3 ==> #[trigger] walk_to(after, root, v, level) == walk_to(before, root, v, level),
        walk_in_memory(after, root, v),
        leaf_entry(after, root, v) == leaf_entry(before, root, v),
{
    assert forall|level: nat| level <= 3 implies #[trigger] walk_to(after, root, v, level) == walk_to(before, root, v, level) by {
        lemma_walk_extends_to(before, after, root, v, level);
    }
    assert forall|level: nat| level <= 3 implies (#[trigger] walk_to(after, root, v, level) matches Some(t) ==> has_table(after, t)) by {
        assert(walk_to(after, root, v, level) == walk_to(before, root, v, level));
    }
    assert(walk_to(after, root, v, 3) == walk_to(before, root, v, 3));
}

proof fn lemma_walk_extends_to(before: Seq<Vec<u64>>, after: Seq<Vec<u64>>, root: u64, v: u64, level: nat)
    requires
        before.len() <= after.len(),
        forall|i: int| 0 <= i < before.len() ==> after[i] == before[i],
        walk_in_memory(before, root, v),
        level <= 3,
    ensures
        walk_to(after, root, v, level) == walk_to(before, root, v, level),
    decreases level,
{
    if level > 0 {
        lemma_walk_extends_to(before, after, root, v, (level - 1) as nat);
        let prev = walk_to(before, root, v, (level - 1) as nat);
        if let Some(t) = prev {
            assert(has_table(before, t));
            assert(after[table_index(t)] == before[table_index(t)]);
        }
    }
}

/// Between `before` and `after`, no entry of the tables that were there
/// before changed but entries that were not valid descriptors, and the slot
/// that `v`'s page descriptor takes in `after`.
pub open spec fn only_invalid_or_leaf_changed(before: Seq<Vec<u64>>, after: Seq<Vec<u64>>, root: u64, v: u64) -> bool {
    forall|k: int, j: int|
        0 <= k < before.len() && 0 <= j < TABLE_LENGTH ==> #[trigger] after[k]@[j] == before[k]@[j]
            || !descriptor_valid(before[k]@[j]) || (walk_to(after, root, v, 3) matches Some(t)
            && table_index(t) == k && level_index(v, 3) == j)
}

/// Between `before` and `after`, the only entries of the tables that were
/// there before that changed lie on `v`'s walk in `after`: the entry for
/// `v` in the table of some level of that walk.
pub open spec fn only_walk_changed(before: Seq<Vec<u64>>, after: Seq<Vec<u64>>, root: u64, v: u64) -> bool {
    forall|k: int, j: int|
        0 <= k < before.len() && 0 <= j < TABLE_LENGTH ==> #[trigger] after[k]@[j] == before[k]@[j]
            || exists|l: nat|
            l <= 3 && (#[trigger] walk_to(after, root, v, l) matches Some(t) && table_index(t) == k
                && level_index(v, l as int) == j)
}

/// A walk that reaches the last level went through every level before.
proof fn lemma_walk_reaches(tables: Seq<Vec<u64>>, root: u64, w: u64, l: nat)
    requires
        l <= 3,
        walk_to(tables, root, w, 3) is Some,
    ensures
        walk_to(tables, root, w, l) is Some,
    decreases 3 - l,
{
    if l < 3 {
        lemma_walk_reaches(tables, root, w, l + 1);
    }
}

/// A change that keeps the valid entries of the tables `w`'s walk goes
/// through keeps the walk.
proof fn lemma_walk_kept(before: Seq<Vec<u64>>, after: Seq<Vec<u64>>, root: u64, v: u64, w: u64, l: nat)
    requires
        l <= 3,
        before.len() <= after.len(),
        only_invalid_or_leaf_changed(before, after, root, v),
        walk_to(before, root, w, 3) is Some,
        walk_in_memory(before, root, w),
        forall|m: nat|
            m < 3 ==> (#[trigger] walk_to(before, root, w, m) matches Some(t) ==> !(walk_to(after, root, v, 3) matches Some(t3)
                && table_index(t3) == table_index(t) && level_index(w, m as int) == level_index(v, 3))),
    ensures
        walk_to(after, root, w, l) == walk_to(before, root, w, l),
    decreases l,
{
    if l > 0 {
        lemma_walk_kept(before, after, root, v, w, (l - 1) as nat);
        lemma_walk_reaches(before, root, w, l);
        lemma_walk_reaches(before, root, w, (l - 1) as nat);
        lemma_level_index_bound(w);
        let t = walk_to(before, root, w, (l - 1) as nat).unwrap();
        assert(has_table(before, t));
        let k = table_index(t);
        let j = level_index(w, l - 1);
        assert(0 <= j < 512);
        assert(descriptor_valid(before[k]@[j]));
        assert(after[k]@[j] == before[k]@[j]);
    }
}

/// Mapping `v` keeps every address `w` that was mapped mapped, as long as
/// the tables are used level by level: `w`'s walk does not go through the
/// slot that took `v`'s page descriptor before the last level. `w` keeps
/// its page unless it shares that slot with `v`.
pub proof fn lemma_map_keeps_other_mappings(before: Seq<Vec<u64>>, after: Seq<Vec<u64>>, root: u64, v: u64, w: u64)
    requires
        before.len() <= after.len(),
        only_invalid_or_leaf_changed(before, after, root, v),
        is_mapped(after, root, v),
        is_mapped(before, root, w),
        walk_in_memory(before, root, w),
        forall|m: nat|
            m < 3 ==> (#[trigger] walk_to(before, root, w, m) matches Some(t) ==> !(walk_to(after, root, v, 3) matches Some(t3)
                && table_index(t3) == table_index(t) && level_index(w, m as int) == level_index(v, 3))),
    ensures
        is_mapped(after, root, w),
        !(walk_to(after, root, v, 3) matches Some(t3) && walk_to(before, root, w, 3) matches Some(t)
            && table_index(t3) == table_index(t) && level_index(w, 3) == level_index(v, 3))
            ==> leaf_entry(after, root, w) == leaf_entry(before, root, w),
{
    lemma_walk_kept(before, after, root, v, w, 3);
    lemma_level_index_bound(w);
    let t = walk_to(before, root, w, 3).unwrap();
    assert(has_table(before, t));
    let k = table_index(t);
    let j = level_index(w, 3);
    assert(descriptor_valid(before[k]@[j]));
    let t3 = walk_to(after, root, v, 3).unwrap();
    if table_index(t3) == k && level_index(v, 3) == j {
        assert(leaf_entry(after, root, w) == leaf_entry(after, root, v));
    } else {
        assert(after[k]@[j] == before[k]@[j]);
    }
}

/// Follows entry `index` of the table at `table` to the next table,
/// making a zeroed table and a descriptor for it when the entry is invalid.
fn descend(memory: &mut TableMemory, table: u64, index: usize) -> (next: u64)
    requires
        old(memory).wf(),
        old(memory).tables@.len() < MAX_TABLES,
        has_table(old(memory).tables@, table),
        index < TABLE_LENGTH,
        descriptor_valid(table_entry(old(memory).tables@, table, index as int)) ==> has_table(
            old(memory).tables@,
            table_entry(old(memory).tables@, table, index as int) & NEXT_TABLE_MASK,
        ),
    ensures
        final(memory).wf(),
        has_table(final(memory).tables@, next),
        descriptor_valid(table_entry(final(memory).tables@, table, index as int)),
        table_entry(final(memory).tables@, table, index as int) & NEXT_TABLE_MASK == next,
        descriptor_valid(table_entry(old(memory).tables@, table, index as int)) ==> {
            &&& final(memory).tables@ == old(memory).tables@
            &&& next == table_entry(old(memory).tables@, table, index as int) & NEXT_TABLE_MASK
        },
        !descriptor_valid(table_entry(old(memory).tables@, table, index as int)) ==> {
            &&& final(memory).tables@.len() == old(memory).tables@.len() + 1
            &&& table_index(next) == old(memory).tables@.len()
            &&& forall|j: int| 0 <= j < TABLE_LENGTH ==> final(memory).tables@[table_index(next)]@[j] == 0
            &&& forall|k: int|
                0 <= k < old(memory).tables@.len() && k != table_index(table)
                    ==> final(memory).tables@[k] == old(memory).tables@[k]
            &&& final(memory).tables@[table_index(table)]@ == old(memory).tables@[table_index(
                table,
            )]@.update(index as int, table_entry(final(memory).tables@, table, index as int))
        },
{
    let entry = TableDescriptor::new(memory.read(table, index));
    if entry.is_valid() {
        entry.get_next_table_address()
    } else {
        let page = memory.allocate_zeroed_page();
        let ghost m1 = memory.tables@;
        let descriptor = TableDescriptor::new(page & ADDRESS_MASK).set_identifier(0b11);
        proof {
            lemma_table_descriptor(page);
            assert(has_table(memory.tables@, table));
            assert(table_index(page) != table_index(table));
        }
        memory.write(table, index, descriptor.get_value());
        proof {
            assert(memory.tables@[table_index(page)] == m1[table_index(page)]);
            assert(m1[table_index(page)] == m1.last());
        }
        page
    }
}

/// A translation table, known by the kernel address of its top level.
#[derive(Copy, Clone, Debug, PartialEq, Eq, Structural)]
pub struct PageTable {
    pub pgd: u64,
}

impl PageTable {
    /// A table that maps nothing: one zeroed top-level table.
    pub fn new_unmapped(memory: &mut TableMemory) -> (r: Self)
        requires
            old(memory).wf(),
            old(memory).tables@.len() < MAX_TABLES,
        ensures
            final(memory).wf(),
            has_table(final(memory).tables@, r.pgd),
            forall|v: u64| !is_mapped(final(memory).tables@, r.pgd, v),
            forall|v: u64| #[trigger] walk_in_memory(final(memory).tables@, r.pgd, v) && path_tables_distinct(final(memory).tables@, r.pgd, v),
            forall|i: int| 0 <= i < old(memory).tables@.len() ==> final(memory).tables@[i] == old(memory).tables@[i],
            final(memory).tables@.len() == old(memory).tables@.len() + 1,
    {
        let page = memory.allocate_zeroed_page();
        let pgd = page | KERNEL_VA_OFFSET;
        proof {
            assert((page | 0xFFFF_0000_0000_0000u64) & 0xFFFF_FFFF_FFFFu64 == page) by (bit_vector)
                requires
                    page < 0x1_0000_0000_0000u64,
            ;
            assert(table_index(pgd) == old(memory).tables@.len());
            assert(0u64 & 1u64 == 0u64) by (bit_vector);
            assert forall|v: u64| !is_mapped(memory.tables@, pgd, v) by {
                lemma_level_index_bound(v);
                assert(walk_to(memory.tables@, pgd, v, 0) == Some(pgd));
                assert(memory.tables@[table_index(pgd)] == memory.tables@.last());
                assert(table_entry(memory.tables@, pgd, level_index(v, 0)) == 0);
                assert(walk_to(memory.tables@, pgd, v, 1) is None);
                assert(walk_to(memory.tables@, pgd, v, 2) is None);
                assert(walk_to(memory.tables@, pgd, v, 3) is None);
            }
            assert forall|v: u64| #[trigger] walk_in_memory(memory.tables@, pgd, v) && path_tables_distinct(memory.tables@, pgd, v) by {
                lemma_level_index_bound(v);
                assert(walk_to(memory.tables@, pgd, v, 0) == Some(pgd));
                assert(memory.tables@[table_index(pgd)] == memory.tables@.last());
                assert(table_entry(memory.tables@, pgd, level_index(v, 0)) == 0);
                assert(walk_to(memory.tables@, pgd, v, 1) is None);
                assert(walk_to(memory.tables@, pgd, v, 2) is None);
                assert(walk_to(memory.tables@, pgd, v, 3) is None);
                assert forall|level: nat| level <= 3 implies (#[trigger] walk_to(memory.tables@, pgd, v, level) matches Some(t) ==> has_table(memory.tables@, t)) by {
                    if level == 0 {
                    } else if level == 1 {
                    } else if level == 2 {
                    } else {
                    }
                }
            }
        }
        PageTable { pgd }
    }

    /// The table the kernel's threads start with: like `new_unmapped`, one
    /// zeroed top-level table.
    pub fn kernel_mapped(memory: &mut TableMemory) -> (r: Self)
        requires
            old(memory).wf(),
            old(memory).tables@.len() < MAX_TABLES,
        ensures
            final(memory).wf(),
            has_table(final(memory).tables@, r.pgd),
            forall|v: u64| !is_mapped(final(memory).tables@, r.pgd, v),
            forall|v: u64| #[trigger] walk_in_memory(final(memory).tables@, r.pgd, v) && path_tables_distinct(final(memory).tables@, r.pgd, v),
            forall|i: int| 0 <= i < old(memory).tables@.len() ==> final(memory).tables@[i] == old(memory).tables@[i],
            final(memory).tables@.len() == old(memory).tables@.len() + 1,
    {
        Self::new_unmapped(memory)
    }

    /// The value the translation table base register takes for this table:
    /// the low 48 bits of its address.
    pub fn get_ttbr(&self) -> (r: usize)
        ensures
            r == (self.pgd & TTBR_ADDRESS_MASK) as usize,
    {
        (self.pgd & TTBR_ADDRESS_MASK) as usize
    }

    /// The table whose top level is at `ttbr`.
    pub fn from(ttbr: usize) -> (r: Self)
        ensures
            r.pgd == ttbr as u64,
    {
        PageTable { pgd: ttbr as u64 }
    }
}

impl PageTable {
    /// Whether `addr` is mapped: the walk through the four levels meets a
    /// valid descriptor at each.
    pub fn is_addr_mapped(&self, addr: u64, memory: &TableMemory) -> (r: bool)
        requires
            memory.wf(),
            walk_in_memory(memory.tables@, self.pgd, addr),
        ensures
            r == is_mapped(memory.tables@, self.pgd, addr),
    {
        let ghost m = memory.tables@;
        let address = Address::new(addr);
        proof {
            lemma_level_index_bound(addr);
            assert(walk_to(m, self.pgd, addr, 0) == Some(self.pgd));
        }
        let pgd_index = address.get_pgd() as usize;
        let pud_index = address.get_pud() as usize;
        let pld_index = address.get_pld() as usize;
        let pte_index = address.get_pte() as usize;
        let pgd_entry = TableDescriptor::new(memory.read(self.pgd, pgd_index));
        if !pgd_entry.is_valid() {
            return false;
        }
        let pud = pgd_entry.get_next_table_address();
        assert(walk_to(m, self.pgd, addr, 1) == Some(pud));
        let pud_entry = TableDescriptor::new(memory.read(pud, pud_index));
        if !pud_entry.is_valid() {
            assert(walk_to(m, self.pgd, addr, 2) is None);
            assert(walk_to(m, self.pgd, addr, 3) is None);
            return false;
        }
        let pld = pud_entry.get_next_table_address();
        assert(walk_to(m, self.pgd, addr, 2) == Some(pld));
        let pld_entry = TableDescriptor::new(memory.read(pld, pld_index));
        if !pld_entry.is_valid() {
            assert(walk_to(m, self.pgd, addr, 3) is None);
            return false;
        }
        let pte = pld_entry.get_next_table_address();
        assert(walk_to(m, self.pgd, addr, 3) == Some(pte));
        let pte_entry = TableDescriptor::new(memory.read(pte, pte_index));
        if !pte_entry.is_valid() {
            return false;
        } else {
            return true;
        }
    }

    /// Maps the page at `virtual_address` to the page at `physical_address`
    /// for user code (read/write, accessed), making zeroed tables for every
    /// level the walk does not reach yet. Both addresses must be page aligned.
    pub fn map_user_address(&self, virtual_address: u64, physical_address: u64, memory: &mut TableMemory)
        requires
            old(memory).wf(),
            old(memory).tables@.len() + 3 <= MAX_TABLES,
            walk_in_memory(old(memory).tables@, self.pgd, virtual_address),
            path_tables_distinct(old(memory).tables@, self.pgd, virtual_address),
            field64(virtual_address, 0, 11) == 0,
            field64(physical_address, 0, 11) == 0,
        ensures
            final(memory).wf(),
            leaf_entry(final(memory).tables@, self.pgd, virtual_address) == Some(
                page_descriptor_for(physical_address),
            ),
            leaf_entry(final(memory).tables@, self.pgd, virtual_address) == Some(
                (physical_address & 0xFFFF_FFFF_F000u64) | 0x443u64,
            ),
            is_mapped(final(memory).tables@, self.pgd, virtual_address),
            walk_in_memory(final(memory).tables@, self.pgd, virtual_address),
            only_invalid_or_leaf_changed(old(memory).tables@, final(memory).tables@, self.pgd, virtual_address),
            only_walk_changed(old(memory).tables@, final(memory).tables@, self.pgd, virtual_address),
            old(memory).tables@.len() <= final(memory).tables@.len() <= old(memory).tables@.len() + 3,
    {
        let ghost m0 = memory.tables@;
        let vaddr = Address::new(virtual_address);
        let paddr = Address::new(physical_address);
        proof {
            lemma_page_descriptor_layout(physical_address);
            lemma_level_index_bound(virtual_address);
            assert(walk_to(m0, self.pgd, virtual_address, 0) == Some(self.pgd));
        }
        let pgd_index = vaddr.get_pgd() as usize;
        let pud_index = vaddr.get_pud() as usize;
        let pld_index = vaddr.get_pld() as usize;
        let pte_index = vaddr.get_pte() as usize;
        let ghost v = virtual_address;
        let t0 = self.pgd;
        let ghost valid0 = descriptor_valid(table_entry(m0, t0, pgd_index as int));
        proof {
            if valid0 {
                assert(walk_to(m0, t0, v, 1) == Some(table_entry(m0, t0, pgd_index as int) & NEXT_TABLE_MASK));
            }
        }
        let t1 = descend(memory, t0, pgd_index);
        let ghost m1 = memory.tables@;
        let ghost valid1 = descriptor_valid(table_entry(m1, t1, pud_index as int));
        proof {
            if valid0 {
                assert(walk_to(m0, t0, v, 1) == Some(t1));
                if valid1 {
                    assert(walk_to(m0, t0, v, 2) == Some(table_entry(m0, t1, pud_index as int) & NEXT_TABLE_MASK));
                }
            } else {
                assert(!valid1) by {
                    assert(table_entry(m1, t1, pud_index as int) == 0);
                    assert(0u64 & 1u64 == 0u64) by (bit_vector);
                }
            }
        }
        let t2 = descend(memory, t1, pud_index);
        let ghost m2 = memory.tables@;
        let ghost valid2 = descriptor_valid(table_entry(m2, t2, pld_index as int));
        proof {
            if valid1 {
                if valid0 {
                    assert(walk_to(m0, t0, v, 2) == Some(t2));
                    if valid2 {
                        assert(walk_to(m0, t0, v, 3) == Some(table_entry(m0, t2, pld_index as int) & NEXT_TABLE_MASK));
                    }
                }
            } else {
                assert(!valid2) by {
                    assert(table_entry(m2, t2, pld_index as int) == 0);
                    assert(0u64 & 1u64 == 0u64) by (bit_vector);
                }
            }
        }
        let t3 = descend(memory, t2, pld_index);
        let ghost m3 = memory.tables@;
        let entry = paddr.get_pte_entry();
        let pte_entry = TableEntry::from(entry & ADDRESS_MASK).set_id(0b11).set_access_permission(
            0b01,
        ).set_access_flag(1);
        memory.write(t3, pte_index, pte_entry.get_value());
        let ghost m4 = memory.tables@;
        proof {
            lemma_page_descriptor(physical_address);
            assert(pte_entry.value == page_descriptor_for(physical_address));
            // The tables of the walk are distinct: the ones already there were
            // distinct to start with, and each new one comes after every other.
            let i0 = table_index(t0);
            let i1 = table_index(t1);
            let i2 = table_index(t2);
            let i3 = table_index(t3);
            assert(i0 < m0.len());
            if valid0 {
                assert(i1 < m0.len());
            } else {
                assert(i1 == m0.len());
            }
            if valid1 {
                assert(m2 == m1);
            } else {
                assert(i2 == m1.len());
            }
            if valid2 {
                assert(m3 == m2);
            } else {
                assert(i3 == m2.len());
            }
            if valid0 && valid1 {
                assert(walk_to(m0, t0, v, 2) == Some(t2));
                assert(i0 != i1) by {
                    assert(walk_to(m0, t0, v, 0) is Some && walk_to(m0, t0, v, 1) is Some);
                }
                assert(i0 != i2) by {
                    assert(walk_to(m0, t0, v, 0) is Some && walk_to(m0, t0, v, 2) is Some);
                }
                assert(i1 != i2) by {
                    assert(walk_to(m0, t0, v, 1) is Some && walk_to(m0, t0, v, 2) is Some);
                }
                if valid2 {
                    assert(walk_to(m0, t0, v, 3) == Some(t3));
                    assert(i0 != i3) by {
                        assert(walk_to(m0, t0, v, 0) is Some && walk_to(m0, t0, v, 3) is Some);
                    }
                    assert(i1 != i3) by {
                        assert(walk_to(m0, t0, v, 1) is Some && walk_to(m0, t0, v, 3) is Some);
                    }
                    assert(i2 != i3) by {
                        assert(walk_to(m0, t0, v, 2) is Some && walk_to(m0, t0, v, 3) is Some);
                    }
                }
            } else if valid0 {
                assert(i0 != i1) by {
                    assert(walk_to(m0, t0, v, 0) is Some && walk_to(m0, t0, v, 1) is Some);
                }
            }
            assert(i0 != i1 && i0 != i2 && i0 != i3 && i1 != i2 && i1 != i3 && i2 != i3);
            // Each descriptor on the walk is still the one `descend` left.
            assert(m4[i0] == m1[i0]);
            assert(m4[i1] == m2[i1]);
            assert(m4[i2] == m3[i2]);
            assert(walk_to(m4, t0, v, 0) == Some(t0));
            assert(walk_to(m4, t0, v, 1) == Some(t1));
            assert(walk_to(m4, t0, v, 2) == Some(t2));
            assert(walk_to(m4, t0, v, 3) == Some(t3));
            assert(table_entry(m4, t3, pte_index as int) == page_descriptor_for(physical_address));
            assert forall|level: nat| level <= 3 implies (#[trigger] walk_to(m4, t0, v, level) matches Some(t) ==> has_table(m4, t)) by {
                if level == 0 {
                } else if level == 1 {
                } else if level == 2 {
                } else {
                }
            }
            assert forall|k: int, j: int| 0 <= k < m0.len() && 0 <= j < TABLE_LENGTH implies #[trigger] m4[k]@[j] == m0[k]@[j]
                || !descriptor_valid(m0[k]@[j]) || (walk_to(m4, t0, v, 3) matches Some(t)
                && table_index(t) == k && level_index(v, 3) == j) by {
                if k == i3 && j == pte_index as int {
                } else {
                    assert(m4[k]@[j] == m3[k]@[j]);
                    if valid2 {
                        assert(m3 == m2);
                    } else if k == i2 && j == pld_index as int {
                        assert(m2[k]@[j] == m1[k]@[j] || k >= m1.len());
                    } else {
                        assert(m3[k]@[j] == m2[k]@[j]);
                    }
                    if valid1 {
                        assert(m2 == m1);
                    } else if k == i1 && j == pud_index as int {
                    } else {
                        assert(m2[k]@[j] == m1[k]@[j]);
                    }
                    if valid0 {
                        assert(m1 == m0);
                    } else if k == i0 && j == pgd_index as int {
                    } else {
                        assert(m1[k]@[j] == m0[k]@[j]);
                    }
                }
            }
            assert forall|k: int, j: int| 0 <= k < m0.len() && 0 <= j < TABLE_LENGTH implies #[trigger] m4[k]@[j] == m0[k]@[j]
                || exists|l: nat|
                l <= 3 && (#[trigger] walk_to(m4, t0, v, l) matches Some(t) && table_index(t) == k
                    && level_index(v, l as int) == j) by {
                if k == i3 && j == pte_index as int {
                    assert(walk_to(m4, t0, v, 3) matches Some(t) && table_index(t) == k && level_index(v, 3) == j);
                } else if k == i2 && j == pld_index as int {
                    assert(walk_to(m4, t0, v, 2) matches Some(t) && table_index(t) == k && level_index(v, 2) == j);
                } else if k == i1 && j == pud_index as int {
                    assert(walk_to(m4, t0, v, 1) matches Some(t) && table_index(t) == k && level_index(v, 1) == j);
                } else if k == i0 && j == pgd_index as int {
                    assert(walk_to(m4, t0, v, 0) matches Some(t) && table_index(t) == k && level_index(v, 0) == j);
                } else {
                    assert(m4[k]@[j] == m3[k]@[j]);
                    if valid2 {
                        assert(m3 == m2);
                    } else {
                        assert(m3[k]@[j] == m2[k]@[j]);
                    }
                    if valid1 {
                        assert(m2 == m1);
                    } else {
                        assert(m2[k]@[j] == m1[k]@[j]);
                    }
                    if valid0 {
                        assert(m1 == m0);
                    } else {
                        assert(m1[k]@[j] == m0[k]@[j]);
                    }
                }
            }
        }
    }
}

/// Whether the page-aligned `address` is one of the tables of `memory`.
pub fn table_in_memory(memory: &TableMemory, address: u64) -> (r: bool)
    ensures
        r == has_table(memory.tables@, address),
{
    let a = address & ADDRESS_MASK;
    a % PAGE_SIZE == 0 && a / PAGE_SIZE >= 1 && a / PAGE_SIZE - 1 < memory.tables.len() as u64
}

/// The page descriptor that maps a page to the page at `physical_address`.
pub fn page_descriptor(physical_address: u64) -> (r: u64)
    ensures
        r == page_descriptor_for(physical_address),
        r == (physical_address & 0xFFFF_FFFF_F000u64) | 0x443u64,
{
    proof {
        lemma_page_descriptor_layout(physical_address);
    }
    let entry = Address::new(physical_address).get_pte_entry();
    let pte_entry = TableEntry::from(entry & ADDRESS_MASK).set_id(0b11).set_access_permission(0b01).set_access_flag(1);
    proof {
        lemma_page_descriptor(physical_address);
    }
    pte_entry.get_value()
}

/// Whether the tables at `a` and `b` are the same table.
fn same_table(a: u64, b: u64) -> (r: bool)
    ensures
        r == (table_index(a) == table_index(b)),
{
    (a & ADDRESS_MASK) / PAGE_SIZE == (b & ADDRESS_MASK) / PAGE_SIZE
}

impl PageTable {
    /// Walks the tables to `v`: `None` when the walk leaves the table memory
    /// or comes back to a table it went through, else the page descriptor
    /// it ends at, if it gets to the last level.
    pub fn lookup(&self, v: u64, memory: &TableMemory) -> (r: Option<Option<u64>>)
        requires
            memory.wf(),
        ensures
            r is Some <==> walk_in_memory(memory.tables@, self.pgd, v) && path_tables_distinct(
                memory.tables@,
                self.pgd,
                v,
            ),
            r matches Some(leaf) ==> leaf == leaf_entry(memory.tables@, self.pgd, v),
    {
        let ghost m = memory.tables@;
        let address = Address::new(v);
        proof {
            lemma_level_index_bound(v);
            assert(walk_to(m, self.pgd, v, 0) == Some(self.pgd));
        }
        let i0 = address.get_pgd() as usize;
        let i1 = address.get_pud() as usize;
        let i2 = address.get_pld() as usize;
        let i3 = address.get_pte() as usize;
        let t0 = self.pgd;
        if !table_in_memory(memory, t0) {
            return None;
        }
        let e0 = TableDescriptor::new(memory.read(t0, i0));
        if !e0.is_valid() {
            proof {
                assert(walk_to(m, t0, v, 1) is None);
                assert(walk_to(m, t0, v, 2) is None);
                assert(walk_to(m, t0, v, 3) is None);
                lemma_walk_levels(m, t0, v);
            }
            return Some(None);
        }
        let t1 = e0.get_next_table_address();
        assert(walk_to(m, t0, v, 1) == Some(t1));
        if !table_in_memory(memory, t1) {
            return None;
        }
        if same_table(t1, t0) {
            return None;
        }
        let e1 = TableDescriptor::new(memory.read(t1, i1));
        if !e1.is_valid() {
            proof {
                assert(walk_to(m, t0, v, 2) is None);
                assert(walk_to(m, t0, v, 3) is None);
                lemma_walk_levels(m, t0, v);
            }
            return Some(None);
        }
        let t2 = e1.get_next_table_address();
        assert(walk_to(m, t0, v, 2) == Some(t2));
        if !table_in_memory(memory, t2) {
            return None;
        }
        if same_table(t2, t0) || same_table(t2, t1) {
            return None;
        }
        let e2 = TableDescriptor::new(memory.read(t2, i2));
        if !e2.is_valid() {
            proof {
                assert(walk_to(m, t0, v, 3) is None);
                lemma_walk_levels(m, t0, v);
            }
            return Some(None);
        }
        let t3 = e2.get_next_table_address();
        assert(walk_to(m, t0, v, 3) == Some(t3));
        if !table_in_memory(memory, t3) {
            return None;
        }
        if same_table(t3, t0) || same_table(t3, t1) || same_table(t3, t2) {
            return None;
        }
        proof {
            lemma_walk_levels(m, t0, v);
        }
        Some(Some(memory.read(t3, i3)))
    }
}

/// Table `k` of the walk to `v` is in memory, if the walk gets there.
pub open spec fn level_in_memory(tables: Seq<Vec<u64>>, root: u64, v: u64, k: nat) -> bool {
    walk_to(tables, root, v, k) matches Some(t) ==> has_table(tables, t)
}

/// Tables `j` and `k` of the walk to `v` differ, if the walk gets there.
pub open spec fn levels_distinct(tables: Seq<Vec<u64>>, root: u64, v: u64, j: nat, k: nat) -> bool {
    walk_to(tables, root, v, j) is Some && walk_to(tables, root, v, k) is Some ==> table_index(
        walk_to(tables, root, v, j).unwrap(),
    ) != table_index(walk_to(tables, root, v, k).unwrap())
}

/// The walk's properties over all levels, from its four levels.
proof fn lemma_walk_levels(tables: Seq<Vec<u64>>, root: u64, v: u64)
    ensures
        walk_in_memory(tables, root, v) <==> (level_in_memory(tables, root, v, 0) && level_in_memory(
            tables,
            root,
            v,
            1,
        ) && level_in_memory(tables, root, v, 2) && level_in_memory(tables, root, v, 3)),
        path_tables_distinct(tables, root, v) <==> (levels_distinct(tables, root, v, 0, 1)
            && levels_distinct(tables, root, v, 0, 2) && levels_distinct(tables, root, v, 0, 3)
            && levels_distinct(tables, root, v, 1, 2) && levels_distinct(tables, root, v, 1, 3)
            && levels_distinct(tables, root, v, 2, 3)),
{
    let w0 = walk_to(tables, root, v, 0);
    let w1 = walk_to(tables, root, v, 1);
    let w2 = walk_to(tables, root, v, 2);
    let w3 = walk_to(tables, root, v, 3);
    if level_in_memory(tables, root, v, 0) && level_in_memory(tables, root, v, 1) && level_in_memory(
        tables,
        root,
        v,
        2,
    ) && level_in_memory(tables, root, v, 3) {
        assert forall|level: nat|
            level <= 3 implies (#[trigger] walk_to(tables, root, v, level) matches Some(t) ==> has_table(
            tables,
            t,
        )) by {
            assert(level_in_memory(tables, root, v, level));
        }
    }
    if levels_distinct(tables, root, v, 0, 1) && levels_distinct(tables, root, v, 0, 2)
        && levels_distinct(tables, root, v, 0, 3) && levels_distinct(tables, root, v, 1, 2)
        && levels_distinct(tables, root, v, 1, 3) && levels_distinct(tables, root, v, 2, 3) {
        assert forall|j: nat, k: nat|
            #![trigger walk_to(tables, root, v, j), walk_to(tables, root, v, k)]
            j < k <= 3 && walk_to(tables, root, v, j) is Some && walk_to(tables, root, v, k) is Some
                implies table_index(walk_to(tables, root, v, j).unwrap()) != table_index(
            walk_to(tables, root, v, k).unwrap(),
        ) by {
            assert(levels_distinct(tables, root, v, j, k));
        }
    }
}

} // verus!
