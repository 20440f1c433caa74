//! On-disk structures of a FAT32 volume: the master boot record, the boot
//! sector, directory entries and file allocation table entries.
//!
//! Every structure is read out of a 512-byte sector; multi-byte fields are
//! little endian.
use vstd::prelude::*;
use crate::bitfield::{field64, field8, get_field8};
use crate::emmc_controller::{block_read_commands, holds_words, EMMCController, EMMCError, EMMCSlot};
use crate::timer::Timer;

verus! {

/// Number of bytes in a sector.
pub const SECTOR_SIZE: usize = 512;

/// Little-endian 16-bit value at byte `i` of `b`.
pub open spec fn le16(b: Seq<u8>, i: int) -> u16 {
    (b[i] as int + b[i + 1] as int * 256) as u16
}

/// Little-endian 32-bit value at byte `i` of `b`.
pub open spec fn le32(b: Seq<u8>, i: int) -> u32 {
    (b[i] as int + b[i + 1] as int * 0x100 + b[i + 2] as int * 0x1_0000 + b[i + 3] as int
        * 0x100_0000) as u32
}

/// Reads the little-endian 16-bit value at byte `i`.
pub fn read_le16(bytes: &[u8], i: usize) -> (r: u16)
    requires
        i + 1 < bytes@.len(),
    ensures
        r == le16(bytes@, i as int),
{
    bytes[i] as u16 + (bytes[i + 1] as u16) * 256
}

/// Reads the little-endian 32-bit value at byte `i`.
pub fn read_le32(bytes: &[u8], i: usize) -> (r: u32)
    requires
        i + 3 < bytes@.len(),
    ensures
        r == le32(bytes@, i as int),
{
    bytes[i] as u32 + (bytes[i + 1] as u32) * 0x100 + (bytes[i + 2] as u32) * 0x1_0000 + (bytes[i
        + 3] as u32) * 0x100_0000
}

/// One sector of a block device.
pub struct Sector {
    pub values: [u8; 512],
}

impl Sector {
    /// A sector holding the given bytes.
    pub fn from_bytes(values: [u8; 512]) -> (r: Sector)
        ensures
            r.values@ == values@,
    {
        Sector { values }
    }

    /// Reads sector `number` of the card behind `emmc`.
    pub fn load<S: EMMCSlot, T: Timer>(number: u32, emmc: &mut EMMCController<S, T>) -> (r: Result<Sector, EMMCError>)
        requires
            field64(old(emmc).configuration.configuration.value, 32, 35) == 0 ==> number < u32::MAX,
        ensures
            final(emmc).configuration == old(emmc).configuration,
            old(emmc).sent@.is_prefix_of(final(emmc).sent@),
            old(emmc).received@.is_prefix_of(final(emmc).received@),
            r matches Ok(sector) ==> {
                let words = final(emmc).received@.skip(old(emmc).received@.len() as int);
                &&& final(emmc).sent@ == old(emmc).sent@ + block_read_commands(
                    old(emmc).configuration.configuration.value,
                    number,
                    1,
                )
                &&& words.len() == 128
                &&& holds_words(sector.values@, words)
            },
    {
        match emmc.read_sector(number) {
            Ok(values) => Ok(Sector { values }),
            Err(error) => Err(error),
        }
    }
}

// ---------------------------------------------------------------- boot sector

/// Byte offsets of the boot sector's fields.
pub const OEM_NAME: usize = 3;
pub const BYTES_PER_SECTOR: usize = 11;
pub const SECTORS_PER_CLUSTER: usize = 13;
pub const RESERVED_SECTORS: usize = 14;
pub const NUMBER_OF_FATS: usize = 16;
pub const ROOT_ENTRY_COUNT: usize = 17;
pub const TOTAL_SECTORS16: usize = 19;
pub const MEDIA: usize = 21;
pub const FAT_SIZE: usize = 22;
pub const TOTAL_SECTORS32: usize = 32;
pub const SECTORS_PER_FAT: usize = 36;
pub const ROOT_CLUSTER: usize = 44;
pub const FS_INFO_SECTOR: usize = 48;
pub const FILE_SYSTEM_TYPE: usize = 82;
pub const SIGNATURE_WORD: usize = 510;

/// The FAT32 boot sector (BIOS parameter block) of a volume.
#[derive(Copy, Clone, Debug)]
pub struct BootSector {
    bytes: [u8; 512],
}

/// Settings of a FAT32 volume, as its boot sector gives them.
#[derive(Copy, Clone, Debug)]
pub struct FAT32Config {
    pub bytes_per_sector: u16,
    pub sectors_per_cluster: u8,
    pub reserved_sectors: u16,
    pub number_of_fats: u8,
    pub root_entry_count: u16,
    pub total_sectors: u32,
    pub sectors_per_fat: u32,
    pub root_cluster: u32,
    pub fs_info_sector: u16,
}

/// The checks a sector passes to be taken as a FAT32 boot sector: the
/// 0x55 0xAA signature, a sector size of 512, 1024, 2048 or 4096 bytes, a
/// cluster size that is a power of two, at least one reserved sector,
/// one or two FATs, no fixed root directory, no 16-bit sector count and a
/// non-zero 32-bit sector count.
pub open spec fn boot_sector_accepted(b: Seq<u8>) -> bool {
    let bytes_per_sector = le16(b, BYTES_PER_SECTOR as int);
    let sectors_per_cluster = b[SECTORS_PER_CLUSTER as int];
    let number_of_fats = b[NUMBER_OF_FATS as int];
    &&& b[SIGNATURE_WORD as int] == 0x55
    &&& b[SIGNATURE_WORD + 1] == 0xAA
    &&& (bytes_per_sector == 512 || bytes_per_sector == 1024 || bytes_per_sector == 2048
        || bytes_per_sector == 4096)
    &&& sectors_per_cluster != 0 && sectors_per_cluster & ((sectors_per_cluster - 1) as u8) == 0
    &&& le16(b, RESERVED_SECTORS as int) != 0
    &&& (number_of_fats == 1 || number_of_fats == 2)
    &&& le16(b, ROOT_ENTRY_COUNT as int) == 0
    &&& le16(b, TOTAL_SECTORS16 as int) == 0
    &&& le32(b, TOTAL_SECTORS32 as int) != 0
}

impl BootSector {
    /// The sector's bytes.
    pub closed spec fn view(&self) -> Seq<u8> {
        self.bytes@
    }

    /// Takes `sector` as a boot sector if it passes the checks of
    /// `boot_sector_accepted`.
    pub fn try_from_sector(sector: &Sector) -> (r: Result<BootSector, ()>)
        ensures
            r is Ok <==> boot_sector_accepted(sector.values@),
            r matches Ok(b) ==> b@ == sector.values@,
    {
        let candidate = BootSector { bytes: sector.values };
        if candidate.bytes[SIGNATURE_WORD] != 0x55 {
            return Err(());
        }
        if candidate.bytes[SIGNATURE_WORD + 1] != 0xAA {
            return Err(());
        }
        let bytes_per_sector = candidate.get_bytes_per_sector();
        if !(bytes_per_sector == 512 || bytes_per_sector == 1024 || bytes_per_sector == 2048
            || bytes_per_sector == 4096) {
            return Err(());
        }
        let sectors_per_cluster = candidate.get_sectors_per_cluster();
        if sectors_per_cluster == 0 || sectors_per_cluster & (sectors_per_cluster - 1) != 0 {
            return Err(());
        }
        if candidate.get_reserved_sectors() == 0 {
            return Err(());
        }
        let number_of_fats = candidate.get_number_of_fats();
        if !(number_of_fats == 1 || number_of_fats == 2) {
            return Err(());
        }
        if candidate.get_root_entry_count() != 0 {
            return Err(());
        }
        if candidate.get_total_sectors16() != 0 {
            return Err(());
        }
        if candidate.get_total_sectors32() == 0 {
            return Err(());
        }
        Ok(candidate)
    }

    /// The eight bytes of the OEM name.
    pub fn get_oem_name(&self) -> (r: [u8; 8])
        ensures
            r@ == self@.subrange(OEM_NAME as int, OEM_NAME + 8),
    {
        let mut name = [0u8; 8];
        let mut i: usize = 0;
        while i < 8
            invariant
                i <= 8,
                self@.len() == 512,
                forall|j: int| 0 <= j < i ==> name@[j] == self@[OEM_NAME + j],
            decreases 8 - i,
        {
            name[i] = self.bytes[OEM_NAME + i];
            i = i + 1;
        }
        assert(name@ =~= self@.subrange(OEM_NAME as int, OEM_NAME + 8));
        name
    }

    pub fn get_bytes_per_sector(&self) -> (r: u16)
        ensures
            r == le16(self@, BYTES_PER_SECTOR as int),
    {
        read_le16(&self.bytes, BYTES_PER_SECTOR)
    }

    pub fn get_sectors_per_cluster(&self) -> (r: u8)
        ensures
            r == self@[SECTORS_PER_CLUSTER as int],
    {
        self.bytes[SECTORS_PER_CLUSTER]
    }

    pub fn get_reserved_sectors(&self) -> (r: u16)
        ensures
            r == le16(self@, RESERVED_SECTORS as int),
    {
        read_le16(&self.bytes, RESERVED_SECTORS)
    }

    pub fn get_number_of_fats(&self) -> (r: u8)
        ensures
            r == self@[NUMBER_OF_FATS as int],
    {
        self.bytes[NUMBER_OF_FATS]
    }

    pub fn get_root_entry_count(&self) -> (r: u16)
        ensures
            r == le16(self@, ROOT_ENTRY_COUNT as int),
    {
        read_le16(&self.bytes, ROOT_ENTRY_COUNT)
    }

    pub fn get_total_sectors16(&self) -> (r: u16)
        ensures
            r == le16(self@, TOTAL_SECTORS16 as int),
    {
        read_le16(&self.bytes, TOTAL_SECTORS16)
    }

    pub fn get_media(&self) -> (r: u8)
        ensures
            r == self@[MEDIA as int],
    {
        self.bytes[MEDIA]
    }

    pub fn fat_size(&self) -> (r: u16)
        ensures
            r == le16(self@, FAT_SIZE as int),
    {
        read_le16(&self.bytes, FAT_SIZE)
    }

    pub fn get_total_sectors32(&self) -> (r: u32)
        ensures
            r == le32(self@, TOTAL_SECTORS32 as int),
    {
        read_le32(&self.bytes, TOTAL_SECTORS32)
    }

    pub fn get_sectors_per_fat(&self) -> (r: u32)
        ensures
            r == le32(self@, SECTORS_PER_FAT as int),
    {
        read_le32(&self.bytes, SECTORS_PER_FAT)
    }

    pub fn get_root_cluster_sector(&self) -> (r: u32)
        ensures
            r == le32(self@, ROOT_CLUSTER as int),
    {
        read_le32(&self.bytes, ROOT_CLUSTER)
    }

    pub fn get_fs_info_cluster_sector(&self) -> (r: u16)
        ensures
            r == le16(self@, FS_INFO_SECTOR as int),
    {
        read_le16(&self.bytes, FS_INFO_SECTOR)
    }

    /// The eight bytes of the file system type label.
    pub fn get_filesystem_type(&self) -> (r: [u8; 8])
        ensures
            r@ == self@.subrange(FILE_SYSTEM_TYPE as int, FILE_SYSTEM_TYPE + 8),
    {
        let mut name = [0u8; 8];
        let mut i: usize = 0;
        while i < 8
            invariant
                i <= 8,
                self@.len() == 512,
                forall|j: int| 0 <= j < i ==> name@[j] == self@[FILE_SYSTEM_TYPE + j],
            decreases 8 - i,
        {
            name[i] = self.bytes[FILE_SYSTEM_TYPE + i];
            i = i + 1;
        }
        assert(name@ =~= self@.subrange(FILE_SYSTEM_TYPE as int, FILE_SYSTEM_TYPE + 8));
        name
    }

    /// The volume settings this boot sector gives.
    pub fn as_config(&self) -> (r: FAT32Config)
        ensures
            r.bytes_per_sector == le16(self@, BYTES_PER_SECTOR as int),
            r.sectors_per_cluster == self@[SECTORS_PER_CLUSTER as int],
            r.reserved_sectors == le16(self@, RESERVED_SECTORS as int),
            r.number_of_fats == self@[NUMBER_OF_FATS as int],
            r.root_entry_count == le16(self@, ROOT_ENTRY_COUNT as int),
            r.total_sectors == le32(self@, TOTAL_SECTORS32 as int),
            r.sectors_per_fat == le32(self@, SECTORS_PER_FAT as int),
            r.root_cluster == le32(self@, ROOT_CLUSTER as int),
            r.fs_info_sector == le16(self@, FS_INFO_SECTOR as int),
    {
        FAT32Config {
            bytes_per_sector: self.get_bytes_per_sector(),
            sectors_per_cluster: self.get_sectors_per_cluster(),
            reserved_sectors: self.get_reserved_sectors(),
            number_of_fats: self.get_number_of_fats(),
            root_entry_count: self.get_root_entry_count(),
            total_sectors: self.get_total_sectors32(),
            sectors_per_fat: self.get_sectors_per_fat(),
            root_cluster: self.get_root_cluster_sector(),
            fs_info_sector: self.get_fs_info_cluster_sector(),
        }
    }
}

/// An accepted boot sector describes a usable FAT32 geometry: a standard
/// sector size, a power-of-two cluster size, at least one reserved sector, one or two FATs and a
/// non-zero sector count, with no FAT12/16 fields in use.
pub proof fn lemma_accepted_boot_sector_geometry(sector: &Sector, boot: BootSector)
    requires
        boot@ == sector.values@,
        boot_sector_accepted(sector.values@),
    ensures
        ({
            let b = boot@;
            &&& le16(b, BYTES_PER_SECTOR as int) % 512 == 0
            &&& 512 <= le16(b, BYTES_PER_SECTOR as int) <= 4096
            &&& le16(b, RESERVED_SECTORS as int) >= 1
            &&& 1 <= b[NUMBER_OF_FATS as int] <= 2
            &&& le32(b, TOTAL_SECTORS32 as int) >= 1
            &&& le16(b, ROOT_ENTRY_COUNT as int) == 0
            &&& {
                let spc = b[SECTORS_PER_CLUSTER as int];
                spc == 1 || spc == 2 || spc == 4 || spc == 8 || spc == 16 || spc == 32 || spc == 64
                    || spc == 128
            }
        }),
{
    let spc = boot@[SECTORS_PER_CLUSTER as int];
    assert(spc != 0 && spc & ((spc - 1) as u8) == 0 ==> (spc == 1 || spc == 2 || spc == 4 || spc == 8
        || spc == 16 || spc == 32 || spc == 64 || spc == 128)) by (bit_vector);
}

// ---------------------------------------------------------------- master boot record

/// Byte offset of the first partition entry in a master boot record.
pub const PARTITION_TABLE: usize = 446;

/// Bytes in one partition entry.
pub const PARTITION_ENTRY_SIZE: usize = 16;

/// One of the four entries of a master boot record's partition table.
#[derive(Copy, Clone, Debug)]
pub struct PartitionEntry {
    pub status: u8,
    pub partition_type: u8,
    pub first_sector_lba: u32,
    pub sectors_in_partition: u32,
}

/// The partition entry stored at byte `at` of `b`.
pub open spec fn partition_entry_at(b: Seq<u8>, at: int) -> PartitionEntry {
    PartitionEntry {
        status: b[at],
        partition_type: b[at + 4],
        first_sector_lba: le32(b, at + 8),
        sectors_in_partition: le32(b, at + 12),
    }
}

/// A partition entry of 16 bytes holds its status at byte 0, its type at
/// byte 4, the address of its first sector at bytes 8..11 and its number of
/// sectors at bytes 12..15, both little endian.
pub proof fn lemma_partition_entry_layout(b: Seq<u8>, at: int)
    ensures
        partition_entry_at(b, at).status == b[at],
        partition_entry_at(b, at).partition_type == b[at + 4],
        partition_entry_at(b, at).first_sector_lba == b[at + 8] + b[at + 9] * 0x100 + b[at + 10]
            * 0x1_0000 + b[at + 11] * 0x100_0000,
        partition_entry_at(b, at).sectors_in_partition == b[at + 12] + b[at + 13] * 0x100 + b[at
            + 14] * 0x1_0000 + b[at + 15] * 0x100_0000,
{
}

/// The partition table starts at byte 446 of the master boot record, four
/// entries of 16 bytes each, and the boot signature is at bytes 510..511.
pub proof fn lemma_master_boot_record_layout()
    ensures
        PARTITION_TABLE == 446,
        PARTITION_ENTRY_SIZE == 16,
        SIGNATURE_WORD == 510,
{
}

impl PartitionEntry {
    /// Reads the entry stored at byte `at` of `bytes`.
    pub fn from_bytes(bytes: &[u8], at: usize) -> (r: PartitionEntry)
        requires
            at + PARTITION_ENTRY_SIZE <= bytes@.len(),
        ensures
            r == partition_entry_at(bytes@, at as int),
            r.status == bytes@[at as int],
            r.partition_type == bytes@[at + 4],
            r.first_sector_lba == le32(bytes@, at + 8),
            r.sectors_in_partition == le32(bytes@, at + 12),
    {
        PartitionEntry {
            status: bytes[at],
            partition_type: bytes[at + 4],
            first_sector_lba: read_le32(bytes, at + 8),
            sectors_in_partition: read_le32(bytes, at + 12),
        }
    }

    pub fn get_first_sector_lba(&self) -> (r: u32)
        ensures
            r == self.first_sector_lba,
    {
        self.first_sector_lba
    }

    pub fn get_sectors_in_partition(&self) -> (r: u32)
        ensures
            r == self.sectors_in_partition,
    {
        self.sectors_in_partition
    }
}

/// A master boot record: boot code, four partition entries and the boot
/// signature.
#[derive(Copy, Clone, Debug)]
pub struct MBRSector {
    pub partition_entries: [PartitionEntry; 4],
    pub boot_signature: [u8; 2],
}

impl MBRSector {
    /// Takes `sector` as a master boot record when its last two bytes are
    /// the 0x55 0xAA signature.
    pub fn try_from_sector(sector: Sector) -> (r: Result<MBRSector, ()>)
        ensures
            r is Ok <==> (sector.values@[SIGNATURE_WORD as int] == 0x55
                && sector.values@[SIGNATURE_WORD + 1] == 0xAA),
            r matches Ok(m) ==> forall|i: int|
                0 <= i < 4 ==> #[trigger] m.partition_entries@[i] == partition_entry_at(
                    sector.values@,
                    PARTITION_TABLE + PARTITION_ENTRY_SIZE * i,
                ),
    {
        let b = &sector.values;
        if b[SIGNATURE_WORD] != 0x55 || b[SIGNATURE_WORD + 1] != 0xAA {
            return Err(());
        }
        let entries = [
            PartitionEntry::from_bytes(b, PARTITION_TABLE),
            PartitionEntry::from_bytes(b, PARTITION_TABLE + PARTITION_ENTRY_SIZE),
            PartitionEntry::from_bytes(b, PARTITION_TABLE + 2 * PARTITION_ENTRY_SIZE),
            PartitionEntry::from_bytes(b, PARTITION_TABLE + 3 * PARTITION_ENTRY_SIZE),
        ];
        Ok(MBRSector { partition_entries: entries, boot_signature: [b[SIGNATURE_WORD], b[SIGNATURE_WORD + 1]] })
    }
}

// ---------------------------------------------------------------- directories

/// Bytes in one directory entry.
pub const DIRECTORY_ENTRY_SIZE: usize = 32;

/// Directory entries in one sector.
pub const DIRECTORY_ENTRIES_PER_SECTOR: usize = 16;

/// The attribute byte of a directory entry.
#[derive(Copy, Clone, Debug)]
pub struct DirectoryAttributes {
    pub value: u8,
}

impl DirectoryAttributes {
    pub fn get_read_only(self) -> (r: u8)
        ensures
            r == field8(self.value, 1, 1),
    {
        get_field8(self.value, 1, 1)
    }

    pub fn get_hidden(self) -> (r: u8)
        ensures
            r == field8(self.value, 2, 2),
    {
        get_field8(self.value, 2, 2)
    }

    pub fn get_system(self) -> (r: u8)
        ensures
            r == field8(self.value, 3, 3),
    {
        get_field8(self.value, 3, 3)
    }

    pub fn get_volume_id(self) -> (r: u8)
        ensures
            r == field8(self.value, 4, 4),
    {
        get_field8(self.value, 4, 4)
    }

    pub fn get_directory(self) -> (r: u8)
        ensures
            r == field8(self.value, 5, 5),
    {
        get_field8(self.value, 5, 5)
    }

    pub fn get_archive(self) -> (r: u8)
        ensures
            r == field8(self.value, 6, 6),
    {
        get_field8(self.value, 6, 6)
    }
}

/// One 32-byte entry of a FAT directory.
#[derive(Copy, Clone, Debug)]
pub struct DirectoryEntry {
    pub name: [u8; 11],
    pub attributes: DirectoryAttributes,
    pub creation_time_tenth: u8,
    pub creation_time: u16,
    pub creation_date: u16,
    pub last_access_date: u16,
    pub first_cluster_high_word: u16,
    pub last_write_time: u16,
    pub last_write_date: u16,
    pub first_cluster_low_word: u16,
    pub file_size: u32,
}

/// The directory entry stored at byte `at` of `b`.
pub open spec fn directory_entry_at(b: Seq<u8>, at: int) -> DirectoryEntry {
    DirectoryEntry {
        name: arbitrary(),
        attributes: DirectoryAttributes { value: b[at + 11] },
        creation_time_tenth: b[at + 13],
        creation_time: le16(b, at + 14),
        creation_date: le16(b, at + 16),
        last_access_date: le16(b, at + 18),
        first_cluster_high_word: le16(b, at + 20),
        last_write_time: le16(b, at + 22),
        last_write_date: le16(b, at + 24),
        first_cluster_low_word: le16(b, at + 26),
        file_size: le32(b, at + 28),
    }
}

/// `e` is the directory entry stored at byte `at` of `b`.
pub open spec fn is_directory_entry_at(e: DirectoryEntry, b: Seq<u8>, at: int) -> bool {
    let d = directory_entry_at(b, at);
    &&& e.name@ == b.subrange(at, at + 11)
    &&& e.attributes == d.attributes
    &&& e.creation_time_tenth == d.creation_time_tenth
    &&& e.creation_time == d.creation_time
    &&& e.creation_date == d.creation_date
    &&& e.last_access_date == d.last_access_date
    &&& e.first_cluster_high_word == d.first_cluster_high_word
    &&& e.last_write_time == d.last_write_time
    &&& e.last_write_date == d.last_write_date
    &&& e.first_cluster_low_word == d.first_cluster_low_word
    &&& e.file_size == d.file_size
}

impl DirectoryEntry {
    /// Reads the entry stored at byte `at` of `bytes`.
    pub fn from_bytes(bytes: &[u8], at: usize) -> (r: DirectoryEntry)
        requires
            at + DIRECTORY_ENTRY_SIZE <= bytes@.len(),
        ensures
            is_directory_entry_at(r, bytes@, at as int),
    {
        let len = bytes.len();
        let mut name = [0u8; 11];
        let mut i: usize = 0;
        while i < 11
            invariant
                i <= 11,
                len == bytes@.len(),
                at + DIRECTORY_ENTRY_SIZE <= bytes@.len(),
                forall|j: int| 0 <= j < i ==> name@[j] == bytes@[at + j],
            decreases 11 - i,
        {
            name[i] = bytes[at + i];
            i = i + 1;
        }
        assert(name@ =~= bytes@.subrange(at as int, at + 11));
        DirectoryEntry {
            name,
            attributes: DirectoryAttributes { value: bytes[at + 11] },
            creation_time_tenth: bytes[at + 13],
            creation_time: read_le16(bytes, at + 14),
            creation_date: read_le16(bytes, at + 16),
            last_access_date: read_le16(bytes, at + 18),
            first_cluster_high_word: read_le16(bytes, at + 20),
            last_write_time: read_le16(bytes, at + 22),
            last_write_date: read_le16(bytes, at + 24),
            first_cluster_low_word: read_le16(bytes, at + 26),
            file_size: read_le32(bytes, at + 28),
        }
    }

    /// The eleven bytes of the entry's 8.3 name.
    pub fn get_name(&self) -> (r: [u8; 11])
        ensures
            r@ == self.name@,
    {
        self.name
    }

    /// A free entry's name starts with 0xE5 (deleted) or 0x00 (end of
    /// directory).
    pub fn is_free(&self) -> (r: bool)
        ensures
            r == (self.name@[0] == 0xE5 || self.name@[0] == 0),
    {
        self.name[0] == 0xE5 || self.name[0] == 0x0
    }
}

/// A sector of a directory: sixteen entries.
pub struct DirectorySector {
    pub directory_entries: Vec<DirectoryEntry>,
}

impl DirectorySector {
    /// Reads the sixteen entries of `sector`.
    pub fn from_sector(sector: Sector) -> (r: DirectorySector)
        ensures
            r.directory_entries@.len() == DIRECTORY_ENTRIES_PER_SECTOR,
            forall|i: int|
                0 <= i < DIRECTORY_ENTRIES_PER_SECTOR ==> is_directory_entry_at(
                    #[trigger] r.directory_entries@[i],
                    sector.values@,
                    DIRECTORY_ENTRY_SIZE * i,
                ),
    {
        let mut entries: Vec<DirectoryEntry> = Vec::new();
        let mut i: usize = 0;
        while i < DIRECTORY_ENTRIES_PER_SECTOR
            invariant
                i <= DIRECTORY_ENTRIES_PER_SECTOR,
                entries@.len() == i,
                sector.values@.len() == 512,
                forall|j: int|
                    0 <= j < i ==> is_directory_entry_at(
                        #[trigger] entries@[j],
                        sector.values@,
                        DIRECTORY_ENTRY_SIZE * j,
                    ),
            decreases DIRECTORY_ENTRIES_PER_SECTOR - i,
        {
            let e = DirectoryEntry::from_bytes(&sector.values, DIRECTORY_ENTRY_SIZE * i);
            entries.push(e);
            i = i + 1;
        }
        DirectorySector { directory_entries: entries }
    }
}

// ---------------------------------------------------------------- allocation table

/// What a file allocation table entry says of its cluster.
#[derive(Copy, Clone, Debug, PartialEq, Eq)]
pub enum FAT32Entry {
    Free,
    Allocated(u32),
    Defective,
    Reserved,
    EndOfFile,
}

/// The meaning of a FAT entry value.
pub open spec fn fat32_entry_of(value: u32) -> FAT32Entry {
    if value == 0 {
        FAT32Entry::Free
    } else if value < 0xFFF_FFF7 {
        FAT32Entry::Allocated(value)
    } else if value == 0xFFF_FFF7 {
        FAT32Entry::Defective
    } else if value == 0xFFF_FFFF {
        FAT32Entry::EndOfFile
    } else {
        FAT32Entry::Reserved
    }
}

impl FAT32Entry {
    /// Classifies a FAT entry value: 0 is free, 1 up to 0xFFFFFF6 names the
    /// next cluster, 0xFFFFFF7 marks a bad cluster, 0xFFFFFFF the end of a
    /// chain, and every other value is reserved.
    pub fn from_u32(value: u32) -> (r: FAT32Entry)
        ensures
            r == fat32_entry_of(value),
    {
        if value == 0 {
            FAT32Entry::Free
        } else if 1 <= value && value < 0xFFF_FFF7 {
            FAT32Entry::Allocated(value)
        } else if value == 0xFFF_FFF7 {
            FAT32Entry::Defective
        } else if 0xFFF_FFF8 <= value && value <= 0xFFF_FFFE {
            FAT32Entry::Reserved
        } else if value == 0xFFF_FFFF {
            FAT32Entry::EndOfFile
        } else {
            FAT32Entry::Reserved
        }
    }
}

/// Entries of the allocation table in one sector.
pub const FAT_ENTRIES_PER_SECTOR: usize = 128;

/// A sector of the file allocation table: 128 little-endian entries.
pub struct FATSector {
    pub fat_entries: Vec<u32>,
}

impl FATSector {
    /// Reads the 128 entries of `sector`.
    pub fn from_sector(sector: Sector) -> (r: FATSector)
        ensures
            r.fat_entries@.len() == FAT_ENTRIES_PER_SECTOR,
            forall|i: int|
                0 <= i < FAT_ENTRIES_PER_SECTOR ==> #[trigger] r.fat_entries@[i] == le32(
                    sector.values@,
                    4 * i,
                ),
    {
        let mut entries: Vec<u32> = Vec::new();
        let mut i: usize = 0;
        while i < FAT_ENTRIES_PER_SECTOR
            invariant
                i <= FAT_ENTRIES_PER_SECTOR,
                entries@.len() == i,
                sector.values@.len() == 512,
                forall|j: int| 0 <= j < i ==> #[trigger] entries@[j] == le32(sector.values@, 4 * j),
            decreases FAT_ENTRIES_PER_SECTOR - i,
        {
            let v = read_le32(&sector.values, 4 * i);
            entries.push(v);
            i = i + 1;
        }
        FATSector { fat_entries: entries }
    }

    /// The meaning of entry `i`.
    pub fn entry(&self, i: usize) -> (r: FAT32Entry)
        requires
            i < self.fat_entries@.len(),
        ensures
            r == fat32_entry_of(self.fat_entries@[i as int]),
    {
        FAT32Entry::from_u32(self.fat_entries[i])
    }
}

/// Little-endian fields: the low byte first.
pub proof fn lemma_little_endian(b: Seq<u8>, i: int)
    ensures
        le16(b, i) == b[i] + b[i + 1] * 0x100,
        le32(b, i) == b[i] + b[i + 1] * 0x100 + b[i + 2] * 0x1_0000 + b[i + 3] * 0x100_0000,
{
}

/// The byte offsets of the boot sector's fields in the FAT32 layout.
pub proof fn lemma_boot_sector_offsets()
    ensures
        OEM_NAME == 3,
        BYTES_PER_SECTOR == 11,
        SECTORS_PER_CLUSTER == 13,
        RESERVED_SECTORS == 14,
        NUMBER_OF_FATS == 16,
        ROOT_ENTRY_COUNT == 17,
        TOTAL_SECTORS16 == 19,
        MEDIA == 21,
        FAT_SIZE == 22,
        TOTAL_SECTORS32 == 32,
        SECTORS_PER_FAT == 36,
        ROOT_CLUSTER == 44,
        FS_INFO_SECTOR == 48,
        FILE_SYSTEM_TYPE == 82,
        SIGNATURE_WORD == 510,
{
}

/// A sector is taken as a FAT32 boot sector exactly when it ends in 0x55
/// 0xAA, its bytes per sector (bytes 11..12) are 512, 1024, 2048 or 4096,
/// its sectors per cluster (byte 13) are a power of two, its reserved
/// sectors (bytes 14..15) are not zero, it has one or two FATs (byte 16), no
/// fixed root directory entries (bytes 17..18), no 16-bit sector count
/// (bytes 19..20) and a non-zero 32-bit sector count (bytes 32..35).
pub proof fn lemma_boot_sector_acceptance(b: Seq<u8>)
    ensures
        boot_sector_accepted(b) <==> {
            let bps = b[11] + b[12] * 0x100;
            let spc = b[13];
            &&& b[510] == 0x55 && b[511] == 0xAA
            &&& (bps == 512 || bps == 1024 || bps == 2048 || bps == 4096)
            &&& (spc == 1 || spc == 2 || spc == 4 || spc == 8 || spc == 16 || spc == 32 || spc == 64
                || spc == 128)
            &&& b[14] + b[15] * 0x100 != 0
            &&& (b[16] == 1 || b[16] == 2)
            &&& b[17] == 0 && b[18] == 0
            &&& b[19] == 0 && b[20] == 0
            &&& b[32] + b[33] * 0x100 + b[34] * 0x1_0000 + b[35] * 0x100_0000 != 0
        },
{
    let spc = b[13];
    assert((spc != 0 && spc & ((spc - 1) as u8) == 0) <==> (spc == 1 || spc == 2 || spc == 4 || spc
        == 8 || spc == 16 || spc == 32 || spc == 64 || spc == 128)) by (bit_vector);
}

/// A 32-byte directory entry: the 8.3 name at bytes 0..10, the attributes
/// at byte 11, creation time tenths at 13, creation time and date at
/// 14..15 and 16..17, last access date at 18..19, the high word of the first
/// cluster at 20..21, last write time and date at 22..23 and 24..25, the low
/// word of the first cluster at 26..27 and the file size at 28..31, all
/// little endian.
pub proof fn lemma_directory_entry_layout(b: Seq<u8>, at: int)
    ensures
        directory_entry_at(b, at).attributes.value == b[at + 11],
        directory_entry_at(b, at).creation_time_tenth == b[at + 13],
        directory_entry_at(b, at).creation_time == b[at + 14] + b[at + 15] * 0x100,
        directory_entry_at(b, at).creation_date == b[at + 16] + b[at + 17] * 0x100,
        directory_entry_at(b, at).last_access_date == b[at + 18] + b[at + 19] * 0x100,
        directory_entry_at(b, at).first_cluster_high_word == b[at + 20] + b[at + 21] * 0x100,
        directory_entry_at(b, at).last_write_time == b[at + 22] + b[at + 23] * 0x100,
        directory_entry_at(b, at).last_write_date == b[at + 24] + b[at + 25] * 0x100,
        directory_entry_at(b, at).first_cluster_low_word == b[at + 26] + b[at + 27] * 0x100,
        directory_entry_at(b, at).file_size == b[at + 28] + b[at + 29] * 0x100 + b[at + 30]
            * 0x1_0000 + b[at + 31] * 0x100_0000,
        DIRECTORY_ENTRY_SIZE == 32,
        forall|e: DirectoryEntry| #[trigger] is_directory_entry_at(e, b, at) ==> e.name@ == b.subrange(at, at + 11),
{
}

/// What a FAT entry says: 0 is a free cluster, 1 up to 0xFFFFFF6 name the
/// next cluster of the chain, 0xFFFFFF7 marks a bad cluster, 0xFFFFFFF ends
/// the chain, and every other value is reserved.
pub proof fn lemma_fat32_entry_values(v: u32)
    ensures
        fat32_entry_of(v) == FAT32Entry::Free <==> v == 0,
        fat32_entry_of(v) == FAT32Entry::Allocated(v) <==> 1 <= v <= 0xFFF_FFF6,
        forall|n: u32| #[trigger] fat32_entry_of(v) == FAT32Entry::Allocated(n) ==> n == v,
        fat32_entry_of(v) == FAT32Entry::Defective <==> v == 0xFFF_FFF7,
        fat32_entry_of(v) == FAT32Entry::EndOfFile <==> v == 0xFFF_FFFF,
        fat32_entry_of(v) == FAT32Entry::Reserved <==> (0xFFF_FFF8 <= v <= 0xFFF_FFFE
            || v >= 0x1000_0000),
{
}

} // verus!
