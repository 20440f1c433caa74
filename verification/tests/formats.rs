use raspi_os::clock::{rate_of, Clock};
use raspi_os::exception::{
    DataFaultStatus, Exception, ExceptionClass, ExceptionSource, ExceptionType, InterruptFrame,
};
use raspi_os::fat32::{BootSector, FAT32Entry, FATSector, MBRSector, Sector};
use raspi_os::power::Device;

fn boot_sector_bytes() -> [u8; 512] {
    let mut b = [0u8; 512];
    b[11] = 0x00;
    b[12] = 0x02; // 512 bytes per sector
    b[13] = 8; // sectors per cluster
    b[14] = 32; // reserved sectors
    b[16] = 2; // FATs
    b[32] = 0x00;
    b[33] = 0x00;
    b[34] = 0x10; // 0x100000 sectors
    b[36] = 0x00;
    b[37] = 0x04; // 1024 sectors per FAT
    b[44] = 2; // root cluster
    b[48] = 1; // FS info sector
    b[510] = 0x55;
    b[511] = 0xAA;
    b
}

#[test]
fn boot_sector_accepts_fat32_volume() {
    let sector = Sector::from_bytes(boot_sector_bytes());
    let boot = BootSector::try_from_sector(&sector).expect("a FAT32 boot sector");
    let config = boot.as_config();
    assert_eq!(config.bytes_per_sector, 512);
    assert_eq!(config.sectors_per_cluster, 8);
    assert_eq!(config.reserved_sectors, 32);
    assert_eq!(config.number_of_fats, 2);
    assert_eq!(config.total_sectors, 0x100000);
    assert_eq!(config.sectors_per_fat, 1024);
    assert_eq!(config.root_cluster, 2);
    assert_eq!(config.fs_info_sector, 1);
}

#[test]
fn boot_sector_refusals() {
    let mut b = boot_sector_bytes();
    b[511] = 0;
    assert!(BootSector::try_from_sector(&Sector::from_bytes(b)).is_err());
    let mut b = boot_sector_bytes();
    b[12] = 0x03; // 768 bytes per sector
    assert!(BootSector::try_from_sector(&Sector::from_bytes(b)).is_err());
    let mut b = boot_sector_bytes();
    b[13] = 3; // two adjacent bits
    assert!(BootSector::try_from_sector(&Sector::from_bytes(b)).is_err());
    let mut b = boot_sector_bytes();
    b[16] = 3;
    assert!(BootSector::try_from_sector(&Sector::from_bytes(b)).is_err());
    let mut b = boot_sector_bytes();
    b[17] = 1; // a fixed root directory
    assert!(BootSector::try_from_sector(&Sector::from_bytes(b)).is_err());
}

#[test]
fn mbr_needs_signature() {
    let mut b = [0u8; 512];
    assert!(MBRSector::try_from_sector(Sector::from_bytes(b)).is_err());
    b[510] = 0x55;
    b[511] = 0xAA;
    assert!(MBRSector::try_from_sector(Sector::from_bytes(b)).is_ok());
}

#[test]
fn fat_entries() {
    assert_eq!(FAT32Entry::from_u32(0), FAT32Entry::Free);
    assert_eq!(FAT32Entry::from_u32(5), FAT32Entry::Allocated(5));
    assert_eq!(FAT32Entry::from_u32(0xFFF_FFF6), FAT32Entry::Allocated(0xFFF_FFF6));
    assert_eq!(FAT32Entry::from_u32(0xFFF_FFF7), FAT32Entry::Defective);
    assert_eq!(FAT32Entry::from_u32(0xFFF_FFF8), FAT32Entry::Reserved);
    assert_eq!(FAT32Entry::from_u32(0xFFF_FFFF), FAT32Entry::EndOfFile);
    assert_eq!(FAT32Entry::from_u32(0xFFFF_FFFF), FAT32Entry::Reserved);
}

#[test]
fn fat_sector_entries_little_endian() {
    let mut b = [0u8; 512];
    b[4] = 0x03;
    b[8] = 0xFF;
    b[9] = 0xFF;
    b[10] = 0xFF;
    b[11] = 0x0F;
    let fat = FATSector::from_sector(Sector::from_bytes(b));
    assert_eq!(fat.entry(0), FAT32Entry::Free);
    assert_eq!(fat.entry(1), FAT32Entry::Allocated(3));
    assert_eq!(fat.entry(2), FAT32Entry::EndOfFile);
}

#[test]
fn exception_classes() {
    assert_eq!(ExceptionClass::try_from(0b10101), Ok(ExceptionClass::SystemCall));
    assert_eq!(ExceptionClass::try_from(0b10_0101), Ok(ExceptionClass::DataAbort));
    assert!(ExceptionClass::try_from(0b11).is_err());
    assert_eq!(DataFaultStatus::try_from(0b00_0101), Ok(DataFaultStatus::TranslationFaultLevel1));
    assert!(DataFaultStatus::try_from(0b00_1000).is_err());
    assert!(DataFaultStatus::TranslationFaultLevel1.is_translation_fault());
    assert!(!DataFaultStatus::TranslationFaultLevel1.is_permission_fault());
}

#[test]
fn exception_syndrome_fields() {
    // Class 0b010101 (system call) with immediate 7.
    let esr: u64 = (0b010101 << 26) | 7;
    let e = Exception::new(esr, 0x1000, ExceptionSource::LowerEL64, ExceptionType::Synchronous);
    assert_eq!(e.get_exception_class(), ExceptionClass::SystemCall);
    assert_eq!(e.get_syscall_number(), 7);
    assert_eq!(e.get_address(), 0x1000);
    assert_eq!(e.get_type(), ExceptionType::Synchronous);
    assert!(!e.is_kernel());
    assert!(ExceptionSource::CurrentELCurrentSP.is_kernel());
    assert!(!ExceptionSource::LowerEL32.is_kernel());
    assert!(DataFaultStatus::AddressSizeFaultLevel3.is_address_size_fault());
    assert!(!DataFaultStatus::AccessFlagFaultLevel3.is_address_size_fault());
    assert_eq!(ExceptionSource::from_u64(4), None);
    assert_eq!(ExceptionType::from_u64(3), None);
    assert_eq!(ExceptionType::from_u64(4), Some(ExceptionType::SystemError));
}

#[test]
fn interrupt_frame_arguments() {
    let mut frame = InterruptFrame::with_kernel_entry(0x8_0000);
    assert_eq!(frame.get_exception_link_register(), 0x8_0000);
    assert_eq!(frame.spsr, 0b101);
    frame.set_arg(11);
    frame.gp_registers[1] = 22;
    frame.gp_registers[2] = 33;
    assert_eq!(frame.get_syscall_arguments(), [11, 22, 33]);
}

#[test]
fn clock_and_device_numbers() {
    assert_eq!(Clock::try_from_u32(3).map(|c| c.as_u32()), Some(3));
    assert_eq!(Clock::try_from_u32(0), None);
    assert_eq!(Device::try_from_u32(0).map(|d| d.to_u32()), Some(0));
    assert!(Device::try_from_u32(100).is_none());
}

#[test]
fn clock_rate_from_answer() {
    assert_eq!(rate_of(Some([3, 1_200_000_000])), Some(1_200_000_000));
    assert_eq!(rate_of(Some([0, 5])), None);
    assert_eq!(rate_of(None), None);
}

#[test]
fn boot_sector_needs_power_of_two_cluster_size() {
    let mut bytes = [0u8; 512];
    bytes[510] = 0x55;
    bytes[511] = 0xAA;
    bytes[11] = 0x00;
    bytes[12] = 0x02;
    bytes[14] = 32;
    bytes[16] = 2;
    bytes[32] = 1;
    for (spc, accepted) in [(1u8, true), (8, true), (128, true), (0, false), (5, false), (9, false), (10, false)] {
        bytes[13] = spc;
        let sector = Sector::from_bytes(bytes);
        assert_eq!(BootSector::try_from_sector(&sector).is_ok(), accepted, "cluster size {}", spc);
    }
}
