use raspi_os::elf::{load_plan, ELF64Header, ProgramHeader, PT_LOAD};

fn put(b: &mut [u8], at: usize, value: u64, width: usize) {
    for i in 0..width {
        b[at + i] = (value >> (8 * i)) as u8;
    }
}

/// An image with one program header per entry of `segments`: (type,
/// offset, virtual address, file size, memory size). The headers start at
/// byte 64; bytes from 120 + 56 * (n - 1) on count up from 1.
fn image(segments: &[(u32, u64, u64, u64, u64)], length: usize) -> Vec<u8> {
    let mut b = vec![0u8; length];
    b[0] = 0x7F;
    b[1] = b'E';
    b[2] = b'L';
    b[3] = b'F';
    put(&mut b, 24, 0x1000_0010, 8);
    put(&mut b, 32, 64, 8);
    put(&mut b, 54, 56, 2);
    put(&mut b, 56, segments.len() as u64, 2);
    let data = 64 + 56 * segments.len();
    for i in data..length {
        b[i] = (i - data + 1) as u8;
    }
    for (n, s) in segments.iter().enumerate() {
        let at = 64 + 56 * n;
        put(&mut b, at, s.0 as u64, 4);
        put(&mut b, at + 8, s.1, 8);
        put(&mut b, at + 16, s.2, 8);
        put(&mut b, at + 32, s.3, 8);
        put(&mut b, at + 40, s.4, 8);
    }
    b
}

#[test]
fn elf_header_needs_magic_and_whole_header() {
    assert!(ELF64Header::try_from(&[0u8; 64]).is_err());
    let b = image(&[], 64);
    assert!(ELF64Header::try_from(&b[0..63]).is_err());
    let h = ELF64Header::try_from(&b).expect("an ELF header");
    assert_eq!(h.program_entry_address, 0x1000_0010);
    assert_eq!(h.program_header_offset, 64);
    assert_eq!(h.program_header_entry_size, 56);
    assert_eq!(h.program_header_number, 0);
}

#[test]
fn program_header_fields() {
    let b = image(&[(PT_LOAD, 120, 0x1000_0FF0, 20, 40)], 160);
    let h = ProgramHeader::read(&b, 64);
    assert!(h.is_loadable());
    assert_eq!(h.offset, 120);
    assert_eq!(h.virtual_address, 0x1000_0FF0);
    assert_eq!(h.file_size, 20);
    assert_eq!(h.memory_size, 40);
}

#[test]
fn load_plan_places_segment_across_two_pages() {
    let b = image(&[(PT_LOAD, 120, 0x1000_0FF0, 20, 40)], 160);
    let (entry, pages) = load_plan(&b).expect("a loadable image");
    assert_eq!(entry, 0x1000_0010);
    assert_eq!(pages.len(), 2);
    assert_eq!(pages[0].0, 0x1000_0000);
    assert_eq!(pages[1].0, 0x1000_1000);
    assert!(pages.iter().all(|p| p.1.len() == 4096));
    for o in 0..0xFF0 {
        assert_eq!(pages[0].1[o], 0);
    }
    for i in 0..16 {
        assert_eq!(pages[0].1[0xFF0 + i], b[120 + i]);
    }
    for i in 0..4 {
        assert_eq!(pages[1].1[i], b[136 + i]);
    }
    // The rest of the segment, and of the page, is zero.
    for o in 4..4096 {
        assert_eq!(pages[1].1[o], 0);
    }
}

#[test]
fn load_plan_skips_segments_that_are_not_loadable() {
    let b = image(&[(2, 176, 0x2000_0000, 4, 4), (PT_LOAD, 176, 0x3000_0000, 8, 8)], 200);
    let (_, pages) = load_plan(&b).expect("a loadable image");
    assert_eq!(pages.len(), 1);
    assert_eq!(pages[0].0, 0x3000_0000);
    assert_eq!(&pages[0].1[0..8], &b[176..184]);
    assert_eq!(pages[0].1[8], 0);
}

#[test]
fn load_plan_rejects_segment_outside_image() {
    let b = image(&[(PT_LOAD, 120, 0x1000_0000, 100, 100)], 160);
    assert!(load_plan(&b).is_none());
}

#[test]
fn load_plan_rejects_program_header_outside_image() {
    let mut b = image(&[(PT_LOAD, 120, 0x1000_0000, 4, 4)], 160);
    put(&mut b, 56, 3, 2);
    assert!(load_plan(&b).is_none());
}

#[test]
fn load_plan_rejects_segment_past_end_of_address_space() {
    let b = image(&[(PT_LOAD, 120, 0xFFFF_FFFF_FFFF_F000, 4, 0x2000)], 160);
    assert!(load_plan(&b).is_none());
}

#[test]
fn load_plan_rejects_non_elf() {
    assert!(load_plan(&[0u8; 200]).is_none());
}
