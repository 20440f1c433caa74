//! Executable images in the 64-bit ELF format: the file header, the program
//! headers, and the pages a program's loadable segments take in memory.
//!
//! Multi-byte fields are little endian. A loadable segment covers
//! `memory_size` bytes from `virtual_address`; its first `file_size` bytes
//! come from the image at `offset`, the rest are zero.
use vstd::prelude::*;
use crate::fat32::{le16, le32, read_le16, read_le32};
use crate::page_table::PAGE_SIZE;

verus! {

/// Bytes in the file header.
pub const ELF_HEADER_SIZE: usize = 64;

/// Bytes a program header takes in the image.
pub const PROGRAM_HEADER_SIZE: usize = 56;

/// The type of a loadable segment.
pub const PT_LOAD: u32 = 1;

/// How much of an image the kernel reads before loading it.
pub const IMAGE_BUFFER_SIZE: usize = 840;

/// Little-endian 64-bit value at byte `i` of `b`.
pub open spec fn le64(b: Seq<u8>, i: int) -> u64 {
    (le32(b, i) as int + le32(b, i + 4) as int * 0x1_0000_0000) as u64
}

/// Reads the little-endian 64-bit value at byte `i`.
pub fn read_le64(bytes: &[u8], i: usize) -> (r: u64)
    requires
        i + 7 < bytes@.len(),
    ensures
        r == le64(bytes@, i as int),
{
    let _n = bytes.len();
    let low = read_le32(bytes, i) as u64;
    let high = read_le32(bytes, i + 4) as u64;
    low + high * 0x1_0000_0000
}

/// The fields of the file header that loading reads.
#[derive(Copy, Clone, Debug, PartialEq, Eq, Structural)]
pub struct ELF64Header {
    /// Where the program starts.
    pub program_entry_address: u64,
    /// Where in the image the program headers start.
    pub program_header_offset: u64,
    /// The bytes from one program header to the next.
    pub program_header_entry_size: u16,
    /// How many program headers there are.
    pub program_header_number: u16,
}

/// `b` starts with the ELF magic number and holds a whole file header.
pub open spec fn is_elf_image(b: Seq<u8>) -> bool {
    &&& b.len() >= ELF_HEADER_SIZE
    &&& b[0] == 0x7F
    &&& b[1] == 0x45
    &&& b[2] == 0x4C
    &&& b[3] == 0x46
}

/// The file header at the start of `b`.
pub open spec fn elf_header_of(b: Seq<u8>) -> ELF64Header {
    ELF64Header {
        program_entry_address: le64(b, 24),
        program_header_offset: le64(b, 32),
        program_header_entry_size: le16(b, 54),
        program_header_number: le16(b, 56),
    }
}

impl ELF64Header {
    /// Reads the file header of `bytes`; fails unless `bytes` starts with
    /// the ELF magic number and holds a whole header.
    pub fn try_from(bytes: &[u8]) -> (r: Result<ELF64Header, ()>)
        ensures
            r is Ok <==> is_elf_image(bytes@),
            r matches Ok(h) ==> h == elf_header_of(bytes@),
    {
        if bytes.len() < ELF_HEADER_SIZE {
            return Err(());
        }
        if bytes[0] != 0x7F || bytes[1] != 0x45 || bytes[2] != 0x4C || bytes[3] != 0x46 {
            return Err(());
        }
        Ok(ELF64Header {
            program_entry_address: read_le64(bytes, 24),
            program_header_offset: read_le64(bytes, 32),
            program_header_entry_size: read_le16(bytes, 54),
            program_header_number: read_le16(bytes, 56),
        })
    }
}

/// One program header.
#[derive(Copy, Clone, Debug, PartialEq, Eq, Structural)]
pub struct ProgramHeader {
    pub program_type: u32,
    pub flags: u32,
    /// Where the segment's bytes start in the image.
    pub offset: u64,
    pub virtual_address: u64,
    pub physical_address: u64,
    /// How many of the segment's bytes come from the image.
    pub file_size: u64,
    /// How many bytes the segment takes in memory.
    pub memory_size: u64,
    pub align: u64,
}

/// The program header at byte `at` of `b`.
pub open spec fn program_header_at(b: Seq<u8>, at: int) -> ProgramHeader {
    ProgramHeader {
        program_type: le32(b, at),
        flags: le32(b, at + 4),
        offset: le64(b, at + 8),
        virtual_address: le64(b, at + 16),
        physical_address: le64(b, at + 24),
        file_size: le64(b, at + 32),
        memory_size: le64(b, at + 40),
        align: le64(b, at + 48),
    }
}

impl ProgramHeader {
    /// Reads the program header at byte `at`.
    pub fn read(bytes: &[u8], at: usize) -> (r: ProgramHeader)
        requires
            at + PROGRAM_HEADER_SIZE <= bytes@.len(),
        ensures
            r == program_header_at(bytes@, at as int),
    {
        let _n = bytes.len();
        ProgramHeader {
            program_type: read_le32(bytes, at),
            flags: read_le32(bytes, at + 4),
            offset: read_le64(bytes, at + 8),
            virtual_address: read_le64(bytes, at + 16),
            physical_address: read_le64(bytes, at + 24),
            file_size: read_le64(bytes, at + 32),
            memory_size: read_le64(bytes, at + 40),
            align: read_le64(bytes, at + 48),
        }
    }

    /// Whether the segment is loaded into memory.
    pub fn is_loadable(&self) -> (r: bool)
        ensures
            r == (self.program_type == PT_LOAD),
    {
        self.program_type == PT_LOAD
    }
}

/// Where program header `i` of the image with file header `h` starts.
pub open spec fn program_header_start(h: ELF64Header, i: int) -> int {
    h.program_header_offset + h.program_header_entry_size * i
}

/// Every program header of `h` lies inside the `len` bytes of the image.
pub open spec fn program_headers_fit(h: ELF64Header, len: int) -> bool {
    forall|i: int|
        0 <= i < h.program_header_number ==> #[trigger] program_header_start(h, i)
            + PROGRAM_HEADER_SIZE <= len
}

/// The program headers of image `b` with file header `h`, in order.
pub open spec fn program_headers_of(h: ELF64Header, b: Seq<u8>) -> Seq<ProgramHeader> {
    Seq::new(
        h.program_header_number as nat,
        |i: int| program_header_at(b, program_header_start(h, i)),
    )
}

/// Reads the program headers of `image`, whose file header is `header`;
/// fails when one lies outside the image.
pub fn read_program_headers(header: &ELF64Header, image: &[u8]) -> (r: Option<Vec<ProgramHeader>>)
    ensures
        r is Some <==> program_headers_fit(*header, image@.len() as int),
        r matches Some(v) ==> v@ == program_headers_of(*header, image@),
{
    let n = image.len();
    let mut headers: Vec<ProgramHeader> = Vec::new();
    let mut i: u16 = 0;
    while i < header.program_header_number
        invariant
            i <= header.program_header_number,
            n == image@.len(),
            headers@.len() == i,
            forall|j: int| 0 <= j < i ==> program_header_start(*header, j) + PROGRAM_HEADER_SIZE <= image@.len(),
            forall|j: int| 0 <= j < i ==> headers@[j] == program_header_at(image@, program_header_start(*header, j)),
        decreases header.program_header_number - i,
    {
        let size = header.program_header_entry_size as u64;
        assert(size * i <= 0xFFFF * 0xFFFF) by (nonlinear_arith)
            requires
                size <= 0xFFFF,
                i <= 0xFFFF,
        ;
        let step = size * i as u64;
        if header.program_header_offset > u64::MAX - step {
            assert(!(program_header_start(*header, i as int) + PROGRAM_HEADER_SIZE <= image@.len()));
            return None;
        }
        let at = header.program_header_offset + step;
        if at > n as u64 || n as u64 - at < PROGRAM_HEADER_SIZE as u64 {
            assert(!(program_header_start(*header, i as int) + PROGRAM_HEADER_SIZE <= image@.len()));
            return None;
        }
        headers.push(ProgramHeader::read(image, at as usize));
        i = i + 1;
    }
    proof {
        assert(headers@ =~= program_headers_of(*header, image@));
    }
    Some(headers)
}

/// The address of the first page the segment of `h` touches.
pub open spec fn first_page(h: ProgramHeader) -> int {
    h.virtual_address as int / PAGE_SIZE as int * PAGE_SIZE as int
}

/// How many pages the segment of `h` is given: from the page holding its
/// first byte to the page holding the address just past its end.
pub open spec fn page_count(h: ProgramHeader) -> int {
    (h.virtual_address + h.memory_size) / PAGE_SIZE as int - h.virtual_address as int
        / PAGE_SIZE as int + 1
}

/// The segment of `h` ends inside the address space, and its bytes from
/// the file lie inside the `len` bytes of the image.
pub open spec fn segment_fits(h: ProgramHeader, len: int) -> bool {
    &&& h.virtual_address + h.memory_size <= u64::MAX
    &&& h.offset + h.file_size <= len
}

/// The byte the segment of `h` puts at address `a` of a page it is given:
/// its byte from the image where the file covers `a`, else zero.
pub open spec fn segment_byte(h: ProgramHeader, b: Seq<u8>, a: int) -> u8 {
    if h.virtual_address <= a < h.virtual_address + h.file_size {
        b[h.offset + (a - h.virtual_address)]
    } else {
        0
    }
}

/// The page at `page` as the segment of `h` fills it.
pub open spec fn page_contents(h: ProgramHeader, b: Seq<u8>, page: int) -> Seq<u8> {
    Seq::new(PAGE_SIZE as nat, |o: int| segment_byte(h, b, page + o))
}

/// The pages the segment of `h` is given, lowest first: each page's address
/// and its bytes.
pub open spec fn segment_pages(h: ProgramHeader, b: Seq<u8>) -> Seq<(u64, Seq<u8>)> {
    Seq::new(
        page_count(h) as nat,
        |k: int|
            (
                (first_page(h) + k * PAGE_SIZE) as u64,
                page_contents(h, b, first_page(h) + k * PAGE_SIZE),
            ),
    )
}

/// The bytes of the page at `page`, as the segment of `h` of `image` fills
/// it.
fn fill_page(h: &ProgramHeader, image: &[u8], page: u64) -> (r: Vec<u8>)
    requires
        segment_fits(*h, image@.len() as int),
        page + PAGE_SIZE <= u64::MAX + 1,
    ensures
        r@ == page_contents(*h, image@, page as int),
{
    let n = image.len();
    let mut bytes: Vec<u8> = Vec::new();
    let mut o: u64 = 0;
    while o < PAGE_SIZE
        invariant
            o <= PAGE_SIZE,
            page + PAGE_SIZE <= u64::MAX + 1,
            n == image@.len(),
            segment_fits(*h, image@.len() as int),
            bytes@.len() == o,
            forall|j: int| 0 <= j < o ==> bytes@[j] == segment_byte(*h, image@, page + j),
        decreases PAGE_SIZE - o,
    {
        let a = page + o;
        let byte = if a >= h.virtual_address && a - h.virtual_address < h.file_size {
            image[(h.offset + (a - h.virtual_address)) as usize]
        } else {
            0
        };
        bytes.push(byte);
        o = o + 1;
    }
    assert(bytes@ =~= page_contents(*h, image@, page as int));
    bytes
}

/// The pages the segment of `h` is given in memory, lowest first, with the
/// bytes it puts in them.
pub fn load_segment(h: &ProgramHeader, image: &[u8]) -> (r: Vec<(u64, Vec<u8>)>)
    requires
        segment_fits(*h, image@.len() as int),
    ensures
        r@.len() == segment_pages(*h, image@).len(),
        forall|k: int|
            0 <= k < r@.len() ==> r@[k].0 == segment_pages(*h, image@)[k].0 && (#[trigger] r@[k]).1@
                == segment_pages(*h, image@)[k].1,
        forall|k: int| 0 <= k < r@.len() ==> (#[trigger] r@[k]).0 % PAGE_SIZE == 0,
{
    let first = h.virtual_address / PAGE_SIZE;
    let last = (h.virtual_address + h.memory_size) / PAGE_SIZE;
    let mut pages: Vec<(u64, Vec<u8>)> = Vec::new();
    let mut p: u64 = first;
    assert(first <= last) by (nonlinear_arith)
        requires
            first == h.virtual_address / 4096,
            last == (h.virtual_address + h.memory_size) / 4096,
    ;
    while p <= last
        invariant
            first <= p <= last + 1,
            first == h.virtual_address / PAGE_SIZE,
            last == (h.virtual_address + h.memory_size) / PAGE_SIZE as int,
            segment_fits(*h, image@.len() as int),
            pages@.len() == p - first,
            forall|k: int|
                0 <= k < pages@.len() ==> (#[trigger] pages@[k]).0 == segment_pages(*h, image@)[k].0
                    && pages@[k].1@ == segment_pages(*h, image@)[k].1,
            forall|k: int| 0 <= k < pages@.len() ==> (#[trigger] pages@[k]).0 % PAGE_SIZE == 0,
        decreases last + 1 - p,
    {
        assert(p * 4096 + 4096 <= u64::MAX + 1) by (nonlinear_arith)
            requires
                p <= last,
                last == (h.virtual_address + h.memory_size) / 4096,
                h.virtual_address + h.memory_size <= u64::MAX,
        ;
        let page = p * PAGE_SIZE;
        assert(page % 4096 == 0) by (nonlinear_arith)
            requires
                page == p * 4096,
        ;
        let bytes = fill_page(h, image, page);
        proof {
            let k = p - first;
            assert(first_page(*h) + k * PAGE_SIZE == page) by (nonlinear_arith)
                requires
                    first_page(*h) == first * 4096,
                    k == p - first,
                    page == p * 4096,
            ;
        }
        pages.push((page, bytes));
        p = p + 1;
    }
    pages
}

/// The pages of the loadable segments among `hs`, segment by segment in
/// the order of the headers.
pub open spec fn loadable_pages(hs: Seq<ProgramHeader>, b: Seq<u8>) -> Seq<(u64, Seq<u8>)>
    decreases hs.len(),
{
    if hs.len() == 0 {
        Seq::empty()
    } else {
        loadable_pages(hs.drop_last(), b) + if hs.last().program_type == PT_LOAD {
            segment_pages(hs.last(), b)
        } else {
            Seq::empty()
        }
    }
}

/// Every loadable segment among `hs` fits the `len` bytes of the image.
pub open spec fn segments_fit(hs: Seq<ProgramHeader>, len: int) -> bool {
    forall|i: int|
        0 <= i < hs.len() && (#[trigger] hs[i]).program_type == PT_LOAD ==> segment_fits(hs[i], len)
}

/// What loading image `b` gives: its entry address and the pages of its
/// loadable segments, when `b` is an ELF image whose program headers and
/// loadable segments lie inside it.
pub open spec fn load_plan_of(b: Seq<u8>) -> Option<(u64, Seq<(u64, Seq<u8>)>)> {
    let h = elf_header_of(b);
    if is_elf_image(b) && program_headers_fit(h, b.len() as int) && segments_fit(
        program_headers_of(h, b),
        b.len() as int,
    ) {
        Some((h.program_entry_address, loadable_pages(program_headers_of(h, b), b)))
    } else {
        None
    }
}

/// Each page's address and the view of its bytes.
pub open spec fn pages_view(pages: Seq<(u64, Vec<u8>)>) -> Seq<(u64, Seq<u8>)> {
    pages.map_values(|p: (u64, Vec<u8>)| (p.0, p.1@))
}

/// Reads the ELF image `image` and lays out the program it holds: the
/// address it starts at, and every page its loadable segments take, in the
/// order of their program headers, each with the bytes it must hold. `None`
/// where the image is no ELF image, or a program header or the file bytes of
/// a loadable segment lie outside it, or a loadable segment runs past the
/// end of the address space.
pub fn load_plan(image: &[u8]) -> (r: Option<(u64, Vec<(u64, Vec<u8>)>)>)
    ensures
        r is Some <==> load_plan_of(image@) is Some,
        r matches Some(plan) ==> plan.0 == load_plan_of(image@).unwrap().0 && pages_view(plan.1@)
            == load_plan_of(image@).unwrap().1,
        r matches Some(plan) ==> forall|k: int|
            0 <= k < plan.1@.len() ==> (#[trigger] plan.1@[k]).0 % PAGE_SIZE == 0,
{
    let n = image.len();
    let header = match ELF64Header::try_from(image) {
        Ok(h) => h,
        Err(()) => {
            return None;
        },
    };
    let headers = match read_program_headers(&header, image) {
        Some(hs) => hs,
        None => {
            return None;
        },
    };
    let ghost hs = program_headers_of(header, image@);
    let mut pages: Vec<(u64, Vec<u8>)> = Vec::new();
    let mut i: usize = 0;
    while i < headers.len()
        invariant
            i <= headers@.len(),
            n == image@.len(),
            headers@ == hs,
            header == elf_header_of(image@),
            hs == program_headers_of(header, image@),
            segments_fit(hs.take(i as int), n as int),
            pages_view(pages@) == loadable_pages(hs.take(i as int), image@),
            forall|k: int| 0 <= k < pages@.len() ==> (#[trigger] pages@[k]).0 % PAGE_SIZE == 0,
        decreases headers@.len() - i,
    {
        let h = headers[i];
        proof {
            assert(hs.take(i + 1).drop_last() =~= hs.take(i as int));
            assert(hs.take(i + 1).last() == h);
        }
        if h.is_loadable() {
            if h.virtual_address > u64::MAX - h.memory_size || h.offset > n as u64 || h.file_size
                > n as u64 - h.offset {
                proof {
                    assert(hs[i as int] == h);
                    assert(!segment_fits(h, n as int));
                    assert(hs[i as int].program_type == PT_LOAD);
                    assert(!segments_fit(hs, n as int));
                }
                return None;
            }
            let segment = load_segment(&h, image);
            let ghost seg = segment@;
            let ghost before = pages@;
            let mut rest = segment;
            pages.append(&mut rest);
            proof {
                assert(pages_view(pages@) =~= pages_view(before) + segment_pages(h, image@));
                assert forall|k: int| 0 <= k < pages@.len() implies (#[trigger] pages@[k]).0 % PAGE_SIZE == 0 by {
                    if k >= before.len() {
                        assert(pages@[k] == seg[k - before.len()]);
                    }
                }
            }
        } else {
            proof {
                assert(loadable_pages(hs.take(i + 1), image@) =~= loadable_pages(hs.take(i as int), image@));
            }
        }
        i = i + 1;
    }
    proof {
        assert(hs.take(headers@.len() as int) =~= hs);
    }
    Some((header.program_entry_address, pages))
}

/// The page index, within the pages of the segment of `h`, of the page
/// holding byte `i` of the segment.
pub open spec fn page_of_byte(h: ProgramHeader, i: int) -> int {
    (h.virtual_address + i) / PAGE_SIZE as int - h.virtual_address as int / PAGE_SIZE as int
}

/// Byte `i` of a segment lands in the page given for address
/// `virtual_address + i`, at that address's offset in the page: the byte
/// from the image at `offset + i` while `i` is below `file_size`, zero from
/// there to `memory_size`.
pub proof fn lemma_segment_byte_placed(h: ProgramHeader, b: Seq<u8>, i: int)
    requires
        segment_fits(h, b.len() as int),
        0 <= i < h.memory_size,
    ensures
        0 <= page_of_byte(h, i) < page_count(h),
        segment_pages(h, b)[page_of_byte(h, i)].0 == (h.virtual_address + i) / PAGE_SIZE as int
            * PAGE_SIZE as int,
        segment_pages(h, b)[page_of_byte(h, i)].1[(h.virtual_address + i) % PAGE_SIZE as int] == if i
            < h.file_size {
            b[h.offset + i]
        } else {
            0
        },
{
    let v = h.virtual_address as int;
    let a = v + i;
    let k = page_of_byte(h, i);
    let page = first_page(h) + k * PAGE_SIZE;
    assert(0 <= k < page_count(h) && page == a / 4096 * 4096 && page + a % 4096 == a
        && 0 <= a % 4096 < 4096) by (nonlinear_arith)
        requires
            0 <= i < h.memory_size,
            v >= 0,
            a == v + i,
            k == a / 4096 - v / 4096,
            page == v / 4096 * 4096 + k * 4096,
            page_count(h) == (v + h.memory_size) / 4096 - v / 4096 + 1,
    ;
    assert(segment_pages(h, b)[k].1 == page_contents(h, b, page));
    assert(page_contents(h, b, page)[a % 4096] == segment_byte(h, b, a));
}

/// The pages of the loadable segments among the first `m` headers come
/// first among those of all of them.
proof fn lemma_loadable_pages_prefix(hs: Seq<ProgramHeader>, b: Seq<u8>, m: int)
    requires
        0 <= m <= hs.len(),
    ensures
        loadable_pages(hs.take(m), b).len() <= loadable_pages(hs, b).len(),
        loadable_pages(hs, b).take(loadable_pages(hs.take(m), b).len() as int) == loadable_pages(
            hs.take(m),
            b,
        ),
    decreases hs.len(),
{
    if m == hs.len() {
        assert(hs.take(m) =~= hs);
    } else {
        lemma_loadable_pages_prefix(hs.drop_last(), b, m);
        assert(hs.drop_last().take(m) =~= hs.take(m));
        let whole = loadable_pages(hs, b);
        let front = loadable_pages(hs.drop_last(), b);
        let len = loadable_pages(hs.take(m), b).len() as int;
        assert(whole.take(len) =~= front.take(len));
    }
}

/// Every loadable segment's pages stand in the pages of all of them,
/// after those of the loadable segments whose headers come before it.
pub proof fn lemma_segment_in_loadable_pages(hs: Seq<ProgramHeader>, b: Seq<u8>, j: int)
    requires
        0 <= j < hs.len(),
        hs[j].program_type == PT_LOAD,
    ensures
        loadable_pages(hs.take(j), b).len() + segment_pages(hs[j], b).len() <= loadable_pages(
            hs,
            b,
        ).len(),
        loadable_pages(hs, b).subrange(
            loadable_pages(hs.take(j), b).len() as int,
            (loadable_pages(hs.take(j), b).len() + segment_pages(hs[j], b).len()) as int,
        ) == segment_pages(hs[j], b),
{
    lemma_loadable_pages_prefix(hs, b, j + 1);
    assert(hs.take(j + 1).drop_last() =~= hs.take(j));
    assert(hs.take(j + 1).last() == hs[j]);
    let s = loadable_pages(hs.take(j), b).len() as int;
    let seg = segment_pages(hs[j], b);
    let upto = loadable_pages(hs.take(j + 1), b);
    assert(upto == loadable_pages(hs.take(j), b) + seg);
    let whole = loadable_pages(hs, b);
    assert(whole.subrange(s, s + seg.len()) =~= seg) by {
        assert forall|k: int| 0 <= k < seg.len() implies whole.subrange(s, s + seg.len())[k] == seg[k] by {
            assert(whole.take(upto.len() as int)[s + k] == upto[s + k]);
        }
    }
}

/// What loading an image gives holds every byte of every loadable segment:
/// byte `i` of the segment of program header `j` lies in a page of the plan
/// at the page address of `virtual_address + i`, at that address's offset
/// in the page, and is the image's byte at `offset + i` while `i` is below
/// `file_size`, zero from there to `memory_size`.
pub proof fn lemma_load_plan_places_bytes(b: Seq<u8>, j: int, i: int)
    requires
        load_plan_of(b) is Some,
        0 <= j < elf_header_of(b).program_header_number,
        program_headers_of(elf_header_of(b), b)[j].program_type == PT_LOAD,
        0 <= i < program_headers_of(elf_header_of(b), b)[j].memory_size,
    ensures
        ({
            let hs = program_headers_of(elf_header_of(b), b);
            let h = hs[j];
            let plan = load_plan_of(b).unwrap().1;
            let at = loadable_pages(hs.take(j), b).len() + page_of_byte(h, i);
            &&& 0 <= at < plan.len()
            &&& plan[at].0 == (h.virtual_address + i) / PAGE_SIZE as int * PAGE_SIZE as int
            &&& plan[at].1[(h.virtual_address + i) % PAGE_SIZE as int] == if i < h.file_size {
                b[h.offset + i]
            } else {
                0
            }
        }),
{
    let hs = program_headers_of(elf_header_of(b), b);
    let h = hs[j];
    assert(segment_fits(h, b.len() as int));
    lemma_segment_byte_placed(h, b, i);
    lemma_segment_in_loadable_pages(hs, b, j);
    let s = loadable_pages(hs.take(j), b).len() as int;
    let k = page_of_byte(h, i);
    let plan = loadable_pages(hs, b);
    assert(plan.subrange(s, s + segment_pages(h, b).len())[k] == segment_pages(h, b)[k]);
}

} // verus!
