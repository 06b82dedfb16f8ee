//! What the flashing tool writes: a flat firmware image built from the loadable segments of
//! an ELF file, cut into pages, next to the configuration blob.

use vstd::prelude::*;

use crate::{CONFIG_SIZE, FIRMWARE_SIZE};

verus! {

/// Program header type of a loadable segment.
pub const PT_LOAD: u32 = 1;

/// Bytes in one page of a flash write.
pub const FLASH_PAGE_SIZE: usize = 256;

/// Bytes in one erase sector.
pub const FLASH_SECTOR_SIZE: u32 = 4096;

/// Address of the first byte of flash as the boot ROM sees it.
pub const FLASH_START: u32 = 0x10000000;

/// What the flat image needs from one program header.
#[derive(Clone, Copy, Debug, PartialEq, Eq, Structural)]
pub struct Segment {
    pub p_type: u32,
    pub readable: bool,
    pub offset: u64,
    pub filesz: u64,
    pub paddr: u64,
}

/// The size of the ELF header and the program headers, in file order, as the ELF parser
/// reads them from `bytes`; `None` when the file does not parse.
pub uninterp spec fn elf_layout_of(bytes: Seq<u8>) -> Option<(u16, Seq<Segment>)>;

/// Relies on `goblin::elf::Elf::parse`: the header size and, for each program header, its
/// type, read flag, file offset, size in the file and physical address, or `None` when the
/// file does not parse as ELF.
#[verifier::external_body]
fn parse_elf(bytes: &[u8]) -> (r: Option<(u16, Vec<Segment>)>)
    ensures
        match r {
            Some((h, v)) => elf_layout_of(bytes@) == Some((h, v@)),
            None => elf_layout_of(bytes@) is None,
        },
{
    let elf = goblin::elf::Elf::parse(bytes).ok()?;
    let segments = elf.program_headers.iter().map(
        |ph| Segment {
            p_type: ph.p_type,
            readable: ph.is_read(),
            offset: ph.p_offset,
            filesz: ph.p_filesz,
            paddr: ph.p_paddr,
        },
    ).collect();
    Some((elf.header.e_ehsize, segments))
}

/// Why no flat image could be built.
#[derive(Clone, Copy, Debug, PartialEq, Eq, Structural)]
pub enum ElfError {
    /// The file is not ELF.
    Parse,
    /// A segment reaches past the end of the file.
    SegmentOutOfFile,
    /// A segment starts before the previous one ends.
    SegmentsOverlap,
    /// The image would not fit the firmware region.
    ImageTooLarge,
}

/// `sorted` with `x` after every segment whose address is not above its own.
pub open spec fn insert_by_paddr(sorted: Seq<Segment>, x: Segment) -> Seq<Segment>
    decreases sorted.len(),
{
    if sorted.len() == 0 {
        seq![x]
    } else if sorted.last().paddr <= x.paddr {
        sorted.push(x)
    } else {
        insert_by_paddr(sorted.drop_last(), x).push(sorted.last())
    }
}

/// The segments in order of physical address; equal addresses keep their file order.
pub open spec fn sort_by_paddr(s: Seq<Segment>) -> Seq<Segment>
    decreases s.len(),
{
    if s.len() == 0 {
        Seq::empty()
    } else {
        insert_by_paddr(sort_by_paddr(s.drop_last()), s.last())
    }
}

/// A segment goes into the image when it is loadable, readable, not empty, and lies after
/// the ELF header.
pub open spec fn is_image_segment(s: Segment, header_size: u16) -> bool {
    s.p_type == PT_LOAD && s.filesz > 0 && s.offset >= header_size && s.readable
}

/// The segments that go into the image, in order.
pub open spec fn image_segments(segs: Seq<Segment>, header_size: u16) -> Seq<Segment> {
    segs.filter(|s: Segment| is_image_segment(s, header_size))
}

/// The image of the segments in order: each one's bytes from the file, with zeros filling
/// the gap from where the previous one ended.
pub open spec fn image_of(bytes: Seq<u8>, segs: Seq<Segment>) -> Result<Seq<u8>, ElfError>
    decreases segs.len(),
{
    if segs.len() == 0 {
        Ok(Seq::empty())
    } else {
        let s = segs.last();
        let prev = segs.drop_last();
        match image_of(bytes, prev) {
            Err(e) => Err(e),
            Ok(d) => {
                let gap: int = if prev.len() == 0 {
                    0
                } else {
                    s.paddr - (prev.last().paddr + prev.last().filesz)
                };
                if s.offset + s.filesz > bytes.len() {
                    Err(ElfError::SegmentOutOfFile)
                } else if gap < 0 {
                    Err(ElfError::SegmentsOverlap)
                } else if d.len() + gap + s.filesz > FIRMWARE_SIZE {
                    Err(ElfError::ImageTooLarge)
                } else {
                    Ok(d + Seq::new(gap as nat, |i: int| 0u8) + bytes.subrange(
                        s.offset as int,
                        s.offset + s.filesz,
                    ))
                }
            },
        }
    }
}

/// The flat image of an ELF file.
pub open spec fn spec_elf_to_bin(bytes: Seq<u8>) -> Result<Seq<u8>, ElfError> {
    match elf_layout_of(bytes) {
        None => Err(ElfError::Parse),
        Some((h, segs)) => image_of(bytes, image_segments(sort_by_paddr(segs), h)),
    }
}

/// An error in the image of some segments is the error of the image of any longer run.
proof fn lemma_image_error_stays(bytes: Seq<u8>, a: Seq<Segment>, b: Seq<Segment>)
    requires
        image_of(bytes, a) is Err,
    ensures
        image_of(bytes, a + b) == image_of(bytes, a),
    decreases b.len(),
{
    if b.len() == 0 {
        assert(a + b == a);
    } else {
        lemma_image_error_stays(bytes, a, b.drop_last());
        assert((a + b).drop_last() == a + b.drop_last());
    }
}

proof fn lemma_prefix_error(bytes: Seq<u8>, sorted: Seq<Segment>, k: int, h: u16)
    requires
        0 <= k < sorted.len(),
        image_of(bytes, image_segments(sorted.take(k + 1), h)) is Err,
    ensures
        image_of(bytes, image_segments(sorted, h)) == image_of(
            bytes,
            image_segments(sorted.take(k + 1), h),
        ),
{
    let p = |s: Segment| is_image_segment(s, h);
    assert(sorted == sorted.take(k + 1) + sorted.skip(k + 1));
    Seq::filter_distributes_over_add(sorted.take(k + 1), sorted.skip(k + 1), p);
    lemma_image_error_stays(bytes, image_segments(sorted.take(k + 1), h), image_segments(sorted.skip(k + 1), h));
}

fn insert_sorted(sorted: &mut Vec<Segment>, x: Segment)
    ensures
        final(sorted)@ == insert_by_paddr(old(sorted)@, x),
    decreases old(sorted)@.len(),
{
    if sorted.len() == 0 {
        sorted.push(x);
        return;
    }
    let last = sorted[sorted.len() - 1];
    if last.paddr <= x.paddr {
        sorted.push(x);
    } else {
        let ghost before = sorted@;
        sorted.pop();
        assert(sorted@ == before.drop_last());
        insert_sorted(sorted, x);
        sorted.push(last);
    }
}

/// Builds the flat firmware image from an ELF file: the loadable segments in order of
/// physical address, gaps between them filled with zeros.
pub fn elf_to_bin(bytes: &[u8]) -> (r: Result<Vec<u8>, ElfError>)
    ensures
        match r {
            Ok(v) => spec_elf_to_bin(bytes@) == Ok::<Seq<u8>, ElfError>(v@),
            Err(e) => spec_elf_to_bin(bytes@) == Err::<Seq<u8>, ElfError>(e),
        },
{
    let (header_size, segments) = match parse_elf(bytes) {
        None => return Err(ElfError::Parse),
        Some(layout) => layout,
    };
    let mut sorted: Vec<Segment> = Vec::new();
    let mut i: usize = 0;
    while i < segments.len()
        invariant
            i <= segments@.len(),
            sorted@ == sort_by_paddr(segments@.take(i as int)),
        decreases segments.len() - i,
    {
        assert(segments@.take(i + 1).drop_last() == segments@.take(i as int));
        insert_sorted(&mut sorted, segments[i]);
        i = i + 1;
    }
    assert(segments@.take(segments@.len() as int) == segments@);
    let mut data: Vec<u8> = Vec::new();
    let mut taken: Vec<Segment> = Vec::new();
    let mut last_end: u128 = 0;
    let mut k: usize = 0;
    while k < sorted.len()
        invariant
            k <= sorted@.len(),
            taken@ == image_segments(sorted@.take(k as int), header_size),
            sorted@ == sort_by_paddr(segments@),
            elf_layout_of(bytes@) == Some((header_size, segments@)),
            image_of(bytes@, taken@) == Ok::<Seq<u8>, ElfError>(data@),
            data@.len() <= FIRMWARE_SIZE,
            taken@.len() > 0 ==> last_end == taken@.last().paddr + taken@.last().filesz,
        decreases sorted.len() - k,
    {
        let s = sorted[k];
        proof {
            reveal(Seq::filter);
            assert(sorted@.take(k + 1).drop_last() == sorted@.take(k as int));
            assert(sorted@.take(k + 1).last() == s);
        }
        if s.p_type == PT_LOAD && s.filesz > 0 && s.offset >= header_size as u64 && s.readable {
            let ghost prev = taken@;
            let ghost next = prev.push(s);
            assert(next.drop_last() == prev);
            if s.filesz > bytes.len() as u64 || s.offset > bytes.len() as u64 - s.filesz {
                proof {
                    lemma_prefix_error(bytes@, sorted@, k as int, header_size);
                }
                return Err(ElfError::SegmentOutOfFile);
            }
            let gap: u128 = if taken.len() == 0 {
                0
            } else {
                if (s.paddr as u128) < last_end {
                    proof {
                        lemma_prefix_error(bytes@, sorted@, k as int, header_size);
                    }
                    return Err(ElfError::SegmentsOverlap);
                }
                s.paddr as u128 - last_end
            };
            if gap + s.filesz as u128 > (FIRMWARE_SIZE - data.len()) as u128 {
                proof {
                    lemma_prefix_error(bytes@, sorted@, k as int, header_size);
                }
                return Err(ElfError::ImageTooLarge);
            }
            let gap = gap as usize;
            let mut j: usize = 0;
            let ghost start = data@;
            while j < gap
                invariant
                    j <= gap,
                    data@ == start + Seq::new(j as nat, |i: int| 0u8),
                decreases gap - j,
            {
                data.push(0);
                assert(Seq::new((j + 1) as nat, |i: int| 0u8) == Seq::new(j as nat, |i: int| 0u8).push(0u8));
                j = j + 1;
            }
            let from = s.offset as usize;
            let to = from + s.filesz as usize;
            let ghost padded = data@;
            let mut j: usize = from;
            while j < to
                invariant
                    from <= j <= to,
                    to <= bytes@.len(),
                    data@ == padded + bytes@.subrange(from as int, j as int),
                decreases to - j,
            {
                data.push(bytes[j]);
                assert(bytes@.subrange(from as int, j + 1) == bytes@.subrange(from as int, j as int).push(bytes@[j as int]));
                j = j + 1;
            }
            taken.push(s);
            last_end = s.paddr as u128 + s.filesz as u128;
        }
        k = k + 1;
    }
    assert(sorted@.take(sorted@.len() as int) == sorted@);
    Ok(data)
}
/// Page `i` of an image: its bytes, padded with zeros to a whole page.
pub open spec fn page_of(fw: Seq<u8>, i: int) -> Seq<u8> {
    Seq::new(
        FLASH_PAGE_SIZE as nat,
        |j: int|
            if i * FLASH_PAGE_SIZE + j < fw.len() {
                fw[i * FLASH_PAGE_SIZE + j]
            } else {
                0u8
            },
    )
}

/// Splits an image into whole pages, the last one padded with zeros.
pub fn bin_pages(fw: &[u8]) -> (r: Vec<Vec<u8>>)
    ensures
        r@.len() == (fw@.len() + FLASH_PAGE_SIZE - 1) / FLASH_PAGE_SIZE as int,
        forall|i: int| 0 <= i < r@.len() ==> (#[trigger] r@[i])@ == page_of(fw@, i),
{
    let mut pages: Vec<Vec<u8>> = Vec::new();
    let len = fw.len();
    let mut start: usize = 0;
    while start < len
        invariant
            len == fw@.len(),
            start <= len,
            pages@.len() * FLASH_PAGE_SIZE <= len ==> start == pages@.len() * FLASH_PAGE_SIZE,
            pages@.len() * FLASH_PAGE_SIZE > len ==> start == len,
            pages@.len() == 0 || (pages@.len() - 1) * FLASH_PAGE_SIZE < len,
            forall|i: int| 0 <= i < pages@.len() ==> (#[trigger] pages@[i])@ == page_of(fw@, i),
        decreases len - start,
    {
        let mut page: Vec<u8> = Vec::new();
        let mut j: usize = 0;
        while j < FLASH_PAGE_SIZE
            invariant
                len == fw@.len(),
                start == pages@.len() * FLASH_PAGE_SIZE,
                start < len,
                j <= FLASH_PAGE_SIZE,
                page@.len() == j,
                forall|x: int| 0 <= x < j ==> page@[x] == page_of(fw@, pages@.len() as int)[x],
            decreases FLASH_PAGE_SIZE - j,
        {
            let b = if j < len - start {
                fw[start + j]
            } else {
                0
            };
            page.push(b);
            j = j + 1;
        }
        assert(page@ == page_of(fw@, pages@.len() as int));
        pages.push(page);
        if len - start <= FLASH_PAGE_SIZE {
            start = len;
        } else {
            start = start + FLASH_PAGE_SIZE;
        }
    }
    assert(pages@.len() * FLASH_PAGE_SIZE >= len);
    pages
}

/// Why the flashing tool refuses to write.
#[derive(Clone, Copy, Debug, PartialEq, Eq, Structural)]
pub enum FlashError {
    /// The firmware image is not smaller than its region.
    FirmwareTooLarge,
    /// The configuration blob is not smaller than its region.
    ConfigTooLarge,
}

/// Checks that the firmware image and the configuration blob each fit their region.
pub fn check_flash_sizes(firmware_len: usize, config_len: usize) -> (r: Result<(), FlashError>)
    ensures
        firmware_len >= FIRMWARE_SIZE ==> r == Err::<(), FlashError>(FlashError::FirmwareTooLarge),
        firmware_len < FIRMWARE_SIZE && config_len >= CONFIG_SIZE ==> r == Err::<(), FlashError>(
            FlashError::ConfigTooLarge,
        ),
        firmware_len < FIRMWARE_SIZE && config_len < CONFIG_SIZE ==> r == Ok::<(), FlashError>(()),
{
    if firmware_len >= FIRMWARE_SIZE {
        Err(FlashError::FirmwareTooLarge)
    } else if config_len >= CONFIG_SIZE {
        Err(FlashError::ConfigTooLarge)
    } else {
        Ok(())
    }
}

/// The address that page `i` of a region at `offset` is written to, and whether a sector
/// starts there and has to be erased first.
pub fn page_address(offset: u32, i: u32) -> (r: (u32, bool))
    requires
        offset + i * FLASH_PAGE_SIZE + FLASH_START <= u32::MAX,
    ensures
        r.0 == offset + i * FLASH_PAGE_SIZE + FLASH_START,
        r.1 == (r.0 % FLASH_SECTOR_SIZE == 0),
{
    let addr = offset + i * FLASH_PAGE_SIZE as u32 + FLASH_START;
    (addr, addr % FLASH_SECTOR_SIZE == 0)
}

} // verus!
