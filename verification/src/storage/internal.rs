use vstd::prelude::*;

verus! {

pub const SETTINGS_START: u32 = 0x0801_e000;
/// Size of the settings area (six 1 KiB pages).
pub const SETTINGS_SIZE: u32 = 6144;
pub const PAGE_SIZE: usize = 1024;

/// Why a flash access was refused.
#[derive(Copy, Clone, PartialEq, Eq, Structural, Debug)]
pub enum FlashErrorKind {
    /// Offset or length not a multiple of the access size.
    NotAligned,
    /// The range does not lie within the flash.
    OutOfBounds,
    /// The hardware reported a failure.
    Other,
}

/// The bounds and alignment check of a flash access: the range must lie in
/// `capacity` bytes, and offset and length be multiples of `align`.
pub open spec fn spec_check_slice(capacity: usize, align: usize, offset: u32, length: usize) -> Result<(), FlashErrorKind> {
    if length > capacity || offset > capacity - length {
        Err(FlashErrorKind::OutOfBounds)
    } else if (offset as int) % (align as int) != 0 || length % align != 0 {
        Err(FlashErrorKind::NotAligned)
    } else {
        Ok(())
    }
}

fn check_slice(capacity: usize, align: usize, offset: u32, length: usize) -> (r: Result<(), FlashErrorKind>)
    requires
        align > 0,
    ensures
        r == spec_check_slice(capacity, align, offset, length),
{
    let offset = offset as usize;
    if length > capacity || offset > capacity - length {
        return Err(FlashErrorKind::OutOfBounds);
    }
    if offset % align != 0 || length % align != 0 {
        return Err(FlashErrorKind::NotAligned);
    }
    Ok(())
}

/// Bounds check of a read (byte-granular) from the settings area.
pub fn check_read(offset: u32, length: usize) -> (r: Result<(), FlashErrorKind>)
    ensures
        r == spec_check_slice(SETTINGS_SIZE as usize, 1, offset, length),
        (r is Ok) == (offset + length <= SETTINGS_SIZE),
{
    check_slice(SETTINGS_SIZE as usize, 1, offset, length)
}

/// Bounds check of a write (byte-granular) to the settings area.
pub fn check_write(offset: u32, length: usize) -> (r: Result<(), FlashErrorKind>)
    ensures
        r == spec_check_slice(SETTINGS_SIZE as usize, 1, offset, length),
        (r is Ok) == (offset + length <= SETTINGS_SIZE),
{
    check_slice(SETTINGS_SIZE as usize, 1, offset, length)
}

/// One page to erase and program with new contents.
pub struct PageProgram {
    /// Offset of the page within the settings area.
    pub page_base: u32,
    pub contents: Vec<u8>,
}

/// The settings area after pages are erased and programmed in order.
pub open spec fn programmed(image: Seq<u8>, programs: Seq<PageProgram>) -> Seq<u8>
    decreases programs.len(),
{
    if programs.len() == 0 {
        image
    } else {
        let prev = programmed(image, programs.drop_last());
        let p = programs.last();
        Seq::new(
            prev.len(),
            |i: int| if p.page_base <= i < p.page_base + PAGE_SIZE { p.contents@[i - p.page_base] } else { prev[i] },
        )
    }
}

/// The settings area with `data` written at `offset`.
pub open spec fn written(image: Seq<u8>, offset: int, data: Seq<u8>) -> Seq<u8> {
    Seq::new(image.len(), |i: int| if offset <= i < offset + data.len() { data[i - offset] } else { image[i] })
}

/// The internal flash that holds the settings, seen through the memory
/// image of its settings area.
pub struct Flash {
    page_buf: [u8; 1024],
}

impl Flash {
    /// The one-page scratch buffer used while a page is reprogrammed.
    pub closed spec fn page_buffer(&self) -> Seq<u8> {
        self.page_buf@
    }

    /// A flash handle with its page buffer erased (all 0xff).
    pub fn new() -> (r: Self)
        ensures
            r.page_buffer() == Seq::new(1024, |i: int| 0xffu8),
    {
        let r = Flash { page_buf: [0xff; 1024] };
        assert(r.page_buf@ =~= Seq::new(1024, |i: int| 0xffu8));
        r
    }

    pub fn settings_size(&self) -> (r: u32)
        ensures
            r == SETTINGS_SIZE,
    {
        SETTINGS_SIZE
    }

    /// Fills `data` from the settings area at `offset`; a read out of range
    /// gives all 0xff.
    pub fn read_settings(&mut self, offset: u32, data: &mut [u8], image: &[u8])
        requires
            image@.len() == SETTINGS_SIZE,
        ensures
            final(data)@.len() == old(data)@.len(),
            old(data)@.len() > 0 && offset + old(data)@.len() <= SETTINGS_SIZE ==> final(data)@ == image@.subrange(
                offset as int,
                offset + old(data)@.len(),
            ),
            old(data)@.len() > 0 && offset + old(data)@.len() > SETTINGS_SIZE ==> final(data)@ == Seq::new(
                old(data)@.len(),
                |i: int| 0xffu8,
            ),
            old(data)@.len() == 0 ==> final(data)@ == old(data)@,
    {
        let len = data.len();
        if len == 0 {
            return;
        }
        match check_read(offset, len) {
            Ok(()) => {
                let start = offset as usize;
                let mut i: usize = 0;
                while i < len
                    invariant
                        len == data@.len(),
                        image@.len() == SETTINGS_SIZE,
                        start + len <= image@.len(),
                        start == offset,
                        i <= len,
                        forall|k: int| 0 <= k < i ==> data@[k] == image@[start + k],
                    decreases len - i,
                {
                    data[i] = image[start + i];
                    i = i + 1;
                }
                assert(data@ =~= image@.subrange(offset as int, offset + len));
            },
            Err(_) => {
                let mut i: usize = 0;
                while i < len
                    invariant
                        len == data@.len(),
                        i <= len,
                        forall|k: int| 0 <= k < i ==> data@[k] == 0xffu8,
                    decreases len - i,
                {
                    data[i] = 0xff;
                    i = i + 1;
                }
                assert(data@ =~= Seq::new(len as nat, |i: int| 0xffu8));
            },
        }
    }

    /// Plans writing `data` at `offset`: page by page, each page whose bytes
    /// differ is read, patched and listed for erasing and programming.
    /// Fails, planning nothing, when the range is out of the settings area.
    pub fn write_settings(&mut self, offset: u32, data: &[u8], image: &[u8]) -> (r: Result<Vec<PageProgram>, FlashErrorKind>)
        requires
            image@.len() == SETTINGS_SIZE,
        ensures
            (r is Ok) == (offset + data@.len() <= SETTINGS_SIZE),
            r matches Err(e) ==> e == FlashErrorKind::OutOfBounds,
            r matches Ok(programs) ==> {
                &&& programmed(image@, programs@) == written(image@, offset as int, data@)
                &&& forall|k: int| 0 <= k < programs@.len() ==> (#[trigger] programs@[k]).page_base as int % 1024 == 0
                    && programs@[k].contents@.len() == PAGE_SIZE
                    && programs@[k].page_base + PAGE_SIZE <= SETTINGS_SIZE
            },
    {
        match check_write(offset, data.len()) {
            Err(e) => Err(e),
            Ok(()) => Ok(self.write_inner(offset, data, image)),
        }
    }

    fn write_inner(&mut self, offset: u32, data: &[u8], image: &[u8]) -> (r: Vec<PageProgram>)
        requires
            image@.len() == SETTINGS_SIZE,
            offset + data@.len() <= SETTINGS_SIZE,
        ensures
            programmed(image@, r@) == written(image@, offset as int, data@),
            forall|k: int| 0 <= k < r@.len() ==> (#[trigger] r@[k]).page_base as int % 1024 == 0
                && r@[k].contents@.len() == PAGE_SIZE
                && r@[k].page_base + PAGE_SIZE <= SETTINGS_SIZE,
    {
        let mut programs: Vec<PageProgram> = Vec::new();
        let mut rel_off: u32 = offset;
        let mut pos: usize = 0;
        while pos < data.len()
            invariant
                image@.len() == SETTINGS_SIZE,
                offset + data@.len() <= SETTINGS_SIZE,
                pos <= data@.len(),
                rel_off == offset + pos,
                programmed(image@, programs@) == written(image@, offset as int, data@.take(pos as int)),
                forall|k: int| 0 <= k < programs@.len() ==> (#[trigger] programs@[k]).page_base as int % 1024 == 0
                    && programs@[k].contents@.len() == PAGE_SIZE
                    && programs@[k].page_base + PAGE_SIZE <= SETTINGS_SIZE,
            decreases data@.len() - pos,
        {
            let in_page_u32: u32 = rel_off % 1024;
            let page_base: u32 = rel_off - in_page_u32;
            let in_page: usize = in_page_u32 as usize;
            let remaining = data.len() - pos;
            let room = PAGE_SIZE - in_page;
            let chunk = if remaining < room { remaining } else { room };
            assert(page_base % 1024 == 0 && page_base + 1024 <= SETTINGS_SIZE) by (nonlinear_arith)
                requires
                    rel_off < 6144,
                    page_base == rel_off - rel_off % 1024,
            ;
            let ghost cur = programmed(image@, programs@);
            let mut i: usize = 0;
            let mut differs = false;
            while i < PAGE_SIZE
                invariant
                    i <= PAGE_SIZE,
                    page_base + PAGE_SIZE <= SETTINGS_SIZE,
                    image@.len() == SETTINGS_SIZE,
                    in_page + chunk <= PAGE_SIZE,
                    pos + chunk <= data@.len(),
                    cur == written(image@, offset as int, data@.take(pos as int)),
                    rel_off == offset + pos,
                    page_base + in_page == rel_off,
                    forall|k: int| 0 <= k < i ==> self.page_buf@[k] == (if in_page <= k < in_page + chunk {
                        data@[pos + k - in_page]
                    } else {
                        cur[page_base + k]
                    }),
                    differs == exists|k: int| 0 <= k < i && in_page <= k < in_page + chunk && #[trigger] cur[page_base + k] != data@[pos + k - in_page],
                decreases PAGE_SIZE - i,
            {
                let current = if (page_base as usize) + i >= (offset as usize) && (page_base as usize) + i < (offset as usize) + pos {
                    data[(page_base as usize) + i - (offset as usize)]
                } else {
                    image[(page_base as usize) + i]
                };
                assert(current == cur[page_base + i]);
                if i >= in_page && i < in_page + chunk {
                    let new_byte = data[pos + i - in_page];
                    if current != new_byte {
                        differs = true;
                    }
                    self.page_buf[i] = new_byte;
                } else {
                    self.page_buf[i] = current;
                }
                i = i + 1;
            }
            let ghost next = written(image@, offset as int, data@.take(pos + chunk));
            if differs {
                let mut contents: Vec<u8> = Vec::new();
                let mut j: usize = 0;
                while j < PAGE_SIZE
                    invariant
                        j <= PAGE_SIZE,
                        contents@ == self.page_buf@.take(j as int),
                    decreases PAGE_SIZE - j,
                {
                    contents.push(self.page_buf[j]);
                    j = j + 1;
                    assert(contents@ =~= self.page_buf@.take(j as int));
                }
                let ghost before = programs@;
                programs.push(PageProgram { page_base, contents });
                proof {
                    assert(programs@.drop_last() =~= before);
                    assert(programmed(image@, programs@) =~= next);
                }
            } else {
                proof {
                    assert forall|x: int| 0 <= x < cur.len() implies cur[x] == next[x] by {
                        if offset + pos <= x < offset + pos + chunk {
                            let k = x - page_base;
                            assert(in_page <= k < in_page + chunk);
                            assert(!(cur[page_base + k] != data@[pos + k - in_page]));
                        }
                    }
                    assert(cur =~= next);
                }
            }
            pos = pos + chunk;
            rel_off = rel_off + chunk as u32;
        }
        assert(data@.take(data@.len() as int) =~= data@);
        programs
    }
}

/// Bounds and alignment check of an erase from `from` to `to` in a flash of
/// `capacity` bytes erased in blocks of `erase_size`.
pub open spec fn spec_check_erase(capacity: usize, erase_size: usize, from: u32, to: u32) -> Result<(), FlashErrorKind> {
    if from > to || to > capacity {
        Err(FlashErrorKind::OutOfBounds)
    } else if (from as int) % (erase_size as int) != 0 || (to as int) % (erase_size as int) != 0 {
        Err(FlashErrorKind::NotAligned)
    } else {
        Ok(())
    }
}

/// Bounds and alignment check of an erase of the settings area.
pub fn check_erase(from: u32, to: u32) -> (r: Result<(), FlashErrorKind>)
    ensures
        r == spec_check_erase(SETTINGS_SIZE as usize, PAGE_SIZE, from, to),
{
    let (f, t) = (from as usize, to as usize);
    if f > t || t > SETTINGS_SIZE as usize {
        return Err(FlashErrorKind::OutOfBounds);
    }
    if f % PAGE_SIZE != 0 || t % PAGE_SIZE != 0 {
        return Err(FlashErrorKind::NotAligned);
    }
    Ok(())
}

/// Plans an erase: the absolute address of each page from `from` to `to`,
/// in order; refused as `check_erase` says.
pub fn erase_plan(from: u32, to: u32) -> (r: Result<Vec<u32>, FlashErrorKind>)
    ensures
        r is Err <==> spec_check_erase(SETTINGS_SIZE as usize, PAGE_SIZE, from, to) is Err,
        r matches Err(e) ==> spec_check_erase(SETTINGS_SIZE as usize, PAGE_SIZE, from, to) == Err::<(), FlashErrorKind>(e),
        r matches Ok(pages) ==> pages@ == Seq::new(((to - from) / 1024) as nat, |k: int| (SETTINGS_START + from + 1024 * k) as u32),
{
    match check_erase(from, to) {
        Err(e) => Err(e),
        Ok(()) => {
            let mut pages: Vec<u32> = Vec::new();
            let mut offset: u32 = from;
            let n: u32 = (to - from) / 1024;
            let mut k: u32 = 0;
            while k < n
                invariant
                    from <= to <= SETTINGS_SIZE,
                    from % 1024 == 0,
                    to % 1024 == 0,
                    n == (to - from) / 1024,
                    k <= n,
                    offset == from + 1024 * k,
                    pages@ == Seq::new(k as nat, |j: int| (SETTINGS_START + from + 1024 * j) as u32),
                decreases n - k,
            {
                pages.push(SETTINGS_START + offset);
                offset = offset + 1024;
                k = k + 1;
                assert(pages@ =~= Seq::new(k as nat, |j: int| (SETTINGS_START + from + 1024 * j) as u32));
            }
            Ok(pages)
        },
    }
}

/// Halfword `i` of a page, little-endian.
pub open spec fn page_halfword(page: Seq<u8>, i: int) -> u16 {
    (page[2 * i] + 256 * page[2 * i + 1]) as u16
}

/// The halfword writes that program a page from erased flash: each
/// little-endian halfword of the first `n` that is not 0xffff (erased), with
/// its byte offset.
pub open spec fn halfword_writes(page: Seq<u8>, n: int) -> Seq<(u32, u16)>
    decreases n,
{
    if n <= 0 {
        Seq::empty()
    } else {
        let prev = halfword_writes(page, n - 1);
        let i = n - 1;
        let hw = page_halfword(page, i);
        if hw != 0xffff { prev.push(((2 * i) as u32, hw)) } else { prev }
    }
}

/// Plans programming an erased page with its new contents.
pub fn program_plan(page: &[u8]) -> (r: Vec<(u32, u16)>)
    requires
        page@.len() == PAGE_SIZE,
    ensures
        r@ == halfword_writes(page@, 512),
{
    let mut writes: Vec<(u32, u16)> = Vec::new();
    let mut i: usize = 0;
    while i < 512
        invariant
            page@.len() == PAGE_SIZE,
            i <= 512,
            writes@ == halfword_writes(page@, i as int),
        decreases 512 - i,
    {
        let halfword: u16 = page[2 * i] as u16 + (page[2 * i + 1] as u16) * 256;
        if halfword != 0xffff {
            writes.push(((2 * i) as u32, halfword));
        }
        i = i + 1;
    }
    writes
}

/// Programming a page from erased flash writes every halfword that is not
/// already in the erased state, at its own offset.
pub proof fn lemma_program_plan_complete(page: Seq<u8>, n: int)
    requires
        0 <= n <= 512,
        page.len() == PAGE_SIZE,
    ensures
        forall|i: int| 0 <= i < n && page_halfword(page, i) != 0xffff ==> #[trigger] halfword_writes(page, n).contains(
            ((2 * i) as u32, page_halfword(page, i)),
        ),
    decreases n,
{
    if n > 0 {
        lemma_program_plan_complete(page, n - 1);
        let prev = halfword_writes(page, n - 1);
        let cur = halfword_writes(page, n);
        assert forall|i: int| 0 <= i < n && page_halfword(page, i) != 0xffff implies #[trigger] halfword_writes(page, n).contains(
            ((2 * i) as u32, page_halfword(page, i)),
        ) by {
            if i < n - 1 {
                assert(prev.contains(((2 * i) as u32, page_halfword(page, i))));
                let j = choose|j: int| 0 <= j < prev.len() && prev[j] == ((2 * i) as u32, page_halfword(page, i));
                assert(cur[j] == prev[j]);
            } else {
                assert(cur[cur.len() - 1] == ((2 * i) as u32, page_halfword(page, i)));
            }
        }
    }
}

/// Writing data and reading the same range back gives the data; bytes
/// outside the range keep their contents.
pub proof fn lemma_read_back_written(image: Seq<u8>, offset: int, data: Seq<u8>)
    requires
        0 <= offset,
        offset + data.len() <= image.len(),
    ensures
        written(image, offset, data).subrange(offset, offset + data.len()) == data,
        forall|i: int| 0 <= i < image.len() && !(offset <= i < offset + data.len()) ==> #[trigger] written(image, offset, data)[i] == image[i],
{
    assert(written(image, offset, data).subrange(offset, offset + data.len()) =~= data);
}

} // verus!
