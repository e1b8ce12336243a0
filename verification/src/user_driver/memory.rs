//! Host memory that is shared with a device.
use vstd::prelude::*;

verus! {

/// Byte length of a page.
pub const PAGE_SIZE: usize = 4096;

/// Byte length of a page.
pub const PAGE_SIZE32: u32 = 4096;

/// Byte length of a page.
pub const PAGE_SIZE64: u64 = 4096;

/// A mapped buffer that can be accessed by the host or the device.
pub trait MappedDmaTarget {
    /// The buffer is mapped, and the device can reach all of it.
    spec fn wf(&self) -> bool;

    /// The virtual address of the mapped memory.
    spec fn spec_base(&self) -> usize;

    /// The length of the buffer in bytes.
    spec fn spec_len(&self) -> usize;

    /// The page numbers by which the device knows the memory.
    spec fn spec_pfns(&self) -> Seq<u64>;

    /// What is applied to the page numbers on confidential platforms.
    spec fn spec_pfn_bias(&self) -> u64;

    /// The virtual address of the mapped memory.
    fn base(&self) -> (r: usize)
        requires
            self.wf(),
        ensures
            r == self.spec_base(),
    ;

    /// The length of the buffer in bytes.
    fn len(&self) -> (r: usize)
        requires
            self.wf(),
        ensures
            r == self.spec_len(),
    ;

    /// The page numbers by which the device knows the memory.
    fn pfns(&self) -> (r: Vec<u64>)
        requires
            self.wf(),
        ensures
            r@ == self.spec_pfns(),
    ;

    /// What is applied to the page numbers on confidential platforms.
    fn pfn_bias(&self) -> (r: u64)
        requires
            self.wf(),
        ensures
            r == self.spec_pfn_bias(),
    ;
}

/// A copy of `n` page numbers from `start`.
fn copy_pfns(pfns: &Vec<u64>, start: usize, n: usize) -> (r: Vec<u64>)
    requires
        start + n <= pfns@.len(),
    ensures
        r@ == pfns@.subrange(start as int, start + n),
{
    let mut out: Vec<u64> = Vec::new();
    let mut i: usize = 0;
    let len: usize = pfns.len();
    while i < n
        invariant
            i <= n,
            start + n <= len,
            len == pfns@.len(),
            out@ == pfns@.subrange(start as int, start + i),
        decreases n - i,
    {
        out.push(pfns[start + i]);
        i = i + 1;
        assert(out@ =~= pfns@.subrange(start as int, start + i));
    }
    out
}

/// Mapped memory, given by its address and its pages.
#[derive(Debug)]
pub struct MappedPages {
    /// The virtual address.
    pub base: usize,
    /// The length in bytes.
    pub len: usize,
    /// The page numbers by which the device knows the memory.
    pub pfns: Vec<u64>,
    /// What is applied to the page numbers on confidential platforms.
    pub pfn_bias: u64,
}

impl MappedDmaTarget for MappedPages {
    open spec fn wf(&self) -> bool {
        true
    }

    open spec fn spec_base(&self) -> usize {
        self.base
    }

    open spec fn spec_len(&self) -> usize {
        self.len
    }

    open spec fn spec_pfns(&self) -> Seq<u64> {
        self.pfns@
    }

    open spec fn spec_pfn_bias(&self) -> u64 {
        self.pfn_bias
    }

    fn base(&self) -> (r: usize) {
        self.base
    }

    fn len(&self) -> (r: usize) {
        self.len
    }

    fn pfns(&self) -> (r: Vec<u64>) {
        let all = copy_pfns(&self.pfns, 0, self.pfns.len());
        assert(all@ =~= self.pfns@);
        all
    }

    fn pfn_bias(&self) -> (r: u64) {
        self.pfn_bias
    }
}

/// A part of mapped memory.
#[derive(Debug)]
pub struct RestrictedView {
    mem_base: usize,
    mem_len: usize,
    mem_pfns: Vec<u64>,
    mem_pfn_bias: u64,
    len: usize,
    offset: usize,
}

impl RestrictedView {
    /// Where the memory starts.
    pub closed spec fn mem_base(&self) -> usize {
        self.mem_base
    }

    /// The length of the memory.
    pub closed spec fn mem_len(&self) -> usize {
        self.mem_len
    }

    /// The page numbers of the memory.
    pub closed spec fn mem_pfns(&self) -> Seq<u64> {
        self.mem_pfns@
    }

    /// The bias of the memory.
    pub closed spec fn mem_pfn_bias(&self) -> u64 {
        self.mem_pfn_bias
    }

    /// Where the part starts in the memory.
    pub closed spec fn offset(&self) -> usize {
        self.offset
    }

    /// The length of the part.
    pub closed spec fn view_len(&self) -> usize {
        self.len
    }

    /// The first page number of the part.
    pub open spec fn first_page(&self) -> int {
        self.offset() as int / 4096
    }

    /// The number of pages that the part touches.
    pub open spec fn page_count(&self) -> int {
        ((self.mem_base() + self.offset()) % 4096 + self.view_len() + 0xfff) / 4096
    }

    /// The part from `offset` of the memory `mem`.
    pub fn new<T: MappedDmaTarget>(mem: &T, offset: usize, len: usize) -> (v: RestrictedView)
        requires
            mem.wf(),
            offset + len <= mem.spec_len(),
        ensures
            v.mem_base() == mem.spec_base(),
            v.mem_len() == mem.spec_len(),
            v.mem_pfns() == mem.spec_pfns(),
            v.mem_pfn_bias() == mem.spec_pfn_bias(),
            v.offset() == offset,
            v.view_len() == len,
    {
        RestrictedView {
            mem_base: mem.base(),
            mem_len: mem.len(),
            mem_pfns: mem.pfns(),
            mem_pfn_bias: mem.pfn_bias(),
            len,
            offset,
        }
    }

    /// The part from `offset` of this part.
    pub fn view(&self, offset: usize, len: usize) -> (v: RestrictedView)
        requires
            self.offset() + self.view_len() <= self.mem_len(),
            offset + len <= self.view_len(),
        ensures
            v.mem_base() == self.mem_base(),
            v.mem_len() == self.mem_len(),
            v.mem_pfns() == self.mem_pfns(),
            v.mem_pfn_bias() == self.mem_pfn_bias(),
            v.offset() == self.offset() + offset,
            v.view_len() == len,
    {
        let mem_pfns = copy_pfns(&self.mem_pfns, 0, self.mem_pfns.len());
        assert(mem_pfns@ =~= self.mem_pfns@);
        RestrictedView {
            mem_base: self.mem_base,
            mem_len: self.mem_len,
            mem_pfns,
            mem_pfn_bias: self.mem_pfn_bias,
            len,
            offset: self.offset + offset,
        }
    }
}

impl MappedDmaTarget for RestrictedView {
    open spec fn wf(&self) -> bool {
        &&& self.mem_base() + self.mem_len() + 0x2000 <= usize::MAX
        &&& self.offset() + self.view_len() <= self.mem_len()
        &&& self.first_page() + self.page_count() <= self.mem_pfns().len()
    }

    open spec fn spec_base(&self) -> usize {
        (self.mem_base() + self.offset()) as usize
    }

    open spec fn spec_len(&self) -> usize {
        self.view_len()
    }

    open spec fn spec_pfns(&self) -> Seq<u64> {
        self.mem_pfns().subrange(self.first_page(), self.first_page() + self.page_count())
    }

    open spec fn spec_pfn_bias(&self) -> u64 {
        self.mem_pfn_bias()
    }

    fn base(&self) -> (r: usize) {
        self.mem_base + self.offset
    }

    fn len(&self) -> (r: usize) {
        self.len
    }

    fn pfns(&self) -> (r: Vec<u64>) {
        let start: usize = self.offset / PAGE_SIZE;
        let count: usize = ((self.mem_base + self.offset) % PAGE_SIZE + self.len + 0xfff)
            / PAGE_SIZE;
        copy_pfns(&self.mem_pfns, start, count)
    }

    fn pfn_bias(&self) -> (r: u64) {
        self.mem_pfn_bias
    }
}

/// A buffer for a device.
#[derive(Debug)]
pub struct MemoryBlock {
    base: usize,
    len: usize,
    mem: RestrictedView,
    whole: bool,
}

impl MemoryBlock {
    /// The part of the mapped memory that is the buffer.
    pub closed spec fn target(&self) -> RestrictedView {
        self.mem
    }

    /// Whether the buffer is all of the mapped memory.
    pub closed spec fn is_whole(&self) -> bool {
        self.whole
    }

    /// The address and the length are those of the part.
    pub closed spec fn wf(&self) -> bool {
        &&& self.base == self.mem.spec_base()
        &&& self.len == self.mem.spec_len()
        &&& self.mem.mem_base + self.mem.mem_len + 0x2000 <= usize::MAX
        &&& self.mem.offset + self.mem.len <= self.mem.mem_len
        &&& self.whole ==> self.mem.offset == 0 && self.mem.len == self.mem.mem_len
    }

    /// The page numbers of the buffer: all of them, or those that a part touches.
    pub open spec fn spec_pfns(&self) -> Seq<u64> {
        if self.is_whole() {
            self.target().mem_pfns()
        } else {
            self.target().spec_pfns()
        }
    }

    /// Whether the mapped memory has page numbers for all of the buffer.
    pub open spec fn pages_known(&self) -> bool {
        !self.is_whole() ==> self.target().first_page() + self.target().page_count()
            <= self.target().mem_pfns().len()
    }

    /// A buffer on all of `mem`.
    pub fn new<T: MappedDmaTarget>(mem: &T) -> (b: MemoryBlock)
        requires
            mem.wf(),
            mem.spec_base() + mem.spec_len() + 0x2000 <= usize::MAX,
        ensures
            b.wf(),
            b.is_whole(),
            b.target().offset() == 0,
            b.target().mem_base() == mem.spec_base(),
            b.target().mem_len() == mem.spec_len(),
            b.target().mem_pfns() == mem.spec_pfns(),
            b.target().spec_base() == mem.spec_base(),
            b.target().spec_len() == mem.spec_len(),
            b.target().spec_pfn_bias() == mem.spec_pfn_bias(),
            b.spec_pfns() == mem.spec_pfns(),
    {
        let len: usize = mem.len();
        let view = RestrictedView::new(mem, 0, len);
        MemoryBlock { base: mem.base(), len, mem: view, whole: true }
    }

    /// A buffer on a part of this one.
    pub fn subblock(&self, offset: usize, len: usize) -> (b: MemoryBlock)
        requires
            self.wf(),
            offset + len <= self.target().view_len(),
        ensures
            b.wf(),
            !b.is_whole(),
            b.target().offset() == self.target().offset() + offset,
            b.target().view_len() == len,
            b.target().mem_base() == self.target().mem_base(),
            b.target().mem_len() == self.target().mem_len(),
            b.target().mem_pfns() == self.target().mem_pfns(),
            b.target().mem_pfn_bias() == self.target().mem_pfn_bias(),
    {
        let view = self.mem.view(offset, len);
        MemoryBlock { base: view.mem_base + view.offset, len, mem: view, whole: false }
    }

    /// The base address of the buffer.
    pub fn base(&self) -> (r: usize)
        requires
            self.wf(),
        ensures
            r == self.target().spec_base(),
    {
        self.base
    }

    /// The length of the buffer in bytes.
    pub fn len(&self) -> (r: usize)
        requires
            self.wf(),
        ensures
            r == self.target().spec_len(),
    {
        self.len
    }

    /// The page numbers of the memory.
    pub fn pfns(&self) -> (r: Vec<u64>)
        requires
            self.wf(),
            self.pages_known(),
        ensures
            r@ == self.spec_pfns(),
    {
        if self.whole {
            let all = copy_pfns(&self.mem.mem_pfns, 0, self.mem.mem_pfns.len());
            assert(all@ =~= self.mem.mem_pfns@);
            all
        } else {
            self.mem.pfns()
        }
    }

    /// The bias of the page numbers.
    pub fn pfn_bias(&self) -> (r: u64)
        requires
            self.wf(),
        ensures
            r == self.target().spec_pfn_bias(),
    {
        self.mem.mem_pfn_bias
    }

    /// Whether the page numbers are contiguous.
    pub fn contiguous_pfns(&self) -> (b: bool)
        requires
            self.wf(),
            self.pages_known(),
        ensures
            b == forall|i: int|
                0 <= i < self.spec_pfns().len() - 1 ==> #[trigger] self.spec_pfns()[i]
                    + 1 == self.spec_pfns()[i + 1],
    {
        let pfns = self.pfns();
        let mut i: usize = 1;
        while i < pfns.len()
            invariant
                1 <= i,
                i <= pfns@.len() || pfns@.len() == 0,
                pfns@ == self.spec_pfns(),
                forall|k: int|
                    0 <= k < i - 1 ==> #[trigger] self.spec_pfns()[k] + 1
                        == self.spec_pfns()[k + 1],
            decreases pfns@.len() - i,
        {
            let curr: u64 = pfns[i - 1];
            let next: u64 = pfns[i];
            assert(self.spec_pfns()[i - 1] == curr);
            assert(self.spec_pfns()[(i - 1) + 1] == next);
            if curr == u64::MAX || curr + 1 != next {
                return false;
            }
            i = i + 1;
        }
        true
    }

    /// Where the buffer starts in the first of its pages.
    pub fn offset_in_page(&self) -> (r: u32)
        requires
            self.wf(),
        ensures
            r == self.target().spec_base() as int % 4096,
    {
        (self.base % PAGE_SIZE) as u32
    }

    /// Whether the buffer holds `len` bytes from `offset`, where `memory` is all
    /// that is mapped.
    pub open spec fn in_bounds(&self, memory: Seq<u8>, offset: int, len: int) -> bool {
        &&& self.wf()
        &&& memory.len() == self.target().mem_len()
        &&& offset + len <= self.target().view_len()
    }

    /// The `len` bytes from `offset` of the buffer.
    pub open spec fn bytes_at(&self, memory: Seq<u8>, offset: int, len: int) -> Seq<u8> {
        memory.subrange(self.target().offset() + offset, self.target().offset() + offset + len)
    }

    /// The memory with `data` at `offset` of the buffer.
    pub open spec fn with_bytes_at(&self, memory: Seq<u8>, offset: int, data: Seq<u8>) -> Seq<u8> {
        let start = self.target().offset() + offset;
        Seq::new(
            memory.len(),
            |i: int|
                if start <= i < start + data.len() {
                    data[i - start]
                } else {
                    memory[i]
                },
        )
    }

    /// Reads from the buffer into `data`.
    pub fn read_at(&self, memory: &Vec<u8>, offset: usize, data: &mut Vec<u8>)
        requires
            self.in_bounds(memory@, offset as int, old(data)@.len() as int),
        ensures
            final(data)@ == self.bytes_at(memory@, offset as int, old(data)@.len() as int),
    {
        let n: usize = data.len();
        let total: usize = memory.len();
        let start: usize = self.mem.offset + offset;
        let mut i: usize = 0;
        while i < n
            invariant
                i <= n,
                n == data@.len(),
                n == old(data)@.len(),
                start == self.target().offset() + offset,
                start + n <= total,
                total == memory@.len(),
                forall|k: int| 0 <= k < i ==> data@[k] == memory@[start + k],
            decreases n - i,
        {
            data.set(i, memory[start + i]);
            i = i + 1;
        }
        assert(data@ =~= self.bytes_at(memory@, offset as int, n as int));
    }

    /// Writes `data` into the buffer.
    pub fn write_at(&self, memory: &mut Vec<u8>, offset: usize, data: &[u8])
        requires
            self.in_bounds(old(memory)@, offset as int, data@.len() as int),
        ensures
            final(memory)@ == self.with_bytes_at(old(memory)@, offset as int, data@),
    {
        let n: usize = data.len();
        let total: usize = memory.len();
        let start: usize = self.mem.offset + offset;
        let mut i: usize = 0;
        assert(memory@ =~= self.with_bytes_at(old(memory)@, offset as int, data@.take(0)));
        while i < n
            invariant
                i <= n,
                n == data@.len(),
                start == self.target().offset() + offset,
                start + n <= total,
                total == memory@.len(),
                memory@ == self.with_bytes_at(old(memory)@, offset as int, data@.take(i as int)),
            decreases n - i,
        {
            memory.set(start + i, data[i]);
            i = i + 1;
            assert(memory@ =~= self.with_bytes_at(
                old(memory)@,
                offset as int,
                data@.take(i as int),
            ));
        }
        assert(data@.take(i as int) =~= data@);
    }

    /// Zeroes `len` bytes of the buffer.
    pub fn write_zeros(&self, memory: &mut Vec<u8>, offset: usize, len: usize)
        requires
            self.in_bounds(old(memory)@, offset as int, len as int),
        ensures
            final(memory)@ == self.with_bytes_at(
                old(memory)@,
                offset as int,
                crate::wire::zeros(len as nat),
            ),
    {
        let mut data: Vec<u8> = Vec::new();
        crate::wire::push_zeros(&mut data, len);
        assert(data@ =~= crate::wire::zeros(len as nat));
        self.write_at(memory, offset, data.as_slice());
    }

    /// Reading gives back what was written.
    pub proof fn read_after_write(&self, memory: Seq<u8>, offset: int, data: Seq<u8>)
        requires
            0 <= offset,
            self.in_bounds(memory, offset, data.len() as int),
        ensures
            self.bytes_at(self.with_bytes_at(memory, offset, data), offset, data.len() as int)
                == data,
    {
        self.lemma_within();
        assert(self.bytes_at(self.with_bytes_at(memory, offset, data), offset, data.len() as int)
            =~= data);
    }

    /// A write leaves bytes elsewhere alone, also those of another block on the
    /// same memory.
    pub proof fn write_is_local(
        &self,
        other: &MemoryBlock,
        memory: Seq<u8>,
        offset: int,
        data: Seq<u8>,
        at: int,
        len: int,
    )
        requires
            0 <= offset,
            0 <= at,
            0 <= len,
            self.in_bounds(memory, offset, data.len() as int),
            other.in_bounds(memory, at, len),
            other.target().offset() + at + len <= self.target().offset() + offset
                || self.target().offset() + offset + data.len() <= other.target().offset() + at,
        ensures
            other.bytes_at(self.with_bytes_at(memory, offset, data), at, len) == other.bytes_at(
                memory,
                at,
                len,
            ),
    {
        self.lemma_within();
        other.lemma_within();
        assert(other.bytes_at(self.with_bytes_at(memory, offset, data), at, len)
            =~= other.bytes_at(memory, at, len));
    }

    /// The buffer starts at its offset in the first of its pages, and the pages follow
    /// one another: each byte lies in the page that its distance from the start of the
    /// first page tells. Mapped memory starts with a page.
    pub proof fn pages_hold_the_bytes(&self, k: int)
        requires
            self.wf(),
            self.pages_known(),
            self.target().mem_base() % 4096 == 0,
            0 <= k < self.target().view_len(),
        ensures
            ({
                let page = (self.target().spec_base() % 4096 + k) / 4096;
                &&& self.spec_pfns()[page] == self.target().mem_pfns()[(self.target().offset() + k)
                    / 4096]
                &&& !self.is_whole() ==> 0 <= page < self.spec_pfns().len()
            }),
    {
        self.lemma_within();
        let base = self.target().mem_base() as int;
        let offset = self.target().offset() as int;
        assert(self.target().spec_base() == base + offset);
        assert((base + offset) % 4096 == offset % 4096);
        assert((offset % 4096 + k) / 4096 + offset / 4096 == (offset + k) / 4096);
    }

    /// The pages of a part are those that its bytes lie in, and no others: the first byte is in
    /// the first, and the last byte in the last.
    pub proof fn pages_are_those_touched(&self)
        requires
            self.wf(),
            self.target().view_len() > 0,
        ensures
            ({
                let start = self.target().spec_base() as int % 4096;
                let last = start + self.target().view_len() - 1;
                &&& 0 <= start < 4096
                &&& last / 4096 == self.target().page_count() - 1
                &&& self.target().first_page() * 4096 <= self.target().offset()
                    < (self.target().first_page() + 1) * 4096
            }),
    {
        self.lemma_within();
    }

    /// A part of a part starts at the sum of the offsets, in the same memory.
    pub proof fn parts_add_up(&self, part: &MemoryBlock, memory: Seq<u8>, offset: int, at: int, len: int)
        requires
            self.wf(),
            part.wf(),
            part.target().offset() == self.target().offset() + offset,
            part.target().mem_len() == self.target().mem_len(),
        ensures
            part.bytes_at(memory, at, len) == self.bytes_at(memory, offset + at, len),
    {
    }

    /// A buffer lies within the mapped memory, which leaves room behind it in the
    /// address space. A buffer on all of the memory is as long as the memory.
    pub proof fn lemma_within(&self)
        requires
            self.wf(),
        ensures
            self.target().offset() + self.target().view_len() <= self.target().mem_len(),
            self.target().mem_base() + self.target().mem_len() + 0x2000 <= usize::MAX,
            self.is_whole() ==> self.target().offset() == 0 && self.target().view_len()
                == self.target().mem_len(),
    {
    }
}

} // verus!
