//! Paged access to a block of cartridge memory (PRG ROM, PRG RAM, CHR ROM
//! or CHR RAM). A page is named either by its number or relative to the
//! first or last page of the block.
use vstd::prelude::*;

verus! {

/// The sizes of the pages that mappers switch.
#[derive(Clone, Copy, Debug, PartialEq, Eq, Structural)]
pub enum PageSize {
    OneKb,
    FourKb,
    EightKb,
    SixteenKb,
}

impl PageSize {
    /// The size of a page in bytes.
    pub open spec fn spec_bytes(self) -> nat {
        match self {
            PageSize::OneKb => 0x400,
            PageSize::FourKb => 0x1000,
            PageSize::EightKb => 0x2000,
            PageSize::SixteenKb => 0x4000,
        }
    }

    /// The size of a page in bytes.
    pub fn bytes(self) -> (r: usize)
        ensures
            r == self.spec_bytes(),
    {
        match self {
            PageSize::OneKb => 0x400,
            PageSize::FourKb => 0x1000,
            PageSize::EightKb => 0x2000,
            PageSize::SixteenKb => 0x4000,
        }
    }
}

/// A page of a block, named by its position.
#[derive(Clone, Copy, Debug, PartialEq, Eq, Structural)]
pub enum Page {
    /// The first page.
    First(PageSize),
    /// The last page.
    Last(PageSize),
    /// The page with the given number, counted from zero.
    Number(usize, PageSize),
    /// The page the given number of pages before the last one.
    FromEnd(usize, PageSize),
}

impl Page {
    pub open spec fn size(self) -> PageSize {
        match self {
            Page::First(s) => s,
            Page::Last(s) => s,
            Page::Number(_, s) => s,
            Page::FromEnd(_, s) => s,
        }
    }

    /// The number of the page, counted from zero, in a block of `count` pages.
    pub open spec fn number_in(self, count: nat) -> int {
        match self {
            Page::First(_) => 0,
            Page::Last(_) => count - 1,
            Page::Number(n, _) => n as int,
            Page::FromEnd(n, _) => count - 1 - n,
        }
    }
}

/// A block of memory read and written page by page.
#[derive(Debug)]
pub struct Pager {
    pub data: Vec<u8>,
}

impl Pager {
    /// Whether the block divides into pages of `size`.
    pub open spec fn divides(self, size: PageSize) -> bool {
        self.data@.len() % size.spec_bytes() == 0
    }

    /// The number of pages of `size` in the block.
    pub open spec fn page_count(self, size: PageSize) -> nat {
        self.data@.len() / size.spec_bytes()
    }

    /// Whether `get_index` accepts `page` and `offset`: the block divides
    /// into pages of the page's size, it has at least one page, the page
    /// lies in the block and the offset is at most one page.
    pub open spec fn index_defined(self, page: Page, offset: u16) -> bool {
        let size = page.size();
        let count = self.page_count(size);
        &&& self.divides(size)
        &&& count >= 1
        &&& 0 <= page.number_in(count) < count
        &&& offset <= size.spec_bytes()
    }

    /// The byte index of `offset` within `page`.
    pub open spec fn index_of(self, page: Page, offset: u16) -> int {
        let size = page.size();
        page.number_in(self.page_count(size)) * size.spec_bytes() + offset
    }

    /// Whether `page` and `offset` name a byte of the block.
    pub open spec fn addressable(self, page: Page, offset: u16) -> bool {
        self.index_defined(page, offset) && self.index_of(page, offset) < self.data@.len()
    }

    pub fn new(data: Vec<u8>) -> (r: Pager)
        ensures
            r.data@ == data@,
    {
        Pager { data }
    }

    /// The number of pages of `size` in the block.
    pub fn get_page_count(&self, size: PageSize) -> (r: usize)
        requires
            self.divides(size),
        ensures
            r == self.page_count(size),
    {
        self.data.len() / size.bytes()
    }

    /// The byte index of `offset` within `page`.
    pub fn get_index(&self, page: Page, offset: u16) -> (r: usize)
        requires
            self.index_defined(page, offset),
        ensures
            r == self.index_of(page, offset),
            r <= self.data@.len(),
    {
        let size = match page {
            Page::First(s) => s,
            Page::Last(s) => s,
            Page::Number(_, s) => s,
            Page::FromEnd(_, s) => s,
        };
        let bytes = size.bytes();
        let page_count = self.get_page_count(size);
        let last_page = page_count - 1;
        let number = match page {
            Page::First(_) => 0,
            Page::Last(_) => last_page,
            Page::Number(n, _) => n,
            Page::FromEnd(n, _) => last_page - n,
        };
        proof {
            assert(self.data@.len() == self.data.len());
            lemma_page_fits(number as nat, page_count as nat, bytes as nat, offset as nat, self.data@.len());
        }
        number * bytes + offset as usize
    }

    /// The byte at `offset` within `page`.
    pub fn read_u8(&self, page: Page, offset: u16) -> (r: u8)
        requires
            self.addressable(page, offset),
        ensures
            r == self.data@[self.index_of(page, offset)],
    {
        let index = self.get_index(page, offset);
        self.data[index]
    }

    /// Stores `value` at `offset` within `page`.
    pub fn write_u8(&mut self, page: Page, offset: u16, value: u8)
        requires
            old(self).addressable(page, offset),
        ensures
            final(self).data@ == old(self).data@.update(old(self).index_of(page, offset), value),
    {
        let index = self.get_index(page, offset);
        self.data.set(index, value);
    }
}

/// A block of `pages` pages of `size` bytes divides into exactly `pages`
/// pages.
pub proof fn lemma_page_count(len: nat, pages: nat, size: nat)
    requires
        len == pages * size,
        size > 0,
    ensures
        len % size == 0,
        len / size == pages,
{
    vstd::arithmetic::div_mod::lemma_div_by_multiple(pages as int, size as int);
    vstd::arithmetic::div_mod::lemma_mod_multiples_basic(pages as int, size as int);
}

/// A page that lies in the block, with an offset of at most one page, ends
/// within the block.
proof fn lemma_page_fits(number: nat, count: nat, bytes: nat, offset: nat, len: nat)
    requires
        number < count,
        count == len / bytes,
        bytes > 0,
        len % bytes == 0,
        offset <= bytes,
    ensures
        number * bytes + offset <= len,
{
    vstd::arithmetic::div_mod::lemma_fundamental_div_mod(len as int, bytes as int);
    assert(number * bytes + offset <= len) by (nonlinear_arith)
        requires
            number < count,
            offset <= bytes,
            len == bytes * count,
    ;
}

/// What `write_u8` stores is what `read_u8` gives at any page and offset
/// that name the same byte, whatever the page size; every other byte reads
/// as before.
pub proof fn lemma_read_after_write(
    before: Pager,
    after: Pager,
    page: Page,
    offset: u16,
    value: u8,
    read_page: Page,
    read_offset: u16,
)
    requires
        before.addressable(page, offset),
        before.addressable(read_page, read_offset),
        after.data@ == before.data@.update(before.index_of(page, offset), value),
    ensures
        after.addressable(read_page, read_offset),
        after.data@[after.index_of(read_page, read_offset)] == if before.index_of(read_page, read_offset)
            == before.index_of(page, offset) {
            value
        } else {
            before.data@[before.index_of(read_page, read_offset)]
        },
{
}

} // verus!
