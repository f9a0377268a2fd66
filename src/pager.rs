use vstd::prelude::*;

use crate::error::NesError;

verus! {

/// The page sizes that mappers switch in.
#[derive(Debug, Clone, Copy, PartialEq, Eq, Structural)]
pub enum PageSize {
    OneKB,
    FourKB,
    EightKB,
    SixteenKB,
}

impl PageSize {
    pub open spec fn spec_bytes(self) -> nat {
        match self {
            PageSize::OneKB => 0x400,
            PageSize::FourKB => 0x1000,
            PageSize::EightKB => 0x2000,
            PageSize::SixteenKB => 0x4000,
        }
    }

    /// The number of bytes in one page of this size.
    pub fn bytes(self) -> (r: usize)
        ensures
            r == self.spec_bytes(),
    {
        match self {
            PageSize::OneKB => 0x400,
            PageSize::FourKB => 0x1000,
            PageSize::EightKB => 0x2000,
            PageSize::SixteenKB => 0x4000,
        }
    }
}

/// A page selector: which page of a buffer, at which page size.
#[derive(Debug, Clone, Copy, PartialEq, Eq, Structural)]
pub enum Page {
    First(PageSize),
    Last(PageSize),
    Number(usize, PageSize),
    FromEnd(usize, PageSize),
}

impl Page {
    pub open spec fn size(self) -> PageSize {
        match self {
            Page::First(s) => s,
            Page::Last(s) => s,
            Page::Number(_, s) => s,
            Page::FromEnd(_, s) => s,
        }
    }

    /// The page number this selector names in a buffer of `count` pages
    /// (negative when it names none).
    pub open spec fn number(self, count: int) -> int {
        match self {
            Page::First(_) => 0,
            Page::Last(_) => count - 1,
            Page::Number(n, _) => n as int,
            Page::FromEnd(n, _) => count - 1 - n,
        }
    }
}

/// Where `offset` within the selected page lies in a buffer of `len` bytes.
/// The buffer must hold a whole number of pages, the offset must lie inside
/// one page, and the selected page must exist.
pub open spec fn locate(len: nat, page: Page, offset: u16) -> Result<int, NesError> {
    let size = page.size().spec_bytes();
    let count = (len / size) as int;
    let n = page.number(count);
    if len % size != 0 || offset >= size || n < 0 || n >= count {
        Err(NesError::AddressOutOfRange)
    } else {
        Ok(n * size + offset)
    }
}

/// The byte that a read of `offset` within `page` gives on `data`.
pub open spec fn paged_read(data: Seq<u8>, page: Page, offset: u16) -> Result<u8, NesError> {
    match locate(data.len(), page, offset) {
        Ok(i) => Ok(data[i]),
        Err(e) => Err(e),
    }
}

/// The contents after a write of `value` at `offset` within `page`.
pub open spec fn paged_write(data: Seq<u8>, page: Page, offset: u16, value: u8) -> Seq<u8> {
    match locate(data.len(), page, offset) {
        Ok(i) => data.update(i, value),
        Err(_) => data,
    }
}

/// Whether a write at `offset` within `page` succeeds.
pub open spec fn paged_write_result(data: Seq<u8>, page: Page, offset: u16) -> Result<(), NesError> {
    match locate(data.len(), page, offset) {
        Ok(_) => Ok(()),
        Err(e) => Err(e),
    }
}

/// A byte buffer addressed page by page.
pub struct Pager {
    pub data: Vec<u8>,
}

impl View for Pager {
    type V = Seq<u8>;

    open spec fn view(&self) -> Seq<u8> {
        self.data@
    }
}

proof fn lemma_page_in_bounds(n: int, size: int, count: int, offset: int, len: int)
    requires
        0 <= n < count,
        0 <= offset < size,
        len == count * size,
    ensures
        0 <= n * size + offset < len,
{
    assert(0 <= n * size) by (nonlinear_arith)
        requires
            0 <= n,
            0 < size,
    ;
    assert((n + 1) * size <= count * size) by (nonlinear_arith)
        requires
            n + 1 <= count,
            0 < size,
    ;
    assert((n + 1) * size == n * size + size) by (nonlinear_arith);
}

impl Pager {
    pub fn new(data: Vec<u8>) -> (r: Pager)
        ensures
            r@ == data@,
    {
        Pager { data }
    }

    pub fn read(&self, page: Page, offset: u16) -> (r: Result<u8, NesError>)
        ensures
            r == paged_read(self@, page, offset),
    {
        match self.index(page, offset) {
            Ok(i) => Ok(self.data[i]),
            Err(e) => Err(e),
        }
    }

    pub fn write(&mut self, page: Page, offset: u16, value: u8) -> (r: Result<(), NesError>)
        ensures
            final(self)@ == paged_write(old(self)@, page, offset, value),
            r == paged_write_result(old(self)@, page, offset),
    {
        match self.index(page, offset) {
            Ok(i) => {
                self.data.set(i, value);
                Ok(())
            },
            Err(e) => Err(e),
        }
    }

    /// How many whole pages of `size` the buffer holds.
    fn page_count(&self, size: PageSize) -> (r: Result<usize, NesError>)
        ensures
            match r {
                Ok(c) => self@.len() % size.spec_bytes() == 0 && c == self@.len()
                    / size.spec_bytes(),
                Err(e) => self@.len() % size.spec_bytes() != 0 && e == NesError::AddressOutOfRange,
            },
    {
        let bytes = size.bytes();
        if self.data.len() % bytes != 0 {
            Err(NesError::AddressOutOfRange)
        } else {
            Ok(self.data.len() / bytes)
        }
    }

    /// The position in the buffer of `offset` within `page`.
    fn index(&self, page: Page, offset: u16) -> (r: Result<usize, NesError>)
        ensures
            r is Ok <==> locate(self@.len(), page, offset) is Ok,
            r is Ok ==> r->Ok_0 == locate(self@.len(), page, offset)->Ok_0 && r->Ok_0
                < self@.len(),
            r is Err ==> r == Err::<usize, NesError>(NesError::AddressOutOfRange),
            locate(self@.len(), page, offset) is Err ==> locate(self@.len(), page, offset)
                == Err::<int, NesError>(NesError::AddressOutOfRange),
    {
        let len = self.data.len();
        let size = match page {
            Page::First(s) => s,
            Page::Last(s) => s,
            Page::Number(_, s) => s,
            Page::FromEnd(_, s) => s,
        };
        let count = match self.page_count(size) {
            Ok(c) => c,
            Err(e) => return Err(e),
        };
        let bytes = size.bytes();
        if (offset as usize) >= bytes || count == 0 {
            return Err(NesError::AddressOutOfRange);
        }
        let last = count - 1;
        let n: usize = match page {
            Page::First(_) => 0,
            Page::Last(_) => last,
            Page::Number(n, _) => n,
            Page::FromEnd(n, _) => {
                if n > last {
                    return Err(NesError::AddressOutOfRange);
                }
                last - n
            },
        };
        if n > last {
            return Err(NesError::AddressOutOfRange);
        }
        proof {
            let len = len as int;
            let s = bytes as int;
            assert(len == (count as int) * s) by (nonlinear_arith)
                requires
                    len % s == 0,
                    count as int == len / s,
                    s > 0,
            ;
            lemma_page_in_bounds(n as int, s, count as int, offset as int, len);
        }
        Ok(n * bytes + offset as usize)
    }
}

/// A buffer that does not hold a whole number of pages of the requested size
/// can still be made (`Pager::new` cannot fail); every access at that size
/// fails, and a write changes nothing.
pub proof fn lemma_uneven_buffer_fails(data: Seq<u8>, page: Page, offset: u16, value: u8)
    requires
        data.len() % page.size().spec_bytes() != 0,
    ensures
        paged_read(data, page, offset) == Err::<u8, NesError>(NesError::AddressOutOfRange),
        paged_write_result(data, page, offset) == Err::<(), NesError>(NesError::AddressOutOfRange),
        paged_write(data, page, offset, value) == data,
{
}

} // verus!
