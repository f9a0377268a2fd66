use vstd::prelude::*;

use crate::error::NesError;
use crate::header::{Header, HEADER_SIZE, has_magic, parse_header};
use crate::pager::Pager;

verus! {

/// The memory of a loaded cartridge: its header and its four paged buffers.
pub struct Data {
    pub header: Header,
    pub prg_rom: Pager,
    pub prg_ram: Pager,
    pub chr_rom: Pager,
    pub chr_ram: Pager,
}

/// Whether an image holds a header, at least one page of program ROM, and all
/// the ROM pages that the header announces.
pub open spec fn image_ok(data: Seq<u8>) -> bool {
    &&& data.len() >= HEADER_SIZE
    &&& has_magic(data)
    &&& parse_header(data).prg_rom_pages >= 1
    &&& data.len() >= HEADER_SIZE + parse_header(data).spec_prg_rom_bytes()
        + parse_header(data).spec_chr_rom_bytes()
}

/// The memory that a well-formed image loads into: ROM copied out of the image,
/// RAM zeroed.
pub open spec fn loaded_data(data: Seq<u8>) -> DataView {
    let h = parse_header(data);
    let prg_end = HEADER_SIZE + h.spec_prg_rom_bytes();
    DataView {
        header: h,
        prg_rom: data.subrange(HEADER_SIZE as int, prg_end),
        prg_ram: Seq::new(h.spec_prg_ram_bytes() as nat, |i: int| 0u8),
        chr_rom: data.subrange(prg_end, prg_end + h.spec_chr_rom_bytes()),
        chr_ram: Seq::new(h.spec_chr_ram_bytes() as nat, |i: int| 0u8),
    }
}

/// A copy of `data[start..end]`.
fn copy_range(data: &[u8], start: usize, end: usize) -> (r: Vec<u8>)
    requires
        start <= end <= data@.len(),
    ensures
        r@ == data@.subrange(start as int, end as int),
{
    let mut r: Vec<u8> = Vec::new();
    let mut i: usize = start;
    while i < end
        invariant
            start <= i <= end <= data@.len(),
            r@ == data@.subrange(start as int, i as int),
        decreases end - i,
    {
        r.push(data[i]);
        i += 1;
    }
    r
}

/// `n` zero bytes.
fn zeros(n: usize) -> (r: Vec<u8>)
    ensures
        r@ == Seq::new(n as nat, |i: int| 0u8),
{
    let mut r: Vec<u8> = Vec::new();
    let mut i: usize = 0;
    while i < n
        invariant
            i <= n,
            r@ == Seq::new(i as nat, |k: int| 0u8),
        decreases n - i,
    {
        r.push(0);
        i += 1;
    }
    r
}

/// What a cartridge's memory holds.
pub struct DataView {
    pub header: Header,
    pub prg_rom: Seq<u8>,
    pub prg_ram: Seq<u8>,
    pub chr_rom: Seq<u8>,
    pub chr_ram: Seq<u8>,
}

impl DataView {
    /// Buffer sizes agree with the header.
    pub open spec fn wf(self) -> bool {
        &&& self.header.wf()
        &&& self.header.prg_rom_pages >= 1
        &&& self.prg_rom.len() == self.header.spec_prg_rom_bytes()
        &&& self.prg_ram.len() == self.header.spec_prg_ram_bytes()
        &&& self.chr_rom.len() == self.header.spec_chr_rom_bytes()
        &&& self.chr_ram.len() == self.header.spec_chr_ram_bytes()
    }
}

impl View for Data {
    type V = DataView;

    open spec fn view(&self) -> DataView {
        DataView {
            header: self.header,
            prg_rom: self.prg_rom@,
            prg_ram: self.prg_ram@,
            chr_rom: self.chr_rom@,
            chr_ram: self.chr_ram@,
        }
    }
}

impl Data {
    /// Splits a cartridge image into its buffers. Program and character ROM are
    /// copied from the image; program and character RAM start zeroed.
    pub fn new(data: &[u8]) -> (r: Result<Data, NesError>)
        ensures
            image_ok(data@) <==> r is Ok,
            !image_ok(data@) ==> r == Err::<Data, NesError>(NesError::MalformedCartridgeHeader),
            r is Ok ==> r->Ok_0@ == loaded_data(data@) && r->Ok_0@.wf(),
    {
        let header = match Header::new(data) {
            Ok(h) => h,
            Err(e) => return Err(e),
        };
        if header.prg_rom_pages == 0 {
            return Err(NesError::MalformedCartridgeHeader);
        }
        let prg = header.prg_rom_range();
        let chr = header.chr_rom_range();
        if data.len() < chr.end {
            return Err(NesError::MalformedCartridgeHeader);
        }
        Ok(
            Data {
                header: header,
                prg_rom: Pager::new(copy_range(data, prg.start, prg.end)),
                chr_rom: Pager::new(copy_range(data, chr.start, chr.end)),
                prg_ram: Pager::new(zeros(header.prg_ram_bytes())),
                chr_ram: Pager::new(zeros(header.chr_ram_bytes())),
            },
        )
    }
}

} // verus!
