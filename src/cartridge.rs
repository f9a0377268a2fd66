use vstd::prelude::*;

use crate::data::{Data, DataView, image_ok, loaded_data};
use crate::error::NesError;
use crate::header::{Mirroring, parse_header};
use crate::mapper0::Mapper0;
use crate::mapper2::Mapper2;
use crate::mapper3::Mapper3;
use crate::pager::{Page, PageSize, paged_read, paged_write, paged_write_result};

verus! {

/// The mapper boards this core implements.
#[derive(Debug, Clone, Copy, PartialEq, Eq, Structural)]
pub enum Board {
    Nrom,
    Uxrom,
    Cnrom,
}

/// What a cartridge is: its board, its memory, and the bank its register selects.
pub struct CartridgeView {
    pub board: Board,
    pub data: DataView,
    pub bank: nat,
}

impl CartridgeView {
    pub open spec fn wf(self) -> bool {
        &&& self.data.wf()
        &&& self.bank <= 255
    }

    pub open spec fn with_data(self, data: DataView) -> CartridgeView {
        CartridgeView { data, ..self }
    }

    pub open spec fn with_bank(self, bank: nat) -> CartridgeView {
        CartridgeView { bank, ..self }
    }
}

/// The board that a mapper id selects.
pub open spec fn board_of(mapper_number: u8) -> Option<Board> {
    match mapper_number {
        0 => Some(Board::Nrom),
        2 => Some(Board::Uxrom),
        3 => Some(Board::Cnrom),
        _ => None,
    }
}

/// A read of program space (0x6000-0xFFFF).
pub open spec fn prg_read(c: CartridgeView, address: u16) -> Result<u8, NesError> {
    let d = c.data;
    match c.board {
        Board::Nrom => if 0x6000 <= address <= 0x7FFF {
            paged_read(d.prg_ram, Page::First(PageSize::EightKB), (address - 0x6000) as u16)
        } else if 0x8000 <= address <= 0xBFFF {
            paged_read(d.prg_rom, Page::First(PageSize::SixteenKB), (address - 0x8000) as u16)
        } else if 0xC000 <= address {
            paged_read(d.prg_rom, Page::Last(PageSize::SixteenKB), (address - 0xC000) as u16)
        } else {
            Err(NesError::UnmappedAddress(address))
        },
        Board::Uxrom => if 0x8000 <= address <= 0xBFFF {
            paged_read(
                d.prg_rom,
                Page::Number(c.bank as usize, PageSize::SixteenKB),
                (address - 0x8000) as u16,
            )
        } else if 0xC000 <= address {
            paged_read(d.prg_rom, Page::Last(PageSize::SixteenKB), (address - 0xC000) as u16)
        } else {
            Err(NesError::UnmappedAddress(address))
        },
        Board::Cnrom => if 0x8000 <= address <= 0xBFFF {
            paged_read(d.prg_rom, Page::First(PageSize::SixteenKB), (address - 0x8000) as u16)
        } else if 0xC000 <= address {
            paged_read(d.prg_rom, Page::Last(PageSize::SixteenKB), (address - 0xC000) as u16)
        } else {
            Err(NesError::UnmappedAddress(address))
        },
    }
}

/// A write to program space: a data write to program RAM, or a write to the
/// bank register where the board has one there.
pub open spec fn prg_write(c: CartridgeView, address: u16, value: u8) -> (
    Result<(), NesError>,
    CartridgeView,
) {
    let d = c.data;
    match c.board {
        Board::Nrom => if 0x6000 <= address <= 0x7FFF {
            let page = Page::First(PageSize::EightKB);
            let offset = (address - 0x6000) as u16;
            (
                paged_write_result(d.prg_ram, page, offset),
                c.with_data(DataView { prg_ram: paged_write(d.prg_ram, page, offset, value), ..d }),
            )
        } else if 0x8000 <= address {
            (Ok(()), c)
        } else {
            (Err(NesError::UnmappedAddress(address)), c)
        },
        Board::Uxrom => if 0x8000 <= address {
            (Ok(()), c.with_bank((value % 16) as nat))
        } else {
            (Err(NesError::UnmappedAddress(address)), c)
        },
        Board::Cnrom => if 0x8000 <= address {
            (Ok(()), c.with_bank(value as nat))
        } else if 0x6000 <= address {
            (Ok(()), c)
        } else {
            (Err(NesError::UnmappedAddress(address)), c)
        },
    }
}

/// A read of character space (0x0000-0x1FFF).
pub open spec fn chr_read(c: CartridgeView, address: u16) -> Result<u8, NesError> {
    let d = c.data;
    if address > 0x1FFF {
        Err(NesError::UnmappedAddress(address))
    } else {
        match c.board {
            Board::Cnrom => paged_read(
                d.chr_rom,
                Page::Number(c.bank as usize, PageSize::EightKB),
                address,
            ),
            _ => if d.header.chr_rom_pages == 0 {
                paged_read(d.chr_ram, Page::First(PageSize::EightKB), address)
            } else {
                paged_read(d.chr_rom, Page::First(PageSize::EightKB), address)
            },
        }
    }
}

/// A write to character space: it lands in character RAM where the cartridge
/// has RAM there, and is ignored by ROM.
pub open spec fn chr_write(c: CartridgeView, address: u16, value: u8) -> (
    Result<(), NesError>,
    CartridgeView,
) {
    let d = c.data;
    let page = Page::First(PageSize::EightKB);
    if address > 0x1FFF {
        (Err(NesError::UnmappedAddress(address)), c)
    } else {
        match c.board {
            Board::Cnrom => (Ok(()), c),
            _ => if d.header.chr_rom_pages == 0 {
                (
                    paged_write_result(d.chr_ram, page, address),
                    c.with_data(DataView { chr_ram: paged_write(d.chr_ram, page, address, value), ..d }),
                )
            } else {
                (Ok(()), c)
            },
        }
    }
}

/// The mapper chip of a cartridge, one variant per board.
pub enum MapperChip {
    Nrom(Mapper0),
    Uxrom(Mapper2),
    Cnrom(Mapper3),
}

/// A cartridge: its mapper chip, which owns the cartridge's memory.
pub struct Cartridge {
    pub mapper: MapperChip,
}

impl View for Cartridge {
    type V = CartridgeView;

    open spec fn view(&self) -> CartridgeView {
        match self.mapper {
            MapperChip::Nrom(m) => m@,
            MapperChip::Uxrom(m) => m@,
            MapperChip::Cnrom(m) => m@,
        }
    }
}

impl Cartridge {
    /// Loads a cartridge image: the image must be well formed and name a mapper
    /// this core implements (0, 2 or 3).
    pub fn new(data: &[u8]) -> (r: Result<Cartridge, NesError>)
        ensures
            !image_ok(data@) ==> r == Err::<Cartridge, NesError>(
                NesError::MalformedCartridgeHeader,
            ),
            image_ok(data@) && board_of(parse_header(data@).mapper_number) is None ==> r == Err::<
                Cartridge,
                NesError,
            >(NesError::UnsupportedMapper(parse_header(data@).mapper_number)),
            r is Ok <==> image_ok(data@) && board_of(parse_header(data@).mapper_number) is Some,
            r is Ok ==> {
                let c = r->Ok_0@;
                &&& c.wf()
                &&& Some(c.board) == board_of(parse_header(data@).mapper_number)
                &&& c.data == loaded_data(data@)
                &&& c.bank == 0
            },
    {
        let data = match Data::new(data) {
            Ok(d) => d,
            Err(e) => return Err(e),
        };
        let n = data.header.mapper_number;
        let mapper = if n == 0 {
            MapperChip::Nrom(Mapper0::new(data))
        } else if n == 2 {
            MapperChip::Uxrom(Mapper2::new(data))
        } else if n == 3 {
            MapperChip::Cnrom(Mapper3::new(data))
        } else {
            return Err(NesError::UnsupportedMapper(n));
        };
        Ok(Cartridge { mapper: mapper })
    }

    /// Tells the mapper that a scanline was rendered. None of the boards here
    /// counts scanlines.
    pub fn signal_scanline(&mut self)
        ensures
            final(self)@ == old(self)@,
    {
    }

    pub fn read_prg_byte(&self, address: u16) -> (r: Result<u8, NesError>)
        ensures
            r == prg_read(self@, address),
    {
        match &self.mapper {
            MapperChip::Nrom(m) => m.read_prg_byte(address),
            MapperChip::Uxrom(m) => m.read_prg_byte(address),
            MapperChip::Cnrom(m) => m.read_prg_byte(address),
        }
    }

    pub fn write_prg_byte(&mut self, address: u16, value: u8) -> (r: Result<(), NesError>)
        ensures
            (r, final(self)@) == prg_write(old(self)@, address, value),
    {
        match &mut self.mapper {
            MapperChip::Nrom(m) => m.write_prg_byte(address, value),
            MapperChip::Uxrom(m) => m.write_prg_byte(address, value),
            MapperChip::Cnrom(m) => m.write_prg_byte(address, value),
        }
    }

    pub fn read_chr_byte(&self, address: u16) -> (r: Result<u8, NesError>)
        ensures
            r == chr_read(self@, address),
    {
        match &self.mapper {
            MapperChip::Nrom(m) => m.read_chr_byte(address),
            MapperChip::Uxrom(m) => m.read_chr_byte(address),
            MapperChip::Cnrom(m) => m.read_chr_byte(address),
        }
    }

    pub fn write_chr_byte(&mut self, address: u16, value: u8) -> (r: Result<(), NesError>)
        ensures
            (r, final(self)@) == chr_write(old(self)@, address, value),
    {
        match &mut self.mapper {
            MapperChip::Nrom(m) => m.write_chr_byte(address, value),
            MapperChip::Uxrom(m) => m.write_chr_byte(address, value),
            MapperChip::Cnrom(m) => m.write_chr_byte(address, value),
        }
    }

    pub fn mirroring(&self) -> (r: Mirroring)
        ensures
            r == self@.data.header.mirroring,
    {
        match &self.mapper {
            MapperChip::Nrom(m) => m.mirroring(),
            MapperChip::Uxrom(m) => m.mirroring(),
            MapperChip::Cnrom(m) => m.mirroring(),
        }
    }

    /// Whether the mapper holds a pending interrupt. None of the boards here
    /// raises one.
    pub fn irq_flag(&self) -> (r: bool)
        ensures
            !r,
    {
        false
    }
}

/// A buffer of `pages` whole pages of `size` bytes.
proof fn lemma_whole_pages(len: int, pages: int, size: int)
    requires
        size > 0,
        pages >= 0,
        len == pages * size,
    ensures
        len % size == 0,
        len / size == pages,
{
    vstd::arithmetic::div_mod::lemma_fundamental_div_mod_converse(len, size, pages, 0);
}

/// On NROM, program ROM ignores writes: the cartridge is left exactly as it was.
pub proof fn lemma_nrom_rom_is_read_only(c: CartridgeView, address: u16, value: u8)
    requires
        c.board == Board::Nrom,
        address >= 0x8000,
    ensures
        prg_write(c, address, value) == (Ok::<(), NesError>(()), c),
{
}

/// On NROM, the window at 0xC000 shows the last 16 KiB page of program ROM,
/// whatever the size of the ROM.
pub proof fn lemma_nrom_high_window_is_last_page(c: CartridgeView, k: u16)
    requires
        c.wf(),
        c.board == Board::Nrom,
        k < 0x4000,
    ensures
        prg_read(c, (0xC000 + k) as u16) == Ok::<u8, NesError>(
            c.data.prg_rom[c.data.prg_rom.len() - 0x4000 + k],
        ),
{
    lemma_whole_pages(
        c.data.prg_rom.len() as int,
        c.data.header.prg_rom_pages as int,
        0x4000,
    );
    assert((c.data.header.prg_rom_pages - 1) * 0x4000 == c.data.prg_rom.len() - 0x4000);
}

/// On UxROM, a write of `value` anywhere in ROM space selects page `value % 16`
/// for the window at 0x8000 (an out-of-range page then reads as an addressing
/// error), and leaves the window at 0xC000 as it was.
pub proof fn lemma_uxrom_bank_switch(c: CartridgeView, address: u16, value: u8, k: u16)
    requires
        c.wf(),
        c.board == Board::Uxrom,
        address >= 0x8000,
        k < 0x4000,
    ensures
        ({
            let (r, c2) = prg_write(c, address, value);
            let page = (value % 16) as int;
            &&& r == Ok::<(), NesError>(())
            &&& c2.wf()
            &&& page < c.data.header.prg_rom_pages ==> prg_read(c2, (0x8000 + k) as u16) == Ok::<
                u8,
                NesError,
            >(c.data.prg_rom[page * 0x4000 + k])
            &&& page >= c.data.header.prg_rom_pages ==> prg_read(c2, (0x8000 + k) as u16) == Err::<
                u8,
                NesError,
            >(NesError::AddressOutOfRange)
            &&& prg_read(c2, (0xC000 + k) as u16) == prg_read(c, (0xC000 + k) as u16)
        }),
{
    lemma_whole_pages(
        c.data.prg_rom.len() as int,
        c.data.header.prg_rom_pages as int,
        0x4000,
    );
}

/// Where a cartridge has character RAM, a byte written to character space
/// reads back unchanged.
pub proof fn lemma_chr_ram_round_trip(c: CartridgeView, address: u16, value: u8)
    requires
        c.wf(),
        c.board != Board::Cnrom,
        c.data.header.chr_rom_pages == 0,
        address <= 0x1FFF,
    ensures
        chr_write(c, address, value).0 == Ok::<(), NesError>(()),
        chr_read(chr_write(c, address, value).1, address) == Ok::<u8, NesError>(value),
{
    lemma_whole_pages(c.data.chr_ram.len() as int, 1, 0x2000);
}

/// Where a cartridge has character ROM, a write to character space changes
/// nothing that a later read sees.
pub proof fn lemma_chr_rom_ignores_writes(c: CartridgeView, address: u16, value: u8, other: u16)
    requires
        c.board == Board::Cnrom || c.data.header.chr_rom_pages != 0,
        address <= 0x1FFF,
    ensures
        chr_write(c, address, value) == (Ok::<(), NesError>(()), c),
        chr_read(chr_write(c, address, value).1, other) == chr_read(c, other),
{
}

} // verus!
