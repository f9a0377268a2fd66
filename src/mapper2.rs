//! Mapper 2 (UxROM): a switchable 16 KiB program window at 0x8000.
use vstd::prelude::*;

use crate::cartridge::{Board, CartridgeView, chr_read, chr_write, prg_read, prg_write};
use crate::data::Data;
use crate::error::NesError;
use crate::header::Mirroring;
use crate::pager::{Page, PageSize};

verus! {

pub struct Mapper2 {
    pub data: Data,
    /// The program ROM page seen at 0x8000.
    pub prg_0: usize,
}

impl View for Mapper2 {
    type V = CartridgeView;

    open spec fn view(&self) -> CartridgeView {
        CartridgeView { board: Board::Uxrom, data: self.data@, bank: self.prg_0 as nat }
    }
}

impl Mapper2 {
    pub fn new(data: Data) -> (r: Mapper2)
        ensures
            r.data == data,
            r.prg_0 == 0,
    {
        Mapper2 { data: data, prg_0: 0 }
    }

    pub fn read_prg_byte(&self, address: u16) -> (r: Result<u8, NesError>)
        ensures
            r == prg_read(self@, address),
    {
        if 0x8000 <= address && address <= 0xBFFF {
            self.data.prg_rom.read(Page::Number(self.prg_0, PageSize::SixteenKB), address - 0x8000)
        } else if 0xC000 <= address {
            self.data.prg_rom.read(Page::Last(PageSize::SixteenKB), address - 0xC000)
        } else {
            Err(NesError::UnmappedAddress(address))
        }
    }

    /// Any write to ROM space selects the page at 0x8000 by its low four bits.
    pub fn write_prg_byte(&mut self, address: u16, value: u8) -> (r: Result<(), NesError>)
        ensures
            (r, final(self)@) == prg_write(old(self)@, address, value),
    {
        if 0x8000 <= address {
            let bank = value & 0x0F;
            assert(bank == value % 16) by (bit_vector)
                requires
                    bank == value & 0x0F,
            ;
            self.prg_0 = bank as usize;
            Ok(())
        } else {
            Err(NesError::UnmappedAddress(address))
        }
    }

    pub fn read_chr_byte(&self, address: u16) -> (r: Result<u8, NesError>)
        ensures
            r == chr_read(self@, address),
    {
        if address > 0x1FFF {
            Err(NesError::UnmappedAddress(address))
        } else if self.data.header.chr_rom_pages == 0 {
            self.data.chr_ram.read(Page::First(PageSize::EightKB), address)
        } else {
            self.data.chr_rom.read(Page::First(PageSize::EightKB), address)
        }
    }

    pub fn write_chr_byte(&mut self, address: u16, value: u8) -> (r: Result<(), NesError>)
        ensures
            (r, final(self)@) == chr_write(old(self)@, address, value),
    {
        if address > 0x1FFF {
            Err(NesError::UnmappedAddress(address))
        } else if self.data.header.chr_rom_pages == 0 {
            self.data.chr_ram.write(Page::First(PageSize::EightKB), address, value)
        } else {
            Ok(())
        }
    }

    pub fn mirroring(&self) -> (r: Mirroring)
        ensures
            r == self@.data.header.mirroring,
    {
        self.data.header.mirroring
    }
}

} // verus!
