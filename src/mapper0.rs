//! Mapper 0 (NROM): no bank switching.
use vstd::prelude::*;

use crate::cartridge::{Board, CartridgeView, chr_read, chr_write, prg_read, prg_write};
use crate::data::Data;
use crate::error::NesError;
use crate::header::Mirroring;
use crate::pager::{Page, PageSize};

verus! {

pub struct Mapper0 {
    pub data: Data,
}

impl View for Mapper0 {
    type V = CartridgeView;

    open spec fn view(&self) -> CartridgeView {
        CartridgeView { board: Board::Nrom, data: self.data@, bank: 0 }
    }
}

impl Mapper0 {
    pub fn new(data: Data) -> (r: Mapper0)
        ensures
            r.data == data,
    {
        Mapper0 { data: data }
    }

    pub fn read_prg_byte(&self, address: u16) -> (r: Result<u8, NesError>)
        ensures
            r == prg_read(self@, address),
    {
        if 0x6000 <= address && address <= 0x7FFF {
            self.data.prg_ram.read(Page::First(PageSize::EightKB), address - 0x6000)
        } else if 0x8000 <= address && address <= 0xBFFF {
            self.data.prg_rom.read(Page::First(PageSize::SixteenKB), address - 0x8000)
        } else if 0xC000 <= address {
            self.data.prg_rom.read(Page::Last(PageSize::SixteenKB), address - 0xC000)
        } else {
            Err(NesError::UnmappedAddress(address))
        }
    }

    pub fn write_prg_byte(&mut self, address: u16, value: u8) -> (r: Result<(), NesError>)
        ensures
            (r, final(self)@) == prg_write(old(self)@, address, value),
    {
        if 0x6000 <= address && address <= 0x7FFF {
            self.data.prg_ram.write(Page::First(PageSize::EightKB), address - 0x6000, value)
        } else if 0x8000 <= address {
            Ok(())
        } else {
            Err(NesError::UnmappedAddress(address))
        }
    }

    pub fn read_chr_byte(&self, address: u16) -> (r: Result<u8, NesError>)
        ensures
            r == chr_read(self@, address),
    {
        if address > 0x1FFF {
            Err(NesError::UnmappedAddress(address))
        } else if self.data.header.chr_rom_pages == 0 {
            self.data.chr_ram.read(Page::First(PageSize::EightKB), address)
        } else {
            self.data.chr_rom.read(Page::First(PageSize::EightKB), address)
        }
    }

    pub fn write_chr_byte(&mut self, address: u16, value: u8) -> (r: Result<(), NesError>)
        ensures
            (r, final(self)@) == chr_write(old(self)@, address, value),
    {
        if address > 0x1FFF {
            Err(NesError::UnmappedAddress(address))
        } else if self.data.header.chr_rom_pages == 0 {
            self.data.chr_ram.write(Page::First(PageSize::EightKB), address, value)
        } else {
            Ok(())
        }
    }

    pub fn mirroring(&self) -> (r: Mirroring)
        ensures
            r == self@.data.header.mirroring,
    {
        self.data.header.mirroring
    }
}

} // verus!
