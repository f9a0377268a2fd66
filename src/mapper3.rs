//! Mapper 3 (CNROM): a switchable 8 KiB character window.
use vstd::prelude::*;

use crate::cartridge::{Board, CartridgeView, chr_read, chr_write, prg_read, prg_write};
use crate::data::Data;
use crate::error::NesError;
use crate::header::Mirroring;
use crate::pager::{Page, PageSize};

verus! {

pub struct Mapper3 {
    pub data: Data,
    /// The character ROM page seen at 0x0000.
    pub chr_0: usize,
}

impl View for Mapper3 {
    type V = CartridgeView;

    open spec fn view(&self) -> CartridgeView {
        CartridgeView { board: Board::Cnrom, data: self.data@, bank: self.chr_0 as nat }
    }
}

impl Mapper3 {
    pub fn new(data: Data) -> (r: Mapper3)
        ensures
            r.data == data,
            r.chr_0 == 0,
    {
        Mapper3 { data: data, chr_0: 0 }
    }

    pub fn read_prg_byte(&self, address: u16) -> (r: Result<u8, NesError>)
        ensures
            r == prg_read(self@, address),
    {
        if 0x8000 <= address && address <= 0xBFFF {
            self.data.prg_rom.read(Page::First(PageSize::SixteenKB), address - 0x8000)
        } else if 0xC000 <= address {
            self.data.prg_rom.read(Page::Last(PageSize::SixteenKB), address - 0xC000)
        } else {
            Err(NesError::UnmappedAddress(address))
        }
    }

    /// A write to ROM space selects the character page by the whole byte.
    pub fn write_prg_byte(&mut self, address: u16, value: u8) -> (r: Result<(), NesError>)
        ensures
            (r, final(self)@) == prg_write(old(self)@, address, value),
    {
        if 0x8000 <= address {
            self.chr_0 = value as usize;
            Ok(())
        } else if 0x6000 <= address {
            Ok(())
        } else {
            Err(NesError::UnmappedAddress(address))
        }
    }

    pub fn read_chr_byte(&self, address: u16) -> (r: Result<u8, NesError>)
        ensures
            r == chr_read(self@, address),
    {
        if address > 0x1FFF {
            Err(NesError::UnmappedAddress(address))
        } else {
            self.data.chr_rom.read(Page::Number(self.chr_0, PageSize::EightKB), address)
        }
    }

    /// Character memory is ROM: writes are ignored.
    pub fn write_chr_byte(&mut self, address: u16, value: u8) -> (r: Result<(), NesError>)
        ensures
            (r, final(self)@) == chr_write(old(self)@, address, value),
    {
        if address > 0x1FFF {
            Err(NesError::UnmappedAddress(address))
        } else {
            Ok(())
        }
    }

    pub fn mirroring(&self) -> (r: Mirroring)
        ensures
            r == self@.data.header.mirroring,
    {
        self.data.header.mirroring
    }
}

} // verus!
