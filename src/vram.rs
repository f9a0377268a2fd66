use vstd::prelude::*;

use crate::cartridge::{Cartridge, CartridgeView, chr_read, chr_write};
use crate::error::NesError;
use crate::header::Mirroring;

verus! {

pub const NAMETABLE_SIZE: usize = 0x400;

pub const PALETTE_SIZE: usize = 0x20;

/// Where a palette address lands: entries 0x10, 0x14, 0x18 and 0x1C alias
/// 0x00, 0x04, 0x08 and 0x0C; the 32 entries repeat over the whole range.
pub open spec fn palette_slot(address: u16) -> int {
    let p = address % 32;
    if p >= 16 && p % 4 == 0 {
        p - 16
    } else {
        p as int
    }
}

/// Where a nametable address lands in the two physical tables. Horizontal
/// wiring gives logical tables 0 and 1 the first physical table and 2 and 3
/// the second; vertical wiring gives 0 and 2 the first and 1 and 3 the second;
/// four-screen wiring maps addresses straight on from 0x2000.
pub open spec fn nametable_slot(mirroring: Mirroring, address: u16) -> int {
    match mirroring {
        Mirroring::FourScreen => address - 0x2000,
        Mirroring::Horizontal => (address / 0x800) % 2 * 0x400 + address % 0x400,
        Mirroring::Vertical => (address % 0x800) as int,
    }
}

pub fn mirror_palette(address: u16) -> (r: usize)
    ensures
        r == palette_slot(address),
        r < PALETTE_SIZE,
{
    let address = (address as usize) % PALETTE_SIZE;
    if address == 0x10 || address == 0x14 || address == 0x18 || address == 0x1C {
        address - 0x10
    } else {
        address
    }
}

pub fn mirror_nametable(mirroring: Mirroring, address: u16) -> (r: usize)
    requires
        mirroring == Mirroring::FourScreen ==> address >= 0x2000,
    ensures
        r == nametable_slot(mirroring, address),
        mirroring != Mirroring::FourScreen ==> r < 2 * NAMETABLE_SIZE,
{
    match mirroring {
        Mirroring::FourScreen => (address - 0x2000) as usize,
        Mirroring::Horizontal => {
            let table = (address / 2) & 0x400;
            assert(table == (address / 0x800) % 2 * 0x400) by (bit_vector)
                requires
                    table == (address / 2) & 0x400,
            ;
            (table as usize) + (address as usize) % NAMETABLE_SIZE
        },
        Mirroring::Vertical => (address as usize) % (2 * NAMETABLE_SIZE),
    }
}

/// What video memory holds.
pub struct VramView {
    pub nametables: Seq<u8>,
    pub palette: Seq<u8>,
    pub read_buffer: u8,
    pub cartridge: Option<CartridgeView>,
}

impl VramView {
    pub open spec fn wf(self) -> bool {
        &&& self.nametables.len() == 2 * NAMETABLE_SIZE
        &&& self.palette.len() == PALETTE_SIZE
    }

    /// The wiring of the inserted cartridge; four-screen without one.
    pub open spec fn mirroring(self) -> Mirroring {
        match self.cartridge {
            Some(c) => c.data.header.mirroring,
            None => Mirroring::FourScreen,
        }
    }

    /// A read of the picture processor's address space.
    pub open spec fn read(self, address: u16) -> Result<u8, NesError> {
        if address <= 0x1FFF {
            match self.cartridge {
                Some(c) => chr_read(c, address),
                None => Err(NesError::NoCartridge),
            }
        } else if address <= 0x3EFF {
            let i = nametable_slot(self.mirroring(), address);
            if i < self.nametables.len() {
                Ok(self.nametables[i])
            } else {
                Err(NesError::AddressOutOfRange)
            }
        } else if address <= 0x3FFF {
            Ok(self.palette[palette_slot(address)])
        } else {
            Ok(0)
        }
    }

    /// A write to the picture processor's address space.
    pub open spec fn write(self, address: u16, value: u8) -> (Result<(), NesError>, VramView) {
        if address <= 0x1FFF {
            match self.cartridge {
                Some(c) => {
                    let (r, c2) = chr_write(c, address, value);
                    (r, VramView { cartridge: Some(c2), ..self })
                },
                None => (Ok(()), self),
            }
        } else if address <= 0x3EFF {
            let i = nametable_slot(self.mirroring(), address);
            if i < self.nametables.len() {
                (Ok(()), VramView { nametables: self.nametables.update(i, value), ..self })
            } else {
                (Err(NesError::AddressOutOfRange), self)
            }
        } else if address <= 0x3FFF {
            (
                Ok(()),
                VramView { palette: self.palette.update(palette_slot(address), value), ..self },
            )
        } else {
            (Ok(()), self)
        }
    }

    /// A read through the data port. Below the palette it returns the byte the
    /// previous read left in the buffer and refills the buffer; in palette
    /// space it returns the palette byte at once and refills the buffer from
    /// the nametable byte underneath.
    pub open spec fn buffered_read(self, address: u16) -> (Result<u8, NesError>, VramView) {
        if address < 0x3F00 {
            match self.read(address) {
                Ok(v) => (Ok(self.read_buffer), VramView { read_buffer: v, ..self }),
                Err(e) => (Err(e), self),
            }
        } else {
            let i = nametable_slot(self.mirroring(), address);
            if i < self.nametables.len() {
                (self.read(address), VramView { read_buffer: self.nametables[i], ..self })
            } else {
                (Err(NesError::AddressOutOfRange), self)
            }
        }
    }
}

/// Nametable and palette memory, with the cartridge whose character memory
/// fills the pattern tables.
pub struct Vram {
    pub nametables: Vec<u8>,
    pub palette: Vec<u8>,
    /// The byte that the next buffered read below the palette returns.
    pub read_buffer: u8,
    pub cartridge: Option<Cartridge>,
}

impl View for Vram {
    type V = VramView;

    open spec fn view(&self) -> VramView {
        VramView {
            nametables: self.nametables@,
            palette: self.palette@,
            read_buffer: self.read_buffer,
            cartridge: match self.cartridge {
                Some(c) => Some(c@),
                None => None,
            },
        }
    }
}

fn filled(n: usize, value: u8) -> (r: Vec<u8>)
    ensures
        r@ == Seq::new(n as nat, |i: int| value),
{
    let mut r: Vec<u8> = Vec::new();
    let mut i: usize = 0;
    while i < n
        invariant
            i <= n,
            r@ == Seq::new(i as nat, |k: int| value),
        decreases n - i,
    {
        r.push(value);
        i += 1;
    }
    r
}

impl Vram {
    pub fn new() -> (r: Vram)
        ensures
            r@.wf(),
            r@.nametables == Seq::new(2 * NAMETABLE_SIZE as nat, |i: int| 0u8),
            r@.palette == Seq::new(PALETTE_SIZE as nat, |i: int| 0u8),
            r@.read_buffer == 0,
            r@.cartridge is None,
    {
        Vram {
            nametables: filled(2 * NAMETABLE_SIZE, 0),
            palette: filled(PALETTE_SIZE, 0),
            read_buffer: 0,
            cartridge: None,
        }
    }

    /// Returns to power-on contents (nametables filled with 0xFF) and removes
    /// the cartridge.
    pub fn reset(&mut self)
        ensures
            final(self)@.wf(),
            final(self)@.nametables == Seq::new(2 * NAMETABLE_SIZE as nat, |i: int| 0xFFu8),
            final(self)@.palette == Seq::new(PALETTE_SIZE as nat, |i: int| 0u8),
            final(self)@.read_buffer == 0,
            final(self)@.cartridge is None,
    {
        self.nametables = filled(2 * NAMETABLE_SIZE, 0xFF);
        self.palette = filled(PALETTE_SIZE, 0);
        self.read_buffer = 0;
        self.cartridge = None;
    }

    pub fn set_cartridge(&mut self, cartridge: Cartridge)
        ensures
            final(self)@ == (VramView { cartridge: Some(cartridge@), ..old(self)@ }),
    {
        self.cartridge = Some(cartridge);
    }

    pub fn mirroring(&self) -> (r: Mirroring)
        ensures
            r == self@.mirroring(),
    {
        match &self.cartridge {
            Some(c) => c.mirroring(),
            None => Mirroring::FourScreen,
        }
    }

    pub fn write_byte(&mut self, address: u16, value: u8) -> (r: Result<(), NesError>)
        requires
            old(self)@.wf(),
        ensures
            (r, final(self)@) == old(self)@.write(address, value),
            final(self)@.wf(),
    {
        let mirroring = self.mirroring();
        if address <= 0x1FFF {
            match &mut self.cartridge {
                Some(c) => c.write_chr_byte(address, value),
                None => Ok(()),
            }
        } else if address <= 0x3EFF {
            let i = mirror_nametable(mirroring, address);
            if i < self.nametables.len() {
                self.nametables.set(i, value);
                Ok(())
            } else {
                Err(NesError::AddressOutOfRange)
            }
        } else if address <= 0x3FFF {
            let i = mirror_palette(address);
            self.palette.set(i, value);
            Ok(())
        } else {
            Ok(())
        }
    }

    pub fn read_byte(&self, address: u16) -> (r: Result<u8, NesError>)
        requires
            self@.wf(),
        ensures
            r == self@.read(address),
    {
        let mirroring = self.mirroring();
        if address <= 0x1FFF {
            match &self.cartridge {
                Some(c) => c.read_chr_byte(address),
                None => Err(NesError::NoCartridge),
            }
        } else if address <= 0x3EFF {
            let i = mirror_nametable(mirroring, address);
            if i < self.nametables.len() {
                Ok(self.nametables[i])
            } else {
                Err(NesError::AddressOutOfRange)
            }
        } else if address <= 0x3FFF {
            Ok(self.palette[mirror_palette(address)])
        } else {
            Ok(0)
        }
    }

    pub fn buffered_read_byte(&mut self, address: u16) -> (r: Result<u8, NesError>)
        requires
            old(self)@.wf(),
        ensures
            (r, final(self)@) == old(self)@.buffered_read(address),
            final(self)@.wf(),
    {
        if address < 0x3F00 {
            let value = self.read_buffer;
            match self.read_byte(address) {
                Ok(v) => {
                    self.read_buffer = v;
                    Ok(value)
                },
                Err(e) => Err(e),
            }
        } else {
            let mirroring = self.mirroring();
            let i = mirror_nametable(mirroring, address);
            if i < self.nametables.len() {
                self.read_buffer = self.nametables[i];
                self.read_byte(address)
            } else {
                Err(NesError::AddressOutOfRange)
            }
        }
    }
}

/// Under horizontal wiring the third and fourth logical nametables both land
/// on the second physical table, at the same offset.
pub proof fn lemma_horizontal_pairs(offset: u16)
    requires
        offset < 0x400,
    ensures
        nametable_slot(Mirroring::Horizontal, (0x2800 + offset) as u16) == 0x400 + offset,
        nametable_slot(Mirroring::Horizontal, (0x2C00 + offset) as u16) == 0x400 + offset,
        nametable_slot(Mirroring::Horizontal, (0x2000 + offset) as u16) == offset,
        nametable_slot(Mirroring::Horizontal, (0x2400 + offset) as u16) == offset,
{
}

} // verus!
