use vstd::prelude::*;

use crate::error::NesError;

verus! {

pub const PRG_ROM_PAGE_SIZE: usize = 0x4000;

pub const PRG_RAM_PAGE_SIZE: usize = 0x2000;

pub const CHR_ROM_PAGE_SIZE: usize = 0x2000;

pub const CHR_RAM_PAGE_SIZE: usize = 0x2000;

/// The length of the fixed header that precedes program ROM in an image.
pub const HEADER_SIZE: usize = 16;

/// How the two physical nametables are wired onto the four logical ones.
#[derive(Debug, Clone, Copy, PartialEq, Eq, Structural)]
pub enum Mirroring {
    Horizontal,
    Vertical,
    /// Four-screen wiring: addresses map straight onto nametable memory.
    FourScreen,
}

/// The static metadata at the start of a cartridge image.
#[derive(Debug, Clone, Copy, PartialEq, Eq, Structural)]
pub struct Header {
    pub mapper_number: u8,
    pub mirroring: Mirroring,
    pub prg_rom_pages: usize,
    pub prg_ram_pages: usize,
    pub chr_rom_pages: usize,
}

/// Whether an image starts with the magic bytes `N E S 0x1A`.
pub open spec fn has_magic(data: Seq<u8>) -> bool {
    data.len() >= 4 && data[0] == 0x4E && data[1] == 0x45 && data[2] == 0x53 && data[3] == 0x1A
}

/// The mapper id: low nibble from the high half of byte 6, high nibble from byte 7.
pub open spec fn mapper_id(flags6: u8, flags7: u8) -> int {
    (flags6 / 16) as int + (flags7 / 16) as int * 16
}

/// The header that a well-formed image of at least a header's length describes.
pub open spec fn parse_header(data: Seq<u8>) -> Header {
    Header {
        mapper_number: mapper_id(data[6], data[7]) as u8,
        mirroring: if data[6] % 2 == 0 {
            Mirroring::Horizontal
        } else {
            Mirroring::Vertical
        },
        prg_rom_pages: data[4] as usize,
        prg_ram_pages: if data[8] == 0 {
            1
        } else {
            data[8] as usize
        },
        chr_rom_pages: data[5] as usize,
    }
}

impl Header {
    /// Page counts as a header byte can hold them.
    pub open spec fn wf(self) -> bool {
        &&& self.prg_rom_pages <= 255
        &&& 1 <= self.prg_ram_pages <= 255
        &&& self.chr_rom_pages <= 255
    }

    pub open spec fn spec_prg_rom_bytes(self) -> int {
        self.prg_rom_pages * PRG_ROM_PAGE_SIZE
    }

    pub open spec fn spec_prg_ram_bytes(self) -> int {
        self.prg_ram_pages * PRG_RAM_PAGE_SIZE
    }

    pub open spec fn spec_chr_rom_bytes(self) -> int {
        self.chr_rom_pages * CHR_ROM_PAGE_SIZE
    }

    /// Character RAM exists, one page of it, only where there is no character ROM.
    pub open spec fn spec_chr_ram_bytes(self) -> int {
        if self.chr_rom_pages == 0 {
            CHR_RAM_PAGE_SIZE as int
        } else {
            0
        }
    }

    /// Reads the header of a cartridge image. The image must be at least a header
    /// long and start with the magic bytes.
    pub fn new(data: &[u8]) -> (r: Result<Header, NesError>)
        ensures
            data@.len() >= HEADER_SIZE && has_magic(data@) ==> r == Ok::<Header, NesError>(
                parse_header(data@),
            ),
            !(data@.len() >= HEADER_SIZE && has_magic(data@)) ==> r == Err::<Header, NesError>(
                NesError::MalformedCartridgeHeader,
            ),
            r is Ok ==> r->Ok_0.wf(),
    {
        if data.len() < HEADER_SIZE || data[0] != 0x4E || data[1] != 0x45 || data[2] != 0x53
            || data[3] != 0x1A {
            return Err(NesError::MalformedCartridgeHeader);
        }
        let flags6 = data[6];
        let flags7 = data[7];
        let mapper_number = (flags6 >> 4) | (flags7 & 0xF0);
        assert(mapper_number == (flags6 / 16) + (flags7 / 16) * 16) by (bit_vector)
            requires
                mapper_number == (flags6 >> 4) | (flags7 & 0xF0),
        ;
        assert((flags6 & 0x01 == 0) == (flags6 % 2 == 0)) by (bit_vector);
        Ok(
            Header {
                mapper_number,
                mirroring: if flags6 & 0x01 == 0 {
                    Mirroring::Horizontal
                } else {
                    Mirroring::Vertical
                },
                prg_rom_pages: data[4] as usize,
                prg_ram_pages: if data[8] == 0 {
                    1
                } else {
                    data[8] as usize
                },
                chr_rom_pages: data[5] as usize,
            },
        )
    }

    /// The bytes of the image that hold program ROM.
    pub fn prg_rom_range(&self) -> (r: std::ops::Range<usize>)
        requires
            self.wf(),
        ensures
            r.start == HEADER_SIZE,
            r.end == HEADER_SIZE + self.spec_prg_rom_bytes(),
    {
        HEADER_SIZE..HEADER_SIZE + self.prg_rom_bytes()
    }

    /// The bytes of the image that hold character ROM, right after program ROM.
    pub fn chr_rom_range(&self) -> (r: std::ops::Range<usize>)
        requires
            self.wf(),
        ensures
            r.start == HEADER_SIZE + self.spec_prg_rom_bytes(),
            r.end == HEADER_SIZE + self.spec_prg_rom_bytes() + self.spec_chr_rom_bytes(),
    {
        let prg_range = self.prg_rom_range();
        prg_range.end..prg_range.end + self.chr_rom_bytes()
    }

    pub fn prg_rom_bytes(&self) -> (r: usize)
        requires
            self.wf(),
        ensures
            r == self.spec_prg_rom_bytes(),
    {
        self.prg_rom_pages * PRG_ROM_PAGE_SIZE
    }

    pub fn prg_ram_bytes(&self) -> (r: usize)
        requires
            self.wf(),
        ensures
            r == self.spec_prg_ram_bytes(),
    {
        self.prg_ram_pages * PRG_RAM_PAGE_SIZE
    }

    pub fn chr_rom_bytes(&self) -> (r: usize)
        requires
            self.wf(),
        ensures
            r == self.spec_chr_rom_bytes(),
    {
        self.chr_rom_pages * CHR_ROM_PAGE_SIZE
    }

    pub fn chr_ram_bytes(&self) -> (r: usize)
        ensures
            r == self.spec_chr_ram_bytes(),
    {
        if self.chr_rom_pages == 0 {
            CHR_RAM_PAGE_SIZE
        } else {
            0
        }
    }
}

} // verus!
