//! The 16-byte iNES header at the start of a cartridge image.
use std::ops::Range;
use vstd::prelude::*;

use crate::nes::mirroring::MirroringMode;

verus! {

pub const PRG_ROM_PAGE_SIZE: usize = 0x4000;
pub const PRG_RAM_PAGE_SIZE: usize = 0x2000;
pub const CHR_ROM_PAGE_SIZE: usize = 0x2000;
pub const CHR_RAM_PAGE_SIZE: usize = 0x2000;
pub const MAGIC_STRING_LENGTH: usize = 4;
pub const HEADER_LENGTH: usize = 16;

/// The mapper number of an image: the high nibble of byte 6 is its low
/// nibble, the high nibble of byte 7 its high nibble.
pub open spec fn spec_mapper_number(data: Seq<u8>) -> u8 {
    (data[6] >> 4u8) | (data[7] & 0xF0u8)
}

/// The mapper number stored in the header.
pub fn get_mapper_number(data: &[u8]) -> (r: u8)
    requires
        data@.len() >= 8,
    ensures
        r == spec_mapper_number(data@),
        r % 16 == data@[6] / 16,
        r / 16 == data@[7] / 16,
{
    let b6 = data[6];
    let b7 = data[7];
    let r = (b6 >> 4u8) | (b7 & 0xF0u8);
    assert(r % 16 == b6 / 16 && r / 16 == b7 / 16) by (bit_vector)
        requires
            r == (b6 >> 4u8) | (b7 & 0xF0u8),
    ;
    r
}

/// The mirroring mode named by bit 0 of header byte 6.
pub open spec fn spec_mirroring_mode(byte: u8) -> MirroringMode {
    if byte % 2 == 0 {
        MirroringMode::Horizontal
    } else {
        MirroringMode::Vertical
    }
}

/// The mirroring mode named by bit 0 of header byte 6: horizontal when it
/// is clear, vertical when it is set.
pub fn get_mirroring_mode(byte: u8) -> (r: MirroringMode)
    ensures
        r == spec_mirroring_mode(byte),
{
    let bit = byte & 1;
    assert(bit == byte % 2) by (bit_vector)
        requires
            bit == byte & 1,
    ;
    if bit == 0 {
        MirroringMode::Horizontal
    } else {
        MirroringMode::Vertical
    }
}

/// The fields of an iNES header.
#[derive(Clone, Copy, Debug)]
pub struct Header {
    pub has_valid_magic_string: bool,
    pub prg_rom_pages: usize,
    pub chr_rom_pages: usize,
    pub prg_ram_pages: usize,
    pub mapper_number: u8,
    pub mirroring_mode: MirroringMode,
}

/// The header that an image begins with.
pub open spec fn spec_header(data: Seq<u8>) -> Header {
    Header {
        has_valid_magic_string: data[0] == 0x4e && data[1] == 0x45 && data[2] == 0x53 && data[3]
            == 0x1a,
        prg_rom_pages: data[4] as usize,
        chr_rom_pages: data[5] as usize,
        prg_ram_pages: if data[8] == 0 {
            1
        } else {
            data[8] as usize
        },
        mapper_number: spec_mapper_number(data),
        mirroring_mode: spec_mirroring_mode(data[6]),
    }
}

impl Header {
    /// Whether the page counts are those a header byte can hold.
    pub open spec fn wf(self) -> bool {
        &&& self.prg_rom_pages <= 0xFF
        &&& self.chr_rom_pages <= 0xFF
        &&& 1 <= self.prg_ram_pages <= 0xFF
    }

    pub open spec fn spec_prg_rom_size(self) -> nat {
        (self.prg_rom_pages * 0x4000) as nat
    }

    pub open spec fn spec_chr_rom_size(self) -> nat {
        (self.chr_rom_pages * 0x2000) as nat
    }

    pub open spec fn spec_prg_ram_size(self) -> nat {
        (self.prg_ram_pages * 0x2000) as nat
    }

    /// CHR RAM is present, one 8 KiB page of it, exactly when the image
    /// holds no CHR ROM.
    pub open spec fn spec_chr_ram_size(self) -> nat {
        if self.chr_rom_pages > 0 {
            0
        } else {
            0x2000
        }
    }

    /// The number of bytes of an image with this header: the header, then
    /// PRG ROM, then CHR ROM.
    pub open spec fn spec_image_size(self) -> nat {
        (HEADER_LENGTH + self.spec_prg_rom_size() + self.spec_chr_rom_size()) as nat
    }

    /// Reads the header at the start of `data`.
    pub fn new(data: &[u8]) -> (r: Header)
        requires
            data@.len() >= HEADER_LENGTH,
        ensures
            r == spec_header(data@),
            r.wf(),
    {
        let has_valid_magic_string = data[0] == 0x4e && data[1] == 0x45 && data[2] == 0x53
            && data[3] == 0x1a;
        let prg_ram_pages: usize = if data[8] == 0 {
            1
        } else {
            data[8] as usize
        };
        Header {
            has_valid_magic_string,
            prg_rom_pages: data[4] as usize,
            chr_rom_pages: data[5] as usize,
            prg_ram_pages,
            mapper_number: get_mapper_number(data),
            mirroring_mode: get_mirroring_mode(data[6]),
        }
    }

    /// The bytes of the image that hold PRG ROM: those after the header.
    pub fn get_prg_rom_range(&self) -> (r: Range<usize>)
        requires
            self.wf(),
        ensures
            r.start == HEADER_LENGTH,
            r.end == HEADER_LENGTH + self.spec_prg_rom_size(),
    {
        HEADER_LENGTH..HEADER_LENGTH + self.get_prg_rom_size()
    }

    /// The bytes of the image that hold CHR ROM: those after PRG ROM.
    pub fn get_chr_rom_range(&self) -> (r: Range<usize>)
        requires
            self.wf(),
        ensures
            r.start == HEADER_LENGTH + self.spec_prg_rom_size(),
            r.end == self.spec_image_size(),
    {
        let start = self.get_prg_rom_range().end;
        start..start + self.get_chr_rom_size()
    }

    pub fn get_prg_rom_size(&self) -> (r: usize)
        requires
            self.wf(),
        ensures
            r == self.spec_prg_rom_size(),
    {
        self.prg_rom_pages * PRG_ROM_PAGE_SIZE
    }

    pub fn get_chr_rom_size(&self) -> (r: usize)
        requires
            self.wf(),
        ensures
            r == self.spec_chr_rom_size(),
    {
        self.chr_rom_pages * CHR_ROM_PAGE_SIZE
    }

    pub fn get_prg_ram_size(&self) -> (r: usize)
        requires
            self.wf(),
        ensures
            r == self.spec_prg_ram_size(),
    {
        self.prg_ram_pages * PRG_RAM_PAGE_SIZE
    }

    pub fn get_chr_ram_size(&self) -> (r: usize)
        ensures
            r == self.spec_chr_ram_size(),
    {
        if self.chr_rom_pages > 0 {
            0
        } else {
            CHR_RAM_PAGE_SIZE
        }
    }
}

} // verus!
