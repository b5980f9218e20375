//! Mapper 0 (NROM): no bank switching. PRG ROM of one or two 16 KiB pages
//! at $8000-$FFFF (one page appears twice), 8 KiB of PRG RAM at
//! $6000-$7FFF, 8 KiB of CHR ROM or CHR RAM.
use vstd::prelude::*;

use super::super::data::{Data, DataView};
use super::super::pager::{lemma_page_count, Page, PageSize};
use crate::nes::mirroring::MirroringMode;

verus! {

/// Reads in $6000-$FFFF are served; those of PRG ROM need a PRG ROM page.
pub open spec fn nrom_can_read_prg(d: DataView, address: u16) -> bool {
    &&& address >= 0x6000
    &&& address >= 0x8000 ==> d.header.prg_rom_pages >= 1
}

/// PRG RAM at $6000-$7FFF, the first PRG ROM page at $8000-$BFFF, the
/// last at $C000-$FFFF.
pub open spec fn nrom_prg_value(d: DataView, address: u16) -> u8 {
    if address <= 0x7FFF {
        d.prg_ram[address - 0x6000]
    } else if address <= 0xBFFF {
        d.prg_rom[address - 0x8000]
    } else {
        d.prg_rom[(d.header.prg_rom_pages - 1) * 0x4000 + (address - 0xC000)]
    }
}

/// Only PRG RAM ($6000-$7FFF) takes writes.
pub open spec fn nrom_can_write_prg(d: DataView, address: u16) -> bool {
    0x6000 <= address <= 0x7FFF
}

pub open spec fn nrom_after_write_prg(d: DataView, address: u16, value: u8) -> DataView {
    DataView { prg_ram: d.prg_ram.update(address - 0x6000, value), ..d }
}

/// Reads of the pattern tables ($0000-$1FFF) are served.
pub open spec fn nrom_can_read_chr(d: DataView, address: u16) -> bool {
    address < 0x2000
}

/// CHR RAM when the image has no CHR ROM, CHR ROM otherwise.
pub open spec fn nrom_chr_value(d: DataView, address: u16) -> u8 {
    if d.header.chr_rom_pages == 0 {
        d.chr_ram[address as int]
    } else {
        d.chr_rom[address as int]
    }
}

/// Writes reach CHR RAM, which must hold the address; CHR ROM ignores them.
pub open spec fn nrom_can_write_chr(d: DataView, address: u16) -> bool {
    d.header.chr_rom_pages != 0 || address < 0x2000
}

pub open spec fn nrom_after_write_chr(d: DataView, address: u16, value: u8) -> DataView {
    if d.header.chr_rom_pages == 0 {
        DataView { chr_ram: d.chr_ram.update(address as int, value), ..d }
    } else {
        d
    }
}

pub struct Mapper0 {
    data: Data,
}

impl View for Mapper0 {
    type V = DataView;

    closed spec fn view(&self) -> DataView {
        self.data@
    }
}

impl Mapper0 {
    pub fn new(data: Data) -> (r: Mapper0)
        ensures
            r@ == data@,
    {
        Mapper0 { data }
    }

    pub fn read_prg_u8(&self, address: u16) -> (r: u8)
        requires
            self@.wf(),
            nrom_can_read_prg(self@, address),
        ensures
            r == nrom_prg_value(self@, address),
    {
        let d = &self.data;
        proof {
            lemma_page_count(d.prg_ram.data@.len(), d.header.prg_ram_pages as nat, 0x2000);
            lemma_page_count(d.prg_rom.data@.len(), d.header.prg_rom_pages as nat, 0x4000);
        }
        if address <= 0x7FFF {
            d.prg_ram.read_u8(Page::First(PageSize::EightKb), address - 0x6000)
        } else if address <= 0xBFFF {
            d.prg_rom.read_u8(Page::First(PageSize::SixteenKb), address - 0x8000)
        } else {
            proof {
                let n = d.header.prg_rom_pages as int;
                assert((n - 1) * 0x4000 + (address - 0xC000) < n * 0x4000) by (nonlinear_arith)
                    requires n >= 1, address - 0xC000 < 0x4000;
            }
            d.prg_rom.read_u8(Page::Last(PageSize::SixteenKb), address - 0xC000)
        }
    }

    pub fn write_prg_u8(&mut self, address: u16, value: u8)
        requires
            old(self)@.wf(),
            nrom_can_write_prg(old(self)@, address),
        ensures
            final(self)@ == nrom_after_write_prg(old(self)@, address, value),
    {
        proof {
            lemma_page_count(self.data.prg_ram.data@.len(), self.data.header.prg_ram_pages as nat, 0x2000);
        }
        self.data.prg_ram.write_u8(Page::First(PageSize::EightKb), address - 0x6000, value);
    }

    pub fn read_chr_u8(&self, address: u16) -> (r: u8)
        requires
            self@.wf(),
            nrom_can_read_chr(self@, address),
        ensures
            r == nrom_chr_value(self@, address),
    {
        let d = &self.data;
        if d.header.chr_rom_pages == 0 {
            proof {
                lemma_page_count(d.chr_ram.data@.len(), 1, 0x2000);
            }
            d.chr_ram.read_u8(Page::First(PageSize::EightKb), address)
        } else {
            proof {
                lemma_page_count(d.chr_rom.data@.len(), d.header.chr_rom_pages as nat, 0x2000);
            }
            d.chr_rom.read_u8(Page::First(PageSize::EightKb), address)
        }
    }

    pub fn write_chr_u8(&mut self, address: u16, value: u8)
        requires
            old(self)@.wf(),
            nrom_can_write_chr(old(self)@, address),
        ensures
            final(self)@ == nrom_after_write_chr(old(self)@, address, value),
    {
        if self.data.header.chr_rom_pages == 0 {
            proof {
                lemma_page_count(self.data.chr_ram.data@.len(), 1, 0x2000);
            }
            self.data.chr_ram.write_u8(Page::First(PageSize::EightKb), address, value);
        }
    }

    /// The mirroring that the header names.
    pub fn get_mirroring_mode(&self) -> (r: MirroringMode)
        ensures
            r == self@.header.mirroring_mode,
    {
        self.data.header.mirroring_mode
    }
}

} // verus!
