//! Mapper 2 (UxROM), used by Mega Man, Castlevania, Contra and DuckTales:
//! a switchable 16 KiB PRG ROM bank at $8000-$BFFF, the last bank fixed at
//! $C000-$FFFF, and 8 KiB of CHR RAM.
use vstd::prelude::*;

use super::super::data::{Data, DataView};
use super::super::pager::{lemma_page_count, Page, PageSize};
use crate::nes::mirroring::MirroringMode;

verus! {

/// The contents of a UxROM cartridge: its memory and the selected bank.
pub struct UxromView {
    pub data: DataView,
    pub prg_bank: u8,
}

impl UxromView {
    pub open spec fn wf(self) -> bool {
        self.data.wf()
    }

    /// Reads are served from $4020 up; those of the switchable window need
    /// the selected bank to exist, those of the fixed window any bank.
    pub open spec fn can_read_prg(self, address: u16) -> bool {
        let pages = self.data.header.prg_rom_pages;
        &&& address >= 0x4020
        &&& 0x8000 <= address <= 0xBFFF ==> self.prg_bank < pages
        &&& 0xC000 <= address ==> pages >= 1
    }

    /// $4020-$7FFF read 0 (there is no PRG RAM), $8000-$BFFF the selected
    /// bank, $C000-$FFFF the last bank.
    pub open spec fn prg_value(self, address: u16) -> u8 {
        let d = self.data;
        if address <= 0x7FFF {
            0
        } else if address <= 0xBFFF {
            d.prg_rom[self.prg_bank * 0x4000 + (address - 0x8000)]
        } else {
            d.prg_rom[(d.header.prg_rom_pages - 1) * 0x4000 + (address - 0xC000)]
        }
    }

    pub open spec fn can_write_prg(self, address: u16) -> bool {
        address >= 0x4020
    }

    /// CHR reads and writes go to the 8 KiB of CHR RAM, which an image
    /// without CHR ROM has.
    pub open spec fn can_access_chr(self, address: u16) -> bool {
        self.data.header.chr_rom_pages == 0 && address < 0x2000
    }
}

pub struct Mapper2 {
    data: Data,
    /// The bank at $8000-$BFFF.
    pub prg_bank: u8,
}

impl View for Mapper2 {
    type V = UxromView;

    closed spec fn view(&self) -> UxromView {
        UxromView { data: self.data@, prg_bank: self.prg_bank }
    }
}

impl Mapper2 {
    pub fn new(data: Data) -> (r: Mapper2)
        ensures
            r@.data == data@,
            r@.prg_bank == 0,
    {
        Mapper2 { data, prg_bank: 0 }
    }

    pub fn read_prg_u8(&self, address: u16) -> (r: u8)
        requires
            self@.wf(),
            self@.can_read_prg(address),
        ensures
            r == self@.prg_value(address),
    {
        let d = &self.data;
        proof {
            lemma_page_count(d.prg_rom.data@.len(), d.header.prg_rom_pages as nat, 0x4000);
        }
        if address <= 0x7FFF {
            0x00
        } else if address <= 0xBFFF {
            proof {
                let n = d.header.prg_rom_pages as int;
                let b = self.prg_bank as int;
                assert(b * 0x4000 + (address - 0x8000) < n * 0x4000) by (nonlinear_arith)
                    requires b < n, address - 0x8000 < 0x4000;
            }
            d.prg_rom.read_u8(Page::Number(self.prg_bank as usize, PageSize::SixteenKb), address - 0x8000)
        } else {
            proof {
                let n = d.header.prg_rom_pages as int;
                assert((n - 1) * 0x4000 + (address - 0xC000) < n * 0x4000) by (nonlinear_arith)
                    requires n >= 1, address - 0xC000 < 0x4000;
            }
            d.prg_rom.read_u8(Page::Last(PageSize::SixteenKb), address - 0xC000)
        }
    }

    /// Writes to $8000-$FFFF select the bank at $8000 with their low four
    /// bits; other writes are ignored.
    pub fn write_prg_u8(&mut self, address: u16, value: u8)
        requires
            old(self)@.can_write_prg(address),
        ensures
            final(self)@.data == old(self)@.data,
            final(self)@.prg_bank == if address >= 0x8000 {
                value & 0x0F
            } else {
                old(self)@.prg_bank
            },
    {
        if address >= 0x8000 {
            self.prg_bank = value & 0x0F;
        }
    }

    pub fn read_chr_u8(&self, address: u16) -> (r: u8)
        requires
            self@.wf(),
            self@.can_access_chr(address),
        ensures
            r == self@.data.chr_ram[address as int],
    {
        proof {
            lemma_page_count(self.data.chr_ram.data@.len(), 1, 0x2000);
        }
        self.data.chr_ram.read_u8(Page::First(PageSize::EightKb), address)
    }

    pub fn write_chr_u8(&mut self, address: u16, value: u8)
        requires
            old(self)@.wf(),
            old(self)@.can_access_chr(address),
        ensures
            final(self)@.wf(),
            final(self)@.prg_bank == old(self)@.prg_bank,
            final(self)@.data == (DataView {
                chr_ram: old(self)@.data.chr_ram.update(address as int, value),
                ..old(self)@.data
            }),
    {
        proof {
            lemma_page_count(self.data.chr_ram.data@.len(), 1, 0x2000);
        }
        self.data.chr_ram.write_u8(Page::First(PageSize::EightKb), address, value);
    }

    /// The mirroring that the header names.
    pub fn get_mirroring_mode(&self) -> (r: MirroringMode)
        ensures
            r == self@.data.header.mirroring_mode,
    {
        self.data.header.mirroring_mode
    }
}

/// Whatever bank is selected, $C000-$FFFF reads the last bank, and
/// $8000-$BFFF reads the selected one.
pub proof fn lemma_last_bank_fixed(v: UxromView, bank: u8, address: u16)
    requires
        v.wf(),
        address >= 0x8000,
    ensures
        ({
            let w = UxromView { prg_bank: bank, ..v };
            &&& address >= 0xC000 ==> w.prg_value(address) == v.prg_value(address)
                && w.prg_value(address) == v.data.prg_rom[(v.data.header.prg_rom_pages - 1)
                * 0x4000 + (address - 0xC000)]
            &&& address < 0xC000 ==> w.prg_value(address) == v.data.prg_rom[bank * 0x4000 + (
            address - 0x8000)]
        }),
{
}

} // verus!
