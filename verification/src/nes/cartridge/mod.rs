//! A cartridge: an iNES image's memory behind the mapper that its header
//! names.
use vstd::prelude::*;

pub mod data;
pub mod header;
pub mod mapper;
pub mod pager;

use crate::nes::mirroring::MirroringMode;
use data::{image_complete, spec_data_view, Data, DataView};
use header::{spec_header, HEADER_LENGTH};
use mapper::mapper0::{
    nrom_after_write_chr, nrom_after_write_prg, nrom_can_read_chr, nrom_can_read_prg,
    nrom_can_write_chr, nrom_can_write_prg, nrom_chr_value, nrom_prg_value, Mapper0,
};
use mapper::mapper1::{Mapper1, Mmc1Registers, Mmc1View};

verus! {

/// The contents of a cartridge, by mapper.
pub enum CartridgeView {
    Nrom(DataView),
    Mmc1(Mmc1View),
}

impl CartridgeView {
    pub open spec fn wf(self) -> bool {
        match self {
            CartridgeView::Nrom(d) => d.wf(),
            CartridgeView::Mmc1(m) => m.wf(),
        }
    }

    pub open spec fn can_read_prg(self, address: u16) -> bool {
        match self {
            CartridgeView::Nrom(d) => nrom_can_read_prg(d, address),
            CartridgeView::Mmc1(m) => m.can_read_prg(address),
        }
    }

    pub open spec fn prg_value(self, address: u16) -> u8 {
        match self {
            CartridgeView::Nrom(d) => nrom_prg_value(d, address),
            CartridgeView::Mmc1(m) => m.prg_value(address),
        }
    }

    pub open spec fn can_write_prg(self, address: u16) -> bool {
        match self {
            CartridgeView::Nrom(d) => nrom_can_write_prg(d, address),
            CartridgeView::Mmc1(m) => m.can_write_prg(address),
        }
    }

    pub open spec fn after_write_prg(self, address: u16, value: u8) -> CartridgeView {
        match self {
            CartridgeView::Nrom(d) => CartridgeView::Nrom(nrom_after_write_prg(d, address, value)),
            CartridgeView::Mmc1(m) => CartridgeView::Mmc1(m.after_write_prg(address, value)),
        }
    }

    pub open spec fn can_read_chr(self, address: u16) -> bool {
        match self {
            CartridgeView::Nrom(d) => nrom_can_read_chr(d, address),
            CartridgeView::Mmc1(m) => m.can_read_chr(address),
        }
    }

    pub open spec fn chr_value(self, address: u16) -> u8 {
        match self {
            CartridgeView::Nrom(d) => nrom_chr_value(d, address),
            CartridgeView::Mmc1(m) => m.chr_value(address),
        }
    }

    pub open spec fn can_write_chr(self, address: u16) -> bool {
        match self {
            CartridgeView::Nrom(d) => nrom_can_write_chr(d, address),
            CartridgeView::Mmc1(m) => m.can_write_chr(address),
        }
    }

    pub open spec fn after_write_chr(self, address: u16, value: u8) -> CartridgeView {
        match self {
            CartridgeView::Nrom(d) => CartridgeView::Nrom(nrom_after_write_chr(d, address, value)),
            CartridgeView::Mmc1(m) => CartridgeView::Mmc1(m.after_write_chr(address, value)),
        }
    }

    /// Whether PRG RAM takes writes: always on NROM; on the MMC1 while the
    /// PRG bank register does not disable it.
    pub open spec fn prg_ram_enabled(self) -> bool {
        match self {
            CartridgeView::Nrom(_) => true,
            CartridgeView::Mmc1(m) => m.registers.prg_ram_enabled(),
        }
    }

    /// Whether the pattern tables are RAM: the image holds no CHR ROM.
    pub open spec fn has_chr_ram(self) -> bool {
        match self {
            CartridgeView::Nrom(d) => d.header.chr_rom_pages == 0,
            CartridgeView::Mmc1(m) => m.data.header.chr_rom_pages == 0,
        }
    }

    pub open spec fn mirroring(self) -> MirroringMode {
        match self {
            CartridgeView::Nrom(d) => d.header.mirroring_mode,
            CartridgeView::Mmc1(m) => m.registers.mirroring(),
        }
    }
}

/// Whether an image can be loaded: it is complete and names mapper 0 or 1.
pub open spec fn loadable(data: Seq<u8>) -> bool {
    &&& image_complete(data)
    &&& spec_header(data).mapper_number == 0 || spec_header(data).mapper_number == 1
}

/// The cartridge that a loadable image makes.
pub open spec fn spec_cartridge(data: Seq<u8>) -> CartridgeView {
    if spec_header(data).mapper_number == 0 {
        CartridgeView::Nrom(spec_data_view(data))
    } else {
        CartridgeView::Mmc1(
            Mmc1View {
                data: spec_data_view(data),
                registers: Mmc1Registers {
                    shift_register: 0,
                    shift_count: 0,
                    control: 0x0C,
                    chr_bank_0: 0,
                    chr_bank_1: 0,
                    prg_bank: 0,
                },
            },
        )
    }
}

enum Mapper {
    Nrom(Mapper0),
    Mmc1(Mapper1),
}

pub struct Cartridge {
    mapper: Mapper,
}

impl View for Cartridge {
    type V = CartridgeView;

    closed spec fn view(&self) -> CartridgeView {
        match self.mapper {
            Mapper::Nrom(m) => CartridgeView::Nrom(m@),
            Mapper::Mmc1(m) => CartridgeView::Mmc1(m@),
        }
    }
}

/// Whether `data` is an image that `Cartridge::new` accepts.
pub fn is_loadable(data: &[u8]) -> (r: bool)
    ensures
        r == loadable(data@),
{
    if data.len() < HEADER_LENGTH {
        return false;
    }
    let header = header::Header::new(data);
    let prg = header.get_prg_rom_size();
    let chr = header.get_chr_rom_size();
    data.len() - HEADER_LENGTH >= prg && data.len() - HEADER_LENGTH - prg >= chr && (
    header.mapper_number == 0 || header.mapper_number == 1)
}

impl Cartridge {
    /// Builds the cartridge of an image with mapper 0 (NROM) or 1 (MMC1).
    pub fn new(data: &[u8]) -> (r: Cartridge)
        requires
            loadable(data@),
        ensures
            r@ == spec_cartridge(data@),
            r@.wf(),
    {
        let data = Data::new(data);
        let mapper = if data.header.mapper_number == 0 {
            Mapper::Nrom(Mapper0::new(data))
        } else {
            Mapper::Mmc1(Mapper1::new(data))
        };
        Cartridge { mapper }
    }

    pub fn read_prg_u8(&self, address: u16) -> (r: u8)
        requires
            self@.wf(),
            self@.can_read_prg(address),
        ensures
            r == self@.prg_value(address),
    {
        match &self.mapper {
            Mapper::Nrom(m) => m.read_prg_u8(address),
            Mapper::Mmc1(m) => m.read_prg_u8(address),
        }
    }

    pub fn write_prg_u8(&mut self, address: u16, value: u8)
        requires
            old(self)@.wf(),
            old(self)@.can_write_prg(address),
        ensures
            final(self)@ == old(self)@.after_write_prg(address, value),
            final(self)@.wf(),
    {
        match &mut self.mapper {
            Mapper::Nrom(m) => m.write_prg_u8(address, value),
            Mapper::Mmc1(m) => m.write_prg_u8(address, value),
        }
    }

    pub fn read_chr_u8(&self, address: u16) -> (r: u8)
        requires
            self@.wf(),
            self@.can_read_chr(address),
        ensures
            r == self@.chr_value(address),
    {
        match &self.mapper {
            Mapper::Nrom(m) => m.read_chr_u8(address),
            Mapper::Mmc1(m) => m.read_chr_u8(address),
        }
    }

    pub fn write_chr_u8(&mut self, address: u16, value: u8)
        requires
            old(self)@.wf(),
            old(self)@.can_write_chr(address),
        ensures
            final(self)@ == old(self)@.after_write_chr(address, value),
            final(self)@.wf(),
    {
        match &mut self.mapper {
            Mapper::Nrom(m) => m.write_chr_u8(address, value),
            Mapper::Mmc1(m) => m.write_chr_u8(address, value),
        }
    }

    pub fn get_mirroring_mode(&self) -> (r: MirroringMode)
        ensures
            r == self@.mirroring(),
    {
        match &self.mapper {
            Mapper::Nrom(m) => m.get_mirroring_mode(),
            Mapper::Mmc1(m) => m.get_mirroring_mode(),
        }
    }
}

/// A write to PRG RAM ($6000-$7FFF), while it is enabled, is what a read
/// of that address gives afterwards, and no other address reads
/// differently.
pub proof fn lemma_prg_ram_read_back(c: CartridgeView, address: u16, value: u8, other: u16)
    requires
        c.wf(),
        0x6000 <= address <= 0x7FFF,
        c.prg_ram_enabled(),
    ensures
        c.can_write_prg(address),
        c.after_write_prg(address, value).wf(),
        c.after_write_prg(address, value).can_read_prg(address),
        c.after_write_prg(address, value).prg_value(address) == value,
        other != address && c.can_read_prg(other) ==> c.after_write_prg(address, value).can_read_prg(
            other,
        ) && c.after_write_prg(address, value).prg_value(other) == c.prg_value(other),
{
}

/// On a cartridge with CHR RAM, a write to the pattern tables ($0000-$1FFF)
/// is what a read of that address gives afterwards, and no other address
/// reads differently.
pub proof fn lemma_chr_ram_read_back(c: CartridgeView, address: u16, value: u8, other: u16)
    requires
        c.wf(),
        c.has_chr_ram(),
        address < 0x2000,
    ensures
        c.can_write_chr(address),
        c.after_write_chr(address, value).wf(),
        c.after_write_chr(address, value).can_read_chr(address),
        c.after_write_chr(address, value).chr_value(address) == value,
        other != address && c.can_read_chr(other) ==> c.after_write_chr(address, value).can_read_chr(
            other,
        ) && c.after_write_chr(address, value).chr_value(other) == c.chr_value(other),
{
}

/// CHR ROM ignores writes: the cartridge stays as it was.
pub proof fn lemma_chr_rom_ignores_writes(c: CartridgeView, address: u16, value: u8)
    requires
        c.wf(),
        !c.has_chr_ram(),
    ensures
        c.can_write_chr(address),
        c.after_write_chr(address, value) == c,
{
}

} // verus!
