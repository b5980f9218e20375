//! The memory blocks of a cartridge, cut out of an iNES image.
use vstd::prelude::*;

use super::header::{spec_header, Header, HEADER_LENGTH};
use super::pager::Pager;

verus! {

/// Whether `data` starts with a header and holds all the ROM it announces.
pub open spec fn image_complete(data: Seq<u8>) -> bool {
    &&& data.len() >= HEADER_LENGTH
    &&& data.len() >= spec_header(data).spec_image_size()
}

/// The memory blocks cut out of an image: PRG ROM and CHR ROM as they
/// follow the header, zeroed PRG RAM and CHR RAM of the announced sizes.
pub open spec fn spec_data_view(data: Seq<u8>) -> DataView {
    let header = spec_header(data);
    DataView {
        header,
        prg_rom: data.subrange(HEADER_LENGTH as int, HEADER_LENGTH + header.spec_prg_rom_size()),
        chr_rom: data.subrange(
            HEADER_LENGTH + header.spec_prg_rom_size(),
            header.spec_image_size() as int,
        ),
        prg_ram: Seq::new(header.spec_prg_ram_size(), |i: int| 0u8),
        chr_ram: Seq::new(header.spec_chr_ram_size(), |i: int| 0u8),
    }
}

/// The contents of a cartridge: its header and its four memory blocks.
pub struct DataView {
    pub header: Header,
    pub prg_rom: Seq<u8>,
    pub prg_ram: Seq<u8>,
    pub chr_rom: Seq<u8>,
    pub chr_ram: Seq<u8>,
}

/// The header of a cartridge and its four memory blocks.
pub struct Data {
    pub header: Header,
    pub prg_rom: Pager,
    pub prg_ram: Pager,
    pub chr_rom: Pager,
    pub chr_ram: Pager,
}

impl View for Data {
    type V = DataView;

    open spec fn view(&self) -> DataView {
        DataView {
            header: self.header,
            prg_rom: self.prg_rom.data@,
            prg_ram: self.prg_ram.data@,
            chr_rom: self.chr_rom.data@,
            chr_ram: self.chr_ram.data@,
        }
    }
}

impl DataView {
    /// The blocks have the sizes that the header gives them.
    pub open spec fn wf(self) -> bool {
        &&& self.header.wf()
        &&& self.prg_rom.len() == self.header.spec_prg_rom_size()
        &&& self.chr_rom.len() == self.header.spec_chr_rom_size()
        &&& self.prg_ram.len() == self.header.spec_prg_ram_size()
        &&& self.chr_ram.len() == self.header.spec_chr_ram_size()
    }
}

impl Data {
    pub open spec fn wf(self) -> bool {
        self@.wf()
    }

    /// Cuts the ROM blocks out of an image and makes zeroed RAM blocks.
    pub fn new(data: &[u8]) -> (r: Data)
        requires
            image_complete(data@),
        ensures
            r.wf(),
            r@ == spec_data_view(data@),
            r.header == spec_header(data@),
            r.prg_rom.data@ == data@.subrange(
                HEADER_LENGTH as int,
                HEADER_LENGTH + r.header.spec_prg_rom_size(),
            ),
            r.chr_rom.data@ == data@.subrange(
                HEADER_LENGTH + r.header.spec_prg_rom_size(),
                r.header.spec_image_size() as int,
            ),
            r.prg_ram.data@ == Seq::new(r.header.spec_prg_ram_size(), |i: int| 0u8),
            r.chr_ram.data@ == Seq::new(r.header.spec_chr_ram_size(), |i: int| 0u8),
    {
        let header = Header::new(data);
        let prg_rom_range = header.get_prg_rom_range();
        let prg_rom_data = vstd::slice::slice_to_vec(
            vstd::slice::slice_subrange(data, prg_rom_range.start, prg_rom_range.end),
        );
        let chr_rom_range = header.get_chr_rom_range();
        let chr_rom_data = vstd::slice::slice_to_vec(
            vstd::slice::slice_subrange(data, chr_rom_range.start, chr_rom_range.end),
        );
        let prg_ram_size = header.get_prg_ram_size();
        let prg_ram_data = vec![0u8; prg_ram_size];
        let chr_ram_size = header.get_chr_ram_size();
        let chr_ram_data = vec![0u8; chr_ram_size];
        assert(prg_ram_data@ == Seq::new(header.spec_prg_ram_size(), |i: int| 0u8));
        assert(chr_ram_data@ == Seq::new(header.spec_chr_ram_size(), |i: int| 0u8));
        Data {
            header,
            prg_rom: Pager::new(prg_rom_data),
            chr_rom: Pager::new(chr_rom_data),
            prg_ram: Pager::new(prg_ram_data),
            chr_ram: Pager::new(chr_ram_data),
        }
    }
}

} // verus!
