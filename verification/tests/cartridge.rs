use greenstone::nes::cartridge::data::Data;
use greenstone::nes::cartridge::header::{
    Header, CHR_ROM_PAGE_SIZE, HEADER_LENGTH, PRG_RAM_PAGE_SIZE, PRG_ROM_PAGE_SIZE,
};
use greenstone::nes::cartridge::mapper::mapper2::Mapper2;
use greenstone::nes::cartridge::pager::{Page, PageSize, Pager};
use greenstone::nes::cartridge::{is_loadable, Cartridge};
use greenstone::nes::mirroring::MirroringMode;

fn build_cartridge(chr_ram: bool) -> Cartridge {
    let mut data = vec![
        0x4e, 0x45, 0x53, 0x1a, 0x02, 0x00, 0x00, 0x00, 0x01, 0x00, 0x00, 0x00, 0x00, 0x00, 0x00,
        0x00,
    ];
    data[5] = !chr_ram as u8;
    for i in 0..0x8000u16 / 2 {
        data.push((i >> 8) as u8);
        data.push(i as u8);
    }
    if !chr_ram {
        for i in 0..0x2000u16 / 2 {
            data.push((i >> 8) as u8);
            data.push(i as u8);
        }
    }
    Cartridge::new(&data)
}

#[test]
fn test_read_prg_rom() {
    let cartridge = build_cartridge(false);
    for i in 0..0x8000u16 {
        if i % 2 == 0 {
            assert_eq!(cartridge.read_prg_u8(0x8000 + i), ((i / 2) >> 8) as u8);
        } else {
            assert_eq!(cartridge.read_prg_u8(0x8000 + i), (i / 2) as u8);
        }
    }
}

#[test]
fn test_prg_ram() {
    let mut cartridge = build_cartridge(false);
    for i in 0x6000u16..0x7000u16 {
        cartridge.write_prg_u8(i, i as u8);
        assert_eq!(cartridge.read_prg_u8(i), i as u8);
    }
}

#[test]
fn test_read_chr_rom() {
    let cartridge = build_cartridge(false);
    for i in 0..0x2000u16 {
        if i % 2 == 0 {
            assert_eq!(cartridge.read_chr_u8(i), ((i / 2) >> 8) as u8);
        } else {
            assert_eq!(cartridge.read_chr_u8(i), (i / 2) as u8);
        }
    }
}

#[test]
fn test_chr_ram() {
    let mut cartridge = build_cartridge(true);
    for i in 0..0x2000u16 {
        cartridge.write_chr_u8(i, i as u8);
        assert_eq!(cartridge.read_chr_u8(i), i as u8);
    }
}

#[test]
fn writes_to_chr_rom_leave_it_unchanged() {
    let mut cartridge = build_cartridge(false);
    let before = cartridge.read_chr_u8(0x0003);
    cartridge.write_chr_u8(0x0003, before.wrapping_add(1));
    assert_eq!(cartridge.read_chr_u8(0x0003), before);
}

#[test]
fn loadable_images() {
    let mut data = vec![
        0x4e, 0x45, 0x53, 0x1a, 0x01, 0x01, 0x00, 0x00, 0x00, 0x00, 0x00, 0x00, 0x00, 0x00, 0x00,
        0x00,
    ];
    data.resize(16 + 0x4000 + 0x2000, 0);
    assert!(is_loadable(&data));
    // Too short for the pages its header names.
    assert!(!is_loadable(&data[..16 + 0x4000]));
    // No header at all.
    assert!(!is_loadable(&data[..8]));
    // A mapper that is not implemented (UxROM is not reachable from a cartridge).
    let mut uxrom = data.clone();
    uxrom[6] = 0x20;
    assert!(!is_loadable(&uxrom));
}

fn build_pager() -> Pager {
    let mut data = Vec::new();
    for i in 0..(PageSize::SixteenKb.bytes() * 4) {
        data.push(i as u8);
    }
    Pager::new(data)
}

#[test]
fn test_page_count() {
    let pager = build_pager();
    assert_eq!(4, pager.get_page_count(PageSize::SixteenKb));
    assert_eq!(8, pager.get_page_count(PageSize::EightKb));
    assert_eq!(16, pager.get_page_count(PageSize::FourKb));
}

#[test]
fn test_index_first() {
    let pager = build_pager();
    assert_eq!(4, pager.get_index(Page::First(PageSize::SixteenKb), 4));
    assert_eq!(8, pager.get_index(Page::First(PageSize::SixteenKb), 8));
}

#[test]
fn test_index_last() {
    let pager = build_pager();
    assert_eq!(0x4000 * 3 + 42, pager.get_index(Page::Last(PageSize::SixteenKb), 42));
}

#[test]
fn test_index_number() {
    let pager = build_pager();
    assert_eq!(0x1000 * 3 + 36, pager.get_index(Page::Number(3, PageSize::FourKb), 36));
}

#[test]
fn test_rw() {
    let mut pager = build_pager();
    pager.write_u8(Page::Last(PageSize::FourKb), 5, 0x66);
    assert_eq!(0x66, pager.read_u8(Page::Last(PageSize::FourKb), 5));
    assert_eq!(0x66, pager.read_u8(Page::Last(PageSize::SixteenKb), 0x1000 * 3 + 5));
}

#[test]
fn pager_write_leaves_other_bytes() {
    let mut pager = build_pager();
    pager.write_u8(Page::Number(1, PageSize::EightKb), 7, 0xAB);
    assert_eq!(0xAB, pager.read_u8(Page::Number(1, PageSize::EightKb), 7));
    assert_eq!(8, pager.read_u8(Page::Number(1, PageSize::EightKb), 8));
    assert_eq!(6, pager.read_u8(Page::Number(1, PageSize::EightKb), 6));
    assert_eq!(0x2000 + 7, pager.get_index(Page::FromEnd(6, PageSize::EightKb), 7));
}

const TEST_HEADER: [u8; HEADER_LENGTH] = [
    0x4e, 0x45, 0x53, 0x1a, 0x10, 0x12, 0x11, 0x00, 0x13, 0x00, 0x00, 0x00, 0x00, 0x00, 0x00, 0x00,
];

#[test]
fn test_header() {
    let header = Header::new(&TEST_HEADER);
    assert!(header.has_valid_magic_string);
    assert_eq!(MirroringMode::Vertical, header.mirroring_mode);
    assert_eq!(0x10, header.prg_rom_pages);
    assert_eq!(0x10 * PRG_ROM_PAGE_SIZE, header.get_prg_rom_size());
    assert_eq!(16..16 + 0x10 * PRG_ROM_PAGE_SIZE, header.get_prg_rom_range());
    assert_eq!(0x12, header.chr_rom_pages);
    assert_eq!(0x12 * CHR_ROM_PAGE_SIZE, header.get_chr_rom_size());
    assert_eq!(
        16 + 0x10 * PRG_ROM_PAGE_SIZE
            ..16 + (0x10 * PRG_ROM_PAGE_SIZE) + (0x12 * CHR_ROM_PAGE_SIZE),
        header.get_chr_rom_range()
    );
    assert_eq!(0x13, header.prg_ram_pages);
    assert_eq!(0x13 * PRG_RAM_PAGE_SIZE, header.get_prg_ram_size());
    assert_eq!(0x01, header.mapper_number);
}

#[test]
fn header_without_magic_string_or_chr_rom() {
    let mut bytes = TEST_HEADER;
    bytes[0] = 0x4f;
    bytes[5] = 0;
    bytes[6] = 0x08;
    bytes[8] = 0;
    let header = Header::new(&bytes);
    assert!(!header.has_valid_magic_string);
    assert_eq!(MirroringMode::Horizontal, header.mirroring_mode);
    assert_eq!(0, header.get_chr_rom_size());
    assert_eq!(0x2000, header.get_chr_ram_size());
    assert_eq!(0x2000, header.get_prg_ram_size());
}

fn build_mapper2(prg_banks: u8) -> Mapper2 {
    let mut data = vec![
        0x4e, 0x45, 0x53, 0x1a, prg_banks, 0x00, 0x20, 0x00, 0x00, 0x00, 0x00, 0x00, 0x00, 0x00,
        0x00, 0x00,
    ];
    for bank in 0..prg_banks {
        for i in 0..0x4000usize {
            if i < 4 {
                data.push(bank);
            } else {
                data.push((i & 0xFF) as u8);
            }
        }
    }
    let cart_data = Data::new(&data);
    Mapper2::new(cart_data)
}

#[test]
fn test_initial_bank_is_zero() {
    let mapper = build_mapper2(8);
    assert_eq!(mapper.read_prg_u8(0x8000), 0);
}

#[test]
fn test_last_bank_fixed() {
    let mapper = build_mapper2(8);
    assert_eq!(mapper.read_prg_u8(0xC000), 7);
}

#[test]
fn test_bank_switching() {
    let mut mapper = build_mapper2(8);
    mapper.write_prg_u8(0x8000, 3);
    assert_eq!(mapper.read_prg_u8(0x8000), 3);
    mapper.write_prg_u8(0x8000, 5);
    assert_eq!(mapper.read_prg_u8(0x8000), 5);
    assert_eq!(mapper.read_prg_u8(0xC000), 7);
}

#[test]
fn test_bank_mask() {
    let mut mapper = build_mapper2(8);
    mapper.write_prg_u8(0x8000, 0xFF);
    assert_eq!(mapper.prg_bank, 0x0F);
}

#[test]
fn test_chr_ram_read_write() {
    let mut mapper = build_mapper2(2);
    for i in 0..0x2000u16 {
        mapper.write_chr_u8(i, (i & 0xFF) as u8);
    }
    for i in 0..0x2000u16 {
        assert_eq!(mapper.read_chr_u8(i), (i & 0xFF) as u8);
    }
}

fn build_mmc1(prg_banks: u8) -> Cartridge {
    let mut data = vec![
        0x4e, 0x45, 0x53, 0x1a, prg_banks, 0x01, 0x10, 0x00, 0x00, 0x00, 0x00, 0x00, 0x00, 0x00,
        0x00, 0x00,
    ];
    for bank in 0..prg_banks {
        for i in 0..0x4000usize {
            data.push(if i == 0 { bank } else { (i & 0xFF) as u8 });
        }
    }
    for i in 0..0x2000usize {
        data.push((i >> 8) as u8);
    }
    Cartridge::new(&data)
}

fn mmc1_load(cartridge: &mut Cartridge, address: u16, value: u8) {
    for k in 0..5 {
        cartridge.write_prg_u8(address, (value >> k) & 1);
    }
}

#[test]
fn mmc1_switches_prg_banks_serially() {
    let mut cartridge = build_mmc1(4);
    // Power-on: mode 3, bank 0 at $8000, the last bank at $C000.
    assert_eq!(cartridge.read_prg_u8(0x8000), 0);
    assert_eq!(cartridge.read_prg_u8(0xC000), 3);
    mmc1_load(&mut cartridge, 0xE000, 2);
    assert_eq!(cartridge.read_prg_u8(0x8000), 2);
    assert_eq!(cartridge.read_prg_u8(0xC000), 3);
    // Four writes do not load the register yet.
    for _ in 0..4 {
        cartridge.write_prg_u8(0xE000, 1);
    }
    assert_eq!(cartridge.read_prg_u8(0x8000), 2);
    // A write with bit 7 set resets the shift register.
    cartridge.write_prg_u8(0x8000, 0x80);
    mmc1_load(&mut cartridge, 0xE000, 1);
    assert_eq!(cartridge.read_prg_u8(0x8000), 1);
}

#[test]
fn mmc1_prg_ram_can_be_disabled() {
    let mut cartridge = build_mmc1(2);
    cartridge.write_prg_u8(0x6010, 0x42);
    assert_eq!(cartridge.read_prg_u8(0x6010), 0x42);
    mmc1_load(&mut cartridge, 0xE000, 0x10);
    assert_eq!(cartridge.read_prg_u8(0x6010), 0);
    cartridge.write_prg_u8(0x6010, 0x99);
    mmc1_load(&mut cartridge, 0xE000, 0x00);
    assert_eq!(cartridge.read_prg_u8(0x6010), 0x42);
}

#[test]
fn mmc1_mirroring_under_program_control() {
    let mut cartridge = build_mmc1(2);
    // Power-on control 0x0C: one-screen, lower bank.
    assert_eq!(cartridge.get_mirroring_mode(), MirroringMode::SingleScreenLower);
    mmc1_load(&mut cartridge, 0x8000, 0x0E);
    assert_eq!(cartridge.get_mirroring_mode(), MirroringMode::Vertical);
    mmc1_load(&mut cartridge, 0x8000, 0x0F);
    assert_eq!(cartridge.get_mirroring_mode(), MirroringMode::Horizontal);
}

#[test]
fn mmc1_chr_banks() {
    let mut cartridge = build_mmc1(2);
    // 8 KiB mode at power-on: $1000 reads the second 4 KiB.
    assert_eq!(cartridge.read_chr_u8(0x1000), 0x10);
    // 4 KiB mode, bank 1 at $0000.
    mmc1_load(&mut cartridge, 0x8000, 0x1C);
    mmc1_load(&mut cartridge, 0xA000, 0x01);
    assert_eq!(cartridge.read_chr_u8(0x0000), 0x10);
}
