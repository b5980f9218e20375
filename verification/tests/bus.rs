use greenstone::nes::bus::{Bus, BUTTON_A, BUTTON_B, BUTTON_RIGHT, BUTTON_START};

#[test]
fn ram_is_mirrored_four_times() {
    let mut bus = Bus::new();
    bus.inner_write_u8(0x1803, 0x5A);
    assert_eq!(bus.inner_read_u8(0x0003), 0x5A);
    assert_eq!(bus.inner_read_u8(0x0803), 0x5A);
    assert_eq!(bus.inner_read_u8(0x1003), 0x5A);
    assert_eq!(bus.inner_read_u8(0x1803), 0x5A);
    assert_eq!(bus.inner_read_u8(0x0004), 0x00);
}

#[test]
fn ppu_registers_repeat_every_eight_bytes() {
    let mut bus = Bus::new();
    bus.inner_write_u8(0x2003, 0x11);
    assert_eq!(bus.inner_read_u8(0x2003), 0x11);
    assert_eq!(bus.inner_read_u8(0x200B), 0x11);
    assert_eq!(bus.inner_read_u8(0x3FFB), 0x11);
}

#[test]
fn controller_reads_shift_out_the_buttons() {
    let mut bus = Bus::new();
    bus.set_controller1(BUTTON_A | BUTTON_START | BUTTON_RIGHT);
    bus.inner_write_u8(0x4016, 1);
    bus.inner_write_u8(0x4016, 0);
    let mut bits = Vec::new();
    for _ in 0..8 {
        bits.push(bus.inner_read_u8(0x4016) & 1);
    }
    assert_eq!(bits, vec![1, 0, 0, 1, 0, 0, 0, 1]);
    // After eight reads the shift register gives ones, read after read.
    for _ in 0..5 {
        assert_eq!(bus.inner_read_u8(0x4016), 0x41);
    }
}

#[test]
fn strobe_high_reloads_on_every_button_change() {
    let mut bus = Bus::new();
    bus.inner_write_u8(0x4016, 1);
    bus.press_button2(BUTTON_B);
    assert_eq!(bus.inner_read_u8(0x4017) & 1, 0);
    // A read shifts even while the strobe is high...
    assert_eq!(bus.inner_read_u8(0x4017) & 1, 1);
    // ...and a change of the buttons reloads the register.
    bus.press_button2(BUTTON_A);
    assert_eq!(bus.inner_read_u8(0x4017) & 1, 1);
    bus.release_button2(BUTTON_A);
    assert_eq!(bus.inner_read_u8(0x4017) & 1, 0);
}

#[test]
fn buttons_pressed_and_released() {
    let mut bus = Bus::new();
    bus.press_button1(BUTTON_A);
    bus.press_button1(BUTTON_B);
    bus.release_button1(BUTTON_A);
    bus.set_controller2(0);
    bus.inner_write_u8(0x4016, 1);
    bus.inner_write_u8(0x4016, 0);
    assert_eq!(bus.inner_read_u8(0x4016) & 1, 0);
    assert_eq!(bus.inner_read_u8(0x4016) & 1, 1);
}

#[test]
fn no_cartridge_reads_the_high_address_byte() {
    let mut bus = Bus::new();
    assert_eq!(bus.inner_read_u8(0x8000), 0x80);
    assert_eq!(bus.inner_read_u8(0xC123), 0xC1);
}

#[test]
fn cartridge_on_the_bus() {
    let mut data = vec![
        0x4e, 0x45, 0x53, 0x1a, 0x01, 0x01, 0x00, 0x00, 0x00, 0x00, 0x00, 0x00, 0x00, 0x00, 0x00,
        0x00,
    ];
    for i in 0..0x4000usize {
        data.push((i % 251) as u8);
    }
    data.resize(16 + 0x4000 + 0x2000, 0);
    let mut bus = Bus::new();
    bus.load_cartridge_data(&data);
    // 16 KiB of PRG ROM appear twice.
    assert_eq!(bus.inner_read_u8(0x8005), 5);
    assert_eq!(bus.inner_read_u8(0xC005), 5);
    // PRG RAM at $6000.
    bus.inner_write_u8(0x6001, 0x77);
    assert_eq!(bus.inner_read_u8(0x6001), 0x77);
}

#[test]
fn ticks_queue_audio_samples() {
    let mut bus = Bus::new();
    for _ in 0..1000 {
        bus.tick();
    }
    let samples = bus.take_audio_samples();
    assert_eq!(samples.len(), 24);
    assert!(bus.take_audio_samples().is_empty());
}

#[test]
fn apu_and_io_registers_read_back_what_was_written() {
    let mut bus = Bus::new();
    assert_eq!(bus.inner_read_u8(0x4000), 0xFF);
    bus.inner_write_u8(0x4015, 0x01);
    bus.inner_write_u8(0x4003, 0x08);
    assert_eq!(bus.inner_read_u8(0x4015), 0x01);
    assert_eq!(bus.inner_read_u8(0x4003), 0x08);
}
