use greenstone::nes::apu::noise::Noise;
use greenstone::nes::apu::pulse::Pulse;
use greenstone::nes::apu::triangle::Triangle;
use greenstone::nes::apu::{APU, LENGTH_TABLE};

#[test]
fn test_apu_new() {
    let apu = APU::new();
    assert!(!apu.pulse1.enabled);
    assert!(!apu.pulse2.enabled);
    assert!(!apu.triangle.enabled);
    assert!(!apu.noise.enabled);
    assert!(!apu.dmc_enabled);
}

#[test]
fn test_status_register_write() {
    let mut apu = APU::new();
    apu.write_register(0x4015, 0x1F);
    assert!(apu.pulse1.enabled);
    assert!(apu.pulse2.enabled);
    assert!(apu.triangle.enabled);
    assert!(apu.noise.enabled);
    assert!(apu.dmc_enabled);
    apu.write_register(0x4015, 0x00);
    assert!(!apu.pulse1.enabled);
    assert!(!apu.pulse2.enabled);
    assert!(!apu.triangle.enabled);
    assert!(!apu.noise.enabled);
    assert!(!apu.dmc_enabled);
}

#[test]
fn test_length_counter_load() {
    let mut apu = APU::new();
    apu.write_register(0x4015, 0x01);
    apu.write_register(0x4003, 0x00);
    assert_eq!(apu.pulse1.length_counter, 10);
    apu.write_register(0x4003, 0x08);
    assert_eq!(apu.pulse1.length_counter, 254);
}

#[test]
fn test_length_counter_disabled_channel() {
    let mut apu = APU::new();
    apu.write_register(0x4003, 0x08);
    assert_eq!(apu.pulse1.length_counter, 0);
}

#[test]
fn test_status_read() {
    let mut apu = APU::new();
    apu.write_register(0x4015, 0x0F);
    apu.write_register(0x4003, 0x08);
    apu.write_register(0x4007, 0x08);
    let status = apu.read_register(0x4015);
    assert_eq!(status & 0x03, 0x03);
}

#[test]
fn test_frame_irq_cleared_on_status_read() {
    let mut apu = APU::new();
    apu.frame_irq_flag = true;
    let status = apu.read_register(0x4015);
    assert_eq!(status & 0x40, 0x40);
    assert!(!apu.frame_irq_flag);
}

/// The samples the APU produces are counted by what `tick` returns; the
/// levels they carry are read with `levels`.
#[test]
fn test_pulse_output() {
    let mut apu = APU::new();
    apu.write_register(0x4015, 0x01);
    apu.write_register(0x4000, 0x3F);
    apu.write_register(0x4002, 0x00);
    apu.write_register(0x4003, 0x08);
    let mut samples: u32 = 0;
    for _ in 0..1000 {
        samples += apu.tick();
    }
    assert!(samples > 0);
}

#[test]
fn samples_fall_due_at_the_output_rate() {
    // 1,789,773 CPU cycles a second make 44,100 samples: one every 40.58
    // cycles, so 1000 cycles make 24 of them.
    let mut apu = APU::new();
    let mut samples: u32 = 0;
    for _ in 0..1000 {
        let due = apu.tick();
        assert!(due <= 1);
        samples += due;
    }
    assert_eq!(samples, 24);
}

#[test]
fn reading_other_registers_gives_zero() {
    let mut apu = APU::new();
    apu.write_register(0x4015, 0x0F);
    assert_eq!(apu.read_register(0x4000), 0);
    assert_eq!(apu.read_register(0x4016), 0);
}

#[test]
fn frame_irq_rises_in_four_step_mode() {
    let mut apu = APU::new();
    assert!(!apu.irq_pending());
    for _ in 0..30000 {
        apu.tick();
    }
    assert!(apu.irq_pending());
    let status = apu.read_register(0x4015);
    assert_eq!(status & 0x40, 0x40);
    assert!(!apu.irq_pending());
}

#[test]
fn frame_irq_inhibited_by_frame_counter_write() {
    let mut apu = APU::new();
    apu.write_register(0x4017, 0x40);
    for _ in 0..30000 {
        apu.tick();
    }
    assert!(!apu.irq_pending());
}

#[test]
fn disabling_a_channel_silences_it() {
    let mut apu = APU::new();
    apu.write_register(0x4015, 0x0F);
    apu.write_register(0x4000, 0x3F);
    apu.write_register(0x4003, 0x08);
    apu.write_register(0x400B, 0x08);
    apu.write_register(0x400F, 0x08);
    apu.write_register(0x4015, 0x00);
    assert_eq!(apu.pulse1.length_counter, 0);
    assert_eq!(apu.triangle.length_counter, 0);
    assert_eq!(apu.noise.length_counter, 0);
    let levels = apu.levels();
    assert_eq!(levels.pulse1, 0);
    assert_eq!(levels.noise, 0);
}

#[test]
fn dmc_direct_load_is_its_level() {
    let mut apu = APU::new();
    apu.write_register(0x4011, 0x2A);
    assert_eq!(apu.levels().dmc, 0x2A);
}

#[test]
fn pulse_channel_basics() {
    let mut pulse = Pulse::new(1);
    assert!(!pulse.enabled);
    assert_eq!(pulse.output(), 0);
    pulse.set_enabled(true);
    pulse.write_duty_envelope(0x3F);
    pulse.write_timer_low(0x40);
    let table = LENGTH_TABLE;
    pulse.write_length_timer_high(0x08, &table);
    assert_eq!(pulse.length_counter, 254);
    // The halt bit (0x20) is set, so clocking leaves the length counter.
    pulse.clock_length_counter();
    assert_eq!(pulse.length_counter, 254);
    pulse.write_duty_envelope(0x1F);
    pulse.clock_length_counter();
    assert_eq!(pulse.length_counter, 253);
    assert!(pulse.output() <= 15);
    pulse.set_enabled(false);
    assert_eq!(pulse.length_counter, 0);
    assert_eq!(pulse.output(), 0);
}

#[test]
fn triangle_channel_basics() {
    let mut triangle = Triangle::new();
    triangle.set_enabled(true);
    triangle.write_linear_control(0x7F);
    triangle.write_timer_low(0x10);
    let table = LENGTH_TABLE;
    triangle.write_length_timer_high(0x00, &table);
    assert_eq!(triangle.length_counter, 10);
    triangle.clock_linear_counter();
    for _ in 0..100 {
        triangle.tick_timer();
    }
    assert!(triangle.output() <= 15);
    triangle.set_enabled(false);
    assert_eq!(triangle.length_counter, 0);
}

#[test]
fn noise_channel_basics() {
    let mut noise = Noise::new();
    noise.set_enabled(true);
    noise.write_envelope(0x3A);
    noise.write_period(0x00);
    let table = LENGTH_TABLE;
    noise.write_length(0x18, &table);
    assert_eq!(noise.length_counter, 2);
    for _ in 0..100 {
        noise.tick_timer();
        assert!(noise.output() == 0 || noise.output() == 10);
    }
    noise.clock_envelope();
    noise.set_enabled(false);
    assert_eq!(noise.output(), 0);
}
