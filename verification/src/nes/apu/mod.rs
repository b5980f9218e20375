//! The audio processing unit: two pulse channels, a triangle channel, a
//! noise channel and (as registers only) the DMC channel, clocked by the
//! frame sequencer.
//!
//! Register map:
//! - $4000-$4003: pulse 1
//! - $4004-$4007: pulse 2
//! - $4008-$400B: triangle
//! - $400C-$400F: noise
//! - $4010-$4013: DMC
//! - $4015: status (channel enables, length counter and IRQ status)
//! - $4017: frame counter
//!
//! The unit decides when a sample falls due (44100 per second of CPU time)
//! and what each channel puts out at that moment; mixing those levels into
//! an audio signal is left to the caller.
use vstd::prelude::*;

pub mod envelope;
pub mod noise;
pub mod pulse;
pub mod triangle;

use noise::Noise;
use pulse::Pulse;
use triangle::Triangle;

verus! {

/// The length counter values, indexed by bits 3-7 of a channel's length
/// register.
pub const LENGTH_TABLE: [u8; 32] = [
    10, 254, 20, 2, 40, 4, 80, 6, 160, 8, 60, 10, 14, 12, 26, 14,
    12, 16, 24, 18, 48, 20, 96, 22, 192, 24, 72, 26, 16, 28, 32, 30,
];

/// The CPU cycles at which the frame sequencer's steps fall. Mode 0 (four
/// steps) clocks at the first four and starts over one cycle after the
/// fourth; mode 1 (five steps) has no step at the fourth and clocks at the
/// fifth.
pub const FRAME_STEP_0: u32 = 7457;
pub const FRAME_STEP_1: u32 = 14913;
pub const FRAME_STEP_2: u32 = 22371;
pub const FRAME_STEP_3: u32 = 29829;
pub const FRAME_STEP_4: u32 = 37281;

/// CPU cycles per audio sample in 16.16 fixed point: 1789773 * 65536 / 44100.
pub const CYCLES_PER_SAMPLE_FIXED: u32 = 2659740;

/// What the five channels put out at one moment.
#[derive(Clone, Copy, Debug, PartialEq, Eq, Structural)]
pub struct ChannelLevels {
    pub pulse1: u8,
    pub pulse2: u8,
    pub triangle: u8,
    pub noise: u8,
    /// The DMC's direct load value (0-127 on hardware).
    pub dmc: u8,
}

/// The audio processing unit.
#[derive(Clone, Copy, Debug)]
pub struct APU {
    pub pulse1: Pulse,
    pub pulse2: Pulse,
    pub triangle: Triangle,
    pub noise: Noise,
    /// DMC registers ($4010-$4013), kept but not played.
    pub dmc_flags_rate: u8,
    pub dmc_direct_load: u8,
    pub dmc_sample_address: u8,
    pub dmc_sample_length: u8,
    pub dmc_enabled: bool,
    /// Frame counter register ($4017): mode (bit 7), IRQ inhibit (bit 6).
    pub frame_counter: u8,
    /// CPU cycles since the frame sequence began.
    pub cycle_count: u32,
    /// Step of the frame sequence: 0-4, or 5 and 6 for the cycle on which
    /// mode 0 and mode 1 start over.
    pub frame_step: u8,
    pub frame_irq_flag: bool,
    pub dmc_irq_flag: bool,
    /// Cycles until a pending frame counter reset (0: none pending).
    pub reset_pending: u8,
    /// Fractional cycles towards the next sample (16.16 fixed point).
    pub sample_accumulator: u32,
    /// Cycles per sample (16.16 fixed point).
    pub cycles_per_sample_fixed: u32,
}

/// The cycle that frame step `step` never passes without moving on.
pub open spec fn step_limit(step: u8) -> u32 {
    if step == 0 {
        (FRAME_STEP_0 - 1) as u32
    } else if step == 1 {
        (FRAME_STEP_1 - 1) as u32
    } else if step == 2 {
        (FRAME_STEP_2 - 1) as u32
    } else if step == 3 {
        (FRAME_STEP_3 - 1) as u32
    } else if step == 4 {
        (FRAME_STEP_4 - 1) as u32
    } else if step == 5 {
        FRAME_STEP_3
    } else {
        FRAME_STEP_4
    }
}

impl APU {
    /// The channels keep their invariants, the frame sequence keeps to its
    /// steps and cycles, and the sample accumulator stays below one sample.
    pub open spec fn wf(self) -> bool {
        &&& self.pulse1.wf()
        &&& self.pulse2.wf()
        &&& self.triangle.wf()
        &&& self.noise.wf()
        &&& self.frame_step <= 6
        &&& self.cycle_count <= step_limit(self.frame_step)
        &&& self.cycles_per_sample_fixed == CYCLES_PER_SAMPLE_FIXED
        &&& self.sample_accumulator < self.cycles_per_sample_fixed
    }

    pub open spec fn initial() -> APU {
        APU {
            pulse1: Pulse::initial(1),
            pulse2: Pulse::initial(2),
            triangle: Triangle::initial(),
            noise: Noise::initial(),
            dmc_flags_rate: 0,
            dmc_direct_load: 0,
            dmc_sample_address: 0,
            dmc_sample_length: 0,
            dmc_enabled: false,
            frame_counter: 0,
            cycle_count: 0,
            frame_step: 0,
            frame_irq_flag: false,
            dmc_irq_flag: false,
            reset_pending: 0,
            sample_accumulator: 0,
            cycles_per_sample_fixed: CYCLES_PER_SAMPLE_FIXED,
        }
    }

    /// Whether the frame counter selects the five-step sequence.
    pub open spec fn five_step_mode(self) -> bool {
        self.frame_counter & 0x80 != 0
    }

    pub open spec fn irq_inhibit(self) -> bool {
        self.frame_counter & 0x40 != 0
    }

    /// The status byte read from $4015: bits 0-3 tell which length counters
    /// are nonzero, bit 6 the frame IRQ, bit 7 the DMC IRQ.
    pub open spec fn spec_status(self) -> u8 {
        (if self.pulse1.length_counter > 0 { 0x01u8 } else { 0u8 })
            | (if self.pulse2.length_counter > 0 { 0x02u8 } else { 0u8 })
            | (if self.triangle.length_counter > 0 { 0x04u8 } else { 0u8 })
            | (if self.noise.length_counter > 0 { 0x08u8 } else { 0u8 })
            | (if self.frame_irq_flag { 0x40u8 } else { 0u8 })
            | (if self.dmc_irq_flag { 0x80u8 } else { 0u8 })
    }

    /// The value a read of `address` gives: the status for $4015, 0 otherwise.
    pub open spec fn spec_read_value(self, address: u16) -> u8 {
        if address == 0x4015 {
            self.spec_status()
        } else {
            0
        }
    }

    /// A read of $4015 clears the frame IRQ flag; other reads change nothing.
    pub open spec fn spec_after_read(self, address: u16) -> APU {
        if address == 0x4015 {
            APU { frame_irq_flag: false, ..self }
        } else {
            self
        }
    }

    /// The unit after a write of `value` to register `address`.
    pub open spec fn spec_write_register(self, address: u16, value: u8) -> APU {
        let table = LENGTH_TABLE@;
        if address == 0x4000 {
            APU { pulse1: self.pulse1.spec_write_duty_envelope(value), ..self }
        } else if address == 0x4001 {
            APU { pulse1: self.pulse1.spec_write_sweep(value), ..self }
        } else if address == 0x4002 {
            APU { pulse1: self.pulse1.spec_write_timer_low(value), ..self }
        } else if address == 0x4003 {
            APU { pulse1: self.pulse1.spec_write_length_timer_high(value, table), ..self }
        } else if address == 0x4004 {
            APU { pulse2: self.pulse2.spec_write_duty_envelope(value), ..self }
        } else if address == 0x4005 {
            APU { pulse2: self.pulse2.spec_write_sweep(value), ..self }
        } else if address == 0x4006 {
            APU { pulse2: self.pulse2.spec_write_timer_low(value), ..self }
        } else if address == 0x4007 {
            APU { pulse2: self.pulse2.spec_write_length_timer_high(value, table), ..self }
        } else if address == 0x4008 {
            APU { triangle: self.triangle.spec_write_linear_control(value), ..self }
        } else if address == 0x400A {
            APU { triangle: self.triangle.spec_write_timer_low(value), ..self }
        } else if address == 0x400B {
            APU { triangle: self.triangle.spec_write_length_timer_high(value, table), ..self }
        } else if address == 0x400C {
            APU { noise: self.noise.spec_write_envelope(value), ..self }
        } else if address == 0x400E {
            APU { noise: self.noise.spec_write_period(value), ..self }
        } else if address == 0x400F {
            APU { noise: self.noise.spec_write_length(value, table), ..self }
        } else if address == 0x4010 {
            APU { dmc_flags_rate: value, ..self }
        } else if address == 0x4011 {
            APU { dmc_direct_load: value, ..self }
        } else if address == 0x4012 {
            APU { dmc_sample_address: value, ..self }
        } else if address == 0x4013 {
            APU { dmc_sample_length: value, ..self }
        } else if address == 0x4015 {
            APU {
                pulse1: self.pulse1.spec_set_enabled(value & 0x01 != 0),
                pulse2: self.pulse2.spec_set_enabled(value & 0x02 != 0),
                triangle: self.triangle.spec_set_enabled(value & 0x04 != 0),
                noise: self.noise.spec_set_enabled(value & 0x08 != 0),
                dmc_enabled: value & 0x10 != 0,
                dmc_irq_flag: false,
                ..self
            }
        } else if address == 0x4017 {
            APU {
                frame_counter: value,
                frame_irq_flag: if value & 0x40 != 0 {
                    false
                } else {
                    self.frame_irq_flag
                },
                reset_pending: 4,
                ..self
            }
        } else {
            self
        }
    }

    /// Quarter frame: the envelopes and the triangle's linear counter.
    pub open spec fn spec_quarter_frame(self) -> APU {
        APU {
            pulse1: self.pulse1.spec_clock_envelope(),
            pulse2: self.pulse2.spec_clock_envelope(),
            triangle: self.triangle.spec_clock_linear_counter(),
            noise: self.noise.spec_clock_envelope(),
            ..self
        }
    }

    /// Half frame: the length counters and the sweep units.
    pub open spec fn spec_half_frame(self) -> APU {
        APU {
            pulse1: self.pulse1.spec_clock_length_counter().spec_clock_sweep(),
            pulse2: self.pulse2.spec_clock_length_counter().spec_clock_sweep(),
            triangle: self.triangle.spec_clock_length_counter(),
            noise: self.noise.spec_clock_length_counter(),
            ..self
        }
    }

    /// The pending frame counter reset counts down; when it reaches zero the
    /// sequence starts over, and in five-step mode every unit is clocked.
    pub open spec fn spec_count_down_reset(self) -> APU {
        if self.reset_pending > 0 {
            if self.reset_pending == 1 {
                let restarted = APU { reset_pending: 0, cycle_count: 0, frame_step: 0, ..self };
                if restarted.five_step_mode() {
                    restarted.spec_quarter_frame().spec_half_frame()
                } else {
                    restarted
                }
            } else {
                APU { reset_pending: (self.reset_pending - 1) as u8, ..self }
            }
        } else {
            self
        }
    }

    /// The channel timers after one CPU cycle: the cycle count advances, the
    /// triangle's timer ticks, and on even cycles the pulse and noise timers.
    pub open spec fn spec_tick_timers(self) -> APU {
        let t = APU {
            cycle_count: (self.cycle_count + 1) as u32,
            triangle: self.triangle.spec_tick_timer(),
            ..self
        };
        if t.cycle_count % 2 == 0 {
            APU {
                pulse1: t.pulse1.spec_tick_timer(),
                pulse2: t.pulse2.spec_tick_timer(),
                noise: t.noise.spec_tick_timer(),
                ..t
            }
        } else {
            t
        }
    }

    /// The frame sequencer at the current cycle.
    pub open spec fn spec_frame_sequencer(self) -> APU {
        let c = self.cycle_count;
        let mode = self.five_step_mode();
        let inhibit = self.irq_inhibit();
        if self.frame_step == 0 {
            if c == FRAME_STEP_0 {
                APU { frame_step: 1, ..self.spec_quarter_frame() }
            } else {
                self
            }
        } else if self.frame_step == 1 {
            if c == FRAME_STEP_1 {
                APU { frame_step: 2, ..self.spec_quarter_frame().spec_half_frame() }
            } else {
                self
            }
        } else if self.frame_step == 2 {
            if c == FRAME_STEP_2 {
                APU { frame_step: 3, ..self.spec_quarter_frame() }
            } else {
                self
            }
        } else if self.frame_step == 3 {
            let t = if !mode && !inhibit && c == FRAME_STEP_3 - 1 {
                APU { frame_irq_flag: true, ..self }
            } else {
                self
            };
            if c == FRAME_STEP_3 {
                if !mode {
                    let clocked = t.spec_quarter_frame().spec_half_frame();
                    APU {
                        frame_irq_flag: if !inhibit {
                            true
                        } else {
                            clocked.frame_irq_flag
                        },
                        frame_step: 5,
                        ..clocked
                    }
                } else {
                    APU { frame_step: 4, ..t }
                }
            } else {
                t
            }
        } else if self.frame_step == 5 {
            APU {
                frame_irq_flag: if !inhibit {
                    true
                } else {
                    self.frame_irq_flag
                },
                cycle_count: 0,
                frame_step: 0,
                ..self
            }
        } else if self.frame_step == 4 {
            if c == FRAME_STEP_4 {
                APU { frame_step: 6, ..self.spec_quarter_frame().spec_half_frame() }
            } else {
                self
            }
        } else if self.frame_step == 6 {
            APU { cycle_count: 0, frame_step: 0, ..self }
        } else {
            self
        }
    }

    /// How many samples fall due on this cycle.
    pub open spec fn spec_samples_due(self) -> nat {
        ((self.sample_accumulator + 65536) / (self.cycles_per_sample_fixed as int)) as nat
    }

    /// The unit after one CPU cycle: the pending reset counts down, the
    /// timers tick, the frame sequencer runs, and the sample accumulator
    /// gains one cycle, less a sample's worth for each sample that fell due.
    pub open spec fn spec_tick(self) -> APU {
        let s = self.spec_count_down_reset().spec_tick_timers().spec_frame_sequencer();
        APU {
            sample_accumulator: ((s.sample_accumulator + 65536) % (s.cycles_per_sample_fixed as int)) as u32,
            ..s
        }
    }

    /// What the channels put out.
    pub open spec fn spec_levels(self) -> ChannelLevels {
        ChannelLevels {
            pulse1: self.pulse1.spec_output(),
            pulse2: self.pulse2.spec_output(),
            triangle: self.triangle.spec_output(),
            noise: self.noise.spec_output(),
            dmc: self.dmc_direct_load,
        }
    }

    pub fn new() -> (r: APU)
        ensures
            r == APU::initial(),
            r.wf(),
    {
        APU {
            pulse1: Pulse::new(1),
            pulse2: Pulse::new(2),
            triangle: Triangle::new(),
            noise: Noise::new(),
            dmc_flags_rate: 0,
            dmc_direct_load: 0,
            dmc_sample_address: 0,
            dmc_sample_length: 0,
            dmc_enabled: false,
            frame_counter: 0,
            cycle_count: 0,
            frame_step: 0,
            frame_irq_flag: false,
            dmc_irq_flag: false,
            reset_pending: 0,
            sample_accumulator: 0,
            cycles_per_sample_fixed: CYCLES_PER_SAMPLE_FIXED,
        }
    }

    /// Reads a register. Only $4015 (status) is readable, and reading it
    /// clears the frame IRQ flag; other addresses read 0.
    pub fn read_register(&mut self, address: u16) -> (r: u8)
        ensures
            r == old(self).spec_read_value(address),
            *final(self) == old(self).spec_after_read(address),
    {
        if address == 0x4015 {
            let status = (if self.pulse1.length_counter > 0 { 0x01u8 } else { 0u8 })
                | (if self.pulse2.length_counter > 0 { 0x02u8 } else { 0u8 })
                | (if self.triangle.length_counter > 0 { 0x04u8 } else { 0u8 })
                | (if self.noise.length_counter > 0 { 0x08u8 } else { 0u8 })
                | (if self.frame_irq_flag { 0x40u8 } else { 0u8 })
                | (if self.dmc_irq_flag { 0x80u8 } else { 0u8 });
            self.frame_irq_flag = false;
            status
        } else {
            0
        }
    }

    /// Writes a register.
    pub fn write_register(&mut self, address: u16, value: u8)
        requires
            old(self).wf(),
        ensures
            *final(self) == old(self).spec_write_register(address, value),
            final(self).wf(),
    {
        let table = LENGTH_TABLE;
        if address == 0x4000 {
            self.pulse1.write_duty_envelope(value);
        } else if address == 0x4001 {
            self.pulse1.write_sweep(value);
        } else if address == 0x4002 {
            self.pulse1.write_timer_low(value);
        } else if address == 0x4003 {
            self.pulse1.write_length_timer_high(value, &table);
        } else if address == 0x4004 {
            self.pulse2.write_duty_envelope(value);
        } else if address == 0x4005 {
            self.pulse2.write_sweep(value);
        } else if address == 0x4006 {
            self.pulse2.write_timer_low(value);
        } else if address == 0x4007 {
            self.pulse2.write_length_timer_high(value, &table);
        } else if address == 0x4008 {
            self.triangle.write_linear_control(value);
        } else if address == 0x400A {
            self.triangle.write_timer_low(value);
        } else if address == 0x400B {
            self.triangle.write_length_timer_high(value, &table);
        } else if address == 0x400C {
            self.noise.write_envelope(value);
        } else if address == 0x400E {
            self.noise.write_period(value);
        } else if address == 0x400F {
            self.noise.write_length(value, &table);
        } else if address == 0x4010 {
            self.dmc_flags_rate = value;
        } else if address == 0x4011 {
            self.dmc_direct_load = value;
        } else if address == 0x4012 {
            self.dmc_sample_address = value;
        } else if address == 0x4013 {
            self.dmc_sample_length = value;
        } else if address == 0x4015 {
            self.pulse1.set_enabled((value & 0x01) != 0);
            self.pulse2.set_enabled((value & 0x02) != 0);
            self.triangle.set_enabled((value & 0x04) != 0);
            self.noise.set_enabled((value & 0x08) != 0);
            self.dmc_enabled = (value & 0x10) != 0;
            self.dmc_irq_flag = false;
        } else if address == 0x4017 {
            self.frame_counter = value;
            if (value & 0x40) != 0 {
                self.frame_irq_flag = false;
            }
            self.reset_pending = 4;
        }
    }

    /// One CPU cycle. Returns how many samples fell due (at most one); each
    /// is what `levels` gives after the call.
    pub fn tick(&mut self) -> (r: u32)
        requires
            old(self).wf(),
        ensures
            *final(self) == old(self).spec_tick(),
            r == old(self).spec_count_down_reset().spec_tick_timers().spec_frame_sequencer().spec_samples_due(),
            r <= 1,
            final(self).wf(),
    {
        self.count_down_reset();
        self.tick_timers();
        self.run_frame_sequencer();
        self.accumulate_sample_time()
    }

    /// Counts down a pending frame counter reset.
    fn count_down_reset(&mut self)
        requires
            old(self).wf(),
        ensures
            *final(self) == old(self).spec_count_down_reset(),
            final(self).wf(),
    {
        if self.reset_pending > 0 {
            self.reset_pending = self.reset_pending - 1;
            if self.reset_pending == 0 {
                self.cycle_count = 0;
                self.frame_step = 0;
                if (self.frame_counter & 0x80) != 0 {
                    self.clock_quarter_frame();
                    self.clock_half_frame();
                }
            }
        }
    }

    /// Advances the cycle count and ticks the channel timers.
    fn tick_timers(&mut self)
        requires
            old(self).wf(),
        ensures
            *final(self) == old(self).spec_tick_timers(),
            final(self).pulse1.wf(),
            final(self).pulse2.wf(),
            final(self).triangle.wf(),
            final(self).noise.wf(),
            final(self).frame_step <= 6,
            final(self).cycle_count <= step_limit(final(self).frame_step) + 1,
            final(self).cycles_per_sample_fixed == CYCLES_PER_SAMPLE_FIXED,
            final(self).sample_accumulator < CYCLES_PER_SAMPLE_FIXED,
    {
        self.cycle_count = self.cycle_count + 1;
        self.triangle.tick_timer();
        if self.cycle_count % 2 == 0 {
            self.pulse1.tick_timer();
            self.pulse2.tick_timer();
            self.noise.tick_timer();
        }
    }

    /// Adds one cycle to the sample accumulator and takes out a sample's
    /// worth for each sample that falls due; returns how many did.
    fn accumulate_sample_time(&mut self) -> (r: u32)
        requires
            old(self).cycles_per_sample_fixed == CYCLES_PER_SAMPLE_FIXED,
            old(self).sample_accumulator < CYCLES_PER_SAMPLE_FIXED,
        ensures
            *final(self) == (APU {
                sample_accumulator: ((old(self).sample_accumulator + 65536) % (
                old(self).cycles_per_sample_fixed as int)) as u32,
                ..*old(self)
            }),
            r == old(self).spec_samples_due(),
            r <= 1,
            final(self).sample_accumulator < CYCLES_PER_SAMPLE_FIXED,
    {
        let total = self.sample_accumulator + 65536;
        let cps = self.cycles_per_sample_fixed;
        let mut acc = total;
        let mut due: u32 = 0;
        while acc >= cps
            invariant
                cps == CYCLES_PER_SAMPLE_FIXED,
                total < 2 * cps,
                total == acc + due * cps,
                due <= 2,
            decreases acc,
        {
            acc = acc - cps;
            due = due + 1;
        }
        proof {
            vstd::arithmetic::div_mod::lemma_fundamental_div_mod_converse(
                total as int,
                cps as int,
                due as int,
                acc as int,
            );
        }
        self.sample_accumulator = acc;
        due
    }

    /// Runs the frame sequencer for the current cycle.
    fn run_frame_sequencer(&mut self)
        requires
            old(self).pulse1.wf(),
            old(self).pulse2.wf(),
            old(self).triangle.wf(),
            old(self).noise.wf(),
            old(self).frame_step <= 6,
            old(self).cycle_count <= step_limit(old(self).frame_step) + 1,
        ensures
            *final(self) == old(self).spec_frame_sequencer(),
            final(self).pulse1.wf(),
            final(self).pulse2.wf(),
            final(self).triangle.wf(),
            final(self).noise.wf(),
            final(self).frame_step <= 6,
            final(self).cycle_count <= step_limit(final(self).frame_step),
    {
        let mode = (self.frame_counter & 0x80) != 0;
        let irq_inhibit = (self.frame_counter & 0x40) != 0;
        if self.frame_step == 0 {
            if self.cycle_count == FRAME_STEP_0 {
                self.clock_quarter_frame();
                self.frame_step = 1;
            }
        } else if self.frame_step == 1 {
            if self.cycle_count == FRAME_STEP_1 {
                self.clock_quarter_frame();
                self.clock_half_frame();
                self.frame_step = 2;
            }
        } else if self.frame_step == 2 {
            if self.cycle_count == FRAME_STEP_2 {
                self.clock_quarter_frame();
                self.frame_step = 3;
            }
        } else if self.frame_step == 3 {
            if !mode && !irq_inhibit && self.cycle_count == FRAME_STEP_3 - 1 {
                self.frame_irq_flag = true;
            }
            if self.cycle_count == FRAME_STEP_3 {
                if !mode {
                    self.clock_quarter_frame();
                    self.clock_half_frame();
                    if !irq_inhibit {
                        self.frame_irq_flag = true;
                    }
                    self.frame_step = 5;
                } else {
                    self.frame_step = 4;
                }
            }
        } else if self.frame_step == 5 {
            if !irq_inhibit {
                self.frame_irq_flag = true;
            }
            self.cycle_count = 0;
            self.frame_step = 0;
        } else if self.frame_step == 4 {
            if self.cycle_count == FRAME_STEP_4 {
                self.clock_quarter_frame();
                self.clock_half_frame();
                self.frame_step = 6;
            }
        } else if self.frame_step == 6 {
            self.cycle_count = 0;
            self.frame_step = 0;
        }
    }

    /// Quarter frame: the envelopes and the triangle's linear counter.
    fn clock_quarter_frame(&mut self)
        requires
            old(self).pulse1.wf(),
            old(self).pulse2.wf(),
            old(self).noise.wf(),
        ensures
            *final(self) == old(self).spec_quarter_frame(),
            final(self).pulse1.wf(),
            final(self).pulse2.wf(),
            final(self).noise.wf(),
    {
        self.pulse1.clock_envelope();
        self.pulse2.clock_envelope();
        self.triangle.clock_linear_counter();
        self.noise.clock_envelope();
    }

    /// Half frame: the length counters and the sweep units.
    fn clock_half_frame(&mut self)
        requires
            old(self).pulse1.wf(),
            old(self).pulse2.wf(),
        ensures
            *final(self) == old(self).spec_half_frame(),
            final(self).pulse1.wf(),
            final(self).pulse2.wf(),
    {
        self.pulse1.clock_length_counter();
        self.pulse1.clock_sweep();
        self.pulse2.clock_length_counter();
        self.pulse2.clock_sweep();
        self.triangle.clock_length_counter();
        self.noise.clock_length_counter();
    }

    /// What the five channels put out now.
    pub fn levels(&self) -> (r: ChannelLevels)
        requires
            self.wf(),
        ensures
            r == self.spec_levels(),
    {
        ChannelLevels {
            pulse1: self.pulse1.output(),
            pulse2: self.pulse2.output(),
            triangle: self.triangle.output(),
            noise: self.noise.output(),
            dmc: self.dmc_direct_load,
        }
    }

    /// Whether the unit requests an interrupt.
    pub fn irq_pending(&self) -> (r: bool)
        ensures
            r == (self.frame_irq_flag || self.dmc_irq_flag),
    {
        self.frame_irq_flag || self.dmc_irq_flag
    }
}

impl Default for APU {
    fn default() -> (r: Self)
        ensures
            r == APU::initial(),
    {
        APU::new()
    }
}

/// The bits of the status byte.
proof fn lemma_status_bits(p1: bool, p2: bool, t: bool, n: bool, f: bool, d: bool)
    by (bit_vector)
    ensures
        ({
            let st = (if p1 { 0x01u8 } else { 0u8 }) | (if p2 { 0x02u8 } else { 0u8 }) | (if t {
                0x04u8
            } else {
                0u8
            }) | (if n { 0x08u8 } else { 0u8 }) | (if f { 0x40u8 } else { 0u8 }) | (if d {
                0x80u8
            } else {
                0u8
            });
            &&& (st & 0x01 != 0) == p1
            &&& (st & 0x02 != 0) == p2
            &&& (st & 0x04 != 0) == t
            &&& (st & 0x08 != 0) == n
            &&& (st & 0x40 != 0) == f
            &&& (st & 0x80 != 0) == d
            &&& st & 0x30 == 0
        }),
{
}

/// Reading $4015 tells, bit by bit, which channels' length counters are
/// running (bits 0-3) and whether the frame and DMC interrupts are raised
/// (bits 6 and 7); the read clears the frame interrupt and nothing else.
pub proof fn lemma_status_read(a: APU)
    ensures
        (a.spec_read_value(0x4015) & 0x01 != 0) == (a.pulse1.length_counter > 0),
        (a.spec_read_value(0x4015) & 0x02 != 0) == (a.pulse2.length_counter > 0),
        (a.spec_read_value(0x4015) & 0x04 != 0) == (a.triangle.length_counter > 0),
        (a.spec_read_value(0x4015) & 0x08 != 0) == (a.noise.length_counter > 0),
        (a.spec_read_value(0x4015) & 0x40 != 0) == a.frame_irq_flag,
        (a.spec_read_value(0x4015) & 0x80 != 0) == a.dmc_irq_flag,
        a.spec_after_read(0x4015) == (APU { frame_irq_flag: false, ..a }),
{
    lemma_status_bits(
        a.pulse1.length_counter > 0,
        a.pulse2.length_counter > 0,
        a.triangle.length_counter > 0,
        a.noise.length_counter > 0,
        a.frame_irq_flag,
        a.dmc_irq_flag,
    );
}

/// Writing $4015 enables the channels whose bits are set (0 pulse 1,
/// 1 pulse 2, 2 triangle, 3 noise, 4 DMC); a channel whose bit is clear has
/// its length counter cleared, and the pulse and noise channels then put
/// out silence.
pub proof fn lemma_status_write(a: APU, value: u8)
    ensures
        ({
            let b = a.spec_write_register(0x4015, value);
            &&& b.pulse1.enabled == (value & 0x01 != 0)
            &&& b.pulse2.enabled == (value & 0x02 != 0)
            &&& b.triangle.enabled == (value & 0x04 != 0)
            &&& b.noise.enabled == (value & 0x08 != 0)
            &&& b.dmc_enabled == (value & 0x10 != 0)
            &&& value & 0x01 == 0 ==> b.pulse1.length_counter == 0 && b.spec_levels().pulse1 == 0
            &&& value & 0x02 == 0 ==> b.pulse2.length_counter == 0 && b.spec_levels().pulse2 == 0
            &&& value & 0x04 == 0 ==> b.triangle.length_counter == 0
            &&& value & 0x08 == 0 ==> b.noise.length_counter == 0 && b.spec_levels().noise == 0
        }),
{
}

/// A write to a channel's length register ($4003, $4007, $400B, $400F)
/// loads its length counter from the length table (index: the value's top
/// five bits) only while the channel is enabled.
pub proof fn lemma_length_load(a: APU, value: u8)
    ensures
        a.spec_write_register(0x4003, value).pulse1.length_counter == if a.pulse1.enabled {
            LENGTH_TABLE@[(value >> 3u8) as int]
        } else {
            a.pulse1.length_counter
        },
        a.spec_write_register(0x4007, value).pulse2.length_counter == if a.pulse2.enabled {
            LENGTH_TABLE@[(value >> 3u8) as int]
        } else {
            a.pulse2.length_counter
        },
        a.spec_write_register(0x400B, value).triangle.length_counter == if a.triangle.enabled {
            LENGTH_TABLE@[(value >> 3u8) as int]
        } else {
            a.triangle.length_counter
        },
        a.spec_write_register(0x400F, value).noise.length_counter == if a.noise.enabled {
            LENGTH_TABLE@[(value >> 3u8) as int]
        } else {
            a.noise.length_counter
        },
{
}

/// The frame interrupt is raised only by the four-step sequence, and only
/// while $4017 does not inhibit it; a cycle never lowers it. (Left out: the
/// cycle after the fourth step of the four-step sequence, which raises the
/// interrupt even when $4017 has just selected the five-step sequence.)
pub proof fn lemma_frame_irq_source(a: APU)
    requires
        !(a.frame_step == 5 && a.five_step_mode()),
    ensures
        a.spec_tick().frame_counter == a.frame_counter,
        a.frame_irq_flag ==> a.spec_tick().frame_irq_flag,
        a.spec_tick().frame_irq_flag && !a.frame_irq_flag ==> !a.five_step_mode()
            && !a.irq_inhibit(),
{
}

/// The length counter after one cycle, given whether the cycle clocks the
/// half frame: a counter that is not halted and not zero counts down by one
/// on a half-frame clock; otherwise it keeps its value.
pub open spec fn length_after(count: u8, halted: bool, half_frame: bool) -> u8 {
    if half_frame && !halted && count > 0 {
        (count - 1) as u8
    } else {
        count
    }
}

/// The length counters of `b` are those of `a` after one cycle that clocks
/// the half frame or not, and the halt flags are those of `a`.
spec fn lengths_follow(a: APU, b: APU, half_frame: bool) -> bool {
    &&& b.pulse1.length_counter == length_after(
        a.pulse1.length_counter,
        a.pulse1.duty_envelope & 0x20 != 0,
        half_frame,
    )
    &&& b.pulse2.length_counter == length_after(
        a.pulse2.length_counter,
        a.pulse2.duty_envelope & 0x20 != 0,
        half_frame,
    )
    &&& b.triangle.length_counter == length_after(
        a.triangle.length_counter,
        a.triangle.linear_control & 0x80 != 0,
        half_frame,
    )
    &&& b.noise.length_counter == length_after(
        a.noise.length_counter,
        a.noise.envelope_reg & 0x20 != 0,
        half_frame,
    )
    &&& b.pulse1.duty_envelope == a.pulse1.duty_envelope
    &&& b.pulse2.duty_envelope == a.pulse2.duty_envelope
    &&& b.triangle.linear_control == a.triangle.linear_control
    &&& b.noise.envelope_reg == a.noise.envelope_reg
}

proof fn lemma_frame_clocks_follow(a: APU)
    ensures
        lengths_follow(a, a.spec_quarter_frame(), false),
        lengths_follow(a, a.spec_half_frame(), true),
        lengths_follow(a, a.spec_quarter_frame().spec_half_frame(), true),
{
}

/// Whether the frame sequencer clocks the half frame at the current cycle.
spec fn sequencer_half_frame(a: APU) -> bool {
    ||| a.frame_step == 1 && a.cycle_count == FRAME_STEP_1
    ||| a.frame_step == 3 && a.frame_counter & 0x80 == 0 && a.cycle_count == FRAME_STEP_3
    ||| a.frame_step == 4 && a.cycle_count == FRAME_STEP_4
}

proof fn lemma_sequencer_follows(a: APU)
    ensures
        lengths_follow(a, a.spec_frame_sequencer(), sequencer_half_frame(a)),
        a.spec_frame_sequencer().frame_counter == a.frame_counter,
{
    lemma_frame_clocks_follow(a);
    let t = APU { frame_irq_flag: true, ..a };
    lemma_frame_clocks_follow(t);
}

/// The length counters move only on half-frame clocks, which come twice in
/// each sequence: in the four-step sequence at cycles 14913 and 29829, in
/// the five-step sequence at cycles 14913 and 37281, and at once when a
/// pending reset selects the five-step sequence. On such a cycle every
/// length counter that is not halted (bit 5 of $4000, $4004 and $400C, bit
/// 7 of $4008) and not zero counts down by one; on every other cycle all
/// four keep their values.
pub proof fn lemma_length_counters_on_half_frames(a: APU)
    requires
        a.wf(),
    ensures
        ({
            let five_step = a.frame_counter & 0x80 != 0;
            let half = if a.reset_pending == 1 {
                five_step
            } else {
                ||| a.frame_step == 1 && a.cycle_count + 1 == FRAME_STEP_1
                ||| a.frame_step == 3 && !five_step && a.cycle_count + 1 == FRAME_STEP_3
                ||| a.frame_step == 4 && a.cycle_count + 1 == FRAME_STEP_4
            };
            let t = a.spec_tick();
            &&& t.pulse1.length_counter == length_after(
                a.pulse1.length_counter,
                a.pulse1.duty_envelope & 0x20 != 0,
                half,
            )
            &&& t.pulse2.length_counter == length_after(
                a.pulse2.length_counter,
                a.pulse2.duty_envelope & 0x20 != 0,
                half,
            )
            &&& t.triangle.length_counter == length_after(
                a.triangle.length_counter,
                a.triangle.linear_control & 0x80 != 0,
                half,
            )
            &&& t.noise.length_counter == length_after(
                a.noise.length_counter,
                a.noise.envelope_reg & 0x20 != 0,
                half,
            )
        }),
{
    let r = a.spec_count_down_reset();
    lemma_frame_clocks_follow(APU { reset_pending: 0, cycle_count: 0, frame_step: 0, ..a });
    assert(lengths_follow(a, r, a.reset_pending == 1 && a.frame_counter & 0x80 != 0));
    let u = r.spec_tick_timers();
    assert(lengths_follow(r, u, false));
    lemma_sequencer_follows(u);
    let five_step = a.frame_counter & 0x80 != 0;
    let half = if a.reset_pending == 1 {
        five_step
    } else {
        sequencer_half_frame(APU { cycle_count: (a.cycle_count + 1) as u32, ..a })
    };
    assert(lengths_follow(a, a.spec_tick(), half));
}

/// The envelopes and the triangle's linear counter of `b` are those of `a`
/// after one quarter-frame clock, or as in `a` when `quarter_frame` does
/// not hold; the registers that drive them are those of `a`.
pub open spec fn envelopes_follow(a: APU, b: APU, quarter_frame: bool) -> bool {
    let p1 = if quarter_frame { a.pulse1.spec_clock_envelope() } else { a.pulse1 };
    let p2 = if quarter_frame { a.pulse2.spec_clock_envelope() } else { a.pulse2 };
    let n = if quarter_frame { a.noise.spec_clock_envelope() } else { a.noise };
    let t = if quarter_frame { a.triangle.spec_clock_linear_counter() } else { a.triangle };
    &&& b.pulse1.envelope_start == p1.envelope_start
    &&& b.pulse1.envelope_divider == p1.envelope_divider
    &&& b.pulse1.envelope_decay == p1.envelope_decay
    &&& b.pulse2.envelope_start == p2.envelope_start
    &&& b.pulse2.envelope_divider == p2.envelope_divider
    &&& b.pulse2.envelope_decay == p2.envelope_decay
    &&& b.noise.envelope_start == n.envelope_start
    &&& b.noise.envelope_divider == n.envelope_divider
    &&& b.noise.envelope_decay == n.envelope_decay
    &&& b.triangle.linear_counter == t.linear_counter
    &&& b.triangle.linear_reload == t.linear_reload
    &&& b.pulse1.duty_envelope == a.pulse1.duty_envelope
    &&& b.pulse2.duty_envelope == a.pulse2.duty_envelope
    &&& b.noise.envelope_reg == a.noise.envelope_reg
    &&& b.triangle.linear_control == a.triangle.linear_control
}

proof fn lemma_frame_clocks_envelopes(a: APU)
    ensures
        envelopes_follow(a, a.spec_quarter_frame(), true),
        envelopes_follow(a, a.spec_half_frame(), false),
        envelopes_follow(a, a.spec_quarter_frame().spec_half_frame(), true),
{
}

/// Whether the frame sequencer clocks the quarter frame at the current cycle.
spec fn sequencer_quarter_frame(a: APU) -> bool {
    ||| a.frame_step == 0 && a.cycle_count == FRAME_STEP_0
    ||| a.frame_step == 2 && a.cycle_count == FRAME_STEP_2
    ||| sequencer_half_frame(a)
}

proof fn lemma_sequencer_envelopes(a: APU)
    ensures
        envelopes_follow(a, a.spec_frame_sequencer(), sequencer_quarter_frame(a)),
{
    lemma_frame_clocks_envelopes(a);
    let t = APU { frame_irq_flag: true, ..a };
    lemma_frame_clocks_envelopes(t);
}

/// The envelopes and the triangle's linear counter are clocked on quarter
/// frames only: at cycles 7457, 14913, 22371 and 29829 of the four-step
/// sequence, at 7457, 14913, 22371 and 37281 of the five-step one, and at
/// once when a pending reset selects the five-step sequence. On such a
/// cycle each of them takes one clock; on every other cycle they keep their
/// state.
#[verifier::rlimit(40)]
pub proof fn lemma_envelopes_on_quarter_frames(a: APU)
    requires
        a.wf(),
    ensures
        ({
            let five_step = a.frame_counter & 0x80 != 0;
            let quarter = if a.reset_pending == 1 {
                five_step
            } else {
                ||| a.frame_step == 0 && a.cycle_count + 1 == FRAME_STEP_0
                ||| a.frame_step == 1 && a.cycle_count + 1 == FRAME_STEP_1
                ||| a.frame_step == 2 && a.cycle_count + 1 == FRAME_STEP_2
                ||| a.frame_step == 3 && !five_step && a.cycle_count + 1 == FRAME_STEP_3
                ||| a.frame_step == 4 && a.cycle_count + 1 == FRAME_STEP_4
            };
            envelopes_follow(a, a.spec_tick(), quarter)
        }),
{
    let r = a.spec_count_down_reset();
    lemma_frame_clocks_envelopes(APU { reset_pending: 0, cycle_count: 0, frame_step: 0, ..a });
    assert(envelopes_follow(a, r, a.reset_pending == 1 && a.frame_counter & 0x80 != 0));
    let u = r.spec_tick_timers();
    assert(envelopes_follow(r, u, false));
    lemma_sequencer_envelopes(u);
    let five_step = a.frame_counter & 0x80 != 0;
    let quarter = if a.reset_pending == 1 {
        five_step
    } else {
        sequencer_quarter_frame(APU { cycle_count: (a.cycle_count + 1) as u32, ..a })
    };
    assert(envelopes_follow(a, a.spec_tick(), quarter));
}

/// What one cycle does to a pending restart of the frame sequence: it
/// counts down, and at one the sequence starts over, at cycle 1 of step 0
/// once this cycle is counted. The frame counter register stays.
proof fn lemma_tick_pending_reset(a: APU)
    ensures
        a.spec_tick().frame_counter == a.frame_counter,
        a.reset_pending > 1 ==> a.spec_tick().reset_pending == a.reset_pending - 1,
        a.reset_pending == 1 ==> {
            &&& a.spec_tick().reset_pending == 0
            &&& a.spec_tick().cycle_count == 1
            &&& a.spec_tick().frame_step == 0
        },
{
}

/// Writing $4017 sets the frame counter register, clears the frame
/// interrupt when bit 6 (inhibit) is set and keeps it otherwise, and leaves
/// the channels alone; four cycles later the frame sequence starts over:
/// after the fourth cycle it stands at cycle 1 of its first step, with no
/// restart pending.
pub proof fn lemma_frame_counter_write(a: APU, value: u8)
    ensures
        ({
            let b = a.spec_write_register(0x4017, value);
            let c = b.spec_tick().spec_tick().spec_tick().spec_tick();
            &&& b.frame_counter == value
            &&& b.frame_irq_flag == (a.frame_irq_flag && value & 0x40 == 0)
            &&& b.pulse1 == a.pulse1
            &&& b.pulse2 == a.pulse2
            &&& b.triangle == a.triangle
            &&& b.noise == a.noise
            &&& c.frame_counter == value
            &&& c.reset_pending == 0
            &&& c.cycle_count == 1
            &&& c.frame_step == 0
        }),
{
    let b = a.spec_write_register(0x4017, value);
    lemma_tick_pending_reset(b);
    lemma_tick_pending_reset(b.spec_tick());
    lemma_tick_pending_reset(b.spec_tick().spec_tick());
    lemma_tick_pending_reset(b.spec_tick().spec_tick().spec_tick());
}

} // verus!
