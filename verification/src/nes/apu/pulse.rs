//! Pulse (square wave) channel. The NES has two, with duty cycles of 12.5%,
//! 25%, 50% and 75%, a volume envelope, a sweep unit that slides the
//! period, and a length counter.
use vstd::prelude::*;

use crate::nes::bits::lemma_byte_fields;

verus! {

/// Step `position` (0-7) of the waveform of duty cycle `duty` (0-3): 1 while
/// the wave is high.
pub open spec fn spec_duty_level(duty: u8, position: u8) -> u8 {
    if duty == 0 {
        if position == 1 { 1 } else { 0 }
    } else if duty == 1 {
        if position == 1 || position == 2 { 1 } else { 0 }
    } else if duty == 2 {
        if 1 <= position <= 4 { 1 } else { 0 }
    } else {
        if position == 1 || position == 2 { 0 } else { 1 }
    }
}

/// Step `position` of the waveform of duty cycle `duty`.
pub fn duty_level(duty: u8, position: u8) -> (r: u8)
    requires
        duty < 4,
        position < 8,
    ensures
        r == spec_duty_level(duty, position),
{
    if duty == 0 {
        if position == 1 { 1 } else { 0 }
    } else if duty == 1 {
        if position == 1 || position == 2 { 1 } else { 0 }
    } else if duty == 2 {
        if 1 <= position && position <= 4 { 1 } else { 0 }
    } else {
        if position == 1 || position == 2 { 0 } else { 1 }
    }
}

/// One pulse channel.
#[derive(Clone, Copy, Debug)]
pub struct Pulse {
    /// Channel number (1 or 2); the sweep unit negates differently on each.
    pub channel: u8,
    /// Duty (bits 6-7), envelope loop / length counter halt (bit 5),
    /// constant volume (bit 4), volume or envelope period (bits 0-3).
    pub duty_envelope: u8,
    /// Sweep: enabled (bit 7), period (bits 4-6), negate (bit 3), shift (bits 0-2).
    pub sweep: u8,
    /// Low 8 bits of the timer period.
    pub timer_low: u8,
    /// Length counter index (bits 3-7), high 3 bits of the timer period.
    pub length_timer_high: u8,
    /// Position in the duty waveform (0-7).
    pub duty_position: u8,
    /// Timer, counting down from the period.
    pub timer_counter: u16,
    /// Timer period (11 bits).
    pub timer_period: u16,
    pub envelope_start: bool,
    pub envelope_divider: u8,
    /// Envelope level (0-15).
    pub envelope_decay: u8,
    pub sweep_reload: bool,
    pub sweep_divider: u8,
    /// The period the sweep unit would set next.
    pub sweep_target_period: u16,
    /// Whether the sweep unit silences the channel.
    pub sweep_muting: bool,
    pub length_counter: u8,
    pub enabled: bool,
}

impl Pulse {
    /// The counters stay in their ranges: duty position below 8, envelope
    /// level at most 15, an 11-bit period; an unmuted sweep aims at an
    /// 11-bit period.
    pub open spec fn wf(self) -> bool {
        &&& self.duty_position < 8
        &&& self.envelope_decay <= 15
        &&& self.timer_period <= 0x7FF
        &&& !self.sweep_muting ==> self.sweep_target_period <= 0x7FF
    }

    pub open spec fn envelope_period(self) -> u8 {
        self.duty_envelope & 0x0F
    }

    pub open spec fn envelope_loop(self) -> bool {
        self.duty_envelope & 0x20 != 0
    }

    /// The length counter halt flag is the envelope loop flag.
    pub open spec fn length_counter_halt(self) -> bool {
        self.duty_envelope & 0x20 != 0
    }

    pub open spec fn constant_volume(self) -> bool {
        self.duty_envelope & 0x10 != 0
    }

    pub open spec fn volume(self) -> u8 {
        self.duty_envelope & 0x0F
    }

    pub open spec fn sweep_enabled(self) -> bool {
        self.sweep & 0x80 != 0
    }

    pub open spec fn sweep_period(self) -> u8 {
        (self.sweep >> 4u8) & 0x07
    }

    pub open spec fn sweep_shift(self) -> u8 {
        self.sweep & 0x07
    }

    /// The 11-bit period held in the timer registers.
    pub open spec fn register_period(self) -> u16 {
        (self.timer_low as u16) | (((self.length_timer_high & 0x07) as u16) << 8u16)
    }

    /// The period the sweep unit aims at: the current period plus or minus
    /// the period shifted right by the shift count; when negating, channel 1
    /// subtracts one more (wrapping at 16 bits).
    pub open spec fn spec_sweep_target(self) -> u16 {
        let change = self.timer_period >> (self.sweep & 0x07);
        if self.sweep & 0x08 != 0 {
            if self.channel == 1 {
                vstd::wrapping::u16_specs::wrapping_sub(
                    vstd::wrapping::u16_specs::wrapping_sub(self.timer_period, change),
                    1,
                )
            } else {
                vstd::wrapping::u16_specs::wrapping_sub(self.timer_period, change)
            }
        } else {
            vstd::wrapping::u16_specs::wrapping_add(self.timer_period, change)
        }
    }

    /// The channel with the sweep target and muting computed afresh: muted
    /// while the period is below 8 or the target above $7FF.
    pub open spec fn with_sweep_target(self) -> Pulse {
        let target = self.spec_sweep_target();
        Pulse { sweep_target_period: target, sweep_muting: self.timer_period < 8 || target > 0x7FF, ..self }
    }

    /// The channel with its period taken from the timer registers.
    pub open spec fn with_register_period(self) -> Pulse {
        Pulse { timer_period: self.register_period(), ..self }.with_sweep_target()
    }

    /// The envelope after a quarter-frame clock.
    pub open spec fn spec_clock_envelope(self) -> Pulse {
        if self.envelope_start {
            Pulse {
                envelope_start: false,
                envelope_decay: 15,
                envelope_divider: self.envelope_period(),
                ..self
            }
        } else if self.envelope_divider > 0 {
            Pulse { envelope_divider: (self.envelope_divider - 1) as u8, ..self }
        } else if self.envelope_decay > 0 {
            Pulse {
                envelope_divider: self.envelope_period(),
                envelope_decay: (self.envelope_decay - 1) as u8,
                ..self
            }
        } else if self.envelope_loop() {
            Pulse { envelope_divider: self.envelope_period(), envelope_decay: 15, ..self }
        } else {
            Pulse { envelope_divider: self.envelope_period(), ..self }
        }
    }

    /// The channel after a timer tick: at zero the timer reloads and the
    /// duty position advances; otherwise the timer counts down.
    pub open spec fn spec_tick_timer(self) -> Pulse {
        if self.timer_counter == 0 {
            Pulse {
                timer_counter: self.timer_period,
                duty_position: ((self.duty_position + 1) % 8) as u8,
                ..self
            }
        } else {
            Pulse { timer_counter: (self.timer_counter - 1) as u16, ..self }
        }
    }

    /// The sweep unit after a half-frame clock. When its divider is zero or a
    /// reload is pending it reloads the divider; if the divider was zero,
    /// the sweep is enabled and not muting, and the shift is nonzero, the
    /// period moves to the target.
    pub open spec fn spec_clock_sweep(self) -> Pulse {
        let should_update = self.sweep_divider == 0 && self.sweep_enabled() && !self.sweep_muting;
        if self.sweep_divider == 0 || self.sweep_reload {
            let reloaded = Pulse { sweep_divider: self.sweep_period(), sweep_reload: false, ..self };
            if should_update && self.sweep_shift() > 0 {
                Pulse { timer_period: self.sweep_target_period, ..reloaded }.with_sweep_target()
            } else {
                reloaded
            }
        } else {
            Pulse { sweep_divider: (self.sweep_divider - 1) as u8, ..self }
        }
    }

    /// The length counter counts down on a half-frame clock unless halted or zero.
    pub open spec fn spec_clock_length_counter(self) -> Pulse {
        if !self.length_counter_halt() && self.length_counter > 0 {
            Pulse { length_counter: (self.length_counter - 1) as u8, ..self }
        } else {
            self
        }
    }

    /// The level the channel puts out: 0 while the length counter is zero,
    /// the sweep mutes or the waveform is low; otherwise the constant volume
    /// or the envelope level.
    pub open spec fn spec_output(self) -> u8 {
        if self.length_counter == 0 || self.sweep_muting || spec_duty_level(
            (self.duty_envelope >> 6u8) & 0x03,
            self.duty_position,
        ) == 0 {
            0
        } else if self.constant_volume() {
            self.volume()
        } else {
            self.envelope_decay
        }
    }

    pub open spec fn spec_write_duty_envelope(self, value: u8) -> Pulse {
        Pulse { duty_envelope: value, ..self }
    }

    pub open spec fn spec_write_sweep(self, value: u8) -> Pulse {
        Pulse { sweep: value, sweep_reload: true, ..self }
    }

    pub open spec fn spec_write_timer_low(self, value: u8) -> Pulse {
        Pulse { timer_low: value, ..self }.with_register_period()
    }

    /// Register 3: an enabled channel loads its length counter from the
    /// table entry that bits 3-7 select; the envelope restarts and the
    /// waveform starts over.
    pub open spec fn spec_write_length_timer_high(self, value: u8, length_table: Seq<u8>) -> Pulse {
        Pulse {
            length_counter: if self.enabled {
                length_table[(value >> 3u8) as int]
            } else {
                self.length_counter
            },
            envelope_start: true,
            duty_position: 0,
            ..Pulse { length_timer_high: value, ..self }.with_register_period()
        }
    }

    pub open spec fn spec_set_enabled(self, enabled: bool) -> Pulse {
        Pulse {
            enabled,
            length_counter: if enabled {
                self.length_counter
            } else {
                0
            },
            ..self
        }
    }

    /// A silent, disabled channel with all registers zero.
    pub open spec fn initial(channel: u8) -> Pulse {
        Pulse {
            channel,
            duty_envelope: 0,
            sweep: 0,
            timer_low: 0,
            length_timer_high: 0,
            duty_position: 0,
            timer_counter: 0,
            timer_period: 0,
            envelope_start: false,
            envelope_divider: 0,
            envelope_decay: 0,
            sweep_reload: false,
            sweep_divider: 0,
            sweep_target_period: 0,
            sweep_muting: false,
            length_counter: 0,
            enabled: false,
        }
    }

    pub fn new(channel: u8) -> (r: Pulse)
        ensures
            r == Pulse::initial(channel),
            r.wf(),
    {
        Pulse {
            channel,
            duty_envelope: 0,
            sweep: 0,
            timer_low: 0,
            length_timer_high: 0,
            duty_position: 0,
            timer_counter: 0,
            timer_period: 0,
            envelope_start: false,
            envelope_divider: 0,
            envelope_decay: 0,
            sweep_reload: false,
            sweep_divider: 0,
            sweep_target_period: 0,
            sweep_muting: false,
            length_counter: 0,
            enabled: false,
        }
    }

    /// Register 0 ($4000/$4004): duty and envelope.
    pub fn write_duty_envelope(&mut self, value: u8)
        ensures
            *final(self) == old(self).spec_write_duty_envelope(value),
    {
        self.duty_envelope = value;
    }

    /// Register 1 ($4001/$4005): sweep; the sweep divider reloads at the
    /// next half frame.
    pub fn write_sweep(&mut self, value: u8)
        ensures
            *final(self) == old(self).spec_write_sweep(value),
    {
        self.sweep = value;
        self.sweep_reload = true;
    }

    /// Register 2 ($4002/$4006): low 8 bits of the period.
    pub fn write_timer_low(&mut self, value: u8)
        requires
            old(self).wf(),
        ensures
            *final(self) == old(self).spec_write_timer_low(value),
            final(self).wf(),
    {
        self.timer_low = value;
        self.update_timer_period();
    }

    /// Register 3 ($4003/$4007): length counter index and high 3 bits of
    /// the period. An enabled channel loads its length counter from
    /// `length_table`; the envelope restarts and the waveform starts over.
    pub fn write_length_timer_high(&mut self, value: u8, length_table: &[u8; 32])
        requires
            old(self).wf(),
        ensures
            *final(self) == old(self).spec_write_length_timer_high(value, length_table@),
            final(self).wf(),
    {
        self.length_timer_high = value;
        self.update_timer_period();
        if self.enabled {
            let length_index = (value >> 3u8) as usize;
            proof {
                lemma_byte_fields(value);
            }
            self.length_counter = length_table[length_index];
        }
        self.envelope_start = true;
        self.duty_position = 0;
    }

    /// Takes the 11-bit period from the timer registers.
    fn update_timer_period(&mut self)
        ensures
            *final(self) == old(self).with_register_period(),
            final(self).timer_period <= 0x7FF,
    {
        let low = self.timer_low;
        let high = self.length_timer_high;
        let period = (low as u16) | (((high & 0x07) as u16) << 8u16);
        assert(period <= 0x7FF) by (bit_vector)
            requires period == (low as u16) | (((high & 0x07) as u16) << 8u16);
        self.timer_period = period;
        self.calculate_sweep_target();
    }

    /// Computes the sweep target and the muting flag.
    fn calculate_sweep_target(&mut self)
        ensures
            *final(self) == old(self).with_sweep_target(),
            !final(self).sweep_muting ==> final(self).sweep_target_period <= 0x7FF,
    {
        let sweep = self.sweep;
        let shift = sweep & 0x07;
        proof {
            lemma_byte_fields(sweep);
        }
        let change = self.timer_period >> shift;
        let negate = (self.sweep & 0x08) != 0;
        if negate {
            if self.channel == 1 {
                self.sweep_target_period = self.timer_period.wrapping_sub(change).wrapping_sub(1);
            } else {
                self.sweep_target_period = self.timer_period.wrapping_sub(change);
            }
        } else {
            self.sweep_target_period = self.timer_period.wrapping_add(change);
        }
        self.sweep_muting = self.timer_period < 8 || self.sweep_target_period > 0x7FF;
    }

    /// One timer tick (every other CPU cycle).
    pub fn tick_timer(&mut self)
        requires
            old(self).wf(),
        ensures
            *final(self) == old(self).spec_tick_timer(),
            final(self).wf(),
    {
        if self.timer_counter == 0 {
            self.timer_counter = self.timer_period;
            let p = self.duty_position;
            let next = (p + 1) & 0x07;
            assert(next == (p + 1) % 8) by (bit_vector)
                requires
                    next == ((p + 1) as u8) & 0x07,
                    p < 8,
            ;
            self.duty_position = next;
        } else {
            self.timer_counter = self.timer_counter - 1;
        }
    }

    /// One quarter-frame clock of the envelope.
    pub fn clock_envelope(&mut self)
        requires
            old(self).wf(),
        ensures
            *final(self) == old(self).spec_clock_envelope(),
            final(self).wf(),
    {
        if self.envelope_start {
            self.envelope_start = false;
            self.envelope_decay = 15;
            self.envelope_divider = self.get_envelope_period();
        } else if self.envelope_divider > 0 {
            self.envelope_divider = self.envelope_divider - 1;
        } else {
            self.envelope_divider = self.get_envelope_period();
            if self.envelope_decay > 0 {
                self.envelope_decay = self.envelope_decay - 1;
            } else if self.get_envelope_loop() {
                self.envelope_decay = 15;
            }
        }
    }

    /// One half-frame clock of the sweep unit.
    pub fn clock_sweep(&mut self)
        requires
            old(self).wf(),
        ensures
            *final(self) == old(self).spec_clock_sweep(),
            final(self).wf(),
    {
        let should_update = self.sweep_divider == 0 && self.is_sweep_enabled() && !self.sweep_muting;
        if self.sweep_divider == 0 || self.sweep_reload {
            self.sweep_divider = self.get_sweep_period();
            self.sweep_reload = false;
            if should_update && self.get_sweep_shift() > 0 {
                self.timer_period = self.sweep_target_period;
                self.calculate_sweep_target();
            }
        } else {
            self.sweep_divider = self.sweep_divider - 1;
        }
    }

    /// One half-frame clock of the length counter.
    pub fn clock_length_counter(&mut self)
        ensures
            *final(self) == old(self).spec_clock_length_counter(),
    {
        if !self.get_length_counter_halt() && self.length_counter > 0 {
            self.length_counter = self.length_counter - 1;
        }
    }

    /// The level the channel puts out (0-15).
    pub fn output(&self) -> (r: u8)
        requires
            self.wf(),
        ensures
            r == self.spec_output(),
            r <= 15,
    {
        if self.length_counter == 0 {
            return 0;
        }
        if self.sweep_muting {
            return 0;
        }
        let de = self.duty_envelope;
        let duty = (de >> 6u8) & 0x03;
        proof {
            lemma_byte_fields(de);
        }
        if duty_level(duty, self.duty_position) == 0 {
            return 0;
        }
        if self.get_constant_volume() {
            self.get_volume()
        } else {
            self.envelope_decay
        }
    }

    fn get_envelope_period(&self) -> (r: u8)
        ensures
            r == self.envelope_period(),
            r <= 15,
    {
        let de = self.duty_envelope;
        proof {
            lemma_byte_fields(de);
        }
        de & 0x0F
    }

    fn get_envelope_loop(&self) -> (r: bool)
        ensures
            r == self.envelope_loop(),
    {
        (self.duty_envelope & 0x20) != 0
    }

    fn get_length_counter_halt(&self) -> (r: bool)
        ensures
            r == self.length_counter_halt(),
    {
        (self.duty_envelope & 0x20) != 0
    }

    fn get_constant_volume(&self) -> (r: bool)
        ensures
            r == self.constant_volume(),
    {
        (self.duty_envelope & 0x10) != 0
    }

    fn get_volume(&self) -> (r: u8)
        ensures
            r == self.volume(),
            r <= 15,
    {
        let de = self.duty_envelope;
        proof {
            lemma_byte_fields(de);
        }
        de & 0x0F
    }

    fn is_sweep_enabled(&self) -> (r: bool)
        ensures
            r == self.sweep_enabled(),
    {
        (self.sweep & 0x80) != 0
    }

    fn get_sweep_period(&self) -> (r: u8)
        ensures
            r == self.sweep_period(),
    {
        (self.sweep >> 4u8) & 0x07
    }

    fn get_sweep_shift(&self) -> (r: u8)
        ensures
            r == self.sweep_shift(),
    {
        self.sweep & 0x07
    }

    /// Enables or disables the channel; disabling clears the length counter.
    pub fn set_enabled(&mut self, enabled: bool)
        ensures
            *final(self) == old(self).spec_set_enabled(enabled),
    {
        self.enabled = enabled;
        if !enabled {
            self.length_counter = 0;
        }
    }
}

/// What a pulse channel puts out: nothing while it is silenced (length
/// counter zero, muted by the sweep unit, or the duty waveform low at its
/// position); while it sounds, the volume in bits 0-3 of $4000/$4004 when
/// bit 4 (constant volume) is set, and the envelope's level when it is
/// clear. The level never exceeds 15.
pub proof fn lemma_pulse_output(p: Pulse)
    requires
        p.wf(),
    ensures
        ({
            let sounding = p.length_counter > 0 && !p.sweep_muting
                && spec_duty_level(p.duty_envelope >> 6u8, p.duty_position) == 1;
            let out = p.spec_output();
            &&& !sounding ==> out == 0
            &&& sounding && p.duty_envelope & 0x10 != 0 ==> out == p.duty_envelope & 0x0F
            &&& sounding && p.duty_envelope & 0x10 == 0 ==> out == p.envelope_decay
            &&& out <= 15
        }),
{
    let d = p.duty_envelope;
    lemma_byte_fields(d);
}

/// The period the sweep unit aims at, with `change` the current period
/// divided by 2 to the power of the shift (bits 0-2 of $4001/$4005): the
/// period plus the change; with the negate bit (bit 3) set, the period less
/// the change, and on channel 1 one less again, wrapping at 16 bits.
pub proof fn lemma_sweep_target(p: Pulse)
    requires
        p.wf(),
    ensures
        ({
            let change = p.timer_period as nat / vstd::arithmetic::power2::pow2((p.sweep & 0x07) as nat);
            let target = p.spec_sweep_target();
            &&& p.sweep & 0x08 == 0 ==> target == p.timer_period + change
            &&& p.sweep & 0x08 != 0 && p.channel == 1 ==> target == (p.timer_period - change - 1)
                % 0x10000
            &&& p.sweep & 0x08 != 0 && p.channel != 1 ==> target == p.timer_period - change
        }),
{
    lemma_byte_fields(p.sweep);
    let shift = p.sweep & 0x07;
    vstd::bits::lemma_u16_shr_is_div(p.timer_period, shift as u16);
    assert(p.timer_period >> shift == p.timer_period >> (shift as u16));
    let change = p.timer_period as nat / vstd::arithmetic::power2::pow2(shift as nat);
    vstd::arithmetic::power2::lemma_pow2_pos(shift as nat);
    vstd::arithmetic::div_mod::lemma_div_is_ordered_by_denominator(
        p.timer_period as int,
        1,
        vstd::arithmetic::power2::pow2(shift as nat) as int,
    );
    assert(change <= p.timer_period);
}

} // verus!
