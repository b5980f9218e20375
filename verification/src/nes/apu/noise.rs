//! Noise channel: pseudo-random noise from a 15-bit linear feedback shift
//! register, either "white" (mode 0) or metallic (mode 1), with a volume
//! envelope and a length counter.
use vstd::prelude::*;

use crate::nes::bits::lemma_byte_fields;

verus! {

/// The NTSC timer period selected by a 4-bit period index.
pub open spec fn spec_noise_period(index: u8) -> u16 {
    if index == 0 { 4 }
    else if index == 1 { 8 }
    else if index == 2 { 16 }
    else if index == 3 { 32 }
    else if index == 4 { 64 }
    else if index == 5 { 96 }
    else if index == 6 { 128 }
    else if index == 7 { 160 }
    else if index == 8 { 202 }
    else if index == 9 { 254 }
    else if index == 10 { 380 }
    else if index == 11 { 508 }
    else if index == 12 { 762 }
    else if index == 13 { 1016 }
    else if index == 14 { 2034 }
    else { 4068 }
}

/// The timer period selected by a 4-bit period index.
pub fn noise_period(index: u8) -> (r: u16)
    requires
        index < 16,
    ensures
        r == spec_noise_period(index),
{
    match index {
        0 => 4,
        1 => 8,
        2 => 16,
        3 => 32,
        4 => 64,
        5 => 96,
        6 => 128,
        7 => 160,
        8 => 202,
        9 => 254,
        10 => 380,
        11 => 508,
        12 => 762,
        13 => 1016,
        14 => 2034,
        _ => 4068,
    }
}

/// The noise channel.
#[derive(Clone, Copy, Debug)]
pub struct Noise {
    /// Envelope loop / length counter halt (bit 5), constant volume (bit 4),
    /// volume or envelope period (bits 0-3).
    pub envelope_reg: u8,
    /// Mode (bit 7), period index (bits 0-3).
    pub period_reg: u8,
    /// Length counter index (bits 3-7).
    pub length_reg: u8,
    /// The 15-bit linear feedback shift register.
    pub shift_register: u16,
    pub timer_counter: u16,
    pub timer_period: u16,
    pub envelope_start: bool,
    pub envelope_divider: u8,
    /// Envelope level (0-15).
    pub envelope_decay: u8,
    pub length_counter: u8,
    pub enabled: bool,
}

impl Noise {
    /// The envelope level is at most 15 and the shift register keeps to 15 bits.
    pub open spec fn wf(self) -> bool {
        &&& self.envelope_decay <= 15
        &&& self.shift_register < 0x8000
    }

    pub open spec fn envelope_period(self) -> u8 {
        self.envelope_reg & 0x0F
    }

    pub open spec fn envelope_loop(self) -> bool {
        self.envelope_reg & 0x20 != 0
    }

    pub open spec fn length_counter_halt(self) -> bool {
        self.envelope_reg & 0x20 != 0
    }

    pub open spec fn constant_volume(self) -> bool {
        self.envelope_reg & 0x10 != 0
    }

    pub open spec fn volume(self) -> u8 {
        self.envelope_reg & 0x0F
    }

    /// The shift register after one clock: the feedback bit (bit 0 XOR bit 6
    /// in mode 1, bit 0 XOR bit 1 in mode 0) enters at bit 14 as the
    /// register shifts right.
    pub open spec fn spec_shifted(self) -> u16 {
        let s = self.shift_register;
        let other = if self.period_reg & 0x80 != 0 {
            (s >> 6u16) & 1
        } else {
            (s >> 1u16) & 1
        };
        let feedback = (s & 1) ^ other;
        (s >> 1u16) | (feedback << 14u16)
    }

    /// The channel after a timer tick (every other CPU cycle): at zero the
    /// timer reloads and the shift register is clocked; otherwise the timer
    /// counts down.
    pub open spec fn spec_tick_timer(self) -> Noise {
        if self.timer_counter == 0 {
            Noise { timer_counter: self.timer_period, shift_register: self.spec_shifted(), ..self }
        } else {
            Noise { timer_counter: (self.timer_counter - 1) as u16, ..self }
        }
    }

    pub open spec fn spec_clock_envelope(self) -> Noise {
        if self.envelope_start {
            Noise {
                envelope_start: false,
                envelope_decay: 15,
                envelope_divider: self.envelope_period(),
                ..self
            }
        } else if self.envelope_divider > 0 {
            Noise { envelope_divider: (self.envelope_divider - 1) as u8, ..self }
        } else if self.envelope_decay > 0 {
            Noise {
                envelope_divider: self.envelope_period(),
                envelope_decay: (self.envelope_decay - 1) as u8,
                ..self
            }
        } else if self.envelope_loop() {
            Noise { envelope_divider: self.envelope_period(), envelope_decay: 15, ..self }
        } else {
            Noise { envelope_divider: self.envelope_period(), ..self }
        }
    }

    pub open spec fn spec_clock_length_counter(self) -> Noise {
        if !self.length_counter_halt() && self.length_counter > 0 {
            Noise { length_counter: (self.length_counter - 1) as u8, ..self }
        } else {
            self
        }
    }

    /// The level put out: 0 while the length counter is zero, the period is
    /// zero (never written) or bit 0 of the shift register is set; otherwise
    /// the constant volume or the envelope level.
    pub open spec fn spec_output(self) -> u8 {
        if self.length_counter == 0 || self.timer_period == 0 || self.shift_register & 1 != 0 {
            0
        } else if self.constant_volume() {
            self.volume()
        } else {
            self.envelope_decay
        }
    }

    pub open spec fn spec_write_envelope(self, value: u8) -> Noise {
        Noise { envelope_reg: value, ..self }
    }

    pub open spec fn spec_write_period(self, value: u8) -> Noise {
        Noise { period_reg: value, timer_period: spec_noise_period(value & 0x0F), ..self }
    }

    /// Register 3: an enabled channel loads its length counter from the
    /// table entry that bits 3-7 select; the envelope restarts.
    pub open spec fn spec_write_length(self, value: u8, length_table: Seq<u8>) -> Noise {
        Noise {
            length_reg: value,
            length_counter: if self.enabled {
                length_table[(value >> 3u8) as int]
            } else {
                self.length_counter
            },
            envelope_start: true,
            ..self
        }
    }

    pub open spec fn spec_set_enabled(self, enabled: bool) -> Noise {
        Noise {
            enabled,
            length_counter: if enabled {
                self.length_counter
            } else {
                0
            },
            ..self
        }
    }

    /// A disabled channel with the shift register at 1 (it must never be 0).
    pub open spec fn initial() -> Noise {
        Noise {
            envelope_reg: 0,
            period_reg: 0,
            length_reg: 0,
            shift_register: 1,
            timer_counter: 0,
            timer_period: 0,
            envelope_start: false,
            envelope_divider: 0,
            envelope_decay: 0,
            length_counter: 0,
            enabled: false,
        }
    }

    pub fn new() -> (r: Noise)
        ensures
            r == Noise::initial(),
            r.wf(),
    {
        Noise {
            envelope_reg: 0,
            period_reg: 0,
            length_reg: 0,
            shift_register: 1,
            timer_counter: 0,
            timer_period: 0,
            envelope_start: false,
            envelope_divider: 0,
            envelope_decay: 0,
            length_counter: 0,
            enabled: false,
        }
    }

    /// Register 0 ($400C): envelope.
    pub fn write_envelope(&mut self, value: u8)
        ensures
            *final(self) == old(self).spec_write_envelope(value),
    {
        self.envelope_reg = value;
    }

    /// Register 2 ($400E): mode and period index.
    pub fn write_period(&mut self, value: u8)
        ensures
            *final(self) == old(self).spec_write_period(value),
    {
        self.period_reg = value;
        let index = value & 0x0F;
        proof {
            lemma_byte_fields(value);
        }
        self.timer_period = noise_period(index);
    }

    /// Register 3 ($400F): length counter index. An enabled channel loads
    /// its length counter; the envelope restarts.
    pub fn write_length(&mut self, value: u8, length_table: &[u8; 32])
        ensures
            *final(self) == old(self).spec_write_length(value, length_table@),
    {
        self.length_reg = value;
        if self.enabled {
            let length_index = (value >> 3u8) as usize;
            proof {
                lemma_byte_fields(value);
            }
            self.length_counter = length_table[length_index];
        }
        self.envelope_start = true;
    }

    /// One timer tick.
    pub fn tick_timer(&mut self)
        requires
            old(self).wf(),
        ensures
            *final(self) == old(self).spec_tick_timer(),
            final(self).wf(),
    {
        if self.timer_counter == 0 {
            self.timer_counter = self.timer_period;
            self.clock_shift_register();
        } else {
            self.timer_counter = self.timer_counter - 1;
        }
    }

    /// Clocks the shift register.
    fn clock_shift_register(&mut self)
        requires
            old(self).wf(),
        ensures
            *final(self) == (Noise { shift_register: old(self).spec_shifted(), ..*old(self) }),
            final(self).wf(),
    {
        let mode = (self.period_reg & 0x80) != 0;
        let s = self.shift_register;
        let feedback_bit = if mode {
            (s & 0x01) ^ ((s >> 6u16) & 0x01)
        } else {
            (s & 0x01) ^ ((s >> 1u16) & 0x01)
        };
        let next = (s >> 1u16) | (feedback_bit << 14u16);
        assert(next < 0x8000) by (bit_vector)
            requires
                s < 0x8000,
                feedback_bit == (s & 0x01) ^ ((s >> 6u16) & 0x01) || feedback_bit == (s & 0x01) ^ ((
                s >> 1u16) & 0x01),
                next == (s >> 1u16) | (feedback_bit << 14u16),
        ;
        self.shift_register = next;
    }

    /// One quarter-frame clock of the envelope.
    pub fn clock_envelope(&mut self)
        requires
            old(self).wf(),
        ensures
            *final(self) == old(self).spec_clock_envelope(),
            final(self).wf(),
    {
        if self.envelope_start {
            self.envelope_start = false;
            self.envelope_decay = 15;
            self.envelope_divider = self.get_envelope_period();
        } else if self.envelope_divider > 0 {
            self.envelope_divider = self.envelope_divider - 1;
        } else {
            self.envelope_divider = self.get_envelope_period();
            if self.envelope_decay > 0 {
                self.envelope_decay = self.envelope_decay - 1;
            } else if self.get_envelope_loop() {
                self.envelope_decay = 15;
            }
        }
    }

    /// One half-frame clock of the length counter.
    pub fn clock_length_counter(&mut self)
        ensures
            *final(self) == old(self).spec_clock_length_counter(),
    {
        if !self.get_length_counter_halt() && self.length_counter > 0 {
            self.length_counter = self.length_counter - 1;
        }
    }

    /// The level the channel puts out (0-15).
    pub fn output(&self) -> (r: u8)
        requires
            self.wf(),
        ensures
            r == self.spec_output(),
            r <= 15,
    {
        if self.length_counter == 0 {
            return 0;
        }
        if self.timer_period == 0 {
            return 0;
        }
        if (self.shift_register & 0x01) != 0 {
            return 0;
        }
        if self.get_constant_volume() {
            self.get_volume()
        } else {
            self.envelope_decay
        }
    }

    fn get_envelope_period(&self) -> (r: u8)
        ensures
            r == self.envelope_period(),
    {
        self.envelope_reg & 0x0F
    }

    fn get_envelope_loop(&self) -> (r: bool)
        ensures
            r == self.envelope_loop(),
    {
        (self.envelope_reg & 0x20) != 0
    }

    fn get_length_counter_halt(&self) -> (r: bool)
        ensures
            r == self.length_counter_halt(),
    {
        (self.envelope_reg & 0x20) != 0
    }

    fn get_constant_volume(&self) -> (r: bool)
        ensures
            r == self.constant_volume(),
    {
        (self.envelope_reg & 0x10) != 0
    }

    fn get_volume(&self) -> (r: u8)
        ensures
            r == self.volume(),
            r <= 15,
    {
        let e = self.envelope_reg;
        proof {
            lemma_byte_fields(e);
        }
        e & 0x0F
    }

    /// Enables or disables the channel; disabling clears the length counter.
    pub fn set_enabled(&mut self, enabled: bool)
        ensures
            *final(self) == old(self).spec_set_enabled(enabled),
    {
        self.enabled = enabled;
        if !enabled {
            self.length_counter = 0;
        }
    }
}

impl Default for Noise {
    fn default() -> (r: Self)
        ensures
            r == Noise::initial(),
    {
        Noise::new()
    }
}

/// What the noise channel puts out: nothing while its length counter is
/// zero, its period was never set, or bit 0 of the shift register is set;
/// otherwise the volume in bits 0-3 of $400C when bit 4 (constant volume)
/// is set, and the envelope's level when it is clear. The level never
/// exceeds 15.
pub proof fn lemma_noise_output(n: Noise)
    requires
        n.wf(),
    ensures
        ({
            let sounding = n.length_counter > 0 && n.timer_period != 0 && n.shift_register & 1 == 0;
            let out = n.spec_output();
            &&& !sounding ==> out == 0
            &&& sounding && n.envelope_reg & 0x10 != 0 ==> out == n.envelope_reg & 0x0F
            &&& sounding && n.envelope_reg & 0x10 == 0 ==> out == n.envelope_decay
            &&& out <= 15
        }),
{
    let e = n.envelope_reg;
    lemma_byte_fields(e);
}

/// One clock of the noise shift register: bits 0-13 take the old bits
/// 1-14, and bit 14 takes bit 0 exclusive-or bit 6 (bit 7 of $400E set) or
/// bit 1 (clear); the register stays within 15 bits.
pub proof fn lemma_noise_shift(n: Noise)
    requires
        n.wf(),
    ensures
        ({
            let s = n.shift_register;
            let next = n.spec_shifted();
            let tap = if n.period_reg & 0x80 != 0 { 6u16 } else { 1u16 };
            &&& next & 0x3FFF == s >> 1u16
            &&& next >> 14u16 == (s ^ (s >> tap)) & 1
            &&& next < 0x8000
        }),
{
    let s = n.shift_register;
    let next = n.spec_shifted();
    let tap = if n.period_reg & 0x80 != 0 { 6u16 } else { 1u16 };
    assert(next & 0x3FFF == s >> 1u16 && next >> 14u16 == (s ^ (s >> tap)) & 1 && next < 0x8000)
        by (bit_vector)
        requires
            s < 0x8000,
            tap == 6 || tap == 1,
            next == (s >> 1u16) | ((((s & 1) ^ ((s >> tap) & 1))) << 14u16),
    ;
}

} // verus!
