//! Triangle channel: a 32-step triangle wave with no volume control, gated
//! by a linear counter and a length counter.
use vstd::prelude::*;

use crate::nes::bits::lemma_byte_fields;

verus! {

/// Step `position` (0-31) of the triangle wave: 15 down to 0, then 0 up to 15.
pub open spec fn spec_triangle_level(position: u8) -> u8 {
    if position < 16 {
        (15 - position) as u8
    } else {
        (position - 16) as u8
    }
}

/// Step `position` of the triangle wave.
pub fn triangle_level(position: u8) -> (r: u8)
    requires
        position < 32,
    ensures
        r == spec_triangle_level(position),
{
    if position < 16 {
        15 - position
    } else {
        position - 16
    }
}

/// The triangle channel.
#[derive(Clone, Copy, Debug)]
pub struct Triangle {
    /// Control flag / length counter halt (bit 7), linear counter reload value (bits 0-6).
    pub linear_control: u8,
    /// Low 8 bits of the timer period.
    pub timer_low: u8,
    /// Length counter index (bits 3-7), high 3 bits of the timer period.
    pub length_timer_high: u8,
    /// Position in the waveform (0-31).
    pub sequence_position: u8,
    pub timer_counter: u16,
    /// Timer period (11 bits).
    pub timer_period: u16,
    pub linear_counter: u8,
    pub linear_reload: bool,
    pub length_counter: u8,
    pub enabled: bool,
}

impl Triangle {
    /// The waveform position stays below 32 and the period within 11 bits.
    pub open spec fn wf(self) -> bool {
        &&& self.sequence_position < 32
        &&& self.timer_period <= 0x7FF
    }

    pub open spec fn linear_counter_load(self) -> u8 {
        self.linear_control & 0x7F
    }

    /// The control flag, which is also the length counter halt flag.
    pub open spec fn control_flag(self) -> bool {
        self.linear_control & 0x80 != 0
    }

    pub open spec fn register_period(self) -> u16 {
        (self.timer_low as u16) | (((self.length_timer_high & 0x07) as u16) << 8u16)
    }

    /// The channel after a timer tick (every CPU cycle): at zero the timer
    /// reloads and, while both counters are nonzero, the waveform advances.
    pub open spec fn spec_tick_timer(self) -> Triangle {
        if self.timer_counter == 0 {
            Triangle {
                timer_counter: self.timer_period,
                sequence_position: if self.length_counter > 0 && self.linear_counter > 0 {
                    ((self.sequence_position + 1) % 32) as u8
                } else {
                    self.sequence_position
                },
                ..self
            }
        } else {
            Triangle { timer_counter: (self.timer_counter - 1) as u16, ..self }
        }
    }

    /// The linear counter after a quarter-frame clock: reloaded while the
    /// reload flag is set, else counting down to zero; the reload flag
    /// clears unless the control flag is set.
    pub open spec fn spec_clock_linear_counter(self) -> Triangle {
        Triangle {
            linear_counter: if self.linear_reload {
                self.linear_counter_load()
            } else if self.linear_counter > 0 {
                (self.linear_counter - 1) as u8
            } else {
                self.linear_counter
            },
            linear_reload: if !self.control_flag() {
                false
            } else {
                self.linear_reload
            },
            ..self
        }
    }

    pub open spec fn spec_clock_length_counter(self) -> Triangle {
        if !self.control_flag() && self.length_counter > 0 {
            Triangle { length_counter: (self.length_counter - 1) as u8, ..self }
        } else {
            self
        }
    }

    /// The level put out: the waveform step, or 0 for periods below 2
    /// (ultrasonic).
    pub open spec fn spec_output(self) -> u8 {
        if self.timer_period < 2 {
            0
        } else {
            spec_triangle_level(self.sequence_position)
        }
    }

    pub open spec fn spec_write_linear_control(self, value: u8) -> Triangle {
        Triangle { linear_control: value, ..self }
    }

    pub open spec fn spec_write_timer_low(self, value: u8) -> Triangle {
        let t = Triangle { timer_low: value, ..self };
        Triangle { timer_period: t.register_period(), ..t }
    }

    /// Register 3: an enabled channel loads its length counter from the
    /// table entry that bits 3-7 select; the linear counter is set to reload.
    pub open spec fn spec_write_length_timer_high(self, value: u8, length_table: Seq<u8>) -> Triangle {
        let t = Triangle { length_timer_high: value, ..self };
        Triangle {
            timer_period: t.register_period(),
            length_counter: if self.enabled {
                length_table[(value >> 3u8) as int]
            } else {
                self.length_counter
            },
            linear_reload: true,
            ..t
        }
    }

    pub open spec fn spec_set_enabled(self, enabled: bool) -> Triangle {
        Triangle {
            enabled,
            length_counter: if enabled {
                self.length_counter
            } else {
                0
            },
            ..self
        }
    }

    /// A silent, disabled channel with all registers zero.
    pub open spec fn initial() -> Triangle {
        Triangle {
            linear_control: 0,
            timer_low: 0,
            length_timer_high: 0,
            sequence_position: 0,
            timer_counter: 0,
            timer_period: 0,
            linear_counter: 0,
            linear_reload: false,
            length_counter: 0,
            enabled: false,
        }
    }

    pub fn new() -> (r: Triangle)
        ensures
            r == Triangle::initial(),
            r.wf(),
    {
        Triangle {
            linear_control: 0,
            timer_low: 0,
            length_timer_high: 0,
            sequence_position: 0,
            timer_counter: 0,
            timer_period: 0,
            linear_counter: 0,
            linear_reload: false,
            length_counter: 0,
            enabled: false,
        }
    }

    /// Register 0 ($4008): control flag and linear counter reload value.
    pub fn write_linear_control(&mut self, value: u8)
        ensures
            *final(self) == old(self).spec_write_linear_control(value),
    {
        self.linear_control = value;
    }

    /// Register 2 ($400A): low 8 bits of the period.
    pub fn write_timer_low(&mut self, value: u8)
        requires
            old(self).wf(),
        ensures
            *final(self) == old(self).spec_write_timer_low(value),
            final(self).wf(),
    {
        self.timer_low = value;
        self.update_timer_period();
    }

    /// Register 3 ($400B): length counter index and high 3 bits of the
    /// period. An enabled channel loads its length counter; the linear
    /// counter is set to reload.
    pub fn write_length_timer_high(&mut self, value: u8, length_table: &[u8; 32])
        requires
            old(self).wf(),
        ensures
            *final(self) == old(self).spec_write_length_timer_high(value, length_table@),
            final(self).wf(),
    {
        self.length_timer_high = value;
        self.update_timer_period();
        if self.enabled {
            let length_index = (value >> 3u8) as usize;
            proof {
                lemma_byte_fields(value);
            }
            self.length_counter = length_table[length_index];
        }
        self.linear_reload = true;
    }

    fn update_timer_period(&mut self)
        ensures
            *final(self) == (Triangle { timer_period: old(self).register_period(), ..*old(self) }),
            final(self).timer_period <= 0x7FF,
    {
        let low = self.timer_low;
        let high = self.length_timer_high;
        let period = (low as u16) | (((high & 0x07) as u16) << 8u16);
        assert(period <= 0x7FF) by (bit_vector)
            requires period == (low as u16) | (((high & 0x07) as u16) << 8u16);
        self.timer_period = period;
    }

    /// One timer tick.
    pub fn tick_timer(&mut self)
        requires
            old(self).wf(),
        ensures
            *final(self) == old(self).spec_tick_timer(),
            final(self).wf(),
    {
        if self.timer_counter == 0 {
            self.timer_counter = self.timer_period;
            if self.length_counter > 0 && self.linear_counter > 0 {
                let p = self.sequence_position;
                let next = (p + 1) & 0x1F;
                assert(next == (p + 1) % 32) by (bit_vector)
                    requires
                        next == ((p + 1) as u8) & 0x1F,
                        p < 32,
                ;
                self.sequence_position = next;
            }
        } else {
            self.timer_counter = self.timer_counter - 1;
        }
    }

    /// One quarter-frame clock of the linear counter.
    pub fn clock_linear_counter(&mut self)
        ensures
            *final(self) == old(self).spec_clock_linear_counter(),
    {
        if self.linear_reload {
            self.linear_counter = self.get_linear_counter_load();
        } else if self.linear_counter > 0 {
            self.linear_counter = self.linear_counter - 1;
        }
        if !self.get_control_flag() {
            self.linear_reload = false;
        }
    }

    /// One half-frame clock of the length counter.
    pub fn clock_length_counter(&mut self)
        ensures
            *final(self) == old(self).spec_clock_length_counter(),
    {
        if !self.get_control_flag() && self.length_counter > 0 {
            self.length_counter = self.length_counter - 1;
        }
    }

    /// The level the channel puts out (0-15).
    pub fn output(&self) -> (r: u8)
        requires
            self.wf(),
        ensures
            r == self.spec_output(),
            r <= 15,
    {
        if self.timer_period < 2 {
            return 0;
        }
        triangle_level(self.sequence_position)
    }

    fn get_linear_counter_load(&self) -> (r: u8)
        ensures
            r == self.linear_counter_load(),
    {
        self.linear_control & 0x7F
    }

    fn get_control_flag(&self) -> (r: bool)
        ensures
            r == self.control_flag(),
    {
        (self.linear_control & 0x80) != 0
    }

    /// Enables or disables the channel; disabling clears the length counter.
    pub fn set_enabled(&mut self, enabled: bool)
        ensures
            *final(self) == old(self).spec_set_enabled(enabled),
    {
        self.enabled = enabled;
        if !enabled {
            self.length_counter = 0;
        }
    }
}

impl Default for Triangle {
    fn default() -> (r: Self)
        ensures
            r == Triangle::initial(),
    {
        Triangle::new()
    }
}

/// What the triangle channel puts out: nothing while its period is below 2;
/// otherwise 15 at the first step of the wave, falling by one to 0 at step
/// 15, then rising by one from 0 at step 16 to 15 at step 31.
pub proof fn lemma_triangle_output(t: Triangle)
    requires
        t.wf(),
    ensures
        t.spec_output() == if t.timer_period < 2 {
            0
        } else if t.sequence_position < 16 {
            15 - t.sequence_position
        } else {
            t.sequence_position - 16
        },
{
}

} // verus!
