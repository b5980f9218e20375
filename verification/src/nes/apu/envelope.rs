//! The volume envelope that the pulse and noise channels share, and the
//! triangle's linear counter: what one quarter-frame clock does to each.
use vstd::prelude::*;

use super::noise::Noise;
use super::pulse::Pulse;
use super::triangle::Triangle;

verus! {

/// Whether an envelope with start flag `start`, divider `divider` and level
/// `decay`, driven by register `reg` (loop flag in bit 5, period in bits
/// 0-3), ends one clock with start flag `start2`, divider `divider2` and
/// level `decay2`. A pending start restarts it: level 15, divider at the
/// period, start cleared. Otherwise a divider above zero counts down and
/// the level stays; a divider at zero reloads the period and the level
/// falls by one, and from zero wraps to 15 when looping and stays at zero
/// when not.
pub open spec fn envelope_clocked(
    start: bool,
    divider: u8,
    decay: u8,
    reg: u8,
    start2: bool,
    divider2: u8,
    decay2: u8,
) -> bool {
    &&& !start2
    &&& start ==> decay2 == 15 && divider2 == reg & 0x0F
    &&& !start && divider > 0 ==> decay2 == decay && divider2 == divider - 1
    &&& !start && divider == 0 ==> divider2 == reg & 0x0F && decay2 == if decay > 0 {
        decay - 1
    } else if reg & 0x20 != 0 {
        15
    } else {
        0
    }
}

/// A quarter-frame clock moves a pulse channel's envelope as
/// `envelope_clocked` says, driven by $4000/$4004, and changes nothing else
/// of the channel.
pub proof fn lemma_pulse_envelope(p: Pulse)
    ensures
        ({
            let e = p.spec_clock_envelope();
            &&& envelope_clocked(
                p.envelope_start,
                p.envelope_divider,
                p.envelope_decay,
                p.duty_envelope,
                e.envelope_start,
                e.envelope_divider,
                e.envelope_decay,
            )
            &&& e == (Pulse {
                envelope_start: e.envelope_start,
                envelope_divider: e.envelope_divider,
                envelope_decay: e.envelope_decay,
                ..p
            })
        }),
{
}

/// A quarter-frame clock moves the noise channel's envelope as
/// `envelope_clocked` says, driven by $400C, and changes nothing else of
/// the channel.
pub proof fn lemma_noise_envelope(n: Noise)
    ensures
        ({
            let e = n.spec_clock_envelope();
            &&& envelope_clocked(
                n.envelope_start,
                n.envelope_divider,
                n.envelope_decay,
                n.envelope_reg,
                e.envelope_start,
                e.envelope_divider,
                e.envelope_decay,
            )
            &&& e == (Noise {
                envelope_start: e.envelope_start,
                envelope_divider: e.envelope_divider,
                envelope_decay: e.envelope_decay,
                ..n
            })
        }),
{
}

/// A quarter-frame clock of the triangle's linear counter: while the reload
/// flag is set the counter takes bits 0-6 of $4008, otherwise it counts
/// down to zero and stays there; the reload flag then clears unless the
/// control flag (bit 7 of $4008) is set. Nothing else of the channel
/// changes.
pub proof fn lemma_linear_counter(t: Triangle)
    ensures
        ({
            let c = t.spec_clock_linear_counter();
            &&& c.linear_counter == if t.linear_reload {
                t.linear_control & 0x7F
            } else if t.linear_counter > 0 {
                (t.linear_counter - 1) as u8
            } else {
                0
            }
            &&& c.linear_reload == (t.linear_reload && t.linear_control & 0x80 != 0)
            &&& c == (Triangle { linear_counter: c.linear_counter, linear_reload: c.linear_reload, ..t })
        }),
{
}

} // verus!
