//! A pulse (square-wave) audio channel: length counter, sweep unit and
//! envelope generator, driven by the frame sequencer's clock ticks.
//!
//! Waveform synthesis itself is outside the core; this state machine only
//! tracks what the sequencer and the register writes do to the channel.

use vstd::prelude::*;

use crate::types::{Addr, Data};

verus! {

/// The console's CPU clock rate in Hz, used to derive a channel frequency
/// from its period divider.
pub const CPU_CLOCK: u32 = 1789772;

/// The length-counter load table: the 5-bit load code written with the
/// period-high register picks one of these raw counts.
pub open spec fn counter_table(i: Data) -> Data {
    if i == 0 { 0x0A } else if i == 1 { 0xFE }
    else if i == 2 { 0x14 } else if i == 3 { 0x02 }
    else if i == 4 { 0x28 } else if i == 5 { 0x04 }
    else if i == 6 { 0x50 } else if i == 7 { 0x06 }
    else if i == 8 { 0xA0 } else if i == 9 { 0x08 }
    else if i == 10 { 0x3C } else if i == 11 { 0x0A }
    else if i == 12 { 0x0E } else if i == 13 { 0x0C }
    else if i == 14 { 0x1A } else if i == 15 { 0x0E }
    else if i == 16 { 0x0C } else if i == 17 { 0x10 }
    else if i == 18 { 0x18 } else if i == 19 { 0x12 }
    else if i == 20 { 0x30 } else if i == 21 { 0x14 }
    else if i == 22 { 0x60 } else if i == 23 { 0x16 }
    else if i == 24 { 0xC0 } else if i == 25 { 0x18 }
    else if i == 26 { 0x48 } else if i == 27 { 0x1A }
    else if i == 28 { 0x10 } else if i == 29 { 0x1C }
    else if i == 30 { 0x20 } else { 0x1E }
}

/// Looks up the length-counter load table.
#[verifier::rlimit(40)]
pub fn length_value(i: Data) -> (r: Data)
    ensures
        r == counter_table(i),
{
    match i {
        0 => 0x0A, 1 => 0xFE, 2 => 0x14, 3 => 0x02,
        4 => 0x28, 5 => 0x04, 6 => 0x50, 7 => 0x06,
        8 => 0xA0, 9 => 0x08, 10 => 0x3C, 11 => 0x0A,
        12 => 0x0E, 13 => 0x0C, 14 => 0x1A, 15 => 0x0E,
        16 => 0x0C, 17 => 0x10, 18 => 0x18, 19 => 0x12,
        20 => 0x30, 21 => 0x14, 22 => 0x60, 23 => 0x16,
        24 => 0xC0, 25 => 0x18, 26 => 0x48, 27 => 0x1A,
        28 => 0x10, 29 => 0x1C, 30 => 0x20, _ => 0x1E,
    }
}

pub proof fn lemma_shr_le(x: u16, s: u16)
    by (bit_vector)
    ensures
        x >> s <= x,
{
}

/// One pulse channel's state.
pub struct Square {
    pub index: usize,
    pub sweep_unit_counter: u8,
    pub length_counter: u16,
    pub is_length_counter_enable: bool,
    pub sweep_unit_divider: u8,
    pub frequency: u32,
    pub sweep_shift_amount: u8,
    pub is_sweep_enabled: bool,
    pub sweep_mode: bool,
    pub divider_for_frequency: u16,
    pub envelope_loop_enable: bool,
    pub envelope_generator_counter: u8,
    pub envelope_rate: u8,
    pub envelope_volume: u8,
    pub envelope_enable: bool,
    pub enable: bool,
    pub playing: bool,
}

/// The channel frequency derived from a period divider.
pub open spec fn freq_of(p: u16) -> u32 {
    (CPU_CLOCK / (((p + 1) * 16) as u32)) as u32
}

impl Square {
    /// The bounds every reachable channel state satisfies: the period divider
    /// stays inside its 11-bit register, the sweep divider is the written
    /// 3-bit field plus one, and the 4-bit envelope fields stay 4-bit.
    pub open spec fn wf(self) -> bool {
        &&& 1 <= self.sweep_unit_divider <= 8
        &&& self.sweep_shift_amount <= 7
        &&& self.sweep_unit_counter < 8
        &&& self.divider_for_frequency <= 0x7FF
        &&& self.envelope_rate <= 0x0F
        &&& self.envelope_volume <= 0x0F
        &&& self.envelope_generator_counter <= 0x0F
    }

    pub open spec fn power_up(index: usize) -> Square {
        Square {
            index,
            sweep_unit_counter: 0,
            length_counter: 0,
            sweep_unit_divider: 1,
            frequency: 0,
            sweep_shift_amount: 0,
            is_sweep_enabled: false,
            sweep_mode: false,
            divider_for_frequency: 1,
            envelope_loop_enable: false,
            envelope_generator_counter: 0,
            envelope_rate: 0x0F,
            envelope_volume: 0,
            envelope_enable: false,
            is_length_counter_enable: false,
            enable: false,
            playing: false,
        }
    }

    pub fn new(index: usize) -> (r: Square)
        ensures
            r == Square::power_up(index),
            r.wf(),
    {
        Square {
            index,
            sweep_unit_counter: 0,
            length_counter: 0,
            sweep_unit_divider: 1,
            frequency: 0,
            sweep_shift_amount: 0,
            is_sweep_enabled: false,
            sweep_mode: false,
            divider_for_frequency: 1,
            envelope_loop_enable: false,
            envelope_generator_counter: 0,
            envelope_rate: 0x0F,
            envelope_volume: 0,
            envelope_enable: false,
            is_length_counter_enable: false,
            enable: false,
            playing: false,
        }
    }

    /// The length-counter half of a sequencer tick: decrement unless halted
    /// or already zero, and silence the channel when the count runs out.
    pub open spec fn spec_length_step(self) -> Square {
        if self.is_length_counter_enable && self.length_counter > 0 {
            let lc = (self.length_counter - 1) as u16;
            if lc == 0 {
                Square { length_counter: lc, playing: false, ..self }
            } else {
                Square { length_counter: lc, ..self }
            }
        } else {
            self
        }
    }

    /// The period the sweep unit computes: `period ± (period >> shift)`.
    pub open spec fn sweep_target(self) -> int {
        if self.sweep_mode {
            self.divider_for_frequency - (self.divider_for_frequency >> (
            self.sweep_shift_amount as u16))
        } else {
            self.divider_for_frequency + (self.divider_for_frequency >> (
            self.sweep_shift_amount as u16))
        }
    }

    /// What a firing sweep does: a computed period inside `[8, 0x7FF]` is
    /// installed; one outside that range silences the channel and is
    /// discarded rather than installed — a deliberate choice, so that the
    /// period register only ever holds values that fit its 11-bit field and
    /// a later period-low write keeps the last in-range high bits.
    pub open spec fn spec_sweep_fire(self) -> Square {
        let t = self.sweep_target();
        if 8 <= t <= 0x7FF {
            Square {
                sweep_unit_counter: 0,
                divider_for_frequency: t as u16,
                frequency: freq_of(t as u16),
                ..self
            }
        } else {
            Square {
                sweep_unit_counter: 0,
                playing: false,
                frequency: freq_of(self.divider_for_frequency),
                ..self
            }
        }
    }

    /// One length-counter/sweep sequencer tick. The sweep divider counts up
    /// and fires once the count reaches the written divider — a deliberate
    /// choice over firing on exact multiples, so that a control write which
    /// lowers the divider below an in-flight count makes the sweep fire on
    /// the next tick instead of waiting out a full wrap of the counter.
    pub open spec fn spec_update_counters(self) -> Square {
        let s = self.spec_length_step();
        if !s.is_sweep_enabled || !s.playing {
            s
        } else if s.sweep_unit_counter + 1 >= s.sweep_unit_divider {
            s.spec_sweep_fire()
        } else {
            Square { sweep_unit_counter: (s.sweep_unit_counter + 1) as u8, ..s }
        }
    }

    /// One envelope sequencer tick: count the divider down, and on expiry
    /// reload it and step the 4-bit volume down (or loop it back to 15).
    pub open spec fn spec_update_envelope(self) -> Square {
        if self.envelope_generator_counter <= 1 {
            let vol = if self.envelope_volume > 0 {
                (self.envelope_volume - 1) as u8
            } else if self.envelope_loop_enable {
                0x0Fu8
            } else {
                0u8
            };
            Square { envelope_generator_counter: self.envelope_rate, envelope_volume: vol, ..self }
        } else {
            Square {
                envelope_generator_counter: (self.envelope_generator_counter - 1) as u8,
                ..self
            }
        }
    }

    /// The effect of a register write on the channel.
    pub open spec fn spec_write(self, addr: Addr, data: Data) -> Square {
        if addr == 0x00 {
            Square {
                envelope_enable: data & 0x10 == 0,
                envelope_rate: data & 0x0F,
                envelope_loop_enable: data & 0x10 != 0,
                is_length_counter_enable: data & 0x20 == 0,
                ..self
            }
        } else if addr == 0x01 {
            Square {
                is_sweep_enabled: data & 0x80 == 0x80,
                sweep_unit_divider: (((data >> 4) & 0x07) + 1) as u8,
                sweep_mode: data & 0x08 == 0x08,
                sweep_shift_amount: data & 0x07,
                ..self
            }
        } else if addr == 0x02 {
            let p = (self.divider_for_frequency & 0x700) | data as u16;
            Square {
                divider_for_frequency: p,
                frequency: freq_of(p),
                playing: if self.enable { true } else { self.playing },
                ..self
            }
        } else if addr == 0x03 {
            let p = (self.divider_for_frequency & 0xFF) | (((data & 0x07) as u16) << 8);
            Square {
                divider_for_frequency: p,
                frequency: freq_of(p),
                length_counter: if self.is_length_counter_enable {
                    (counter_table((data & 0xF8) >> 3) / 2) as u16
                } else {
                    self.length_counter
                },
                sweep_unit_counter: 0,
                envelope_generator_counter: self.envelope_rate,
                envelope_volume: 0x0F,
                playing: if self.enable { true } else { self.playing },
                ..self
            }
        } else {
            self
        }
    }

    /// Recomputes the channel frequency from the period divider.
    fn update_frequency(&mut self)
        requires
            old(self).wf(),
        ensures
            (*final(self) == (Square {
                frequency: freq_of(old(self).divider_for_frequency),
                ..*old(self)
            })),
    {
        self.frequency = CPU_CLOCK / ((self.divider_for_frequency as u32 + 1) * 16);
    }

    /// Length-counter and sweep tick, run by the frame sequencer.
    ///
    /// A sweep whose computed period leaves `[8, 0x7FF]` silences the channel;
    /// a silenced channel stays silenced through these ticks, since the sweep
    /// half only runs while the channel plays.
    pub fn update_counters(&mut self)
        requires
            old(self).wf(),
        ensures
            final(self).wf(),
            *final(self) == old(self).spec_update_counters(),
    {
        if self.is_length_counter_enable && self.length_counter > 0 {
            self.length_counter = self.length_counter - 1;
            if self.length_counter == 0 {
                self.stop();
            }
        }

        if !self.is_sweep_enabled || !self.playing {
            return ;
        }

        if self.sweep_unit_counter + 1 >= self.sweep_unit_divider {
            self.sweep_unit_counter = 0;
            let shifted = self.divider_for_frequency >> (self.sweep_shift_amount as u16);
            proof {
                lemma_shr_le(self.divider_for_frequency, self.sweep_shift_amount as u16);
            }
            let target = if self.sweep_mode {
                self.divider_for_frequency - shifted
            } else {
                self.divider_for_frequency + shifted
            };
            if 8 <= target && target <= 0x7FF {
                self.divider_for_frequency = target;
            } else {
                self.stop();
            }
            self.update_frequency();
        } else {
            self.sweep_unit_counter = self.sweep_unit_counter + 1;
        }
    }

    /// The effect of enabling the channel: it starts exactly when its period
    /// divider is nonzero.
    pub open spec fn spec_enable(self) -> Square {
        Square {
            enable: true,
            playing: if self.divider_for_frequency != 0 { true } else { self.playing },
            ..self
        }
    }

    /// The effect of disabling the channel.
    pub open spec fn spec_disable(self) -> Square {
        Square { enable: false, playing: false, ..self }
    }

    /// Enables the channel, starting it exactly when the period divider is
    /// nonzero: a channel whose period register holds zero has nothing to
    /// play and stays as it was.
    pub fn enable(&mut self)
        requires
            old(self).wf(),
        ensures
            final(self).wf(),
            *final(self) == old(self).spec_enable(),
            final(self).playing == (old(self).divider_for_frequency != 0 || old(self).playing),
    {
        self.enable = true;
        if self.divider_for_frequency != 0 {
            self.start();
        }
    }

    pub fn disable(&mut self)
        requires
            old(self).wf(),
        ensures
            final(self).wf(),
            (*final(self) == (Square { enable: false, playing: false, ..*old(self) })),
    {
        self.enable = false;
        self.stop();
    }

    pub fn start(&mut self)
        requires
            old(self).wf(),
        ensures
            final(self).wf(),
            (*final(self) == (Square { playing: true, ..*old(self) })),
    {
        self.playing = true;
    }

    pub fn stop(&mut self)
        requires
            old(self).wf(),
        ensures
            final(self).wf(),
            (*final(self) == (Square { playing: false, ..*old(self) })),
    {
        self.playing = false;
    }

    /// Whether the length counter has run out.
    pub fn has_count_end(&self) -> (r: bool)
        ensures
            r == (self.length_counter == 0),
    {
        self.length_counter == 0
    }

    /// Envelope tick, run by the frame sequencer. The divider is checked
    /// before it is decremented, so an expired divider reloads instead of
    /// wrapping below zero.
    pub fn update_envelope(&mut self)
        requires
            old(self).wf(),
        ensures
            final(self).wf(),
            *final(self) == old(self).spec_update_envelope(),
            final(self).playing == old(self).playing,
    {
        if self.envelope_generator_counter <= 1 {
            self.envelope_generator_counter = self.envelope_rate;
            if self.envelope_volume > 0 {
                self.envelope_volume = self.envelope_volume - 1;
            } else {
                self.envelope_volume = if self.envelope_loop_enable { 0x0F } else { 0x00 };
            }
        } else {
            self.envelope_generator_counter = self.envelope_generator_counter - 1;
        }
    }

    /// A register write. A write to the period-low register re-arms an
    /// enabled channel that a sweep had silenced.
    pub fn write(&mut self, addr: Addr, data: Data)
        requires
            old(self).wf(),
        ensures
            final(self).wf(),
            *final(self) == old(self).spec_write(addr, data),
            addr == 0x02 && old(self).enable ==> final(self).playing,
    {
        match addr {
            0x00 => {
                self.envelope_enable = data & 0x10 == 0;
                self.envelope_rate = data & 0x0F;
                self.envelope_loop_enable = (data & 0x10) != 0;
                self.is_length_counter_enable = data & 0x20 == 0x00;
                proof {
                    assert(data & 0x0F <= 0x0F) by (bit_vector);
                }
            }
            0x01 => {
                proof {
                    assert((data >> 4) & 0x07 <= 7) by (bit_vector);
                    assert(data & 0x07 <= 7) by (bit_vector);
                }
                self.is_sweep_enabled = data & 0x80 == 0x80;
                self.sweep_unit_divider = ((data >> 4) & 0x07) + 1;
                self.sweep_mode = data & 0x08 == 0x08;
                self.sweep_shift_amount = data & 0x07;
            }
            0x02 => {
                let p = (self.divider_for_frequency & 0x700) | data as u16;
                proof {
                    let q = self.divider_for_frequency;
                    assert((q & 0x700) | data as u16 <= 0x7FF) by (bit_vector);
                }
                self.divider_for_frequency = p;
                self.update_frequency();
                if self.enable {
                    self.start();
                }
            }
            0x03 => {
                let p = (self.divider_for_frequency & 0xFF) | (((data & 0x07) as u16) << 8);
                proof {
                    let q = self.divider_for_frequency;
                    assert((q & 0xFF) | (((data & 0x07) as u16) << 8) <= 0x7FF) by (bit_vector);
                }
                self.divider_for_frequency = p;
                if self.is_length_counter_enable {
                    self.length_counter = (length_value((data & 0xF8) >> 3) / 2) as u16;
                }
                self.update_frequency();
                self.sweep_unit_counter = 0;
                self.envelope_generator_counter = self.envelope_rate;
                self.envelope_volume = 0x0F;
                if self.enable {
                    self.start();
                }
            }
            _ => (),
        }
    }
}

/// A sweep whose computed period falls outside `[8, 0x7FF]` silences its
/// channel, and the channel stays silenced through further sequencer ticks:
/// neither the length-counter/sweep tick nor the envelope tick can start a
/// silenced channel. Only a register write re-arms it — in particular, a
/// period-low write starts an enabled channel again.
pub proof fn lemma_sweep_mute_and_rearm(s: Square, data: Data)
    requires
        s.wf(),
    ensures
        (s.spec_length_step().playing && s.spec_length_step().is_sweep_enabled
            && s.spec_length_step().sweep_unit_counter + 1
            >= s.spec_length_step().sweep_unit_divider
            && !(8 <= s.spec_length_step().sweep_target() <= 0x7FF))
            ==> !s.spec_update_counters().playing,
        !s.playing ==> !s.spec_update_counters().playing,
        !s.playing ==> !s.spec_update_envelope().playing,
        s.enable ==> s.spec_write(0x02, data).playing,
{
}

} // verus!
