//! The noise audio channel: an envelope generator and a length counter
//! clocked by the frame sequencer. Waveform synthesis is outside the core.

use vstd::prelude::*;

use crate::square::{counter_table, length_value};
use crate::types::{Addr, Data};

verus! {

pub struct Noise {
    pub length_counter: u16,
    pub is_length_counter_enable: bool,
    pub envelope_loop_enable: bool,
    pub envelope_generator_counter: u8,
    pub envelope_rate: u8,
    pub envelope_volume: u8,
    pub envelope_enable: bool,
    pub playing: bool,
}

impl Noise {
    pub open spec fn wf(self) -> bool {
        &&& self.envelope_rate <= 0x0F
        &&& self.envelope_volume <= 0x0F
        &&& self.envelope_generator_counter <= 0x0F
    }

    pub open spec fn power_up() -> Noise {
        Noise {
            length_counter: 0,
            is_length_counter_enable: false,
            envelope_loop_enable: false,
            envelope_generator_counter: 0,
            envelope_rate: 0x0F,
            envelope_volume: 0,
            envelope_enable: false,
            playing: false,
        }
    }

    pub fn new() -> (r: Noise)
        ensures
            r == Noise::power_up(),
            r.wf(),
    {
        Noise {
            length_counter: 0,
            is_length_counter_enable: false,
            envelope_loop_enable: false,
            envelope_generator_counter: 0,
            envelope_rate: 0x0F,
            envelope_volume: 0,
            envelope_enable: false,
            playing: false,
        }
    }

    /// One length-counter sequencer tick.
    pub open spec fn spec_update_counter(self) -> Noise {
        if self.is_length_counter_enable && self.length_counter > 0 {
            let lc = (self.length_counter - 1) as u16;
            if lc == 0 {
                Noise { length_counter: lc, playing: false, ..self }
            } else {
                Noise { length_counter: lc, ..self }
            }
        } else {
            self
        }
    }

    /// One envelope sequencer tick, with the divider checked before it is
    /// decremented so it reloads instead of wrapping below zero.
    pub open spec fn spec_update_envelope(self) -> Noise {
        if self.envelope_generator_counter <= 1 {
            let vol = if self.envelope_volume > 0 {
                (self.envelope_volume - 1) as u8
            } else if self.envelope_loop_enable {
                0x0Fu8
            } else {
                0u8
            };
            Noise { envelope_generator_counter: self.envelope_rate, envelope_volume: vol, ..self }
        } else {
            Noise {
                envelope_generator_counter: (self.envelope_generator_counter - 1) as u8,
                ..self
            }
        }
    }

    /// The effect of a register write on the channel.
    pub open spec fn spec_write(self, addr: Addr, data: Data) -> Noise {
        if addr == 0x00 {
            Noise {
                envelope_enable: data & 0x10 == 0,
                envelope_rate: data & 0x0F,
                envelope_loop_enable: data & 0x10 != 0,
                is_length_counter_enable: data & 0x20 == 0,
                ..self
            }
        } else if addr == 0x03 {
            Noise {
                length_counter: if self.is_length_counter_enable {
                    (counter_table((data & 0xF8) >> 3) / 2) as u16
                } else {
                    self.length_counter
                },
                envelope_generator_counter: self.envelope_rate,
                envelope_volume: 0x0F,
                ..self
            }
        } else {
            self
        }
    }

    pub fn update_counter(&mut self)
        requires
            old(self).wf(),
        ensures
            final(self).wf(),
            *final(self) == old(self).spec_update_counter(),
    {
        if self.is_length_counter_enable && self.length_counter > 0 {
            self.length_counter = self.length_counter - 1;
            if self.length_counter == 0 {
                self.stop();
            }
        }
    }

    pub fn update_envelope(&mut self)
        requires
            old(self).wf(),
        ensures
            final(self).wf(),
            *final(self) == old(self).spec_update_envelope(),
    {
        if self.envelope_generator_counter <= 1 {
            self.envelope_generator_counter = self.envelope_rate;
            if self.envelope_volume > 0 {
                self.envelope_volume = self.envelope_volume - 1;
            } else {
                self.envelope_volume = if self.envelope_loop_enable { 0x0F } else { 0x00 };
            }
        } else {
            self.envelope_generator_counter = self.envelope_generator_counter - 1;
        }
    }

    pub fn write(&mut self, addr: Addr, data: Data)
        requires
            old(self).wf(),
        ensures
            final(self).wf(),
            *final(self) == old(self).spec_write(addr, data),
    {
        match addr {
            0x00 => {
                proof {
                    assert(data & 0x0F <= 0x0F) by (bit_vector);
                }
                self.envelope_enable = data & 0x10 == 0;
                self.envelope_rate = data & 0x0F;
                self.envelope_loop_enable = (data & 0x10) != 0;
                self.is_length_counter_enable = data & 0x20 == 0;
            }
            0x03 => {
                if self.is_length_counter_enable {
                    self.length_counter = (length_value((data & 0xF8) >> 3) / 2) as u16;
                }
                self.envelope_generator_counter = self.envelope_rate;
                self.envelope_volume = 0x0F;
            }
            _ => (),
        }
    }

    pub fn start(&mut self)
        ensures
            (*final(self) == (Noise { playing: true, ..*old(self) })),
    {
        self.playing = true;
    }

    pub fn stop(&mut self)
        ensures
            (*final(self) == (Noise { playing: false, ..*old(self) })),
    {
        self.playing = false;
    }

    /// Whether the length counter has run out.
    pub fn has_count_end(&self) -> (r: bool)
        ensures
            r == (self.length_counter == 0),
    {
        self.length_counter == 0
    }
}

} // verus!
