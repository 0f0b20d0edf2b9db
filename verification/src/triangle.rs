//! The triangle audio channel: a period divider and a length counter clocked
//! by the frame sequencer. Waveform synthesis is outside the core.

use vstd::prelude::*;

use crate::square::{counter_table, length_value};
use crate::types::{Addr, Data};

verus! {

pub struct Triangle {
    pub index: usize,
    pub length_counter: u16,
    pub is_length_counter_enable: bool,
    pub divider_for_frequency: u16,
    pub enable: bool,
    pub playing: bool,
}

impl Triangle {
    pub open spec fn wf(self) -> bool {
        self.divider_for_frequency <= 0x7FF
    }

    pub open spec fn power_up(index: usize) -> Triangle {
        Triangle {
            index,
            length_counter: 0,
            is_length_counter_enable: false,
            divider_for_frequency: 1,
            enable: false,
            playing: false,
        }
    }

    pub fn new(index: usize) -> (r: Triangle)
        ensures
            r == Triangle::power_up(index),
            r.wf(),
    {
        Triangle {
            index,
            length_counter: 0,
            is_length_counter_enable: false,
            divider_for_frequency: 1,
            enable: false,
            playing: false,
        }
    }

    /// One length-counter sequencer tick: decrement unless halted or already
    /// zero, and silence the channel when the count runs out.
    pub open spec fn spec_update_counter(self) -> Triangle {
        if self.is_length_counter_enable && self.length_counter > 0 {
            let lc = (self.length_counter - 1) as u16;
            if lc == 0 {
                Triangle { length_counter: lc, playing: false, ..self }
            } else {
                Triangle { length_counter: lc, ..self }
            }
        } else {
            self
        }
    }

    /// The effect of a register write on the channel.
    pub open spec fn spec_write(self, addr: Addr, data: Data) -> Triangle {
        if addr == 0x00 {
            Triangle { is_length_counter_enable: data & 0x80 == 0, ..self }
        } else if addr == 0x02 {
            Triangle {
                divider_for_frequency: (self.divider_for_frequency & 0x700) | data as u16,
                ..self
            }
        } else if addr == 0x03 {
            Triangle {
                divider_for_frequency: (self.divider_for_frequency & 0xFF) | (((data & 0x07)
                    as u16) << 8),
                length_counter: if self.is_length_counter_enable {
                    (counter_table((data & 0xF8) >> 3) / 2) as u16
                } else {
                    self.length_counter
                },
                playing: if self.enable { true } else { self.playing },
                ..self
            }
        } else {
            self
        }
    }

    pub fn update_counter(&mut self)
        requires
            old(self).wf(),
        ensures
            final(self).wf(),
            *final(self) == old(self).spec_update_counter(),
    {
        if self.is_length_counter_enable && self.length_counter > 0 {
            self.length_counter = self.length_counter - 1;
            if self.length_counter == 0 {
                self.stop();
            }
        }
    }

    pub fn write(&mut self, addr: Addr, data: Data)
        requires
            old(self).wf(),
        ensures
            final(self).wf(),
            *final(self) == old(self).spec_write(addr, data),
    {
        match addr {
            0x00 => {
                self.is_length_counter_enable = data & 0x80 == 0;
            }
            0x02 => {
                proof {
                    let q = self.divider_for_frequency;
                    assert((q & 0x700) | data as u16 <= 0x7FF) by (bit_vector);
                }
                self.divider_for_frequency = (self.divider_for_frequency & 0x700) | data as u16;
            }
            0x03 => {
                proof {
                    let q = self.divider_for_frequency;
                    assert((q & 0xFF) | (((data & 0x07) as u16) << 8) <= 0x7FF) by (bit_vector);
                }
                self.divider_for_frequency = (self.divider_for_frequency & 0xFF) | (((data & 0x07)
                    as u16) << 8);
                if self.is_length_counter_enable {
                    self.length_counter = (length_value((data & 0xF8) >> 3) / 2) as u16;
                }
                if self.enable {
                    self.start();
                }
            }
            _ => (),
        }
    }

    pub fn enable(&mut self)
        ensures
            (*final(self) == (Triangle { enable: true, ..*old(self) })),
    {
        self.enable = true;
    }

    pub fn disable(&mut self)
        ensures
            (*final(self) == (Triangle { enable: false, playing: false, ..*old(self) })),
    {
        self.enable = false;
        self.stop();
    }

    pub fn start(&mut self)
        ensures
            (*final(self) == (Triangle { playing: true, ..*old(self) })),
    {
        self.playing = true;
    }

    pub fn stop(&mut self)
        ensures
            (*final(self) == (Triangle { playing: false, ..*old(self) })),
    {
        self.playing = false;
    }

    /// Whether the length counter has run out.
    pub fn has_count_end(&self) -> (r: bool)
        ensures
            r == (self.length_counter == 0),
    {
        self.length_counter == 0
    }
}

} // verus!
