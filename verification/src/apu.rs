//! The audio processor front: four channels behind a register window, and
//! the frame sequencer, a fixed-rate divider that clocks envelope and
//! length-counter/sweep updates into the channels.

use vstd::prelude::*;

use crate::noise::Noise;
use crate::square::Square;
use crate::triangle::Triangle;
use crate::types::{Addr, Data};

verus! {

/// CPU cycles per frame-sequencer tick (the 240 Hz divider).
pub const DIVIDE_COUNT_FOR_240HZ: u16 = 7457;

pub struct Apu {
    pub squares: (Square, Square),
    pub triangle: Triangle,
    pub noise: Noise,
    pub cycle: u16,
    pub step: u8,
    pub sequencer_mode: bool,
    pub enable_irq: bool,
    pub frame_irq: bool,
}

impl Apu {
    /// The channel states every reachable configuration satisfies.
    pub open spec fn channels_wf(self) -> bool {
        &&& self.squares.0.wf()
        &&& self.squares.1.wf()
        &&& self.triangle.wf()
        &&& self.noise.wf()
    }

    pub open spec fn wf(self) -> bool {
        &&& self.channels_wf()
        &&& self.cycle < DIVIDE_COUNT_FOR_240HZ
        &&& self.step <= 4
        &&& (!self.sequencer_mode ==> self.step <= 3)
    }

    pub open spec fn power_up() -> Apu {
        Apu {
            squares: (Square::power_up(0), Square::power_up(1)),
            triangle: Triangle::power_up(2),
            noise: Noise::power_up(),
            cycle: 0,
            step: 0,
            sequencer_mode: false,
            enable_irq: false,
            frame_irq: false,
        }
    }

    pub fn new() -> (r: Apu)
        ensures
            r == Apu::power_up(),
            r.wf(),
    {
        Apu {
            squares: (Square::new(0), Square::new(1)),
            triangle: Triangle::new(2),
            noise: Noise::new(),
            cycle: 0,
            step: 0,
            sequencer_mode: false,
            enable_irq: false,
            frame_irq: false,
        }
    }

    /// A length-counter/sweep tick fanned out to every channel.
    pub open spec fn spec_update_counters(self) -> Apu {
        Apu {
            squares: (self.squares.0.spec_update_counters(), self.squares.1.spec_update_counters()),
            triangle: self.triangle.spec_update_counter(),
            noise: self.noise.spec_update_counter(),
            ..self
        }
    }

    /// An envelope tick fanned out to the channels that have one.
    pub open spec fn spec_update_envelope(self) -> Apu {
        Apu {
            squares: (self.squares.0.spec_update_envelope(), self.squares.1.spec_update_envelope()),
            noise: self.noise.spec_update_envelope(),
            ..self
        }
    }

    /// One 4-step-mode sequencer step: envelopes on every step, counters on
    /// odd steps, and on the wrap from step 3 back to 0 an interrupt request
    /// when the frame interrupt is enabled.
    pub open spec fn spec_mode0_step(self) -> Apu {
        let a = self.spec_update_envelope();
        let b = if a.step % 2 == 1 {
            a.spec_update_counters()
        } else {
            a
        };
        if b.step + 1 == 4 {
            Apu { step: 0, frame_irq: b.frame_irq || b.enable_irq, ..b }
        } else {
            Apu { step: (b.step + 1) as u8, ..b }
        }
    }

    /// One 5-step-mode sequencer step: counters on even steps, envelopes on
    /// every step but the last, and never an interrupt request.
    pub open spec fn spec_mode1_step(self) -> Apu {
        let a = if self.step % 2 == 0 {
            self.spec_update_counters()
        } else {
            self
        };
        if a.step + 1 == 5 {
            Apu { step: 0, ..a }
        } else {
            let b = a.spec_update_envelope();
            Apu { step: (b.step + 1) as u8, ..b }
        }
    }

    /// What the divider does with one batch of elapsed CPU cycles: accumulate,
    /// and on overflowing the 240 Hz divisor run one sequencer step.
    pub open spec fn spec_run(self, cycle: u16) -> Apu {
        if self.cycle + cycle >= DIVIDE_COUNT_FOR_240HZ {
            let a = Apu { cycle: (self.cycle + cycle - DIVIDE_COUNT_FOR_240HZ) as u16, ..self };
            if a.sequencer_mode {
                a.spec_mode1_step()
            } else {
                a.spec_mode0_step()
            }
        } else {
            Apu { cycle: (self.cycle + cycle) as u16, ..self }
        }
    }

    /// The channel-status byte read from the status register: one bit per
    /// channel whose length counter has not run out.
    pub open spec fn spec_status(self) -> Data {
        ((if self.squares.0.length_counter == 0 { 0u8 } else { 0x01u8 })
            + (if self.squares.1.length_counter == 0 { 0u8 } else { 0x02u8 })
            + (if self.triangle.length_counter == 0 { 0u8 } else { 0x04u8 })
            + (if self.noise.length_counter == 0 { 0u8 } else { 0x08u8 })) as u8
    }

    /// The effect of a register write: channel registers route to their
    /// channel, the enable register starts or stops each channel, and a
    /// control write switches the sequencer mode, hard-resetting the step
    /// index and the cycle accumulator even when the mode is unchanged.
    pub open spec fn spec_write(self, addr: Addr, data: Data) -> Apu {
        if addr <= 0x03 {
            Apu { squares: (self.squares.0.spec_write(addr, data), self.squares.1), ..self }
        } else if 0x04 <= addr <= 0x07 {
            Apu {
                squares: (self.squares.0, self.squares.1.spec_write((addr - 0x04) as u16, data)),
                ..self
            }
        } else if 0x08 <= addr <= 0x0B {
            Apu { triangle: self.triangle.spec_write((addr - 0x08) as u16, data), ..self }
        } else if 0x0C <= addr <= 0x0F {
            Apu { noise: self.noise.spec_write((addr - 0x0C) as u16, data), ..self }
        } else if addr == 0x15 {
            Apu {
                squares: (
                    if data & 0x01 == 0x01 {
                        self.squares.0.spec_enable()
                    } else {
                        self.squares.0.spec_disable()
                    },
                    if data & 0x02 == 0x02 {
                        self.squares.1.spec_enable()
                    } else {
                        self.squares.1.spec_disable()
                    },
                ),
                triangle: if data & 0x04 == 0x04 {
                    Triangle { enable: true, ..self.triangle }
                } else {
                    Triangle { enable: false, playing: false, ..self.triangle }
                },
                noise: if data & 0x08 == 0x08 {
                    Noise { playing: true, ..self.noise }
                } else {
                    Noise { playing: false, ..self.noise }
                },
                ..self
            }
        } else if addr == 0x17 {
            Apu {
                sequencer_mode: data & 0x80 == 0x80,
                enable_irq: data & 0x40 == 0x40,
                step: 0,
                cycle: 0,
                ..self
            }
        } else {
            self
        }
    }

    /// Accumulates one tick's CPU cycle cost into the 240 Hz divider and, when
    /// the divider fires, runs one frame-sequencer step in the current mode.
    pub fn run(&mut self, cycle: u16)
        requires
            old(self).wf(),
            cycle < DIVIDE_COUNT_FOR_240HZ,
        ensures
            final(self).wf(),
            *final(self) == old(self).spec_run(cycle),
    {
        self.cycle = self.cycle + cycle;
        if self.cycle >= DIVIDE_COUNT_FOR_240HZ {
            self.cycle = self.cycle - DIVIDE_COUNT_FOR_240HZ;
            if self.sequencer_mode {
                self.update_by_sequence_mode1();
            } else {
                self.update_by_sequence_mode0();
            }
        }
    }

    /// Reads the register window: only the status register holds a value, and
    /// every other address in the window reads as zero.
    pub fn read(&mut self, addr: Addr) -> (r: Data)
        ensures
            *final(self) == *old(self),
            r == if addr == 0x15 {
                old(self).spec_status()
            } else {
                0
            },
    {
        match addr {
            0x15 => {
                let s0: u8 = if self.squares.0.has_count_end() { 0x00 } else { 0x01 };
                let s1: u8 = if self.squares.1.has_count_end() { 0x00 } else { 0x02 };
                let t: u8 = if self.triangle.has_count_end() { 0x00 } else { 0x04 };
                let n: u8 = if self.noise.has_count_end() { 0x00 } else { 0x08 };
                s0 + s1 + t + n
            }
            _ => 0,
        }
    }

    /// A register write, as routed by the bus.
    #[verifier::rlimit(100)]
    pub fn write(&mut self, addr: Addr, data: Data)
        requires
            old(self).wf(),
        ensures
            final(self).wf(),
            *final(self) == old(self).spec_write(addr, data),
    {
        match addr {
            0x00..=0x03 => {
                self.squares.0.write(addr, data);
            }
            0x04..=0x07 => {
                self.squares.1.write(addr - 0x04, data);
            }
            0x08..=0x0B => {
                self.triangle.write(addr - 0x08, data);
            }
            0x0C..=0x0F => {
                self.noise.write(addr - 0x0C, data);
            }
            0x15 => {
                if data & 0x01 == 0x01 {
                    self.squares.0.enable();
                } else {
                    self.squares.0.disable();
                }
                if data & 0x02 == 0x02 {
                    self.squares.1.enable();
                } else {
                    self.squares.1.disable();
                }
                if data & 0x04 == 0x04 {
                    self.triangle.enable();
                } else {
                    self.triangle.disable();
                }
                if data & 0x08 == 0x08 {
                    self.noise.start();
                } else {
                    self.noise.stop();
                }
            }
            0x17 => {
                self.sequencer_mode = data & 0x80 == 0x80;
                self.enable_irq = data & 0x40 == 0x40;
                self.step = 0;
                self.cycle = 0;
            }
            _ => (),
        }
    }

    /// One 4-step-mode sequencer step.
    pub fn update_by_sequence_mode0(&mut self)
        requires
            old(self).wf(),
            old(self).step <= 3,
        ensures
            final(self).wf(),
            *final(self) == old(self).spec_mode0_step(),
    {
        self.update_envelope();
        if self.step % 2 == 1 {
            self.update_counters();
        }
        self.step = self.step + 1;
        if self.step == 4 {
            if self.enable_irq {
                self.frame_irq = true;
            }
            self.step = 0;
        }
    }

    /// One 5-step-mode sequencer step.
    pub fn update_by_sequence_mode1(&mut self)
        requires
            old(self).wf(),
            old(self).sequencer_mode,
        ensures
            final(self).wf(),
            *final(self) == old(self).spec_mode1_step(),
    {
        if self.step % 2 == 0 {
            self.update_counters();
        }
        self.step = self.step + 1;
        if self.step == 5 {
            self.step = 0;
        } else {
            self.update_envelope();
        }
    }

    fn update_counters(&mut self)
        requires
            old(self).channels_wf(),
        ensures
            final(self).channels_wf(),
            *final(self) == old(self).spec_update_counters(),
    {
        self.squares.0.update_counters();
        self.squares.1.update_counters();
        self.triangle.update_counter();
        self.noise.update_counter();
    }

    fn update_envelope(&mut self)
        requires
            old(self).channels_wf(),
        ensures
            final(self).channels_wf(),
            *final(self) == old(self).spec_update_envelope(),
    {
        self.squares.0.update_envelope();
        self.squares.1.update_envelope();
        self.noise.update_envelope();
    }
}

/// In 4-step mode with the frame interrupt enabled, one full pass over the
/// four sequencer steps requests exactly one interrupt, at the wrap from
/// step 3 back to step 0: the first three steps leave the request line
/// untouched and the fourth raises it.
pub proof fn lemma_mode0_one_irq_per_cycle(a: Apu)
    requires
        a.wf(),
        !a.sequencer_mode,
        a.enable_irq,
        !a.frame_irq,
        a.step == 0,
    ensures
        ({
            let a1 = a.spec_mode0_step();
            let a2 = a1.spec_mode0_step();
            let a3 = a2.spec_mode0_step();
            let a4 = a3.spec_mode0_step();
            !a1.frame_irq && !a2.frame_irq && !a3.frame_irq && a4.frame_irq && a4.step == 0
        }),
{
}

/// In 5-step mode the sequencer never requests an interrupt, whatever the
/// channel configuration and whether or not the frame interrupt is enabled.
pub proof fn lemma_mode1_no_irq(a: Apu)
    ensures
        a.spec_mode1_step().frame_irq == a.frame_irq,
{
}

} // verus!
