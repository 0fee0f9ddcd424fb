//! The noise channel: a 15-bit linear feedback shift register clocked by a timer.
use vstd::prelude::*;
use super::common::{Enveloppe, LengthCounter, SequenceMode, Timer};

verus! {

/// The timer periods selectable by the low 4 bits of the third register.
pub open spec fn noise_period_table() -> Seq<u16> {
    seq![4u16, 8, 16, 32, 64, 96, 128, 160, 202, 254, 380, 508, 762, 1016, 2034, 4068]
}

/// The noise channel.
#[derive(Clone, Copy, Debug)]
pub struct NoiseChannel {
    pub enveloppe: Enveloppe,
    pub timer: Timer,
    pub length_counter: LengthCounter,
    /// Short mode: feedback from bit 6 instead of bit 1.
    pub mode: bool,
    /// The shift register; bit 0 is the output (1 mutes).
    pub shift_register: u16,
}

impl Default for NoiseChannel {
    /// Idle units, and the shift register at 1 as on power-up.
    fn default() -> (r: Self)
        ensures
            r.enveloppe == (Enveloppe { register: 0, start_flag: false, decay_cycle: 0, divider: 0 }),
            r.timer == (Timer { timer_reload: 0, counter: 0, reloaded: false }),
            r.length_counter == (LengthCounter { counter: 0, halt: false, enable: false }),
            !r.mode,
            r.shift_register == 1,
    {
        NoiseChannel {
            enveloppe: Enveloppe::default(),
            timer: Timer::default(),
            length_counter: LengthCounter::default(),
            mode: false,
            shift_register: 1,
        }
    }
}

/// The shift register after one step: shifted right, with bit 14 set when bit 0 differs
/// from the feedback bit (bit 6 in short mode, bit 1 otherwise).
pub open spec fn lfsr_step(sr: u16, short_mode: bool) -> u16 {
    let tap: int = if short_mode {
        64
    } else {
        2
    };
    let feedback = sr as int % 2 != (sr as int / tap) % 2;
    let shifted = sr / 2;
    if feedback && (shifted / 16384) % 2 == 0 {
        (shifted + 16384) as u16
    } else {
        shifted as u16
    }
}

impl NoiseChannel {
    /// A register write: `$400C` envelope and halt, `$400E` period and mode, `$400F`
    /// length load and envelope restart; `$400D` is unused.
    pub open spec fn spec_write(self, addr: u16, data: u8) -> NoiseChannel {
        let reg = addr % 4;
        if reg == 0 {
            NoiseChannel {
                enveloppe: Enveloppe { register: data, ..self.enveloppe },
                length_counter: LengthCounter { halt: (data / 32) % 2 == 1, ..self.length_counter },
                ..self
            }
        } else if reg == 2 {
            NoiseChannel {
                // The timer keeps 11 bits of the period.
                timer: self.timer.with_period((noise_period_table()[data as int % 16] % 0x800) as u16),
                mode: data >= 128,
                ..self
            }
        } else if reg == 3 {
            NoiseChannel {
                length_counter: self.length_counter.spec_set_counter(data / 8),
                enveloppe: Enveloppe { start_flag: true, ..self.enveloppe },
                ..self
            }
        } else {
            self
        }
    }

    /// One CPU cycle at frame-sequencer position `cycle_count`: on odd cycles the timer
    /// runs and, when it elapses, the shift register steps; the envelope runs on quarter
    /// frames and the length counter on half frames.
    pub open spec fn spec_clock(self, mode: SequenceMode, cycle_count: u16) -> NoiseChannel {
        let c1 = if cycle_count % 2 == 1 {
            let t = self.timer.spec_clock();
            NoiseChannel {
                timer: t,
                shift_register: if t.reloaded {
                    lfsr_step(self.shift_register, self.mode)
                } else {
                    self.shift_register
                },
                ..self
            }
        } else {
            self
        };
        let c2 = if mode.spec_is_quarter_frame(cycle_count) {
            NoiseChannel { enveloppe: c1.enveloppe.spec_clock(), ..c1 }
        } else {
            c1
        };
        if mode.spec_is_half_frame(cycle_count) {
            NoiseChannel { length_counter: c2.length_counter.spec_clock(), ..c2 }
        } else {
            c2
        }
    }

    /// Whether the channel outputs silence: bit 0 of the shift register set, or the
    /// length counter out.
    pub open spec fn spec_is_muted(self) -> bool {
        self.shift_register % 2 == 1 || self.length_counter.counter == 0
    }

    /// A register write; see [`NoiseChannel::spec_write`].
    pub fn write(&mut self, addr: u16, data: u8)
        ensures
            *final(self) == old(self).spec_write(addr, data),
    {
        let reg = addr % 4;
        if reg == 0 {
            self.enveloppe.set_register(data);
            self.length_counter.set_halt((data / 32) % 2 == 1);
        } else if reg == 2 {
            let periods: [u16; 16] = [
                4, 8, 16, 32, 64, 96, 128, 160, 202, 254, 380, 508, 762, 1016, 2034, 4068,
            ];
            assert(periods@ =~= noise_period_table());
            self.timer.set_timer(periods[(data % 16) as usize]);
            self.mode = data >= 0x80;
        } else if reg == 3 {
            self.length_counter.set_counter(data / 8);
            self.enveloppe.set_start_flag();
        }
    }

    /// Steps the shift register; see [`lfsr_step`].
    fn step_shift_register(&mut self)
        ensures
            *final(self) == (NoiseChannel {
                shift_register: lfsr_step(old(self).shift_register, old(self).mode),
                ..*old(self)
            }),
    {
        let sr = self.shift_register;
        let bit1 = sr % 2;
        let bit2 = if self.mode {
            (sr / 64) % 2
        } else {
            (sr / 2) % 2
        };
        let shifted = sr / 2;
        self.shift_register = if bit1 != bit2 && (shifted / 16384) % 2 == 0 {
            shifted + 16384
        } else {
            shifted
        };
    }

    /// One CPU cycle; see [`NoiseChannel::spec_clock`].
    pub fn clock(&mut self, sequence_mode: SequenceMode, cycle_count: u16)
        ensures
            *final(self) == old(self).spec_clock(sequence_mode, cycle_count),
    {
        // The timer and shift register run every other CPU cycle.
        if cycle_count % 2 == 1 {
            self.timer.clock();
            if self.timer.done() {
                self.step_shift_register();
            }
        }
        if sequence_mode.is_quarter_frame(cycle_count) {
            self.enveloppe.clock();
        }
        if sequence_mode.is_half_frame(cycle_count) {
            self.length_counter.clock();
        }
    }

    /// Whether the length counter is enabled.
    pub fn length_counter_enable(&self) -> (r: bool)
        ensures
            r == self.length_counter.enable,
    {
        self.length_counter.get_enable()
    }

    /// Enables or disables the length counter (disabling clears it).
    pub fn set_length_counter_enable(&mut self, enable: bool)
        ensures
            *final(self) == (NoiseChannel {
                length_counter: LengthCounter {
                    enable,
                    counter: if enable {
                        old(self).length_counter.counter
                    } else {
                        0
                    },
                    ..old(self).length_counter
                },
                ..*old(self)
            }),
    {
        self.length_counter.set_enable(enable);
    }

    /// The channel's output level: the envelope volume, or 0 when muted.
    pub fn sample(&self) -> (r: u8)
        ensures
            r == if self.spec_is_muted() {
                0
            } else {
                self.enveloppe.spec_volume()
            },
    {
        if self.is_muted() {
            0
        } else {
            self.enveloppe.volume()
        }
    }

    fn is_muted(&self) -> (r: bool)
        ensures
            r == self.spec_is_muted(),
    {
        self.shift_register % 2 == 1 || self.length_counter.counter() == 0
    }
}

/// The shift register keeps to 15 bits and never falls to 0 once it is not 0, so the
/// channel never locks into silence.
pub proof fn lemma_lfsr_stays_live(sr: u16, short_mode: bool)
    requires
        0 < sr < 32768,
    ensures
        0 < lfsr_step(sr, short_mode) < 32768,
{
}

} // verus!
