//! The pulse (square wave) channels, with their duty sequencer and frequency sweep.
use vstd::prelude::*;
use super::common::{Enveloppe, LengthCounter, SequenceMode, Timer};

verus! {

/// The four duty cycles, eight steps each: 12.5%, 25%, 50% and 25% negated.
pub open spec fn duty_sequences() -> Seq<Seq<u8>> {
    seq![
        seq![0u8, 1, 0, 0, 0, 0, 0, 0],
        seq![0u8, 1, 1, 0, 0, 0, 0, 0],
        seq![0u8, 1, 1, 1, 1, 0, 0, 0],
        seq![1u8, 0, 0, 1, 1, 1, 1, 1],
    ]
}

/// The sweep register's shift count (bits 0-2).
pub open spec fn sweep_shift(sweep: u8) -> u8 {
    sweep % 8
}

/// The sweep register's negate flag (bit 3).
pub open spec fn sweep_negate(sweep: u8) -> bool {
    (sweep / 8) % 2 == 1
}

/// The sweep register's divider period (bits 4-6).
pub open spec fn sweep_period(sweep: u8) -> u8 {
    (sweep / 16) % 8
}

/// The sweep register's enable flag (bit 7).
pub open spec fn sweep_enable(sweep: u8) -> bool {
    sweep >= 128
}

/// `v` shifted right by `s`, `s < 8`.
pub open spec fn shr(v: u16, s: u8) -> u16 {
    if s == 0 {
        v
    } else if s == 1 {
        v / 2
    } else if s == 2 {
        v / 4
    } else if s == 3 {
        v / 8
    } else if s == 4 {
        v / 16
    } else if s == 5 {
        v / 32
    } else if s == 6 {
        v / 64
    } else {
        v / 128
    }
}

/// A pulse channel. The first channel's sweep negates in one's complement, the second's
/// in two's complement.
#[derive(Clone, Copy, Debug)]
pub struct PulseChannel {
    pub envelope: Enveloppe,
    /// The sweep register (`EPPP NSSS`).
    pub sweep: u8,
    pub timer: Timer,
    pub length_counter: LengthCounter,
    /// Whether the sweep negates in one's complement.
    pub one_complement: bool,
    /// The position in the duty sequence, `0..8`.
    pub duty_step: u8,
    /// The sweep divider.
    pub sweep_counter: u8,
    /// Set by a sweep write; reloads the divider on the next half frame.
    pub sweep_reload: bool,
}

impl PulseChannel {
    /// The states a channel can be in: its duty position is inside the sequence.
    pub open spec fn wf(self) -> bool {
        self.duty_step < 8
    }

    /// The period the sweep would set: the current period plus or minus itself shifted
    /// right by the shift count, wrapping in 16 bits.
    pub open spec fn spec_target_period(self) -> u16 {
        let period = self.timer.timer_reload;
        let change = shr(period, sweep_shift(self.sweep));
        if sweep_negate(self.sweep) {
            if self.one_complement {
                ((period - change - 1 + 131072) % 65536) as u16
            } else {
                ((period - change + 65536) % 65536) as u16
            }
        } else {
            ((period + change) % 65536) as u16
        }
    }

    /// Whether the channel outputs silence: period below 8, a sweep target out of 11
    /// bits, or the length counter out.
    pub open spec fn spec_is_muted(self) -> bool {
        self.timer.counter < 8 || self.spec_target_period() > 0x07FF
            || self.length_counter.counter == 0
    }

    /// A register write: `$4000` envelope and halt, `$4001` sweep, `$4002` period low,
    /// `$4003` period high, length load, envelope restart and duty restart.
    pub open spec fn spec_write(self, addr: u16, data: u8) -> PulseChannel {
        let reg = addr % 4;
        if reg == 0 {
            PulseChannel {
                envelope: Enveloppe { register: data, ..self.envelope },
                length_counter: LengthCounter { halt: (data / 32) % 2 == 1, ..self.length_counter },
                ..self
            }
        } else if reg == 1 {
            PulseChannel { sweep: data, sweep_reload: true, ..self }
        } else if reg == 2 {
            PulseChannel {
                timer: self.timer.with_period(
                    ((self.timer.timer_reload / 256) % 8 * 256 + data) as u16,
                ),
                ..self
            }
        } else {
            PulseChannel {
                timer: self.timer.with_period(
                    (self.timer.timer_reload % 256 + (data % 8) * 256) as u16,
                ),
                length_counter: self.length_counter.spec_set_counter(data / 8),
                envelope: Enveloppe { start_flag: true, ..self.envelope },
                duty_step: 0,
                ..self
            }
        }
    }

    /// The half-frame sweep unit: when its divider is out, enabled, with a shift and a
    /// period of at least 8, the period moves to an in-range target; the divider is
    /// then reloaded (on a pending reload too) or counted down.
    pub open spec fn spec_sweep(self) -> PulseChannel {
        let target = self.spec_target_period();
        let c1 = if self.sweep_counter == 0 && sweep_enable(self.sweep) && sweep_shift(self.sweep)
            > 0 && self.timer.counter >= 8 && target <= 0x07FF {
            PulseChannel { timer: self.timer.with_period(target), ..self }
        } else {
            self
        };
        if c1.sweep_counter == 0 || c1.sweep_reload {
            PulseChannel { sweep_counter: sweep_period(c1.sweep), sweep_reload: false, ..c1 }
        } else {
            PulseChannel { sweep_counter: (c1.sweep_counter - 1) as u8, ..c1 }
        }
    }

    /// One CPU cycle at frame-sequencer position `cycle_count`: on odd cycles the timer
    /// runs and, when it elapses, the duty sequencer steps; the envelope runs on quarter
    /// frames, the length counter and the sweep on half frames.
    pub open spec fn spec_clock(self, mode: SequenceMode, cycle_count: u16) -> PulseChannel {
        let c1 = if cycle_count % 2 == 1 {
            let t = self.timer.spec_clock();
            PulseChannel {
                timer: t,
                duty_step: if t.reloaded {
                    if self.duty_step != 7 {
                        (self.duty_step + 1) as u8
                    } else {
                        0
                    }
                } else {
                    self.duty_step
                },
                ..self
            }
        } else {
            self
        };
        let c2 = if mode.spec_is_quarter_frame(cycle_count) {
            PulseChannel { envelope: c1.envelope.spec_clock(), ..c1 }
        } else {
            c1
        };
        if mode.spec_is_half_frame(cycle_count) {
            PulseChannel { length_counter: c2.length_counter.spec_clock(), ..c2 }.spec_sweep()
        } else {
            c2
        }
    }

    /// A channel with idle units; `one_complement` selects the first channel's sweep.
    pub fn new(one_complement: bool) -> (r: Self)
        ensures
            r.one_complement == one_complement,
            r.envelope == (Enveloppe { register: 0, start_flag: false, decay_cycle: 0, divider: 0 }),
            r.timer == (Timer { timer_reload: 0, counter: 0, reloaded: false }),
            r.length_counter == (LengthCounter { counter: 0, halt: false, enable: false }),
            r.sweep == 0 && r.duty_step == 0 && r.sweep_counter == 0 && !r.sweep_reload,
            r.wf(),
    {
        PulseChannel {
            envelope: Enveloppe::default(),
            sweep: 0,
            timer: Timer::default(),
            length_counter: LengthCounter::default(),
            one_complement,
            duty_step: 0,
            sweep_counter: 0,
            sweep_reload: false,
        }
    }

    /// A register write; see [`PulseChannel::spec_write`].
    pub fn write(&mut self, addr: u16, data: u8)
        requires
            old(self).wf(),
        ensures
            *final(self) == old(self).spec_write(addr, data),
            final(self).wf(),
    {
        let reg = addr % 4;
        if reg == 0 {
            self.envelope.set_register(data);
            self.length_counter.set_halt((data / 32) % 2 == 1);
        } else if reg == 1 {
            self.sweep = data;
            self.sweep_reload = true;
        } else if reg == 2 {
            self.timer.set_timer_lo(data);
        } else {
            self.timer.set_timer_hi(data % 8);
            self.length_counter.set_counter(data / 8);
            self.envelope.set_start_flag();
            self.duty_step = 0;
        }
    }

    fn sweep_unit(&mut self)
        ensures
            *final(self) == old(self).spec_sweep(),
    {
        if self.sweep_counter == 0 && self.sweep >= 128 && self.sweep % 8 > 0
            && self.timer.value() >= 8 {
            let target_period = self.target_period();
            if target_period <= 0x07FF {
                self.timer.set_timer(target_period);
            }
        }
        if self.sweep_counter == 0 || self.sweep_reload {
            self.sweep_counter = (self.sweep / 16) % 8;
            self.sweep_reload = false;
        } else {
            self.sweep_counter = self.sweep_counter - 1;
        }
    }

    /// One CPU cycle; see [`PulseChannel::spec_clock`].
    pub fn clock(&mut self, sequence_mode: SequenceMode, cycle_count: u16)
        requires
            old(self).wf(),
        ensures
            *final(self) == old(self).spec_clock(sequence_mode, cycle_count),
            final(self).wf(),
    {
        // The timer and duty sequencer run every other CPU cycle.
        if cycle_count % 2 == 1 {
            self.timer.clock();
            if self.timer.done() {
                if self.duty_step != 7 {
                    self.duty_step = self.duty_step + 1;
                } else {
                    self.duty_step = 0;
                }
            }
        }
        if sequence_mode.is_quarter_frame(cycle_count) {
            self.envelope.clock();
        }
        if sequence_mode.is_half_frame(cycle_count) {
            self.length_counter.clock();
            self.sweep_unit();
        }
    }

    /// Whether the length counter is enabled.
    pub fn length_counter_enable(&self) -> (r: bool)
        ensures
            r == self.length_counter.enable,
    {
        self.length_counter.get_enable()
    }

    /// Enables or disables the length counter (disabling clears it).
    pub fn set_length_counter_enable(&mut self, enable: bool)
        ensures
            *final(self) == (PulseChannel {
                length_counter: LengthCounter {
                    enable,
                    counter: if enable {
                        old(self).length_counter.counter
                    } else {
                        0
                    },
                    ..old(self).length_counter
                },
                ..*old(self)
            }),
    {
        self.length_counter.set_enable(enable);
    }

    /// The channel's output level: the envelope volume while the duty sequence is high,
    /// 0 while it is low or the channel is muted.
    pub fn sample(&self) -> (r: u8)
        requires
            self.wf(),
        ensures
            r == if self.spec_is_muted() {
                0
            } else {
                self.envelope.spec_volume() * duty_sequences()[(self.envelope.register / 64) as int][self.duty_step as int]
            },
    {
        if self.is_muted() {
            0
        } else {
            let duty_table: [[u8; 8]; 4] = [
                [0, 1, 0, 0, 0, 0, 0, 0],
                [0, 1, 1, 0, 0, 0, 0, 0],
                [0, 1, 1, 1, 1, 0, 0, 0],
                [1, 0, 0, 1, 1, 1, 1, 1],
            ];
            let duty = self.envelope.duty();
            let row = duty_table[duty as usize];
            let level = row[self.duty_step as usize];
            assert(row@ =~= duty_sequences()[duty as int]);
            assert(level <= 1);
            let volume = self.envelope.volume();
            assert(volume * level <= 255) by (nonlinear_arith)
                requires
                    level <= 1,
            ;
            volume * level
        }
    }

    fn is_muted(&self) -> (r: bool)
        ensures
            r == self.spec_is_muted(),
    {
        self.timer.value() < 8 || self.target_period() > 0x07FF || self.length_counter.counter()
            == 0
    }

    fn target_period(&self) -> (r: u16)
        ensures
            r == self.spec_target_period(),
    {
        let period = self.timer.period();
        let shift = self.sweep % 8;
        let change = match shift {
            0 => period,
            1 => period / 2,
            2 => period / 4,
            3 => period / 8,
            4 => period / 16,
            5 => period / 32,
            6 => period / 64,
            _ => period / 128,
        };
        if (self.sweep / 8) % 2 == 1 {
            if self.one_complement {
                period.wrapping_sub(change).wrapping_sub(1)
            } else {
                period.wrapping_sub(change)
            }
        } else {
            period.wrapping_add(change)
        }
    }
}

/// The shift and the negate flag are the register's low three bits and bit 3.
proof fn lemma_sweep_fields(sweep: u8, v: u16)
    ensures
        sweep_negate(sweep) <==> (sweep & 8) == 8,
        shr(v, sweep_shift(sweep)) == v >> (sweep & 7),
{
    assert(((sweep / 8) % 2 == 1) <==> (sweep & 8) == 8) by (bit_vector);
    assert(sweep % 8 == sweep & 7) by (bit_vector);
    let s: u8 = sweep & 7;
    assert(s < 8 ==> (v >> s) == (if s == 0 {
        v
    } else if s == 1 {
        v / 2
    } else if s == 2 {
        v / 4
    } else if s == 3 {
        v / 8
    } else if s == 4 {
        v / 16
    } else if s == 5 {
        v / 32
    } else if s == 6 {
        v / 64
    } else {
        v / 128
    })) by (bit_vector);
    assert(s < 8) by (bit_vector)
        requires
            s == sweep & 7,
    ;
}

/// The sweep target: with the negate bit (bit 3) set, the period minus itself shifted right
/// by the shift count (bits 0-2), and one less on the first channel (one's complement,
/// which wraps to `0xFFFF` where the change is the whole period); with it clear, the period
/// plus that change. A negated sweep never raises the period (but for that wrap), and a
/// clear one never lowers an 11-bit period.
pub proof fn lemma_sweep_target(c: PulseChannel)
    ensures
        ({
            let period = c.timer.timer_reload;
            let change = period >> (c.sweep & 7);
            let target = c.spec_target_period();
            &&& change <= period
            &&& (c.sweep & 8) == 8 && !c.one_complement ==> target == period - change
            &&& (c.sweep & 8) == 8 && c.one_complement && change < period ==> target == period
                - change - 1
            &&& (c.sweep & 8) == 8 && c.one_complement && change == period ==> target == 0xFFFF
            &&& (c.sweep & 8) == 0 ==> target == (period + change) % 0x10000
            &&& (c.sweep & 8) == 0 && period <= 0x7FF ==> target == period + change && target
                >= period
            &&& (c.sweep & 8) == 8 && (change < period || !c.one_complement) ==> target
                <= period
        }),
{
    let period = c.timer.timer_reload;
    let sweep = c.sweep;
    lemma_sweep_fields(sweep, period);
    assert((period >> (sweep & 7)) <= period) by (bit_vector);
    let change = shr(period, sweep_shift(sweep));
    assert(change == period >> (sweep & 7));
    let target = c.spec_target_period();
    if sweep_negate(sweep) {
        if c.one_complement {
            if change < period {
                assert((period - change - 1 + 131072) % 65536 == period - change - 1);
            } else {
                assert((period - change - 1 + 131072) % 65536 == 0xFFFF);
            }
        } else {
            assert((period - change + 65536) % 65536 == period - change);
        }
    } else {
        assert((sweep & 8) == 0) by (bit_vector)
            requires
                !((sweep & 8) == 8),
        ;
    }
}

/// A half frame whose sweep divider is out, with the sweep enabled (bit 7), a nonzero shift
/// and a count of at least 8, on an 11-bit period: a negated sweep lowers a nonzero period
/// to `period - (period >> shift)` (one less on the first channel); a clear one raises it
/// to `period + (period >> shift)` when that stays within 11 bits, and leaves it otherwise.
pub proof fn lemma_sweep_moves_period(c: PulseChannel)
    requires
        c.sweep_counter == 0,
        (c.sweep & 0x80) == 0x80,
        (c.sweep & 7) != 0,
        c.timer.counter >= 8,
        c.timer.timer_reload <= 0x7FF,
    ensures
        ({
            let period = c.timer.timer_reload;
            let change = period >> (c.sweep & 7);
            let after = c.spec_sweep().timer.timer_reload;
            &&& (c.sweep & 8) == 8 && period > 0 ==> after == period - change - (
            if c.one_complement {
                1int
            } else {
                0int
            })
            &&& (c.sweep & 8) == 0 && period + change <= 0x7FF ==> after == period + change
            &&& (c.sweep & 8) == 0 && period + change > 0x7FF ==> after == period
        }),
{
    let sweep = c.sweep;
    assert(((sweep & 0x80) == 0x80) ==> sweep >= 128) by (bit_vector);
    assert(((sweep & 7) != 0) ==> sweep % 8 > 0) by (bit_vector);
    lemma_sweep_target(c);
    let period = c.timer.timer_reload;
    lemma_sweep_fields(sweep, period);
    assert((period > 0 && (sweep & 7) != 0) ==> (period >> (sweep & 7)) < period) by (bit_vector);
}

} // verus!
