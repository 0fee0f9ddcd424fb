//! The units the APU's channels share: the volume envelope, the frame sequencer's step
//! modes, the period timer and the length counter.
use vstd::prelude::*;

verus! {

/// The channel's volume envelope, driven by its control register (`DDLC VVVV`: duty,
/// loop, constant volume, volume or divider period).
#[derive(Clone, Copy, Debug)]
pub struct Enveloppe {
    /// The control register.
    pub register: u8,
    /// Set by a length-counter load; restarts the decay on the next clock.
    pub start_flag: bool,
    /// The decaying volume, 15 down to 0.
    pub decay_cycle: u8,
    /// Clocks left before the next decay step.
    pub divider: u8,
}

/// The volume field (and divider period) of an envelope register.
pub open spec fn env_volume(register: u8) -> u8 {
    register % 16
}

/// Whether an envelope register asks for constant volume.
pub open spec fn env_const_volume(register: u8) -> bool {
    (register / 16) % 2 == 1
}

/// Whether an envelope register asks for the decay to loop.
pub open spec fn env_loop(register: u8) -> bool {
    (register / 32) % 2 == 1
}

impl Default for Enveloppe {
    fn default() -> (r: Self)
        ensures
            r == (Enveloppe { register: 0, start_flag: false, decay_cycle: 0, divider: 0 }),
    {
        Enveloppe { register: 0, start_flag: false, decay_cycle: 0, divider: 0 }
    }
}

impl Enveloppe {
    /// One quarter-frame clock: a pending start reloads the decay at 15; otherwise the
    /// divider counts down and, when it runs out, is reloaded while the decay steps down
    /// (and wraps back to 15 when looping).
    pub open spec fn spec_clock(self) -> Enveloppe {
        if self.start_flag {
            Enveloppe {
                start_flag: false,
                decay_cycle: 15,
                divider: env_volume(self.register),
                ..self
            }
        } else if self.divider != 0 {
            Enveloppe { divider: (self.divider - 1) as u8, ..self }
        } else {
            Enveloppe {
                divider: env_volume(self.register),
                decay_cycle: if self.decay_cycle != 0 {
                    (self.decay_cycle - 1) as u8
                } else if env_loop(self.register) {
                    15
                } else {
                    self.decay_cycle
                },
                ..self
            }
        }
    }

    /// The volume the envelope outputs.
    pub open spec fn spec_volume(self) -> u8 {
        if env_const_volume(self.register) {
            env_volume(self.register)
        } else {
            self.decay_cycle
        }
    }

    /// Writes the control register.
    pub fn set_register(&mut self, data: u8)
        ensures
            *final(self) == (Enveloppe { register: data, ..*old(self) }),
    {
        self.register = data;
    }

    /// Restarts the envelope on its next clock.
    pub fn set_start_flag(&mut self)
        ensures
            *final(self) == (Enveloppe { start_flag: true, ..*old(self) }),
    {
        self.start_flag = true;
    }

    /// One quarter-frame clock; see [`Enveloppe::spec_clock`].
    pub fn clock(&mut self)
        ensures
            *final(self) == old(self).spec_clock(),
    {
        if self.start_flag {
            self.start_flag = false;
            self.decay_cycle = 15;
            self.divider = self.register % 16;
        } else {
            if self.divider != 0 {
                self.divider = self.divider - 1;
            } else {
                self.divider = self.register % 16;
                if self.decay_cycle != 0 {
                    self.decay_cycle = self.decay_cycle - 1;
                } else {
                    if (self.register / 32) % 2 == 1 {
                        self.decay_cycle = 15;
                    }
                }
            }
        }
    }

    /// The duty field, bits 6 and 7 of the register.
    pub fn duty(&self) -> (r: u8)
        ensures
            r == self.register / 64,
            r < 4,
    {
        self.register / 64
    }

    /// The output volume: the register's volume when constant, the decay otherwise.
    pub fn volume(&self) -> (r: u8)
        ensures
            r == self.spec_volume(),
    {
        if (self.register / 16) % 2 == 1 {
            self.register % 16
        } else {
            self.decay_cycle
        }
    }
}

/// The frame sequencer's mode: four or five steps per frame.
#[derive(Clone, Copy, Debug, PartialEq, Eq, Structural)]
pub enum SequenceMode {
    Step4,
    Step5,
}

impl Default for SequenceMode {
    fn default() -> (r: Self)
        ensures
            r == SequenceMode::Step4,
    {
        SequenceMode::Step4
    }
}

impl SequenceMode {
    /// Whether the envelopes and linear counter are clocked at `cycle`.
    pub open spec fn spec_is_quarter_frame(self, cycle: u16) -> bool {
        cycle == 7457 || cycle == 14913 || cycle == 22371 || (cycle == 29829 && self
            == SequenceMode::Step4) || (cycle == 37281 && self == SequenceMode::Step5)
    }

    /// Whether the length counters and sweeps are clocked at `cycle`.
    pub open spec fn spec_is_half_frame(self, cycle: u16) -> bool {
        cycle == 14913 || (cycle == 29829 && self == SequenceMode::Step4) || (cycle == 37281
            && self == SequenceMode::Step5)
    }

    /// Whether the envelopes and linear counter are clocked at `cycle`.
    pub fn is_quarter_frame(&self, cycle: u16) -> (r: bool)
        ensures
            r == self.spec_is_quarter_frame(cycle),
    {
        match cycle {
            7457 | 14913 | 22371 => true,
            29829 => matches!(self, SequenceMode::Step4),
            37281 => matches!(self, SequenceMode::Step5),
            _ => false,
        }
    }

    /// Whether the length counters and sweeps are clocked at `cycle`.
    pub fn is_half_frame(&self, cycle: u16) -> (r: bool)
        ensures
            r == self.spec_is_half_frame(cycle),
    {
        match cycle {
            14913 => true,
            29829 => matches!(self, SequenceMode::Step4),
            37281 => matches!(self, SequenceMode::Step5),
            _ => false,
        }
    }

    /// The length of a frame in CPU cycles.
    pub fn get_max(&self) -> (r: u16)
        ensures
            r == (match self {
                SequenceMode::Step4 => 29830u16,
                SequenceMode::Step5 => 37282u16,
            }),
    {
        match self {
            SequenceMode::Step4 => 29830,
            SequenceMode::Step5 => 37282,
        }
    }
}

/// A channel's period divider: counts down from its 11-bit reload value.
#[derive(Clone, Copy, Debug)]
pub struct Timer {
    /// The 11-bit period.
    pub timer_reload: u16,
    /// The current count.
    pub counter: u16,
    /// Whether the last clock reloaded the counter.
    pub reloaded: bool,
}

impl Default for Timer {
    fn default() -> (r: Self)
        ensures
            r == (Timer { timer_reload: 0, counter: 0, reloaded: false }),
    {
        Timer { timer_reload: 0, counter: 0, reloaded: false }
    }
}

impl Timer {
    /// One clock: count down, or reload when the count is 0.
    pub open spec fn spec_clock(self) -> Timer {
        if self.counter != 0 {
            Timer { counter: (self.counter - 1) as u16, reloaded: false, ..self }
        } else {
            Timer { counter: self.timer_reload, reloaded: true, ..self }
        }
    }

    /// The timer with period `period`, its count restarted there.
    pub open spec fn with_period(self, period: u16) -> Timer {
        Timer { timer_reload: period, counter: period, ..self }
    }

    /// Sets the period to the low 11 bits of `val` and restarts the count.
    pub fn set_timer(&mut self, val: u16)
        ensures
            *final(self) == old(self).with_period(val % 0x800),
    {
        self.timer_reload = val % 0x800;
        self.counter = self.timer_reload;
    }

    /// Replaces the low 8 bits of the period and restarts the count.
    pub fn set_timer_lo(&mut self, lo: u8)
        ensures
            *final(self) == old(self).with_period(
                ((old(self).timer_reload / 256) % 8 * 256 + lo) as u16,
            ),
    {
        self.timer_reload = (self.timer_reload / 256) % 8 * 256 + lo as u16;
        self.counter = self.timer_reload;
    }

    /// Replaces the high 3 bits of the period with the low 3 bits of `hi` and restarts
    /// the count.
    pub fn set_timer_hi(&mut self, hi: u8)
        ensures
            *final(self) == old(self).with_period(
                (old(self).timer_reload % 256 + (hi % 8) * 256) as u16,
            ),
    {
        self.timer_reload = self.timer_reload % 256 + (hi as u16 % 8) * 256;
        self.counter = self.timer_reload;
    }

    /// The current count.
    pub fn value(&self) -> (r: u16)
        ensures
            r == self.counter,
    {
        self.counter
    }

    /// The period.
    pub fn period(&self) -> (r: u16)
        ensures
            r == self.timer_reload,
    {
        self.timer_reload
    }

    /// One clock; see [`Timer::spec_clock`].
    pub fn clock(&mut self)
        ensures
            *final(self) == old(self).spec_clock(),
    {
        if self.counter != 0 {
            self.counter = self.counter - 1;
            self.reloaded = false;
        } else {
            self.counter = self.timer_reload;
            self.reloaded = true;
        }
    }

    /// Whether the last clock reloaded the counter, i.e. the period elapsed.
    pub fn done(&self) -> (r: bool)
        ensures
            r == self.reloaded,
    {
        self.reloaded
    }
}

/// The length-counter load values, indexed by the 5-bit field of the fourth register.
pub open spec fn length_table() -> Seq<u8> {
    seq![
        10u8, 254, 20, 2, 40, 4, 80, 6, 160, 8, 60, 10, 14, 12, 26, 14, 12, 16, 24, 18, 48, 20,
        96, 22, 192, 24, 72, 26, 16, 28, 32, 30,
    ]
}

/// A channel's length counter: silences the channel when it runs out.
#[derive(Clone, Copy, Debug)]
pub struct LengthCounter {
    /// The count.
    pub counter: u8,
    /// Stops the count while set.
    pub halt: bool,
    /// Cleared by the status register; keeps the count at 0 while clear.
    pub enable: bool,
}

impl Default for LengthCounter {
    fn default() -> (r: Self)
        ensures
            r == (LengthCounter { counter: 0, halt: false, enable: false }),
    {
        LengthCounter { counter: 0, halt: false, enable: false }
    }
}

impl LengthCounter {
    /// One half-frame clock: counts down unless halted or already 0.
    pub open spec fn spec_clock(self) -> LengthCounter {
        if self.counter > 0 && !self.halt {
            LengthCounter { counter: (self.counter - 1) as u8, ..self }
        } else {
            self
        }
    }

    /// The count loaded from entry `index` of the table, when enabled.
    pub open spec fn spec_set_counter(self, index: u8) -> LengthCounter {
        if self.enable {
            LengthCounter { counter: length_table()[index as int], ..self }
        } else {
            self
        }
    }

    /// The count.
    pub fn counter(&self) -> (r: u8)
        ensures
            r == self.counter,
    {
        self.counter
    }

    /// Loads entry `index` of the length table, when enabled.
    pub fn set_counter(&mut self, index: u8)
        requires
            index < 32,
        ensures
            *final(self) == old(self).spec_set_counter(index),
    {
        let table: [u8; 32] = [
            10, 254, 20, 2, 40, 4, 80, 6, 160, 8, 60, 10, 14, 12, 26, 14, 12, 16, 24, 18, 48, 20,
            96, 22, 192, 24, 72, 26, 16, 28, 32, 30,
        ];
        if self.enable {
            self.counter = table[index as usize];
            assert(table@ =~= length_table());
        }
    }

    /// Sets the halt flag.
    pub fn set_halt(&mut self, halt: bool)
        ensures
            *final(self) == (LengthCounter { halt, ..*old(self) }),
    {
        self.halt = halt;
    }

    /// Whether the counter is enabled.
    pub fn get_enable(&self) -> (r: bool)
        ensures
            r == self.enable,
    {
        self.enable
    }

    /// Enables or disables the counter; disabling clears the count.
    pub fn set_enable(&mut self, enable: bool)
        ensures
            *final(self) == (LengthCounter {
                enable,
                counter: if enable {
                    old(self).counter
                } else {
                    0
                },
                ..*old(self)
            }),
    {
        self.enable = enable;
        if !enable {
            self.counter = 0;
        }
    }

    /// One half-frame clock; see [`LengthCounter::spec_clock`].
    pub fn clock(&mut self)
        ensures
            *final(self) == old(self).spec_clock(),
    {
        if self.counter > 0 && !self.halt {
            self.counter = self.counter - 1;
        }
    }
}

/// A disabled length counter stays at 0: loads are ignored and clocks keep it there.
pub proof fn lemma_disabled_length_counter(lc: LengthCounter, index: u8)
    requires
        !lc.enable,
        lc.counter == 0,
    ensures
        lc.spec_set_counter(index) == lc,
        lc.spec_clock() == lc,
{
}

/// A started envelope decays from 15 and never goes above it.
pub proof fn lemma_envelope_decay_bounded(e: Enveloppe)
    requires
        e.decay_cycle <= 15,
    ensures
        e.spec_clock().decay_cycle <= 15,
        e.start_flag ==> e.spec_clock().decay_cycle == 15 && !e.spec_clock().start_flag,
{
}

} // verus!
