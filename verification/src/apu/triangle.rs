//! The triangle channel: a 32-step sequence gated by a linear counter.
use vstd::prelude::*;
use super::common::{LengthCounter, SequenceMode, Timer};

verus! {

/// The 32 output levels of the triangle, down from 15 and back up.
pub open spec fn triangle_sequence() -> Seq<u8> {
    seq![
        15u8, 14, 13, 12, 11, 10, 9, 8, 7, 6, 5, 4, 3, 2, 1, 0, 0, 1, 2, 3, 4, 5, 6, 7, 8, 9, 10,
        11, 12, 13, 14, 15,
    ]
}

/// The triangle's linear counter, with its control register (`CRRR RRRR`: control flag,
/// reload value).
#[derive(Clone, Copy, Debug)]
pub struct LinearCounter {
    /// The control register.
    pub register: u8,
    /// The count.
    pub counter: u8,
    /// Set by a write of the fourth register; reloads the count on the next clock.
    pub reload: bool,
}

impl Default for LinearCounter {
    fn default() -> (r: Self)
        ensures
            r == (LinearCounter { register: 0, counter: 0, reload: false }),
    {
        LinearCounter { register: 0, counter: 0, reload: false }
    }
}

impl LinearCounter {
    /// One quarter-frame clock: reload (when pending) or count down; the reload flag
    /// clears unless the control flag is set.
    pub open spec fn spec_clock(self) -> LinearCounter {
        let counter = if self.reload {
            self.register % 128
        } else if self.counter != 0 {
            (self.counter - 1) as u8
        } else {
            self.counter
        };
        LinearCounter { counter, reload: self.reload && self.register >= 128, ..self }
    }

    /// Writes the control register.
    pub fn set_register(&mut self, data: u8)
        ensures
            *final(self) == (LinearCounter { register: data, ..*old(self) }),
    {
        self.register = data;
    }

    /// Asks for a reload on the next clock.
    pub fn set_reload(&mut self)
        ensures
            *final(self) == (LinearCounter { reload: true, ..*old(self) }),
    {
        self.reload = true;
    }

    /// The count.
    pub fn counter(&self) -> (r: u8)
        ensures
            r == self.counter,
    {
        self.counter
    }

    /// One quarter-frame clock; see [`LinearCounter::spec_clock`].
    pub fn clock(&mut self)
        ensures
            *final(self) == old(self).spec_clock(),
    {
        if self.reload {
            self.counter = self.register % 128;
        } else if self.counter != 0 {
            self.counter = self.counter - 1;
        }
        if self.register < 128 {
            self.reload = false;
        }
    }
}

/// The triangle channel.
#[derive(Clone, Copy, Debug)]
pub struct TriangleChannel {
    pub timer: Timer,
    pub length_counter: LengthCounter,
    pub linear_counter: LinearCounter,
    /// The position in the 32-step sequence.
    pub sequence_index: u8,
}

impl Default for TriangleChannel {
    fn default() -> (r: Self)
        ensures
            r.timer == (Timer { timer_reload: 0, counter: 0, reloaded: false }),
            r.length_counter == (LengthCounter { counter: 0, halt: false, enable: false }),
            r.linear_counter == (LinearCounter { register: 0, counter: 0, reload: false }),
            r.sequence_index == 0,
            r.wf(),
    {
        TriangleChannel {
            timer: Timer::default(),
            length_counter: LengthCounter::default(),
            linear_counter: LinearCounter::default(),
            sequence_index: 0,
        }
    }
}

impl TriangleChannel {
    /// The states a channel can be in: its position is inside the sequence.
    pub open spec fn wf(self) -> bool {
        self.sequence_index < 32
    }

    /// Whether the sequencer is held: an ultrasonic period (below 2), or either counter
    /// out.
    pub open spec fn spec_is_muted(self) -> bool {
        self.timer.counter < 2 || self.linear_counter.counter == 0
            || self.length_counter.counter == 0
    }

    /// A register write: `$4008` linear counter control and halt, `$400A` period low,
    /// `$400B` period high, length load and linear reload; `$4009` is unused.
    pub open spec fn spec_write(self, addr: u16, data: u8) -> TriangleChannel {
        let reg = addr % 4;
        if reg == 0 {
            TriangleChannel {
                linear_counter: LinearCounter { register: data, ..self.linear_counter },
                length_counter: LengthCounter { halt: data >= 128, ..self.length_counter },
                ..self
            }
        } else if reg == 2 {
            TriangleChannel {
                timer: self.timer.with_period(
                    ((self.timer.timer_reload / 256) % 8 * 256 + data) as u16,
                ),
                ..self
            }
        } else if reg == 3 {
            TriangleChannel {
                timer: self.timer.with_period(
                    (self.timer.timer_reload % 256 + (data % 8) * 256) as u16,
                ),
                length_counter: self.length_counter.spec_set_counter(data / 8),
                linear_counter: LinearCounter { reload: true, ..self.linear_counter },
                ..self
            }
        } else {
            self
        }
    }

    /// One CPU cycle at frame-sequencer position `cycle_count`: the timer runs every
    /// cycle and, when it elapses and the channel is not held, the sequencer steps; the
    /// linear counter runs on quarter frames and the length counter on half frames.
    pub open spec fn spec_clock(self, mode: SequenceMode, cycle_count: u16) -> TriangleChannel {
        let t = TriangleChannel { timer: self.timer.spec_clock(), ..self };
        let c1 = if t.timer.reloaded && !t.spec_is_muted() {
            TriangleChannel { sequence_index: ((t.sequence_index + 1) % 32) as u8, ..t }
        } else {
            t
        };
        let c2 = if mode.spec_is_quarter_frame(cycle_count) {
            TriangleChannel { linear_counter: c1.linear_counter.spec_clock(), ..c1 }
        } else {
            c1
        };
        if mode.spec_is_half_frame(cycle_count) {
            TriangleChannel { length_counter: c2.length_counter.spec_clock(), ..c2 }
        } else {
            c2
        }
    }

    /// A register write; see [`TriangleChannel::spec_write`].
    pub fn write(&mut self, addr: u16, data: u8)
        requires
            old(self).wf(),
        ensures
            *final(self) == old(self).spec_write(addr, data),
            final(self).wf(),
    {
        let reg = addr % 4;
        if reg == 0 {
            self.linear_counter.set_register(data);
            self.length_counter.set_halt(data >= 0x80);
        } else if reg == 2 {
            self.timer.set_timer_lo(data);
        } else if reg == 3 {
            self.timer.set_timer_hi(data % 8);
            self.length_counter.set_counter(data / 8);
            self.linear_counter.set_reload();
        }
    }

    /// One CPU cycle; see [`TriangleChannel::spec_clock`].
    pub fn clock(&mut self, sequence_mode: SequenceMode, cycle_count: u16)
        requires
            old(self).wf(),
        ensures
            *final(self) == old(self).spec_clock(sequence_mode, cycle_count),
            final(self).wf(),
    {
        // The triangle's timer runs every CPU cycle.
        self.timer.clock();
        if self.timer.done() && !self.is_muted() {
            self.sequence_index = (self.sequence_index + 1) % 32;
        }
        if sequence_mode.is_quarter_frame(cycle_count) {
            self.linear_counter.clock();
        }
        if sequence_mode.is_half_frame(cycle_count) {
            self.length_counter.clock();
        }
    }

    /// Whether the length counter is enabled.
    pub fn length_counter_enable(&self) -> (r: bool)
        ensures
            r == self.length_counter.enable,
    {
        self.length_counter.get_enable()
    }

    /// Enables or disables the length counter (disabling clears it).
    pub fn set_length_counter_enable(&mut self, enable: bool)
        ensures
            *final(self) == (TriangleChannel {
                length_counter: LengthCounter {
                    enable,
                    counter: if enable {
                        old(self).length_counter.counter
                    } else {
                        0
                    },
                    ..old(self).length_counter
                },
                ..*old(self)
            }),
    {
        self.length_counter.set_enable(enable);
    }

    /// The channel's output level: the current step of the sequence.
    pub fn sample(&self) -> (r: u8)
        requires
            self.wf(),
        ensures
            r == triangle_sequence()[self.sequence_index as int],
    {
        let sequence: [u8; 32] = [
            15, 14, 13, 12, 11, 10, 9, 8, 7, 6, 5, 4, 3, 2, 1, 0, 0, 1, 2, 3, 4, 5, 6, 7, 8, 9, 10,
            11, 12, 13, 14, 15,
        ];
        assert(sequence@ =~= triangle_sequence());
        sequence[self.sequence_index as usize]
    }

    fn is_muted(&self) -> (r: bool)
        ensures
            r == self.spec_is_muted(),
    {
        self.timer.value() < 2 || self.linear_counter.counter() == 0 || self.length_counter.counter()
            == 0
    }
}

} // verus!
