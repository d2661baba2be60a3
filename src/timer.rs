//! The periodic tick peripheral: a counter that advances at one of four
//! rates and reloads from its modulo when it overflows.
use vstd::prelude::*;

verus! {

/// The four tick rates, in ticks per second.
#[derive(Clone, Copy, Debug, PartialEq, Eq, Structural)]
pub enum Frequency {
    F4096,
    F16384,
    F65536,
    F262144,
}

pub open spec fn cycles_per_tick_spec(f: Frequency) -> nat {
    match f {
        Frequency::F4096 => 1024,
        Frequency::F16384 => 256,
        Frequency::F65536 => 64,
        Frequency::F262144 => 16,
    }
}

impl Frequency {
    /// Processor cycles between two ticks.
    pub fn cycles_per_tick(&self) -> (r: usize)
        ensures
            r == cycles_per_tick_spec(*self),
    {
        match self {
            Frequency::F4096 => 1024,
            Frequency::F16384 => 256,
            Frequency::F65536 => 64,
            Frequency::F262144 => 16,
        }
    }
}

#[derive(Clone, Copy, Debug, PartialEq, Eq, Structural)]
pub struct Timer {
    pub frequency: Frequency,
    pub value: u8,
    pub cycles: usize,
    /// The value the counter takes after it overflows.
    pub modulo: u8,
    pub enabled: bool,
}

/// One advance by `n` cycles: a disabled timer does nothing; otherwise the
/// cycles accumulate, and once they exceed a tick's worth the counter
/// advances and the cycles keep the remainder. The result tells whether the
/// counter overflowed (and was reloaded from the modulo).
pub open spec fn timer_step_spec(t: Timer, n: u8) -> (Timer, bool) {
    if !t.enabled {
        (t, false)
    } else {
        let c = t.cycles + n;
        let per_tick = cycles_per_tick_spec(t.frequency);
        if c > per_tick {
            let overflow = t.value == 255;
            (
                Timer {
                    cycles: (c % per_tick as int) as usize,
                    value: if overflow {
                        t.modulo
                    } else {
                        (t.value + 1) as u8
                    },
                    ..t
                },
                overflow,
            )
        } else {
            (Timer { cycles: c as usize, ..t }, false)
        }
    }
}

impl Timer {
    /// A stopped timer at zero.
    pub fn new(freq: Frequency) -> (r: Timer)
        ensures
            r == (Timer { frequency: freq, value: 0, cycles: 0, modulo: 0, enabled: false }),
    {
        Timer { frequency: freq, value: 0, cycles: 0, modulo: 0, enabled: false }
    }

    /// Advances the timer by `cycles`; true when the counter overflowed.
    pub fn step(&mut self, cycles: u8) -> (r: bool)
        requires
            old(self).cycles + cycles <= usize::MAX,
        ensures
            (*final(self), r) == timer_step_spec(*old(self), cycles),
    {
        if !self.enabled {
            return false;
        }
        self.cycles = self.cycles + cycles as usize;
        let per_tick = self.frequency.cycles_per_tick();
        if self.cycles > per_tick {
            self.cycles = self.cycles % per_tick;
            let overflow = self.value == 255;
            if overflow {
                self.value = self.modulo;
            } else {
                self.value = self.value + 1;
            }
            overflow
        } else {
            false
        }
    }
}

} // verus!
