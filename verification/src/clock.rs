//! The tempo, and what a tick lasts under it.

use vstd::prelude::*;
use crate::error::Error;

verus! {

/// The tempo in force until a file sets another: 500000 microseconds per
/// quarter note, which is 120 beats per minute.
pub const DEFAULT_TEMPO: u32 = 500_000;

/// The longest quarter note a tempo event can ask for: the largest number
/// that its three bytes hold.
pub const MAX_TEMPO: u32 = 0xFF_FFFF;

/// Whether a time division counts pulses per quarter note. A division with
/// the top bit set counts frames instead, and a division of 0 gives a tick
/// no length.
pub open spec fn usable_division(division: u16) -> bool {
    0 < division < 0x8000
}

/// The microseconds that `ticks` ticks last at `tempo` microseconds per
/// quarter note and `ppq` pulses per quarter note, rounded down.
pub open spec fn duration(ticks: u64, tempo: u32, ppq: u16) -> int
    recommends
        ppq > 0,
{
    (ticks * tempo) / (ppq as int)
}

/// A duration is never negative, and with at least one pulse per quarter
/// note it is no more than ticks times tempo.
pub proof fn lemma_duration_bounds(ticks: u64, tempo: u32, ppq: u16)
    requires
        ppq > 0,
    ensures
        0 <= duration(ticks, tempo, ppq) <= ticks * tempo,
{
    let product: int = ticks * tempo;
    let d: int = ppq as int;
    assert(0 <= product) by (nonlinear_arith)
        requires
            product == ticks * tempo,
    ;
    assert(0 <= product / d <= product) by (nonlinear_arith)
        requires
            0 <= product,
            1 <= d,
    ;
}

/// A delta time of at most 35 bits under a tempo of at most 24 bits lasts
/// fewer than 2^59 microseconds, whatever the division.
pub proof fn lemma_duration_fits(ticks: u64, tempo: u32, ppq: u16)
    requires
        ppq > 0,
        ticks < 0x8_0000_0000,
        tempo <= MAX_TEMPO,
    ensures
        0 <= duration(ticks, tempo, ppq) < 0x800_0000_0000_0000,
{
    lemma_duration_bounds(ticks, tempo, ppq);
    assert(ticks * tempo < 0x800_0000_0000_0000) by (nonlinear_arith)
        requires
            ticks < 0x8_0000_0000,
            tempo <= 0xFF_FFFF,
    ;
}

/// The tempo of a file: the microseconds per quarter note, which tempo
/// events change, and the pulses per quarter note, which never change.
pub struct TempoClock {
    micros_per_quarter: u32,
    ppq: u16,
}

impl TempoClock {
    #[verifier::type_invariant]
    spec fn inv(&self) -> bool {
        usable_division(self.ppq) && self.micros_per_quarter <= MAX_TEMPO
    }

    /// The microseconds that a quarter note lasts.
    pub closed spec fn micros_per_quarter(&self) -> u32 {
        self.micros_per_quarter
    }

    /// The pulses that make a quarter note.
    pub closed spec fn pulses_per_quarter(&self) -> u16 {
        self.ppq
    }

    /// A clock at the default tempo for a file with the given time division.
    /// Fails with `UnsupportedTimingMode` where the division does not count
    /// pulses per quarter note.
    pub fn new(division: u16) -> (r: Result<TempoClock, Error>)
        ensures
            match r {
                Ok(clock) => {
                    &&& usable_division(division)
                    &&& clock.pulses_per_quarter() == division
                    &&& clock.micros_per_quarter() == DEFAULT_TEMPO
                },
                Err(e) => !usable_division(division) && e == Error::UnsupportedTimingMode,
            },
    {
        if division == 0 || division >= 0x8000 {
            Err(Error::UnsupportedTimingMode)
        } else {
            Ok(TempoClock { micros_per_quarter: DEFAULT_TEMPO, ppq: division })
        }
    }

    /// The microseconds that a quarter note lasts.
    pub fn tempo(&self) -> (tempo: u32)
        ensures
            tempo == self.micros_per_quarter(),
            tempo <= MAX_TEMPO,
    {
        proof {
            use_type_invariant(self);
        }
        self.micros_per_quarter
    }

    /// The pulses that make a quarter note.
    pub fn ppq(&self) -> (ppq: u16)
        ensures
            ppq == self.pulses_per_quarter(),
            usable_division(ppq),
    {
        proof {
            use_type_invariant(self);
        }
        self.ppq
    }

    /// Sets the tempo for every conversion from now on. A tempo is a number
    /// of 24 bits, as a tempo event holds it.
    pub fn set_tempo(&mut self, micros_per_quarter: u32)
        requires
            micros_per_quarter <= MAX_TEMPO,
        ensures
            final(self).micros_per_quarter() == micros_per_quarter,
            final(self).pulses_per_quarter() == old(self).pulses_per_quarter(),
    {
        proof {
            use_type_invariant(&*self);
        }
        self.micros_per_quarter = micros_per_quarter;
    }

    /// The microseconds that `ticks` ticks last at the tempo now in force.
    pub fn ticks_to_duration(&self, ticks: u64) -> (micros: u64)
        requires
            duration(ticks, self.micros_per_quarter(), self.pulses_per_quarter()) <= u64::MAX,
        ensures
            micros == duration(ticks, self.micros_per_quarter(), self.pulses_per_quarter()),
    {
        proof {
            use_type_invariant(self);
            assert(ticks * self.micros_per_quarter <= 0xFFFF_FFFF_FFFF_FFFF * 0xFFFF_FFFF)
                by (nonlinear_arith);
        }
        let product: u128 = (ticks as u128) * (self.micros_per_quarter as u128);
        (product / (self.ppq as u128)) as u64
    }
}

} // verus!
