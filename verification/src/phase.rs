//! Phase angles of the orbiting bodies.
//!
//! A body's phase angle is a pure function of the elapsed simulation
//! time. Angles are kept exactly as fractions of a full turn: a phase
//! value `p` with period `period_ms` stands for the angle
//! `2*pi * p / period_ms` radians. Earth and the Moon share a fixed
//! phase bias (an arbitrary offset baked into the design); Mars runs
//! from the unbiased elapsed time.

use vstd::prelude::*;
use vstd::arithmetic::div_mod::{
    lemma_fundamental_div_mod, lemma_mod_add_multiples_vanish, lemma_small_mod, lemma_sub_mod_noop,
};

verus! {

/// One Earth (and Mars) orbital period, in milliseconds.
pub const EARTH_PERIOD_MS: u64 = 60000;

/// One Moon orbital period (relative to Earth's local frame), in milliseconds.
pub const MOON_PERIOD_MS: u64 = 6000;

/// One Mars orbital period, in milliseconds.
pub const MARS_PERIOD_MS: u64 = 60000;

/// The phase bias applied to Earth's and the Moon's elapsed time:
/// this many units are subtracted from both the whole-second component
/// and the sub-second millisecond component before the angle is formed.
pub const PHASE_OFFSET_UNITS: u64 = 44;

/// The combined phase bias in milliseconds: the per-component offset
/// applied once to the seconds component (scaled) and once to the
/// milliseconds component.
pub const PHASE_OFFSET_MS: u64 = PHASE_OFFSET_UNITS * 1000 + PHASE_OFFSET_UNITS;

/// The nominal interval between ticks of the external tick source,
/// in milliseconds.
pub const TICK_INTERVAL_MS: u64 = 10;

/// The phase, in milliseconds into the period, of a body with the given
/// period and phase bias after `elapsed_ms` of simulation time: the
/// biased elapsed time reduced into `[0, period_ms)`.
pub open spec fn phase_of(elapsed_ms: int, offset_ms: int, period_ms: int) -> int
    recommends
        period_ms > 0,
{
    (elapsed_ms - offset_ms) % period_ms
}

/// Earth's phase after `elapsed_ms`, in units of `2*pi / EARTH_PERIOD_MS`.
pub open spec fn earth_phase_spec(elapsed_ms: int) -> int {
    phase_of(elapsed_ms, PHASE_OFFSET_MS as int, EARTH_PERIOD_MS as int)
}

/// The Moon's phase within Earth's local frame after `elapsed_ms`,
/// in units of `2*pi / MOON_PERIOD_MS`.
pub open spec fn moon_phase_spec(elapsed_ms: int) -> int {
    phase_of(elapsed_ms, PHASE_OFFSET_MS as int, MOON_PERIOD_MS as int)
}

/// Mars's phase after `elapsed_ms`, in units of `2*pi / MARS_PERIOD_MS`:
/// no bias is applied.
pub open spec fn mars_phase_spec(elapsed_ms: int) -> int {
    phase_of(elapsed_ms, 0, MARS_PERIOD_MS as int)
}

/// The biased elapsed time reduced into `[0, period_ms)`, computed
/// without leaving `u64`.
pub fn phase_in_period(elapsed_ms: u64, offset_ms: u64, period_ms: u64) -> (p: u64)
    requires
        period_ms > 0,
    ensures
        p == phase_of(elapsed_ms as int, offset_ms as int, period_ms as int),
        p < period_ms,
{
    let reduced: u64 = elapsed_ms % period_ms;
    let off: u64 = offset_ms % period_ms;
    proof {
        lemma_sub_mod_noop(elapsed_ms as int, offset_ms as int, period_ms as int);
    }
    if reduced >= off {
        proof {
            lemma_small_mod((reduced - off) as nat, period_ms as nat);
        }
        reduced - off
    } else {
        proof {
            lemma_mod_add_multiples_vanish(reduced as int - off as int, period_ms as int);
            lemma_small_mod((reduced + period_ms - off) as nat, period_ms as nat);
        }
        reduced + (period_ms - off)
    }
}

/// Earth's phase after `elapsed_ms`, in units of `2*pi / EARTH_PERIOD_MS`.
pub fn earth_phase(elapsed_ms: u64) -> (p: u64)
    ensures
        p == earth_phase_spec(elapsed_ms as int),
        p < EARTH_PERIOD_MS,
{
    phase_in_period(elapsed_ms, PHASE_OFFSET_MS, EARTH_PERIOD_MS)
}

/// The Moon's phase after `elapsed_ms`, in units of `2*pi / MOON_PERIOD_MS`.
pub fn moon_phase(elapsed_ms: u64) -> (p: u64)
    ensures
        p == moon_phase_spec(elapsed_ms as int),
        p < MOON_PERIOD_MS,
{
    phase_in_period(elapsed_ms, PHASE_OFFSET_MS, MOON_PERIOD_MS)
}

/// Mars's phase after `elapsed_ms`, in units of `2*pi / MARS_PERIOD_MS`.
pub fn mars_phase(elapsed_ms: u64) -> (p: u64)
    ensures
        p == mars_phase_spec(elapsed_ms as int),
        p < MARS_PERIOD_MS,
{
    phase_in_period(elapsed_ms, 0, MARS_PERIOD_MS)
}

/// The combined bias equals the per-component one: for a nonnegative
/// elapsed time split into whole seconds and leftover milliseconds,
/// biasing each component by `PHASE_OFFSET_UNITS` and recombining
/// gives the elapsed milliseconds less `PHASE_OFFSET_MS`. The phase
/// angle formed per component is therefore the one `phase_of` reduces.
pub proof fn lemma_offset_components(elapsed_ms: int)
    requires
        elapsed_ms >= 0,
    ensures
        1000 * (elapsed_ms / 1000 - PHASE_OFFSET_UNITS) + (elapsed_ms % 1000 - PHASE_OFFSET_UNITS)
            == elapsed_ms - PHASE_OFFSET_MS,
{
    lemma_fundamental_div_mod(elapsed_ms, 1000);
}

/// A phase with period `period_ms` is periodic in the elapsed time
/// with that period, whatever the bias.
pub proof fn lemma_phase_periodic(elapsed_ms: int, offset_ms: int, period_ms: int)
    requires
        period_ms > 0,
    ensures
        phase_of(elapsed_ms + period_ms, offset_ms, period_ms)
            == phase_of(elapsed_ms, offset_ms, period_ms),
{
    lemma_mod_add_multiples_vanish(elapsed_ms - offset_ms, period_ms);
}

/// Earth's phase angle is periodic with period `EARTH_PERIOD_MS` over
/// every valid elapsed time: one full period later, the angle is the
/// same (modulo a full turn, which the representation reduces away).
pub proof fn lemma_earth_phase_periodic(elapsed_ms: int)
    requires
        elapsed_ms >= 0,
    ensures
        earth_phase_spec(elapsed_ms + EARTH_PERIOD_MS) == earth_phase_spec(elapsed_ms),
{
    lemma_phase_periodic(elapsed_ms, PHASE_OFFSET_MS as int, EARTH_PERIOD_MS as int);
}

/// The Moon's local phase angle is periodic with period `MOON_PERIOD_MS`:
/// it depends on the elapsed time alone, not on Earth's own phase.
pub proof fn lemma_moon_phase_periodic(elapsed_ms: int)
    requires
        elapsed_ms >= 0,
    ensures
        moon_phase_spec(elapsed_ms + MOON_PERIOD_MS) == moon_phase_spec(elapsed_ms),
{
    lemma_phase_periodic(elapsed_ms, PHASE_OFFSET_MS as int, MOON_PERIOD_MS as int);
}

/// Mars's phase angle is periodic with period `MARS_PERIOD_MS`: one
/// unbiased orbital period after any elapsed time, the angle repeats.
pub proof fn lemma_mars_phase_periodic(elapsed_ms: int)
    requires
        elapsed_ms >= 0,
    ensures
        mars_phase_spec(elapsed_ms + MARS_PERIOD_MS) == mars_phase_spec(elapsed_ms),
{
    lemma_phase_periodic(elapsed_ms, 0, MARS_PERIOD_MS as int);
}

} // verus!
