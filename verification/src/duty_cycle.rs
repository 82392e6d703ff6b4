//! Duty-cycle scheduler: converts a power level into ON/OFF time windows
//! within a fixed actuation period.
//!
//! Power levels are given in hundredths of a percent. The window is
//! recomputed fresh every actuation cycle and carries no state between
//! cycles, so there is no accumulated drift.

use vstd::prelude::*;
use vstd::arithmetic::div_mod::{lemma_div_is_ordered, lemma_div_multiples_vanish};
use vstd::arithmetic::mul::lemma_mul_inequality;

verus! {

/// Full power, in hundredths of a percent.
pub const POWER_FULL_CENTI: i64 = 10000;

/// Upper bound accepted for an actuation period, in milliseconds. Keeps
/// the intermediate product of the window computation within `u64`.
pub const PERIOD_MS_MAX: u64 = 1_000_000_000;

/// One ON/OFF actuation window. The two durations always partition the
/// period exactly.
pub struct DutyCycleWindow {
    pub period_ms: u64,
    pub on_ms: u64,
    pub off_ms: u64,
}

impl DutyCycleWindow {
    /// The two durations partition the period.
    pub open spec fn wf(self) -> bool {
        &&& self.on_ms + self.off_ms == self.period_ms
        &&& self.on_ms <= self.period_ms
    }
}

/// A power level clamped into the representable range: negative values
/// fall to zero, values above full power fall to full power.
pub open spec fn clamp_power_centi(power: int) -> int {
    if power < 0 {
        0
    } else if power > POWER_FULL_CENTI {
        POWER_FULL_CENTI as int
    } else {
        power
    }
}

/// Clamps a raw control output into the power range, and reports whether
/// the heater is logically commanded at all this cycle (a negative
/// control output disables it).
pub fn clamp_power(power_centi: i64) -> (r: (i64, bool))
    ensures
        r.0 == clamp_power_centi(power_centi as int),
        0 <= r.0 <= POWER_FULL_CENTI,
        r.1 == (power_centi >= 0),
{
    if power_centi < 0 {
        (0, false)
    } else if power_centi > POWER_FULL_CENTI {
        (POWER_FULL_CENTI, true)
    } else {
        (power_centi, true)
    }
}

/// Computes the ON/OFF window for one actuation cycle: the ON duration is
/// the clamped power's share of the period (truncated), and the OFF
/// duration is exactly the rest of the period.
pub fn compute_window(power_centi: i64, period_ms: u64) -> (w: DutyCycleWindow)
    requires
        period_ms <= PERIOD_MS_MAX,
    ensures
        w.wf(),
        w.period_ms == period_ms,
        w.on_ms == period_ms * clamp_power_centi(power_centi as int) / (POWER_FULL_CENTI as int),
        w.on_ms + w.off_ms == period_ms,
        power_centi <= 0 ==> w.on_ms == 0,
        power_centi >= POWER_FULL_CENTI ==> w.on_ms == period_ms,
{
    let (clamped, _) = clamp_power(power_centi);
    proof {
        assert(period_ms * clamped <= 10_000_000_000_000) by (nonlinear_arith)
            requires
                period_ms <= 1_000_000_000 && 0 <= clamped <= 10000,
        ;
    }
    let on_ms: u64 = period_ms * (clamped as u64) / 10000;
    proof {
        let p = period_ms as int;
        let c = clamped as int;
        lemma_mul_inequality(c, 10000, p);
        assert(p * c == c * p) by (nonlinear_arith);
        assert(p * 10000 == 10000 * p) by (nonlinear_arith);
        lemma_div_is_ordered(p * c, p * 10000, 10000);
        lemma_div_multiples_vanish(p, 10000);
        assert(p * c / 10000 <= p);
        if clamped == 0 {
            assert(p * c == 0) by (nonlinear_arith)
                requires
                    c == 0,
            ;
            assert(0int / 10000 == 0);
        }
        if clamped == 10000 {
            assert(p * c == 10000 * p) by (nonlinear_arith)
                requires
                    c == 10000,
            ;
        }
    }
    DutyCycleWindow { period_ms, on_ms, off_ms: period_ms - on_ms }
}

} // verus!
