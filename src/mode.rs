//! Two-threshold (hysteresis) selector between charging and discharging.
//!
//! State-of-charge readings and thresholds share one integer unit chosen by
//! the caller (for instance hundredths of a percent).
use vstd::prelude::*;

verus! {

/// The mode that follows `charging` after reading `soc`.
///
/// While discharging, the selector switches to charging below `lower`;
/// while charging, it switches to discharging above `upper`; otherwise the
/// mode is kept.
pub open spec fn next_mode(charging: bool, lower: int, upper: int, soc: int) -> bool {
    if charging {
        soc <= upper
    } else {
        soc < lower
    }
}

pub struct HysteresisModeSelector {
    lower_threshold: i64,
    upper_threshold: i64,
    charging: bool,
}

impl HysteresisModeSelector {
    /// Well-formedness: the dead band between the thresholds is not empty.
    pub open spec fn wf(self) -> bool {
        self.lower_spec() < self.upper_spec()
    }

    pub closed spec fn lower_spec(self) -> int {
        self.lower_threshold as int
    }

    pub closed spec fn upper_spec(self) -> int {
        self.upper_threshold as int
    }

    pub closed spec fn charging_spec(self) -> bool {
        self.charging
    }

    /// A selector that starts in discharging mode, or `None` when
    /// `lower_threshold >= upper_threshold`.
    pub fn new(lower_threshold: i64, upper_threshold: i64) -> (r: Option<Self>)
        ensures
            r is Some <==> lower_threshold < upper_threshold,
            r matches Some(s) ==> {
                &&& s.wf()
                &&& s.lower_spec() == lower_threshold
                &&& s.upper_spec() == upper_threshold
                &&& !s.charging_spec()
            },
    {
        if lower_threshold < upper_threshold {
            Some(HysteresisModeSelector { lower_threshold, upper_threshold, charging: false })
        } else {
            None
        }
    }

    /// Reads one state-of-charge value, updates the mode and returns whether
    /// the selector is now charging.
    pub fn update_mode(&mut self, soc: i64) -> (r: bool)
        ensures
            r == next_mode(old(self).charging_spec(), old(self).lower_spec(), old(self).upper_spec(), soc as int),
            final(self).charging_spec() == r,
            final(self).lower_spec() == old(self).lower_spec(),
            final(self).upper_spec() == old(self).upper_spec(),
            final(self).wf() == old(self).wf(),
    {
        if self.charging {
            if soc > self.upper_threshold {
                self.charging = false;
            }
        } else {
            if soc < self.lower_threshold {
                self.charging = true;
            }
        }
        self.charging
    }

    pub fn is_charging(&self) -> (r: bool)
        ensures
            r == self.charging_spec(),
    {
        self.charging
    }

    pub fn lower_threshold(&self) -> (r: i64)
        ensures
            r == self.lower_spec(),
    {
        self.lower_threshold
    }

    pub fn upper_threshold(&self) -> (r: i64)
        ensures
            r == self.upper_spec(),
    {
        self.upper_threshold
    }
}

/// Inside the dead band (`lower <= soc <= upper`) a reading never changes
/// the mode, whichever mode the selector is in.
pub proof fn lemma_dead_band_keeps_mode(charging: bool, lower: int, upper: int, soc: int)
    requires
        lower < upper,
        lower <= soc <= upper,
    ensures
        next_mode(charging, lower, upper, soc) == charging,
{
}

/// With `lower < upper` the selector settles at once: reading the same
/// state of charge a second time leaves the mode where the first reading put
/// it, so a constant reading never makes the selector oscillate.
pub proof fn lemma_same_reading_is_stable(charging: bool, lower: int, upper: int, soc: int)
    requires
        lower < upper,
    ensures
        next_mode(next_mode(charging, lower, upper, soc), lower, upper, soc)
            == next_mode(charging, lower, upper, soc),
{
}

} // verus!
