//! Per-tick bookkeeping of the simulation: the fixed-step clock, the
//! bounded debug log, and the discrete decisions taken at the start of each
//! tick.
use vstd::prelude::*;
use crate::mode::{next_mode, HysteresisModeSelector};

verus! {

/// Fuel-cell temperature, in hundredths of a degree Celsius, above which
/// cooling is switched on.
pub const COOLING_THRESHOLD_CENTI_C: i64 = 4400;

/// Counts fixed-length ticks up to a total duration.
pub struct SimulationClock {
    elapsed_ticks: u64,
    duration_ticks: u64,
}

impl SimulationClock {
    pub closed spec fn elapsed_spec(self) -> nat {
        self.elapsed_ticks as nat
    }

    pub closed spec fn duration_spec(self) -> nat {
        self.duration_ticks as nat
    }

    pub fn new(duration_ticks: u64) -> (r: Self)
        ensures
            r.elapsed_spec() == 0,
            r.duration_spec() == duration_ticks,
    {
        SimulationClock { elapsed_ticks: 0, duration_ticks }
    }

    /// Advances by one tick and returns whether the duration has been reached.
    pub fn advance(&mut self) -> (finished: bool)
        requires
            old(self).elapsed_spec() < u64::MAX,
        ensures
            final(self).elapsed_spec() == old(self).elapsed_spec() + 1,
            final(self).duration_spec() == old(self).duration_spec(),
            finished == (final(self).elapsed_spec() >= final(self).duration_spec()),
    {
        self.elapsed_ticks = self.elapsed_ticks + 1;
        self.elapsed_ticks >= self.duration_ticks
    }

    pub fn elapsed_ticks(&self) -> (r: u64)
        ensures
            r == self.elapsed_spec(),
    {
        self.elapsed_ticks
    }

    pub fn duration_ticks(&self) -> (r: u64)
        ensures
            r == self.duration_spec(),
    {
        self.duration_ticks
    }
}

/// The last `cap` elements of `s` (all of them when `s` is shorter).
pub open spec fn keep_last<T>(s: Seq<T>, cap: nat) -> Seq<T> {
    if s.len() <= cap {
        s
    } else {
        s.subrange(s.len() - cap, s.len() as int)
    }
}

/// A log that keeps only its most recent lines.
pub struct DebugLog {
    lines: Vec<String>,
    capacity: usize,
}

impl DebugLog {
    pub closed spec fn view_lines(self) -> Seq<String> {
        self.lines@
    }

    pub closed spec fn capacity_spec(self) -> nat {
        self.capacity as nat
    }

    /// The log never holds more lines than its capacity.
    pub open spec fn wf(self) -> bool {
        self.view_lines().len() <= self.capacity_spec()
    }

    pub fn new(capacity: usize) -> (r: Self)
        ensures
            r.wf(),
            r.view_lines() == Seq::<String>::empty(),
            r.capacity_spec() == capacity,
    {
        DebugLog { lines: Vec::new(), capacity }
    }

    /// Appends `line`, dropping the oldest line when the log is full.
    pub fn push(&mut self, line: String)
        requires
            old(self).wf(),
        ensures
            final(self).wf(),
            final(self).capacity_spec() == old(self).capacity_spec(),
            final(self).view_lines() == keep_last(old(self).view_lines().push(line), old(self).capacity_spec()),
    {
        self.lines.push(line);
        if self.lines.len() > self.capacity {
            self.lines.remove(0);
        }
        proof {
            let s = old(self).view_lines().push(line);
            if s.len() > self.capacity {
                assert(self.lines@ =~= s.subrange(s.len() - self.capacity, s.len() as int));
            }
        }
    }

    pub fn lines(&self) -> (r: &Vec<String>)
        ensures
            r@ == self.view_lines(),
    {
        &self.lines
    }

    pub fn len(&self) -> (r: usize)
        ensures
            r == self.view_lines().len(),
    {
        self.lines.len()
    }
}

/// The discrete decisions of one tick.
pub struct TickPlan {
    /// The battery is being charged at the fixed charging current.
    pub charging_mode: bool,
    /// The fuel-cell cooling runs at its full efficiency.
    pub cooling_active: bool,
}

/// Whether a fuel-cell temperature (hundredths of a degree Celsius) calls
/// for active cooling.
pub open spec fn cooling_required(temperature_centi_c: int) -> bool {
    temperature_centi_c > COOLING_THRESHOLD_CENTI_C
}

/// Takes the decisions that open a tick: the charge mode from the battery's
/// state of charge (read through the hysteresis selector), then the cooling
/// flag from the fuel-cell temperature.
pub fn plan_tick(selector: &mut HysteresisModeSelector, soc: i64, temperature_centi_c: i64) -> (r: TickPlan)
    ensures
        r.charging_mode == next_mode(old(selector).charging_spec(), old(selector).lower_spec(), old(selector).upper_spec(), soc as int),
        r.cooling_active == cooling_required(temperature_centi_c as int),
        final(selector).charging_spec() == r.charging_mode,
        final(selector).lower_spec() == old(selector).lower_spec(),
        final(selector).upper_spec() == old(selector).upper_spec(),
        final(selector).wf() == old(selector).wf(),
{
    let charging_mode = selector.update_mode(soc);
    let cooling_active = temperature_centi_c > COOLING_THRESHOLD_CENTI_C;
    TickPlan { charging_mode, cooling_active }
}

} // verus!
