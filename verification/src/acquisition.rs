//! Sensor acquisition: poll-outcome handling, consecutive-failure
//! counting, and escalation to reinitialization or a fatal reset.
//!
//! The sensor itself is a collaborator outside this crate; the driver
//! loop hands every poll's outcome to [`Acquisition::on_poll`] as a plain
//! value and performs whatever the machine asks next.  Every fault class
//! is treated identically for retry purposes: it bumps one consecutive-
//! failure counter, which any successful measurement or successful
//! reinitialization resets to zero.  When the counter crosses the fixed
//! threshold the machine calls for reinitialization; a failed
//! reinitialization is irrecoverable and calls for a full device reset.

use vstd::prelude::*;

use crate::avg::Hysterysiser;
use crate::readings::Readings;
use crate::units::in_value_range;

verus! {

/// How the fast-changing particulate metrics are smoothed: raw samples
/// per rolling window.
pub const FAST_WINDOW: usize = 30;

/// Window for the slower gas indices.
pub const MEDIUM_WINDOW: usize = 60;

/// Window for the slowest pair, temperature and humidity.
pub const SLOW_WINDOW: usize = 90;

/// Consecutive failures tolerated before the sensor is reinitialized.
pub const FAILURE_THRESHOLD: u32 = 10;

/// The closed set of sensor fault kinds, kept for diagnostics; all of
/// them count the same toward the failure threshold.
#[derive(Clone, Copy, Debug, PartialEq, Eq, Structural)]
pub enum SensorFault {
    /// A checksum mismatch on the sensor bus.
    Checksum,
    /// A bus-level transport error.
    Transport,
    /// An internal sensor fault.
    Internal,
    /// A failed sensor self-test.
    SelfTest,
    /// An operation the sensor's current mode disallows.
    Disallowed,
}

/// One raw measurement: all eight metrics, fixed-point thousandths.
#[derive(Clone, Copy, Debug, PartialEq, Eq)]
pub struct RawSample {
    pub pm1_0: i64,
    pub pm2_5: i64,
    pub pm4_0: i64,
    pub pm10_0: i64,
    pub voc_index: i64,
    pub nox_index: i64,
    pub temperature: i64,
    pub humidity: i64,
}

impl RawSample {
    /// Every metric of the sample is inside the accepted value range.
    pub open spec fn in_range(self) -> bool {
        &&& in_value_range(self.pm1_0 as int)
        &&& in_value_range(self.pm2_5 as int)
        &&& in_value_range(self.pm4_0 as int)
        &&& in_value_range(self.pm10_0 as int)
        &&& in_value_range(self.voc_index as int)
        &&& in_value_range(self.nox_index as int)
        &&& in_value_range(self.temperature as int)
        &&& in_value_range(self.humidity as int)
    }
}

/// What one poll of the sensor produced.
pub enum PollOutcome {
    /// The sensor had no fresh data yet.
    NotReady,
    /// Reading the data-ready flag itself failed.
    ReadinessFault(SensorFault),
    /// The data-ready flag was set but reading the measurement failed.
    MeasurementFault(SensorFault),
    /// A complete fresh measurement.
    Sample(RawSample),
}

/// In spec: an absent value stays absent, a present one is narrowed to
/// the machine integer it is known to fit.
pub open spec fn opt_to_i64(v: Option<int>) -> Option<i64> {
    match v {
        Some(x) => Some(x as i64),
        None => None,
    }
}

/// One rolling filter per metric, with windows sized to how fast each
/// metric moves.
pub struct Filters {
    pub pm1_0: Hysterysiser,
    pub pm2_5: Hysterysiser,
    pub pm4_0: Hysterysiser,
    pub pm10_0: Hysterysiser,
    pub voc_index: Hysterysiser,
    pub nox_index: Hysterysiser,
    pub temperature: Hysterysiser,
    pub humidity: Hysterysiser,
}

impl Filters {
    /// All eight filters are well formed, carry their fixed windows, and
    /// have seen the same number of raw samples.
    pub open spec fn wf(self) -> bool {
        &&& self.pm1_0.wf() && self.pm1_0.window() == FAST_WINDOW
        &&& self.pm2_5.wf() && self.pm2_5.window() == FAST_WINDOW
        &&& self.pm4_0.wf() && self.pm4_0.window() == FAST_WINDOW
        &&& self.pm10_0.wf() && self.pm10_0.window() == FAST_WINDOW
        &&& self.voc_index.wf() && self.voc_index.window() == MEDIUM_WINDOW
        &&& self.nox_index.wf() && self.nox_index.window() == MEDIUM_WINDOW
        &&& self.temperature.wf() && self.temperature.window() == SLOW_WINDOW
        &&& self.humidity.wf() && self.humidity.window() == SLOW_WINDOW
        &&& self.pm2_5.pushed().len() == self.pm1_0.pushed().len()
        &&& self.pm4_0.pushed().len() == self.pm1_0.pushed().len()
        &&& self.pm10_0.pushed().len() == self.pm1_0.pushed().len()
        &&& self.voc_index.pushed().len() == self.pm1_0.pushed().len()
        &&& self.nox_index.pushed().len() == self.pm1_0.pushed().len()
        &&& self.temperature.pushed().len() == self.pm1_0.pushed().len()
        &&& self.humidity.pushed().len() == self.pm1_0.pushed().len()
    }

    /// How many raw samples have been recorded.
    pub open spec fn samples_seen(self) -> nat {
        self.pm1_0.pushed().len()
    }

    /// The snapshot the current filter states yield: each metric its
    /// rolling average, absent while that metric's window is filling.
    pub open spec fn spec_snapshot(self) -> Readings {
        Readings {
            pm1_0: opt_to_i64(self.pm1_0.spec_average()),
            pm2_5: opt_to_i64(self.pm2_5.spec_average()),
            pm4_0: opt_to_i64(self.pm4_0.spec_average()),
            pm10_0: opt_to_i64(self.pm10_0.spec_average()),
            voc_index: opt_to_i64(self.voc_index.spec_average()),
            nox_index: opt_to_i64(self.nox_index.spec_average()),
            temperature: opt_to_i64(self.temperature.spec_average()),
            humidity: opt_to_i64(self.humidity.spec_average()),
        }
    }

    /// A fresh filter bank; no samples seen yet.
    pub fn new() -> (r: Filters)
        ensures
            r.wf(),
            r.samples_seen() == 0,
    {
        Filters {
            pm1_0: Hysterysiser::new(FAST_WINDOW),
            pm2_5: Hysterysiser::new(FAST_WINDOW),
            pm4_0: Hysterysiser::new(FAST_WINDOW),
            pm10_0: Hysterysiser::new(FAST_WINDOW),
            voc_index: Hysterysiser::new(MEDIUM_WINDOW),
            nox_index: Hysterysiser::new(MEDIUM_WINDOW),
            temperature: Hysterysiser::new(SLOW_WINDOW),
            humidity: Hysterysiser::new(SLOW_WINDOW),
        }
    }

    /// Record one raw sample in every metric's filter.
    pub fn push_sample(&mut self, s: &RawSample)
        requires
            old(self).wf(),
            s.in_range(),
        ensures
            final(self).wf(),
            final(self).samples_seen() == old(self).samples_seen() + 1,
            final(self).pm1_0.pushed() == old(self).pm1_0.pushed().push(s.pm1_0 as int),
            final(self).pm2_5.pushed() == old(self).pm2_5.pushed().push(s.pm2_5 as int),
            final(self).pm4_0.pushed() == old(self).pm4_0.pushed().push(s.pm4_0 as int),
            final(self).pm10_0.pushed() == old(self).pm10_0.pushed().push(s.pm10_0 as int),
            final(self).voc_index.pushed() == old(self).voc_index.pushed().push(
                s.voc_index as int,
            ),
            final(self).nox_index.pushed() == old(self).nox_index.pushed().push(
                s.nox_index as int,
            ),
            final(self).temperature.pushed() == old(self).temperature.pushed().push(
                s.temperature as int,
            ),
            final(self).humidity.pushed() == old(self).humidity.pushed().push(
                s.humidity as int,
            ),
    {
        self.pm1_0.push(s.pm1_0);
        self.pm2_5.push(s.pm2_5);
        self.pm4_0.push(s.pm4_0);
        self.pm10_0.push(s.pm10_0);
        self.voc_index.push(s.voc_index);
        self.nox_index.push(s.nox_index);
        self.temperature.push(s.temperature);
        self.humidity.push(s.humidity);
    }

    /// Assemble the current snapshot of rolling averages.
    pub fn snapshot(&self) -> (r: Readings)
        requires
            self.wf(),
        ensures
            r == self.spec_snapshot(),
    {
        Readings {
            pm1_0: self.pm1_0.average(),
            pm2_5: self.pm2_5.average(),
            pm4_0: self.pm4_0.average(),
            pm10_0: self.pm10_0.average(),
            voc_index: self.voc_index.average(),
            nox_index: self.nox_index.average(),
            temperature: self.temperature.average(),
            humidity: self.humidity.average(),
        }
    }
}

/// One bump of the consecutive-failure counter; it sticks at the top of
/// its machine range rather than wrapping.
pub open spec fn fault_step(f: nat) -> nat {
    if f < u32::MAX {
        f + 1
    } else {
        f
    }
}

/// The counter after `n` consecutive faults starting from `f`.
pub open spec fn faults_after(f: nat, n: nat) -> nat
    decreases n,
{
    if n == 0 {
        f
    } else {
        fault_step(faults_after(f, (n - 1) as nat))
    }
}

/// The acquisition state machine: the filter bank, the consecutive-
/// failure counter, and whether a failed reinitialization has made the
/// sensor irrecoverable.
pub struct Acquisition {
    pub filters: Filters,
    pub failures: u32,
    pub fatal: bool,
}

impl Acquisition {
    /// The consecutive-failure counter.
    pub open spec fn failures(self) -> nat {
        self.failures as nat
    }

    /// Whether reinitialization has failed; the only way out is a full
    /// device reset.
    pub open spec fn spec_fatal(self) -> bool {
        self.fatal
    }

    /// The filter bank is well formed.
    pub open spec fn wf(self) -> bool {
        self.filters.wf()
    }

    /// A fresh machine: no failures, not fatal, empty filters.
    pub fn new() -> (r: Acquisition)
        ensures
            r.wf(),
            r.failures() == 0,
            !r.spec_fatal(),
            r.filters.samples_seen() == 0,
    {
        Acquisition { filters: Filters::new(), failures: 0, fatal: false }
    }

    /// Whether the machine wants the sensor reinitialized before the next
    /// poll: exactly when the counter has crossed the threshold.
    pub fn needs_reinit(&self) -> (r: bool)
        ensures
            r <==> self.failures() > FAILURE_THRESHOLD,
    {
        self.failures > FAILURE_THRESHOLD
    }

    /// Whether a failed reinitialization has made the machine fatal.
    pub fn is_fatal(&self) -> (r: bool)
        ensures
            r == self.spec_fatal(),
    {
        self.fatal
    }

    /// Digest one poll of the sensor.  Not-ready and every fault class
    /// alike bump the failure counter and yield nothing.  A successful
    /// measurement resets the counter to zero, records the raw values in
    /// the rolling filters, and yields the snapshot of their averages.
    pub fn on_poll(&mut self, outcome: &PollOutcome) -> (r: Option<Readings>)
        requires
            old(self).wf(),
            !old(self).spec_fatal(),
            outcome matches PollOutcome::Sample(s) ==> s.in_range(),
        ensures
            final(self).wf(),
            !final(self).spec_fatal(),
            match outcome {
                PollOutcome::Sample(s) => {
                    &&& final(self).failures() == 0
                    &&& final(self).filters.pm1_0.pushed() == old(
                        self,
                    ).filters.pm1_0.pushed().push(s.pm1_0 as int)
                    &&& final(self).filters.pm2_5.pushed() == old(
                        self,
                    ).filters.pm2_5.pushed().push(s.pm2_5 as int)
                    &&& final(self).filters.pm4_0.pushed() == old(
                        self,
                    ).filters.pm4_0.pushed().push(s.pm4_0 as int)
                    &&& final(self).filters.pm10_0.pushed() == old(
                        self,
                    ).filters.pm10_0.pushed().push(s.pm10_0 as int)
                    &&& final(self).filters.voc_index.pushed() == old(
                        self,
                    ).filters.voc_index.pushed().push(s.voc_index as int)
                    &&& final(self).filters.nox_index.pushed() == old(
                        self,
                    ).filters.nox_index.pushed().push(s.nox_index as int)
                    &&& final(self).filters.temperature.pushed() == old(
                        self,
                    ).filters.temperature.pushed().push(s.temperature as int)
                    &&& final(self).filters.humidity.pushed() == old(
                        self,
                    ).filters.humidity.pushed().push(s.humidity as int)
                    &&& r == Some(final(self).filters.spec_snapshot())
                },
                _ => {
                    &&& final(self).failures() == fault_step(old(self).failures())
                    &&& final(self).filters == old(self).filters
                    &&& r is None
                },
            },
    {
        match outcome {
            PollOutcome::Sample(s) => {
                self.failures = 0;
                self.filters.push_sample(s);
                Some(self.filters.snapshot())
            },
            _ => {
                if self.failures < u32::MAX {
                    self.failures = self.failures + 1;
                }
                None
            },
        }
    }

    /// Digest the outcome of a reinitialization attempt: success resets
    /// the failure counter, failure is irrecoverable.
    pub fn on_reinit_result(&mut self, success: bool)
        requires
            old(self).wf(),
        ensures
            final(self).wf(),
            final(self).filters == old(self).filters,
            success ==> final(self).failures() == 0 && final(self).spec_fatal() == old(
                self,
            ).spec_fatal(),
            !success ==> final(self).spec_fatal(),
    {
        if success {
            self.failures = 0;
        } else {
            self.fatal = true;
        }
    }
}

/// Counting faults from zero, the machine calls for reinitialization
/// after exactly `FAILURE_THRESHOLD + 1` consecutive faults and not
/// after fewer; and since a successful measurement or reinitialization
/// resets the counter to zero, at most one reinitialization is asked for
/// before the counter is next reset.
pub proof fn lemma_reinit_after_threshold(n: nat)
    requires
        n <= u32::MAX,
    ensures
        faults_after(0, n) == n,
        faults_after(0, n) > FAILURE_THRESHOLD <==> n > FAILURE_THRESHOLD,
    decreases n,
{
    if n > 0 {
        lemma_reinit_after_threshold((n - 1) as nat);
    }
}

} // verus!
