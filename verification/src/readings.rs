//! One measurement cycle's smoothed output, and its health classification.

use vstd::prelude::*;

verus! {

/// One snapshot of the eight smoothed metrics.  Each value is a
/// fixed-point number in thousandths of a unit, or absent while that
/// metric's rolling window is still filling.
#[derive(Clone, Copy, Debug, PartialEq, Eq)]
pub struct Readings {
    /// Particulate mass concentration, 1.0 um cutoff, milli-ug/m3.
    pub pm1_0: Option<i64>,
    /// Particulate mass concentration, 2.5 um cutoff, milli-ug/m3.
    pub pm2_5: Option<i64>,
    /// Particulate mass concentration, 4.0 um cutoff, milli-ug/m3.
    pub pm4_0: Option<i64>,
    /// Particulate mass concentration, 10.0 um cutoff, milli-ug/m3.
    pub pm10_0: Option<i64>,
    /// Volatile-organic-compound index, milli-points.
    pub voc_index: Option<i64>,
    /// Nitrous-oxide index, milli-points.
    pub nox_index: Option<i64>,
    /// Temperature, milli-degrees Celsius.
    pub temperature: Option<i64>,
    /// Relative humidity, milli-percent.
    pub humidity: Option<i64>,
}

/// A vague health indicator for the overall readings.
#[derive(Clone, Copy, Debug, PartialEq, Eq, Structural)]
pub enum Health {
    Okay,
    Warning,
    Dangerous,
}

/// Warning threshold for the four particulate metrics, milli-ug/m3.
pub const PM_WARNING: i64 = 25_000;

/// Danger threshold for the four particulate metrics, milli-ug/m3.
pub const PM_DANGER: i64 = 100_000;

/// Warning threshold for the volatile-organic-compound index, milli-points.
pub const VOC_WARNING: i64 = 225_000;

/// Danger threshold for the volatile-organic-compound index, milli-points.
pub const VOC_DANGER: i64 = 400_000;

/// Warning threshold for the nitrous-oxide index, milli-points.
pub const NOX_WARNING: i64 = 2_500;

/// Danger threshold for the nitrous-oxide index, milli-points.
pub const NOX_DANGER: i64 = 5_000;

/// Whether a present metric value lies strictly above a threshold; an
/// absent value never does.
pub open spec fn exceeds(v: Option<i64>, threshold: i64) -> bool {
    v matches Some(x) && x > threshold
}

/// Whether any of the six air-quality metrics lies above its danger
/// threshold.  Temperature and humidity carry no severity.
pub open spec fn any_dangerous(r: Readings) -> bool {
    ||| exceeds(r.pm1_0, PM_DANGER)
    ||| exceeds(r.pm2_5, PM_DANGER)
    ||| exceeds(r.pm4_0, PM_DANGER)
    ||| exceeds(r.pm10_0, PM_DANGER)
    ||| exceeds(r.voc_index, VOC_DANGER)
    ||| exceeds(r.nox_index, NOX_DANGER)
}

/// Whether any of the six air-quality metrics lies above its warning
/// threshold.
pub open spec fn any_warning(r: Readings) -> bool {
    ||| exceeds(r.pm1_0, PM_WARNING)
    ||| exceeds(r.pm2_5, PM_WARNING)
    ||| exceeds(r.pm4_0, PM_WARNING)
    ||| exceeds(r.pm10_0, PM_WARNING)
    ||| exceeds(r.voc_index, VOC_WARNING)
    ||| exceeds(r.nox_index, NOX_WARNING)
}

/// The health tier of a snapshot: the maximum severity across the six
/// air-quality metrics.  An absent metric contributes no severity, so a
/// snapshot with gaps defaults toward `Okay`.
pub open spec fn spec_health(r: Readings) -> Health {
    if any_dangerous(r) {
        Health::Dangerous
    } else if any_warning(r) {
        Health::Warning
    } else {
        Health::Okay
    }
}

/// Whether a present value lies strictly above `threshold`.
fn over_threshold(v: &Option<i64>, threshold: i64) -> (r: bool)
    ensures
        r == exceeds(*v, threshold),
{
    match v {
        Some(x) => *x > threshold,
        None => false,
    }
}

impl Readings {
    /// A snapshot with every metric absent.
    pub fn empty() -> (r: Readings)
        ensures
            r.pm1_0 is None,
            r.pm2_5 is None,
            r.pm4_0 is None,
            r.pm10_0 is None,
            r.voc_index is None,
            r.nox_index is None,
            r.temperature is None,
            r.humidity is None,
    {
        Readings {
            pm1_0: None,
            pm2_5: None,
            pm4_0: None,
            pm10_0: None,
            voc_index: None,
            nox_index: None,
            temperature: None,
            humidity: None,
        }
    }

    /// Classify the snapshot into its health tier: `Dangerous` if any
    /// air-quality metric lies above its danger threshold, else `Warning`
    /// if any lies above its warning threshold, else `Okay`.
    pub fn health(&self) -> (r: Health)
        ensures
            r == spec_health(*self),
    {
        if over_threshold(&self.pm1_0, PM_DANGER) || over_threshold(&self.pm2_5, PM_DANGER)
            || over_threshold(&self.pm4_0, PM_DANGER) || over_threshold(&self.pm10_0, PM_DANGER)
            || over_threshold(&self.voc_index, VOC_DANGER) || over_threshold(
            &self.nox_index,
            NOX_DANGER,
        ) {
            return Health::Dangerous;
        }
        if over_threshold(&self.pm1_0, PM_WARNING) || over_threshold(&self.pm2_5, PM_WARNING)
            || over_threshold(&self.pm4_0, PM_WARNING) || over_threshold(&self.pm10_0, PM_WARNING)
            || over_threshold(&self.voc_index, VOC_WARNING) || over_threshold(
            &self.nox_index,
            NOX_WARNING,
        ) {
            return Health::Warning;
        }
        Health::Okay
    }
}

/// Pushing any single air-quality metric past its danger threshold makes
/// the tier `Dangerous`, whatever the other metrics hold.
pub proof fn lemma_danger_dominates(r: Readings)
    requires
        any_dangerous(r),
    ensures
        spec_health(r) == Health::Dangerous,
{
}

/// A snapshot whose six air-quality metrics all sit at or below their
/// warning thresholds is classified `Okay`; because each danger threshold
/// lies strictly above its warning threshold, no metric can then be
/// dangerous either.
pub proof fn lemma_calm_is_ok(r: Readings)
    requires
        !exceeds(r.pm1_0, PM_WARNING),
        !exceeds(r.pm2_5, PM_WARNING),
        !exceeds(r.pm4_0, PM_WARNING),
        !exceeds(r.pm10_0, PM_WARNING),
        !exceeds(r.voc_index, VOC_WARNING),
        !exceeds(r.nox_index, NOX_WARNING),
    ensures
        spec_health(r) == Health::Okay,
{
}

} // verus!
