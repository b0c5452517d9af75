//! Deterministic measurement model.
//!
//! There is no hardware telemetry to sample on this path, so [`measure`] stands
//! in for a live source. It is a pure function of the knob value under test:
//! frames per second, temperature and power draw rise with the value, and faults
//! appear only once the value climbs past a safe onset.
use vstd::prelude::*;

use crate::contracts::MetricSample;
use crate::reading::Reading;

verus! {

/// The single capability that the model describes.
pub const MODELED_CAPABILITY_ID: &'static str = "mock.value";

/// Steady-state frames per second at the lowest knob value.
pub const BASE_FPS: u64 = 60;

/// Component temperature in degrees Celsius at the lowest knob value.
pub const BASE_TEMPERATURE_C: u64 = 50;

/// Board power draw in watts at the lowest knob value.
pub const BASE_POWER_W: u64 = 100;

/// Knob value at or below which no correctness faults are modeled.
pub const ERROR_ONSET: u64 = 90;

/// The setting of a knob value; values beyond 32 bits are all the largest one.
pub open spec fn setting(value: u64) -> nat {
    if value > u32::MAX { u32::MAX as nat } else { value as nat }
}

/// The steady-state sample at a knob value: one frame per second, half a degree
/// and one watt more for each unit, and one error for each unit past the onset.
pub open spec fn steady(sample: MetricSample, value: u64) -> bool {
    &&& sample.fps.bits < crate::reading::SIGN_BIT
    &&& sample.fps.finite()
    &&& sample.fps.value() == (2 * (BASE_FPS + setting(value))) * crate::reading::half()
    &&& sample.temperature_c.bits < crate::reading::SIGN_BIT
    &&& sample.temperature_c.finite()
    &&& sample.temperature_c.value() == (2 * BASE_TEMPERATURE_C + setting(value)) * crate::reading::half()
    &&& sample.power_w.bits < crate::reading::SIGN_BIT
    &&& sample.power_w.finite()
    &&& sample.power_w.value() == (2 * (BASE_POWER_W + setting(value))) * crate::reading::half()
    &&& sample.errors == if value > ERROR_ONSET { value - ERROR_ONSET } else { 0 }
}

/// A measurement set of the knob value: that many steady-state samples.
pub open spec fn measured(samples: Seq<MetricSample>, value: u64, counted: nat) -> bool {
    &&& samples.len() == counted
    &&& forall|i: int| 0 <= i < samples.len() ==> steady(#[trigger] samples[i], value)
}

/// Builds the steady-state sample at a knob value.
fn sample_at(value: u64) -> (sample: MetricSample)
    ensures
        steady(sample, value),
{
    let setting: u64 = if value > 0xffff_ffff { 0xffff_ffff } else { value };
    MetricSample {
        fps: Reading::from_halves(2 * (BASE_FPS + setting)),
        temperature_c: Reading::from_halves(2 * BASE_TEMPERATURE_C + setting),
        power_w: Reading::from_halves(2 * (BASE_POWER_W + setting)),
        errors: value.saturating_sub(ERROR_ONSET),
    }
}

/// Produces `counted` steady-state samples for a knob value.
///
/// The `warmup` leading measurements are taken at a cold start and dropped, so
/// they leave no trace: the set always holds exactly `counted` steady-state
/// samples.
pub fn measure(value: u64, warmup: u32, counted: u32) -> (samples: Vec<MetricSample>)
    ensures
        measured(samples@, value, counted as nat),
{
    let sample = sample_at(value);
    let mut samples: Vec<MetricSample> = Vec::new();
    let mut i: u32 = 0;
    while i < counted
        invariant
            i <= counted,
            samples.len() == i,
            steady(sample, value),
            forall|j: int| 0 <= j < i ==> steady(#[trigger] samples[j], value),
        decreases counted - i,
    {
        samples.push(sample);
        i = i + 1;
    }
    samples
}

/// The same value always yields the same samples.
pub proof fn measurements_are_reproducible(a: Seq<MetricSample>, b: Seq<MetricSample>, value: u64, counted: nat)
    requires
        measured(a, value, counted),
        measured(b, value, counted),
    ensures
        a == b,
{
    assert forall|i: int| 0 <= i < counted implies a[i] == b[i] by {
        assert(steady(a[i], value) && steady(b[i], value));
        crate::reading::unsigned_patterns_are_unique(a[i].fps, b[i].fps);
        crate::reading::unsigned_patterns_are_unique(a[i].temperature_c, b[i].temperature_c);
        crate::reading::unsigned_patterns_are_unique(a[i].power_w, b[i].power_w);
    }
    assert(a =~= b);
}

/// A higher knob value raises frames per second, temperature and power draw.
pub proof fn higher_values_measure_higher(low: MetricSample, high: MetricSample, a: u64, b: u64)
    requires
        steady(low, a),
        steady(high, b),
        a < b <= u32::MAX,
    ensures
        high.fps.above(low.fps),
        high.temperature_c.above(low.temperature_c),
        high.power_w.above(low.power_w),
        high.errors >= low.errors,
{
    crate::reading::halves_keep_their_order((2 * (BASE_FPS + a)) as nat, (2 * (BASE_FPS + b)) as nat);
    crate::reading::halves_keep_their_order((2 * BASE_TEMPERATURE_C + a) as nat, (2 * BASE_TEMPERATURE_C + b) as nat);
    crate::reading::halves_keep_their_order((2 * (BASE_POWER_W + a)) as nat, (2 * (BASE_POWER_W + b)) as nat);
}

} // verus!
