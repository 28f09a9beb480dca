//! Drift detection: the pure comparison between the configuration a
//! source was built with and the configuration currently desired.

use crate::config::SourceConfiguration;
use vstd::prelude::*;

verus! {

/// Why a source must be rebuilt.
#[derive(Clone, Copy, PartialEq, Eq, Structural, Debug)]
pub enum DriftReason {
    ScaleChanged,
    RefTimeChanged,
    ChannelModeChanged,
    SourceModeChanged,
    OutputRateChanged,
}

/// The outcome of one drift check: either the active source still
/// matches the desired configuration, or it has drifted and must be
/// rebuilt for the stated reason.
#[derive(Clone, Copy, PartialEq, Eq, Structural, Debug)]
pub enum DriftDecision {
    NoDrift,
    Drift(DriftReason),
}

/// Whether a source built with `built` has drifted away from the
/// desired configuration: the spatial scale, the reference time, the
/// channel mode or the source mode changed, or, for a camera-backed
/// source, the target output rate changed. Threshold, delta-t
/// multiplier and view-mode changes never drift: they are applied to
/// the live source in place.
pub open spec fn spec_drifted(
    built: SourceConfiguration,
    desired: SourceConfiguration,
    camera_backed: bool,
) -> bool {
    ||| built.scale_hundredths != desired.scale_hundredths
    ||| built.ref_time != desired.ref_time
    ||| built.channel_mode != desired.channel_mode
    ||| built.source_mode != desired.source_mode
    ||| (camera_backed && built.output_fps != desired.output_fps)
}

/// The decision of one drift check, with the first applicable reason
/// in the order scale, reference time, channel mode, source mode,
/// output rate.
pub open spec fn spec_detect(
    built: SourceConfiguration,
    desired: SourceConfiguration,
    camera_backed: bool,
) -> DriftDecision {
    if built.scale_hundredths != desired.scale_hundredths {
        DriftDecision::Drift(DriftReason::ScaleChanged)
    } else if built.ref_time != desired.ref_time {
        DriftDecision::Drift(DriftReason::RefTimeChanged)
    } else if built.channel_mode != desired.channel_mode {
        DriftDecision::Drift(DriftReason::ChannelModeChanged)
    } else if built.source_mode != desired.source_mode {
        DriftDecision::Drift(DriftReason::SourceModeChanged)
    } else if camera_backed && built.output_fps != desired.output_fps {
        DriftDecision::Drift(DriftReason::OutputRateChanged)
    } else {
        DriftDecision::NoDrift
    }
}

/// Compares the configuration a source was built with against the
/// desired one. Pure: it reads nothing but its arguments and changes
/// nothing.
pub fn detect(
    built: &SourceConfiguration,
    desired: &SourceConfiguration,
    camera_backed: bool,
) -> (r: DriftDecision)
    ensures
        r == spec_detect(*built, *desired, camera_backed),
        r is NoDrift <==> !spec_drifted(*built, *desired, camera_backed),
{
    if built.scale_hundredths != desired.scale_hundredths {
        DriftDecision::Drift(DriftReason::ScaleChanged)
    } else if built.ref_time != desired.ref_time {
        DriftDecision::Drift(DriftReason::RefTimeChanged)
    } else if built.channel_mode != desired.channel_mode {
        DriftDecision::Drift(DriftReason::ChannelModeChanged)
    } else if built.source_mode != desired.source_mode {
        DriftDecision::Drift(DriftReason::SourceModeChanged)
    } else if camera_backed && built.output_fps != desired.output_fps {
        DriftDecision::Drift(DriftReason::OutputRateChanged)
    } else {
        DriftDecision::NoDrift
    }
}

/// Drift detection is idempotent: it is a function of the two
/// configurations alone, with no hidden state, so when one check of a
/// pair reports no drift, every later check of the same pair reports
/// no drift again.
pub proof fn lemma_drift_detection_idempotent(
    built: SourceConfiguration,
    desired: SourceConfiguration,
    camera_backed: bool,
    first: DriftDecision,
    second: DriftDecision,
)
    requires
        first == spec_detect(built, desired, camera_backed),
        second == spec_detect(built, desired, camera_backed),
        first is NoDrift,
    ensures
        second is NoDrift,
{
}

/// A live parameter update never drifts: when the two configurations
/// agree on everything except possibly the thresholds, the delta-t
/// multiplier, the view mode and the optimize flag, the detector
/// reports no drift, so no statistics or timeline reset follows.
pub proof fn lemma_live_update_keeps_no_drift(
    built: SourceConfiguration,
    desired: SourceConfiguration,
    camera_backed: bool,
)
    requires
        built.scale_hundredths == desired.scale_hundredths,
        built.ref_time == desired.ref_time,
        built.channel_mode == desired.channel_mode,
        built.source_mode == desired.source_mode,
        built.output_fps == desired.output_fps,
    ensures
        spec_detect(built, desired, camera_backed) is NoDrift,
{
}

} // verus!
