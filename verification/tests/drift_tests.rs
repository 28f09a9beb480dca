use adder_viz::config::{ChannelMode, SourceConfiguration, SourceMode, ViewMode};
use adder_viz::drift::{detect, DriftDecision, DriftReason};

fn base_config() -> SourceConfiguration {
    SourceConfiguration {
        scale_hundredths: 50,
        thresh_pos: 10,
        thresh_neg: 10,
        ref_time: 255,
        delta_t_max_mult: 120,
        channel_mode: ChannelMode::Color,
        source_mode: SourceMode::RawDavis,
        view_mode: ViewMode::Intensity,
        output_fps: 500,
        optimize: true,
    }
}

#[test]
fn no_drift_on_identical_configurations() {
    let built = base_config();
    let desired = base_config();
    assert_eq!(detect(&built, &desired, false), DriftDecision::NoDrift);
    assert_eq!(detect(&built, &desired, true), DriftDecision::NoDrift);
}

#[test]
fn drift_detection_is_idempotent() {
    // The detector is a pure function: a second call on the same pair
    // reports the same decision.
    let built = base_config();
    let desired = base_config();
    let first = detect(&built, &desired, true);
    let second = detect(&built, &desired, true);
    assert_eq!(first, DriftDecision::NoDrift);
    assert_eq!(second, DriftDecision::NoDrift);
}

#[test]
fn scale_change_drifts() {
    let built = base_config();
    let mut desired = base_config();
    desired.scale_hundredths = 100;
    assert_eq!(
        detect(&built, &desired, false),
        DriftDecision::Drift(DriftReason::ScaleChanged)
    );
}

#[test]
fn ref_time_change_drifts() {
    let built = base_config();
    let mut desired = base_config();
    desired.ref_time = 5000;
    assert_eq!(
        detect(&built, &desired, false),
        DriftDecision::Drift(DriftReason::RefTimeChanged)
    );
}

#[test]
fn channel_mode_change_drifts() {
    let built = base_config();
    let mut desired = base_config();
    desired.channel_mode = ChannelMode::Mono;
    assert_eq!(
        detect(&built, &desired, false),
        DriftDecision::Drift(DriftReason::ChannelModeChanged)
    );
}

#[test]
fn source_mode_change_drifts() {
    let built = base_config();
    let mut desired = base_config();
    desired.source_mode = SourceMode::RawDvs;
    assert_eq!(
        detect(&built, &desired, true),
        DriftDecision::Drift(DriftReason::SourceModeChanged)
    );
}

#[test]
fn output_rate_change_drifts_only_camera_backed() {
    let built = base_config();
    let mut desired = base_config();
    desired.output_fps = 1000;
    assert_eq!(
        detect(&built, &desired, true),
        DriftDecision::Drift(DriftReason::OutputRateChanged)
    );
    // A framed source has no target output rate: no drift.
    assert_eq!(detect(&built, &desired, false), DriftDecision::NoDrift);
}

#[test]
fn threshold_and_view_mode_changes_do_not_drift() {
    let built = base_config();
    let mut desired = base_config();
    desired.thresh_pos = 40;
    desired.thresh_neg = 35;
    desired.view_mode = ViewMode::DeltaT;
    desired.delta_t_max_mult = 240;
    desired.optimize = false;
    assert_eq!(detect(&built, &desired, false), DriftDecision::NoDrift);
    assert_eq!(detect(&built, &desired, true), DriftDecision::NoDrift);
}

#[test]
fn first_reason_wins() {
    let built = base_config();
    let mut desired = base_config();
    desired.scale_hundredths = 75;
    desired.ref_time = 100;
    assert_eq!(
        detect(&built, &desired, false),
        DriftDecision::Drift(DriftReason::ScaleChanged)
    );
}

#[test]
fn default_configuration_matches_the_documented_start() {
    let c = SourceConfiguration::default();
    assert_eq!(c.scale_hundredths, 50);
    assert_eq!(c.thresh_pos, 10);
    assert_eq!(c.thresh_neg, 10);
    assert_eq!(c.ref_time, 255);
    assert_eq!(c.delta_t_max_mult, 120);
    assert_eq!(c.channel_mode, ChannelMode::Color);
    assert_eq!(c.source_mode, SourceMode::RawDavis);
    assert_eq!(c.view_mode, ViewMode::Intensity);
    assert_eq!(c.output_fps, 500);
    assert!(c.optimize);
}
