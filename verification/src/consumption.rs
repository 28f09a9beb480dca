//! The per-cycle consumption loop of the transcode direction: decide
//! whether to rebuild, apply in-place parameter updates, record one
//! consumed interval, and publish the reconstructed frame.

use crate::config::{SourceConfiguration, ViewMode};
use crate::drift::{detect, spec_detect, DriftDecision};
use crate::lifecycle::{ActiveSource, SourceLifecycleController};
use crate::stats::spec_batch_total;
use vstd::prelude::*;

verus! {

/// The parameters a live source takes in place, without a rebuild:
/// the contrast thresholds, the maximum delta-t, the view mode, and
/// the optimize flag of camera reconstructions.
#[derive(Clone, Copy, PartialEq, Eq, Structural, Debug)]
pub struct LiveParams {
    pub thresh_pos: u8,
    pub thresh_neg: u8,
    /// Maximum delta-t in ticks: the configured multiplier times the
    /// reference time.
    pub delta_t_max: u32,
    pub view_mode: ViewMode,
    pub optimize: bool,
}

/// The in-place parameters a desired configuration calls for.
pub open spec fn spec_live_params(desired: SourceConfiguration) -> LiveParams {
    LiveParams {
        thresh_pos: desired.thresh_pos,
        thresh_neg: desired.thresh_neg,
        delta_t_max: (desired.delta_t_max_mult * desired.ref_time) as u32,
        view_mode: desired.view_mode,
        optimize: desired.optimize,
    }
}

/// What one consumption cycle is to do, decided before any work: run
/// no work without a consumable source, rebuild on drift, and
/// otherwise update parameters in place and consume one interval.
#[derive(Clone, Copy, PartialEq, Eq, Structural, Debug)]
pub enum TickPlan {
    /// No framed or camera source is bound: the cycle is a no-op.
    NoSource,
    /// The desired configuration has drifted from the source's
    /// baseline: rebuild, resuming at this frame index, and produce no
    /// frame this cycle.
    Rebuild { resume_frame: u32 },
    /// The baseline still matches: apply these in-place parameters,
    /// then consume one interval.
    Consume { params: LiveParams },
}

/// Why one consumption call produced no batch.
#[derive(Clone, Copy, PartialEq, Eq, Structural, Debug)]
pub enum ConsumeError {
    /// The source is not yet open; transient.
    NotYetOpen,
    /// The clean end of the stream.
    EndOfStream,
    /// Malformed data or an internal decoder fault.
    Fault,
}

/// What the loop does after a failed consumption call.
#[derive(Clone, Copy, PartialEq, Eq, Structural, Debug)]
pub enum ConsumeFollowUp {
    /// Transient: leave everything as it is and try again next cycle.
    Retry,
    /// Treat the cycle as the end of the clip and rebuild the source
    /// from frame zero.
    RestartFromStart,
}

/// The plan of one cycle on the current controller state and desired
/// configuration.
pub open spec fn spec_plan_tick(
    controller: SourceLifecycleController,
    desired: SourceConfiguration,
) -> TickPlan {
    match controller.active {
        ActiveSource::Framed(f) => {
            if spec_detect(f.built_config, desired, false) is Drift {
                TickPlan::Rebuild {
                    resume_frame: (f.in_interval_count + f.frame_idx_start) as u32,
                }
            } else {
                TickPlan::Consume { params: spec_live_params(desired) }
            }
        },
        ActiveSource::EventCamera(c) => {
            if spec_detect(c.built_config, desired, true) is Drift {
                TickPlan::Rebuild { resume_frame: 0 }
            } else {
                TickPlan::Consume { params: spec_live_params(desired) }
            }
        },
        _ => TickPlan::NoSource,
    }
}

impl SourceLifecycleController {
    /// Decides one consumption cycle: a no-op without a consumable
    /// source, a rebuild when the desired configuration has drifted
    /// from the source's baseline (framed sources resume where they
    /// stand, camera sources from zero), and otherwise an in-place
    /// update followed by one consumed interval.
    pub fn plan_tick(&self, desired: &SourceConfiguration) -> (r: TickPlan)
        requires
            self.well_formed(),
            desired.delta_t_max_mult * desired.ref_time <= u32::MAX,
        ensures
            r == spec_plan_tick(*self, *desired),
    {
        match &self.active {
            ActiveSource::Framed(f) => {
                match detect(&f.built_config, desired, false) {
                    DriftDecision::Drift(_) => TickPlan::Rebuild {
                        resume_frame: f.in_interval_count + f.frame_idx_start,
                    },
                    DriftDecision::NoDrift => TickPlan::Consume {
                        params: LiveParams {
                            thresh_pos: desired.thresh_pos,
                            thresh_neg: desired.thresh_neg,
                            delta_t_max: desired.delta_t_max_mult * desired.ref_time,
                            view_mode: desired.view_mode,
                            optimize: desired.optimize,
                        },
                    },
                }
            },
            ActiveSource::EventCamera(c) => {
                match detect(&c.built_config, desired, true) {
                    DriftDecision::Drift(_) => TickPlan::Rebuild { resume_frame: 0 },
                    DriftDecision::NoDrift => TickPlan::Consume {
                        params: LiveParams {
                            thresh_pos: desired.thresh_pos,
                            thresh_neg: desired.thresh_neg,
                            delta_t_max: desired.delta_t_max_mult * desired.ref_time,
                            view_mode: desired.view_mode,
                            optimize: desired.optimize,
                        },
                    },
                }
            },
            _ => TickPlan::NoSource,
        }
    }

    /// Applies in-place parameters to the bound source's record. The
    /// statistics, the timeline, the label, the display buffer and
    /// the drift baseline are untouched: a live update never resets
    /// dependent state.
    pub fn apply_live_params(&mut self, params: &LiveParams)
        requires
            old(self).well_formed(),
        ensures
            final(self).well_formed(),
            final(self).stats == old(self).stats,
            final(self).timeline == old(self).timeline,
            final(self).source_label == old(self).source_label,
            final(self).display == old(self).display,
            (match old(self).active {
                ActiveSource::Framed(f) => final(self).active == ActiveSource::Framed(
                    crate::lifecycle::FramedSourceInfo {
                        thresh_pos: params.thresh_pos,
                        thresh_neg: params.thresh_neg,
                        delta_t_max: params.delta_t_max,
                        view_mode: params.view_mode,
                        ..f
                    },
                ),
                ActiveSource::EventCamera(c) => final(self).active == ActiveSource::EventCamera(
                    crate::lifecycle::CameraSourceInfo {
                        thresh_pos: params.thresh_pos,
                        thresh_neg: params.thresh_neg,
                        delta_t_max: params.delta_t_max,
                        view_mode: params.view_mode,
                        optimize: params.optimize,
                        ..c
                    },
                ),
                _ => final(self).active == old(self).active,
            }),
    {
        match &mut self.active {
            ActiveSource::Framed(f) => {
                f.thresh_pos = params.thresh_pos;
                f.thresh_neg = params.thresh_neg;
                f.delta_t_max = params.delta_t_max;
                f.view_mode = params.view_mode;
            },
            ActiveSource::EventCamera(c) => {
                c.thresh_pos = params.thresh_pos;
                c.thresh_neg = params.thresh_neg;
                c.delta_t_max = params.delta_t_max;
                c.view_mode = params.view_mode;
                c.optimize = params.optimize;
            },
            _ => {},
        }
    }

    /// Records one successfully consumed interval: every batch length
    /// feeds the throughput statistics against the source's clock and
    /// raster, and a framed source steps its interval position.
    pub fn record_consume_success(&mut self, batch_sizes: &Vec<usize>)
        requires
            old(self).well_formed(),
            old(self).active is Framed || old(self).active is EventCamera,
            old(self).stats.events_total + spec_batch_total(batch_sizes@) <= u64::MAX,
            (old(self).active matches ActiveSource::Framed(f) ==> f.in_interval_count + 1
                + f.frame_idx_start <= u32::MAX),
        ensures
            final(self).well_formed(),
            final(self).timeline == old(self).timeline,
            final(self).source_label == old(self).source_label,
            final(self).display == old(self).display,
            (match old(self).active {
                ActiveSource::Framed(f) => {
                    &&& final(self).stats == old(self).stats.spec_record_batch(
                        batch_sizes@,
                        f.tps,
                        f.built_config.ref_time,
                        f.width,
                        f.height,
                        f.channels,
                    )
                    &&& final(self).active == ActiveSource::Framed(
                        crate::lifecycle::FramedSourceInfo {
                            in_interval_count: (f.in_interval_count + 1) as u32,
                            ..f
                        },
                    )
                },
                ActiveSource::EventCamera(c) => {
                    &&& final(self).stats == old(self).stats.spec_record_batch(
                        batch_sizes@,
                        c.tps,
                        c.built_config.ref_time,
                        c.width,
                        c.height,
                        c.channels,
                    )
                    &&& final(self).active == old(self).active
                },
                _ => false,
            }),
    {
        match &self.active {
            ActiveSource::Framed(f) => {
                let tps = f.tps;
                let ref_time = f.built_config.ref_time;
                let width = f.width;
                let height = f.height;
                let channels = f.channels;
                self.stats.record_batch(batch_sizes, tps, ref_time, width, height, channels);
                match &mut self.active {
                    ActiveSource::Framed(g) => {
                        g.in_interval_count = g.in_interval_count + 1;
                    },
                    _ => {},
                }
            },
            ActiveSource::EventCamera(c) => {
                let tps = c.tps;
                let ref_time = c.built_config.ref_time;
                let width = c.width;
                let height = c.height;
                let channels = c.channels;
                self.stats.record_batch(batch_sizes, tps, ref_time, width, height, channels);
            },
            _ => {},
        }
    }

    /// Publishes an alpha-bearing raster as the new display buffer.
    pub fn publish_display(&mut self, bgra: Vec<u8>)
        ensures
            final(self).active == old(self).active,
            final(self).stats == old(self).stats,
            final(self).timeline == old(self).timeline,
            final(self).source_label == old(self).source_label,
            (final(self).display matches Some(v) && v@ == bgra@),
            final(self).well_formed() == old(self).well_formed(),
    {
        self.display = Some(bgra);
    }
}

/// The follow-up one failed consumption call demands: a transient
/// not-yet-open source is retried next cycle; the clean end of the
/// stream and a decoder fault are both treated as the end of the clip
/// and restart the source from frame zero. Conflating the fault with
/// the clean end is a deliberate policy of this pipeline.
pub fn plan_consume_error(err: &ConsumeError) -> (r: ConsumeFollowUp)
    ensures
        (r is Retry <==> *err is NotYetOpen),
        (r is RestartFromStart <==> (*err is EndOfStream || *err is Fault)),
{
    match err {
        ConsumeError::NotYetOpen => ConsumeFollowUp::Retry,
        ConsumeError::EndOfStream => ConsumeFollowUp::RestartFromStart,
        ConsumeError::Fault => ConsumeFollowUp::RestartFromStart,
    }
}

} // verus!
