//! Configuration snapshots that sources are built from and compared
//! against.

use vstd::prelude::*;

verus! {

/// Mono or color raster layout of a source and of the frames
/// reconstructed from it.
#[derive(Clone, Copy, PartialEq, Eq, Structural, Debug)]
pub enum ChannelMode {
    Mono,
    Color,
}

impl ChannelMode {
    /// Number of bytes per pixel in a raster with this layout.
    pub open spec fn spec_channel_count(self) -> u8 {
        if self is Mono {
            1
        } else {
            3
        }
    }

    /// Number of bytes per pixel in a raster with this layout.
    pub fn channel_count(&self) -> (n: u8)
        ensures
            n == self.spec_channel_count(),
    {
        match self {
            ChannelMode::Mono => 1,
            ChannelMode::Color => 3,
        }
    }
}

/// How an event-camera source turns its input into events: framed
/// reconstruction, raw DAVIS, or raw DVS.
#[derive(Clone, Copy, PartialEq, Eq, Structural, Debug)]
pub enum SourceMode {
    FramedReconstruction,
    RawDavis,
    RawDvs,
}

impl SourceMode {
    /// Whether the camera reconstruction consumes events alone,
    /// without any intensity frames: only the raw-DVS mode does.
    pub fn events_only(&self) -> (r: bool)
        ensures
            r == (*self is RawDvs),
    {
        match self {
            SourceMode::RawDvs => true,
            _ => false,
        }
    }

    /// Whether the camera reconstruction deblurs without emitting
    /// framed output: every mode but framed reconstruction.
    pub fn deblur_only(&self) -> (r: bool)
        ensures
            r == !(*self is FramedReconstruction),
    {
        match self {
            SourceMode::FramedReconstruction => false,
            _ => true,
        }
    }
}

/// Which quantity the instantaneous frame displays.
#[derive(Clone, Copy, PartialEq, Eq, Structural, Debug)]
pub enum ViewMode {
    Intensity,
    D,
    DeltaT,
}

/// Immutable snapshot of the parameters governing a source.
///
/// One such snapshot is recorded when a source is built and later
/// compared, never mutated, against the live desired configuration to
/// decide whether the source must be rebuilt.
#[derive(Clone, Copy, PartialEq, Eq, Structural, Debug)]
pub struct SourceConfiguration {
    /// Spatial scale factor, in hundredths (100 = full resolution).
    pub scale_hundredths: u32,
    /// Positive contrast threshold.
    pub thresh_pos: u8,
    /// Negative contrast threshold.
    pub thresh_neg: u8,
    /// Reference time unit: the tick duration of one nominal output
    /// frame.
    pub ref_time: u32,
    /// Maximum delta-t, as a multiple of `ref_time`.
    pub delta_t_max_mult: u32,
    /// Mono or color.
    pub channel_mode: ChannelMode,
    /// Event-camera transcoding mode.
    pub source_mode: SourceMode,
    /// Displayed quantity; applied to a live source in place.
    pub view_mode: ViewMode,
    /// Target output frame rate for camera-backed sources.
    pub output_fps: u32,
    /// Whether the camera reconstruction optimizes its contrast
    /// threshold on the fly.
    pub optimize: bool,
}

impl Default for SourceConfiguration {
    /// The configuration the pipeline starts from: half resolution,
    /// thresholds of 10, a 255-tick reference time, a delta-t ceiling
    /// of 120 reference times, color, raw-DAVIS camera mode, the
    /// intensity view, a 500 fps camera target, and on-the-fly
    /// optimization.
    fn default() -> (r: SourceConfiguration)
        ensures
            r == (SourceConfiguration {
                scale_hundredths: 50,
                thresh_pos: 10,
                thresh_neg: 10,
                ref_time: 255,
                delta_t_max_mult: 120,
                channel_mode: ChannelMode::Color,
                source_mode: SourceMode::RawDavis,
                view_mode: ViewMode::Intensity,
                output_fps: 500,
                optimize: true,
            }),
    {
        SourceConfiguration {
            scale_hundredths: 50,
            thresh_pos: 10,
            thresh_neg: 10,
            ref_time: 255,
            delta_t_max_mult: 120,
            channel_mode: ChannelMode::Color,
            source_mode: SourceMode::RawDavis,
            view_mode: ViewMode::Intensity,
            output_fps: 500,
            optimize: true,
        }
    }
}

} // verus!
