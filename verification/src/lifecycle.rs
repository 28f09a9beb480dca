//! The source lifecycle: at most one active source at a time, rebuilt
//! on configuration drift or on explicit request, with the statistics
//! and the timeline always reset as part of the same transition.

use crate::config::{SourceConfiguration, ViewMode};
use crate::stats::RunningStatistics;
use crate::timeline::TimelineState;
use vstd::prelude::*;
use vstd::string::StringSliceAdditionalSpecFns;

verus! {

/// Why constructing a source failed. Every failure leaves the system
/// in the explicit no-source state with the failure message surfaced;
/// none aborts the process.
#[derive(Clone, Copy, PartialEq, Eq, Structural, Debug)]
pub enum ConstructionError {
    /// The path carries no recognized extension.
    InvalidFileType,
    /// The path has no parent directory to read from.
    MissingDirectory,
    /// The stream header did not decode.
    HeaderMismatch,
    /// The stream declares a channel count the raster cannot hold.
    UnsupportedChannelCount,
}

impl ConstructionError {
    /// The human-readable message that replaces the displayed source
    /// name after a failed rebuild.
    pub open spec fn spec_message(self) -> Seq<char> {
        match self {
            ConstructionError::InvalidFileType => "Invalid file type"@,
            ConstructionError::MissingDirectory => "File must be in some directory"@,
            ConstructionError::HeaderMismatch => "Invalid header"@,
            ConstructionError::UnsupportedChannelCount => "Bad number of channels"@,
        }
    }

    /// The human-readable message that replaces the displayed source
    /// name after a failed rebuild.
    pub fn message(&self) -> (r: String)
        ensures
            r@ == self.spec_message(),
    {
        match self {
            ConstructionError::InvalidFileType => "Invalid file type".to_owned(),
            ConstructionError::MissingDirectory => "File must be in some directory".to_owned(),
            ConstructionError::HeaderMismatch => "Invalid header".to_owned(),
            ConstructionError::UnsupportedChannelCount => "Bad number of channels".to_owned(),
        }
    }
}

/// What kind of source a path names, by its extension.
#[derive(Clone, Copy, PartialEq, Eq, Structural, Debug)]
pub enum SourceKind {
    /// A conventional framed video, transcoded into events.
    FramedVideo,
    /// An event-camera capture, transcoded into events.
    EventCamera,
    /// A previously encoded event stream, played back.
    EncodedPlayback,
}

/// Whether `s` ends with `suffix`, with at least one byte before it.
pub open spec fn spec_ends_with(s: Seq<u8>, suffix: Seq<u8>) -> bool {
    &&& s.len() > suffix.len()
    &&& s.subrange(s.len() - suffix.len(), s.len() as int) == suffix
}

/// The UTF-8 bytes of ".mp4".
pub open spec fn spec_mp4_suffix() -> Seq<u8> {
    seq![46u8, 109u8, 112u8, 52u8]
}

/// The UTF-8 bytes of ".aedat4".
pub open spec fn spec_aedat4_suffix() -> Seq<u8> {
    seq![46u8, 97u8, 101u8, 100u8, 97u8, 116u8, 52u8]
}

/// The UTF-8 bytes of ".adder".
pub open spec fn spec_adder_suffix() -> Seq<u8> {
    seq![46u8, 97u8, 100u8, 100u8, 101u8, 114u8]
}

/// The kind of source a file name denotes: framed video for ".mp4",
/// event camera for ".aedat4", encoded playback for ".adder"; any
/// other name is rejected as an invalid file type.
pub open spec fn spec_classify(name_bytes: Seq<u8>) -> Result<SourceKind, ConstructionError> {
    if spec_ends_with(name_bytes, spec_mp4_suffix()) {
        Ok(SourceKind::FramedVideo)
    } else if spec_ends_with(name_bytes, spec_aedat4_suffix()) {
        Ok(SourceKind::EventCamera)
    } else if spec_ends_with(name_bytes, spec_adder_suffix()) {
        Ok(SourceKind::EncodedPlayback)
    } else {
        Err(ConstructionError::InvalidFileType)
    }
}

/// Whether `bytes` ends with `suffix`, with at least one byte before
/// it.
fn ends_with(bytes: &[u8], suffix: &[u8]) -> (r: bool)
    ensures
        r == spec_ends_with(bytes@, suffix@),
{
    let n = bytes.len();
    let m = suffix.len();
    if n <= m {
        return false;
    }
    let mut i: usize = 0;
    while i < m
        invariant
            0 <= i <= m,
            m < n,
            n == bytes@.len(),
            m == suffix@.len(),
            forall|j: int| 0 <= j < i ==> bytes@[n - m + j] == suffix@[j],
        decreases m - i,
    {
        if bytes[n - m + i] != suffix[i] {
            return false;
        }
        i = i + 1;
    }
    proof {
        assert(bytes@.subrange(n - m, n as int) =~= suffix@);
    }
    true
}

/// Classifies a file name by its extension, as the construction of a
/// source does: ".mp4" names a framed video, ".aedat4" an event
/// camera capture, ".adder" an encoded event stream; anything else is
/// an invalid file type.
pub fn classify_path(name: &str) -> (r: Result<SourceKind, ConstructionError>)
    ensures
        r == spec_classify(name.spec_bytes()),
{
    let bytes = name.as_bytes();
    let mut mp4: Vec<u8> = Vec::new();
    mp4.push(46);
    mp4.push(109);
    mp4.push(112);
    mp4.push(52);
    proof {
        assert(mp4@ =~= spec_mp4_suffix());
    }
    if ends_with(bytes, mp4.as_slice()) {
        return Ok(SourceKind::FramedVideo);
    }
    let mut aedat4: Vec<u8> = Vec::new();
    aedat4.push(46);
    aedat4.push(97);
    aedat4.push(101);
    aedat4.push(100);
    aedat4.push(97);
    aedat4.push(116);
    aedat4.push(52);
    proof {
        assert(aedat4@ =~= spec_aedat4_suffix());
    }
    if ends_with(bytes, aedat4.as_slice()) {
        return Ok(SourceKind::EventCamera);
    }
    let mut adder: Vec<u8> = Vec::new();
    adder.push(46);
    adder.push(97);
    adder.push(100);
    adder.push(100);
    adder.push(101);
    adder.push(114);
    proof {
        assert(adder@ =~= spec_adder_suffix());
    }
    if ends_with(bytes, adder.as_slice()) {
        return Ok(SourceKind::EncodedPlayback);
    }
    Err(ConstructionError::InvalidFileType)
}

/// The bound framed-video source of the transcode direction: the
/// configuration snapshot it was built with, its raster geometry and
/// clock, its interval position, and the parameters that are updated
/// in place without a rebuild.
#[derive(Clone, Copy, PartialEq, Eq, Structural, Debug)]
pub struct FramedSourceInfo {
    /// The snapshot recorded when the source was built; the drift
    /// baseline.
    pub built_config: SourceConfiguration,
    pub width: u16,
    pub height: u16,
    /// Bytes per pixel: 1 (mono) or 3 (color).
    pub channels: u8,
    /// Ticks per second of source time.
    pub tps: u32,
    /// Input intervals consumed so far.
    pub in_interval_count: u32,
    /// The frame index the source was built to start at.
    pub frame_idx_start: u32,
    /// Positive contrast threshold, updated in place.
    pub thresh_pos: u8,
    /// Negative contrast threshold, updated in place.
    pub thresh_neg: u8,
    /// Maximum delta-t in ticks, updated in place.
    pub delta_t_max: u32,
    /// Displayed quantity, updated in place.
    pub view_mode: ViewMode,
}

impl FramedSourceInfo {
    /// Structural soundness of a bound framed source.
    pub open spec fn well_formed(self) -> bool {
        &&& self.width >= 1
        &&& self.height >= 1
        &&& (self.channels == 1 || self.channels == 3)
        &&& self.tps >= 1
        &&& self.built_config.ref_time >= 1
        &&& self.in_interval_count + self.frame_idx_start <= u32::MAX
    }
}

/// The bound event-camera source of the transcode direction. Camera
/// sources cannot seek, so they carry no interval position: a rebuild
/// always resumes from position zero.
#[derive(Clone, Copy, PartialEq, Eq, Structural, Debug)]
pub struct CameraSourceInfo {
    /// The snapshot recorded when the source was built; the drift
    /// baseline.
    pub built_config: SourceConfiguration,
    pub width: u16,
    pub height: u16,
    /// Bytes per pixel: 1 (mono) or 3 (color).
    pub channels: u8,
    /// Ticks per second of source time.
    pub tps: u32,
    /// Positive contrast threshold, updated in place.
    pub thresh_pos: u8,
    /// Negative contrast threshold, updated in place.
    pub thresh_neg: u8,
    /// Maximum delta-t in ticks, updated in place.
    pub delta_t_max: u32,
    /// Displayed quantity, updated in place.
    pub view_mode: ViewMode,
    /// Whether the reconstruction optimizes its contrast threshold on
    /// the fly, updated in place.
    pub optimize: bool,
}

impl CameraSourceInfo {
    /// Structural soundness of a bound event-camera source.
    pub open spec fn well_formed(self) -> bool {
        &&& self.width >= 1
        &&& self.height >= 1
        &&& (self.channels == 1 || self.channels == 3)
        &&& self.tps >= 1
        &&& self.built_config.ref_time >= 1
    }
}

/// The header-derived constants of an encoded event stream bound for
/// playback.
#[derive(Clone, Copy, PartialEq, Eq, Structural, Debug)]
pub struct PlaybackSourceInfo {
    pub width: u16,
    pub height: u16,
    /// Bytes per pixel: 1 (mono) or 3 (color).
    pub channels: u8,
    /// Ticks per second of source time.
    pub tps: u32,
    /// The tick duration of one nominal source frame.
    pub ref_interval: u32,
}

impl PlaybackSourceInfo {
    /// Structural soundness of a bound playback stream.
    pub open spec fn well_formed(self) -> bool {
        &&& self.width >= 1
        &&& self.height >= 1
        &&& (self.channels == 1 || self.channels == 3)
        &&& self.tps >= 1
        &&& self.ref_interval >= 1
    }
}

/// The one active source: nothing, a framed video, an event camera,
/// or an encoded stream under playback. The sum type makes the
/// invariant that at most one variant is populated structural.
#[derive(Clone, Copy, PartialEq, Eq, Structural, Debug)]
pub enum ActiveSource {
    /// The explicit no-source state.
    Empty,
    Framed(FramedSourceInfo),
    EventCamera(CameraSourceInfo),
    Playback(PlaybackSourceInfo),
}

impl ActiveSource {
    /// How many source variants are populated: zero for the empty
    /// state, one otherwise.
    pub open spec fn spec_populated_count(self) -> int {
        if self is Empty {
            0
        } else {
            1
        }
    }

    /// Structural soundness of whatever is bound.
    pub open spec fn well_formed(self) -> bool {
        match self {
            ActiveSource::Empty => true,
            ActiveSource::Framed(f) => f.well_formed(),
            ActiveSource::EventCamera(c) => c.well_formed(),
            ActiveSource::Playback(p) => p.well_formed(),
        }
    }
}

/// At most one source variant is ever populated: the count is zero
/// exactly in the empty state and one in every other.
pub proof fn lemma_at_most_one_source(active: ActiveSource)
    ensures
        0 <= active.spec_populated_count() <= 1,
        active.spec_populated_count() == 0 <==> active is Empty,
{
}

/// A successfully constructed source, as the construction boundary
/// hands it back.
#[derive(Clone, Copy, PartialEq, Eq, Structural, Debug)]
pub enum BuiltSource {
    Framed(FramedSourceInfo),
    EventCamera(CameraSourceInfo),
    Playback(PlaybackSourceInfo),
}

impl BuiltSource {
    /// Structural soundness of a construction result.
    pub open spec fn well_formed(self) -> bool {
        match self {
            BuiltSource::Framed(f) => f.well_formed(),
            BuiltSource::EventCamera(c) => c.well_formed(),
            BuiltSource::Playback(p) => p.well_formed(),
        }
    }

    /// The active source a construction result binds.
    pub open spec fn spec_bind(self) -> ActiveSource {
        match self {
            BuiltSource::Framed(f) => ActiveSource::Framed(f),
            BuiltSource::EventCamera(c) => ActiveSource::EventCamera(c),
            BuiltSource::Playback(p) => ActiveSource::Playback(p),
        }
    }
}

/// The orchestrator that owns the active source and the state that
/// must live and die with it: the throughput statistics, the timeline
/// clock, the displayed source label and the published display
/// buffer. It is the exclusive writer of the active source.
pub struct SourceLifecycleController {
    /// The one active source.
    pub active: ActiveSource,
    /// Throughput counters; reset on every rebuild.
    pub stats: RunningStatistics,
    /// Timeline clock; reset on every rebuild.
    pub timeline: TimelineState,
    /// The displayed source name, or the failure message of the last
    /// failed rebuild.
    pub source_label: String,
    /// The published display buffer, alpha-bearing, if the current
    /// source has produced one.
    pub display: Option<Vec<u8>>,
}

impl SourceLifecycleController {
    /// Structural soundness: whatever source is bound is sound.
    pub open spec fn well_formed(self) -> bool {
        self.active.well_formed()
    }

    /// A fresh controller with no source bound.
    pub fn new() -> (r: SourceLifecycleController)
        ensures
            r.active is Empty,
            r.stats == RunningStatistics::spec_initial(),
            r.timeline.current_ticks == 0,
            r.timeline.current_frame == 0,
            r.source_label@ == "No file selected yet"@,
            r.display is None,
            r.well_formed(),
    {
        SourceLifecycleController {
            active: ActiveSource::Empty,
            stats: RunningStatistics::new(),
            timeline: TimelineState::new(0, 100, 0),
            source_label: "No file selected yet".to_owned(),
            display: None,
        }
    }

    /// Replaces the active source with the outcome of one construction
    /// attempt, resetting the statistics and the timeline either way,
    /// so stale numbers are never shown for a source that failed to
    /// build.
    ///
    /// On success the new source is bound, its configuration snapshot
    /// becomes the drift baseline, and `name` becomes the displayed
    /// label. On failure no source is left bound and the failure
    /// message replaces the label.
    pub fn rebuild(&mut self, outcome: Result<BuiltSource, ConstructionError>, name: String)
        requires
            (outcome matches Ok(b) ==> b.well_formed()),
        ensures
            final(self).stats == RunningStatistics::spec_initial(),
            final(self).timeline == old(self).timeline.spec_reset(0),
            final(self).timeline.current_ticks == 0,
            final(self).display is None,
            (match outcome {
                Ok(b) => final(self).active == b.spec_bind() && final(self).source_label@
                    == name@,
                Err(e) => final(self).active is Empty && final(self).source_label@
                    == e.spec_message(),
            }),
            final(self).active.spec_populated_count() <= 1,
            final(self).well_formed(),
    {
        self.stats.reset();
        self.timeline.reset(0);
        self.display = None;
        match outcome {
            Ok(built) => {
                self.active = match built {
                    BuiltSource::Framed(f) => ActiveSource::Framed(f),
                    BuiltSource::EventCamera(c) => ActiveSource::EventCamera(c),
                    BuiltSource::Playback(p) => ActiveSource::Playback(p),
                };
                self.source_label = name;
            },
            Err(e) => {
                self.active = ActiveSource::Empty;
                self.source_label = e.message();
            },
        }
    }

    /// The frame index a rebuild of the current source resumes at:
    /// framed sources resume where they stand, camera and playback
    /// sources cannot seek and resume from zero.
    pub fn resume_frame_index(&self) -> (r: u32)
        requires
            self.well_formed(),
        ensures
            r == (match self.active {
                ActiveSource::Framed(f) => f.in_interval_count + f.frame_idx_start,
                _ => 0,
            }),
    {
        match &self.active {
            ActiveSource::Framed(f) => f.in_interval_count + f.frame_idx_start,
            _ => 0,
        }
    }
}


/// Validates the header constants of an encoded stream before
/// playback binds it: a stream whose raster is degenerate, whose
/// clock is zero or whose reference interval is zero has a broken
/// header, and a channel count other than one or three cannot be held
/// in a raster.
pub fn validate_playback_header(
    width: u16,
    height: u16,
    channels: u8,
    tps: u32,
    ref_interval: u32,
) -> (r: Result<PlaybackSourceInfo, ConstructionError>)
    ensures
        (r matches Ok(p)) <==> (width >= 1 && height >= 1 && (channels == 1 || channels == 3)
            && tps >= 1 && ref_interval >= 1),
        (r matches Ok(p) ==> p == (PlaybackSourceInfo {
            width,
            height,
            channels,
            tps,
            ref_interval,
        }) && p.well_formed()),
        (r matches Err(e) ==> (if channels != 1 && channels != 3 {
            e is UnsupportedChannelCount
        } else {
            e is HeaderMismatch
        })),
{
    if channels != 1 && channels != 3 {
        return Err(ConstructionError::UnsupportedChannelCount);
    }
    if width < 1 || height < 1 || tps < 1 || ref_interval < 1 {
        return Err(ConstructionError::HeaderMismatch);
    }
    Ok(PlaybackSourceInfo { width, height, channels, tps, ref_interval })
}

} // verus!

