//! The playback direction: reconstructing raster frames from a
//! previously encoded event stream, under a play/pause/stop state
//! machine with end-of-stream looping.

use crate::event::EventRecord;
use crate::frame::FrameAccumulator;
use crate::lifecycle::PlaybackSourceInfo;
use crate::stats::RunningStatistics;
use crate::timeline::{
    elapsed_seconds, frame_duration_ticks, spec_duration_text, spec_elapsed,
    spec_frame_duration_ticks, to_string, TimelineState,
};
use vstd::prelude::*;

verus! {

/// The playback state machine. Transitions are driven by explicit
/// play, pause, stop and step-back commands, plus the implicit
/// end-of-stream event.
#[derive(Clone, Copy, PartialEq, Eq, Structural, Debug)]
pub enum PlayState {
    Stopped,
    Playing,
    Paused,
}

/// How frames are reconstructed from the event stream: the fast
/// policy writes decoded events straight into one raster buffer; the
/// accurate policy delegates accumulation to a chunked framer and
/// pops complete frames from it.
#[derive(Clone, Copy, PartialEq, Eq, Structural, Debug)]
pub enum ReconstructionPolicy {
    Fast,
    Accurate,
}

/// The frame index playback starts at under a policy: the fast policy
/// begins aimed at frame one, the accurate policy at frame zero.
pub open spec fn spec_start_frame(policy: ReconstructionPolicy) -> u32 {
    if policy is Fast {
        1
    } else {
        0
    }
}

/// The engine of the playback direction: the stream's header
/// constants, the state machine, the reconstruction policy, the
/// timeline clock, the throughput statistics and the raster being
/// reconstructed.
///
/// The decoder itself is an external collaborator: the driving loop
/// decodes events outside and feeds them in, and reports seeks and
/// end-of-stream here, so every decision about state, timing and
/// pixels is taken in this engine.
pub struct PlaybackReconstructionEngine {
    /// Header-derived constants of the bound stream.
    pub source: PlaybackSourceInfo,
    /// The state machine position.
    pub state: PlayState,
    /// The reconstruction policy chosen when the engine was built; a
    /// policy switch takes effect at the next rebuild boundary.
    pub policy: ReconstructionPolicy,
    /// Whether reaching the end of the stream loops back to the start
    /// instead of stopping.
    pub looping: bool,
    /// The timeline clock: tick counter, target frame, frame duration.
    pub timeline: TimelineState,
    /// Throughput counters; reset on every restart.
    pub stats: RunningStatistics,
    /// The raster being reconstructed.
    pub frame: FrameAccumulator,
    /// Frames emitted since the last restart.
    pub emitted_frames: u64,
}

impl PlaybackReconstructionEngine {
    /// Structural soundness: the stream constants and the raster are
    /// sound and agree on the geometry.
    pub open spec fn well_formed(self) -> bool {
        &&& self.source.well_formed()
        &&& self.frame.well_formed()
        &&& self.frame.width == self.source.width
        &&& self.frame.height == self.source.height
        &&& self.frame.channels == self.source.channels
    }

    /// A fresh engine over a stream, playing from the start.
    pub fn new(
        source: PlaybackSourceInfo,
        policy: ReconstructionPolicy,
        looping: bool,
        playback_speed_hundredths: u32,
    ) -> (r: PlaybackReconstructionEngine)
        requires
            source.well_formed(),
            (source.height as int) * (source.width as int) * (source.channels as int)
                <= usize::MAX,
        ensures
            r.well_formed(),
            r.source == source,
            r.state is Playing,
            r.policy == policy,
            r.looping == looping,
            r.timeline.current_ticks == 0,
            r.timeline.current_frame == spec_start_frame(policy),
            r.timeline.ticks_per_frame == spec_frame_duration_ticks(
                source.ref_interval,
                playback_speed_hundredths,
            ),
            r.timeline.playback_speed_hundredths == playback_speed_hundredths,
            r.stats == RunningStatistics::spec_initial(),
            r.emitted_frames == 0,
            forall|i: int| 0 <= i < r.frame.data@.len() ==> r.frame.data@[i] == 0u8,
    {
        let ticks_per_frame = frame_duration_ticks(source.ref_interval, playback_speed_hundredths);
        let start_frame: u32 = match policy {
            ReconstructionPolicy::Fast => 1,
            ReconstructionPolicy::Accurate => 0,
        };
        PlaybackReconstructionEngine {
            source,
            state: PlayState::Playing,
            policy,
            looping,
            timeline: TimelineState::new(ticks_per_frame, playback_speed_hundredths, start_frame),
            stats: RunningStatistics::new(),
            frame: FrameAccumulator::new(source.width, source.height, source.channels),
            emitted_frames: 0,
        }
    }

    /// The engine after a restart of the stream: statistics cleared,
    /// the timeline rewound to tick zero and the policy's start
    /// frame, and the emitted-frame count cleared. The raster keeps
    /// its last contents, so the display holds the previous image
    /// until reconstruction overwrites it.
    pub open spec fn spec_restarted(self) -> PlaybackReconstructionEngine {
        PlaybackReconstructionEngine {
            stats: RunningStatistics::spec_initial(),
            timeline: self.timeline.spec_reset(spec_start_frame(self.policy)),
            emitted_frames: 0,
            ..self
        }
    }

    /// The engine after the reactive end-of-stream handling inside a
    /// consumption cycle: the same restart, and, when looping is off,
    /// the state machine moves to `Stopped`.
    pub open spec fn spec_after_end_of_stream(self) -> PlaybackReconstructionEngine {
        PlaybackReconstructionEngine {
            state: if self.looping {
                self.state
            } else {
                PlayState::Stopped
            },
            ..self.spec_restarted()
        }
    }

    /// Resumes playback.
    pub fn play(&mut self)
        ensures
            *final(self) == (PlaybackReconstructionEngine {
                state: PlayState::Playing,
                ..*old(self)
            }),
    {
        self.state = PlayState::Playing;
    }

    /// Pauses playback in place: nothing but the state machine moves.
    pub fn pause(&mut self)
        ensures
            *final(self) == (PlaybackReconstructionEngine {
                state: PlayState::Paused,
                ..*old(self)
            }),
    {
        self.state = PlayState::Paused;
    }

    /// Stops playback and rewinds: statistics and timeline reset as
    /// one unit.
    pub fn stop(&mut self)
        ensures
            *final(self) == (PlaybackReconstructionEngine {
                state: PlayState::Stopped,
                ..old(self).spec_restarted()
            }),
    {
        self.restart_reset();
        self.state = PlayState::Stopped;
    }

    /// Steps back to the start of the stream and keeps playing.
    pub fn step_back(&mut self)
        ensures
            *final(self) == (PlaybackReconstructionEngine {
                state: PlayState::Playing,
                ..old(self).spec_restarted()
            }),
    {
        self.restart_reset();
        self.state = PlayState::Playing;
    }

    /// Clears the statistics, the timeline and the emitted-frame
    /// count; the shared tail of every restart path.
    fn restart_reset(&mut self)
        ensures
            *final(self) == old(self).spec_restarted(),
    {
        self.stats.reset();
        let start_frame: u32 = match self.policy {
            ReconstructionPolicy::Fast => 1,
            ReconstructionPolicy::Accurate => 0,
        };
        self.timeline.reset(start_frame);
        self.emitted_frames = 0;
    }

    /// Opens one consumption cycle. Nothing proceeds unless the state
    /// machine is at `Playing`. When the driving loop reports that the
    /// decoder already stands at the start of data — some earlier
    /// actor rewound it — all statistics and timeline state are
    /// cleared before reconstruction resumes, so a proactive restart
    /// is indistinguishable from a reactive one.
    pub fn consume_begin(&mut self, at_start_of_data: bool) -> (proceed: bool)
        ensures
            proceed == old(self).state is Playing,
            !proceed ==> *final(self) == *old(self),
            (proceed && at_start_of_data) ==> *final(self) == old(self).spec_restarted(),
            (proceed && !at_start_of_data) ==> *final(self) == *old(self),
    {
        match self.state {
            PlayState::Playing => {
                if at_start_of_data {
                    self.restart_reset();
                }
                true
            },
            _ => false,
        }
    }

    /// Handles end-of-stream reached while decoding: the stream is
    /// rewound by the driving loop; here the statistics and timeline
    /// reset, and, unless looping, playback stops.
    pub fn handle_end_of_stream(&mut self)
        ensures
            *final(self) == old(self).spec_after_end_of_stream(),
    {
        let looping = self.looping;
        self.restart_reset();
        if !looping {
            self.state = PlayState::Stopped;
        }
    }

    /// Whether the fast policy has decoded past the end of the
    /// current frame, so the raster is due to be emitted.
    pub fn fast_frame_ready(&self) -> (b: bool)
        ensures
            b == self.timeline.spec_frame_boundary_reached(),
    {
        self.timeline.frame_boundary_reached()
    }

    /// Emits the current fast-policy frame: the frame index advances
    /// by one; the caller snapshots the raster for display.
    pub fn fast_complete_frame(&mut self)
        requires
            old(self).timeline.current_frame < u32::MAX,
            old(self).emitted_frames < u64::MAX,
        ensures
            *final(self) == (PlaybackReconstructionEngine {
                timeline: TimelineState {
                    current_frame: (old(self).timeline.current_frame + 1) as u32,
                    ..old(self).timeline
                },
                emitted_frames: (old(self).emitted_frames + 1) as u64,
                ..*old(self)
            }),
    {
        self.timeline.advance_frame();
        self.emitted_frames = self.emitted_frames + 1;
    }

    /// Ingests one decoded event under the fast policy: an event at
    /// the origin coordinate advances the tick counter by its
    /// delta-t, and an intensity-carrying event inside the raster
    /// writes its derived intensity at its coordinate. Control
    /// markers and out-of-range coordinates change no pixel.
    pub fn fast_ingest(&mut self, ev: &EventRecord)
        requires
            old(self).well_formed(),
            old(self).timeline.current_ticks + ev.delta_t <= u64::MAX,
        ensures
            final(self).well_formed(),
            final(self).source == old(self).source,
            final(self).state == old(self).state,
            final(self).policy == old(self).policy,
            final(self).looping == old(self).looping,
            final(self).stats == old(self).stats,
            final(self).emitted_frames == old(self).emitted_frames,
            final(self).timeline == (if ev.spec_carries_intensity() && ev.y == 0 && ev.x == 0
                && ev.spec_channel() == 0 {
                TimelineState {
                    current_ticks: (old(self).timeline.current_ticks + ev.delta_t) as u64,
                    ..old(self).timeline
                }
            } else {
                old(self).timeline
            }),
            final(self).frame.data@ == (if ev.spec_carries_intensity() && old(
                self,
            ).frame.spec_in_bounds(*ev) {
                old(self).frame.data@.update(
                    old(self).frame.spec_index_of(
                        ev.y as int,
                        ev.x as int,
                        ev.spec_channel() as int,
                    ),
                    crate::event::spec_event_intensity(
                        ev.d,
                        ev.delta_t,
                        old(self).source.ref_interval,
                    ) as u8,
                )
            } else {
                old(self).frame.data@
            }),
    {
        if ev.carries_intensity() {
            if ev.y == 0 && ev.x == 0 && ev.channel() == 0 {
                self.timeline.add_ticks(ev.delta_t);
            }
            let ref_interval = self.source.ref_interval;
            self.frame.ingest(ev, ref_interval);
        }
    }

    /// Applies one complete frame popped from the accurate policy's
    /// chunked framer: position `i` of `updates` carries either a new
    /// byte for raster position `i` or `None`, meaning no update yet,
    /// keep the previous value. The framer's reported
    /// frame-duration-in-ticks advances the clock, and the
    /// emitted-frame count steps.
    pub fn accurate_emit_frame(&mut self, updates: &Vec<Option<u8>>, ticks_per_frame: u32)
        requires
            old(self).well_formed(),
            updates@.len() == old(self).frame.data@.len(),
            old(self).timeline.current_ticks + ticks_per_frame <= u64::MAX,
            old(self).emitted_frames < u64::MAX,
        ensures
            final(self).well_formed(),
            final(self).source == old(self).source,
            final(self).state == old(self).state,
            final(self).policy == old(self).policy,
            final(self).looping == old(self).looping,
            final(self).stats == old(self).stats,
            final(self).emitted_frames == old(self).emitted_frames + 1,
            final(self).timeline == (TimelineState {
                current_ticks: (old(self).timeline.current_ticks + ticks_per_frame) as u64,
                ..old(self).timeline
            }),
            final(self).frame.data@.len() == old(self).frame.data@.len(),
            forall|i: int|
                0 <= i < final(self).frame.data@.len() ==> final(self).frame.data@[i] == (
                match updates@[i] {
                    Some(v) => v,
                    None => old(self).frame.data@[i],
                }),
    {
        self.frame.apply_frame_updates(updates);
        self.timeline.add_ticks(ticks_per_frame);
        self.emitted_frames = self.emitted_frames + 1;
    }

    /// Counts one event handed to the accurate policy's framer.
    pub fn accurate_record_ingest(&mut self)
        requires
            old(self).stats.events_total < u64::MAX,
        ensures
            *final(self) == (PlaybackReconstructionEngine {
                stats: RunningStatistics {
                    events_total: (old(self).stats.events_total + 1) as u64,
                    ..old(self).stats
                },
                ..*old(self)
            }),
    {
        self.stats.record_event();
    }

    /// Recomputes the per-second throughput rates from the cumulative
    /// count and the elapsed source time, once per cycle, for either
    /// policy.
    pub fn refresh_rates(&mut self)
        requires
            old(self).well_formed(),
        ensures
            final(self).well_formed(),
            *final(self) == (PlaybackReconstructionEngine {
                stats: old(self).stats.spec_refresh_playback(
                    old(self).timeline.current_ticks,
                    old(self).source.tps,
                    old(self).source.width,
                    old(self).source.height,
                    old(self).source.channels,
                ),
                ..*old(self)
            }),
    {
        let ticks = self.timeline.current_ticks;
        let tps = self.source.tps;
        let width = self.source.width;
        let height = self.source.height;
        let channels = self.source.channels;
        self.stats.refresh_playback(ticks, tps, width, height, channels);
    }

    /// The elapsed playback position as the text
    /// `hours:minutes:seconds.nanoseconds`.
    pub fn elapsed_text(&self) -> (r: String)
        requires
            self.well_formed(),
        ensures
            r@ == spec_duration_text(
                spec_elapsed(self.timeline.current_ticks, self.source.tps).0 as u64,
                spec_elapsed(self.timeline.current_ticks, self.source.tps).1 as u32,
            ),
    {
        let (secs, nanos) = elapsed_seconds(self.timeline.current_ticks, self.source.tps);
        to_string(secs, nanos)
    }
}

/// Loop restart symmetry: whether the end of the stream is detected
/// reactively inside a consumption cycle or proactively by the
/// read-position check at the top of the next cycle, the resulting
/// statistics and timeline state are identical.
pub proof fn lemma_loop_restart_symmetry(engine: PlaybackReconstructionEngine)
    ensures
        engine.spec_after_end_of_stream().stats == engine.spec_restarted().stats,
        engine.spec_after_end_of_stream().timeline == engine.spec_restarted().timeline,
        engine.spec_after_end_of_stream().stats == RunningStatistics::spec_initial(),
        engine.spec_after_end_of_stream().timeline.current_ticks == 0,
{
}

} // verus!
