use adder_viz::event::{event_intensity, EventRecord};
use adder_viz::lifecycle::PlaybackSourceInfo;
use adder_viz::playback::{PlayState, PlaybackReconstructionEngine, ReconstructionPolicy};
use adder_viz::stats::{Rate, RunningStatistics};

fn mono_2x2() -> PlaybackSourceInfo {
    PlaybackSourceInfo {
        width: 2,
        height: 2,
        channels: 1,
        tps: 1000,
        ref_interval: 100,
    }
}

fn ev(y: u16, x: u16, d: u8, delta_t: u32) -> EventRecord {
    EventRecord {
        y,
        x,
        c: None,
        d,
        delta_t,
    }
}

#[test]
fn intensity_derivation() {
    // 2^d * ref_time / delta_t, clamped to a byte.
    assert_eq!(event_intensity(0, 10, 100), 10);
    assert_eq!(event_intensity(1, 1, 100), 200);
    assert_eq!(event_intensity(3, 4, 50), 100);
    // Saturation upward and on a zero delta-t.
    assert_eq!(event_intensity(8, 1, 100), 255);
    assert_eq!(event_intensity(200, 4_000_000_000, 1), 255);
    assert_eq!(event_intensity(0, 0, 7), 255);
}

#[test]
fn fast_policy_writes_pixels() {
    // A synthetic 2 x 2 mono stream with two events at distinct
    // coordinates whose codes map to intensities 10 and 200.
    let mut e = PlaybackReconstructionEngine::new(
        mono_2x2(),
        ReconstructionPolicy::Fast,
        true,
        100,
    );
    e.fast_ingest(&ev(0, 1, 0, 10)); // intensity 10
    e.fast_ingest(&ev(1, 0, 1, 1)); // intensity 200
    assert_eq!(e.frame.pixel_at(0, 1, 0), 10);
    assert_eq!(e.frame.pixel_at(1, 0, 0), 200);
    // Untouched pixels retain their prior value.
    assert_eq!(e.frame.pixel_at(0, 0, 0), 0);
    assert_eq!(e.frame.pixel_at(1, 1, 0), 0);
}

#[test]
fn fast_policy_ignores_control_markers_and_stray_coordinates() {
    let mut e = PlaybackReconstructionEngine::new(
        mono_2x2(),
        ReconstructionPolicy::Fast,
        true,
        100,
    );
    // 0xFF is a control marker, not an intensity.
    e.fast_ingest(&ev(0, 0, 0xFF, 50));
    assert_eq!(e.timeline.current_ticks, 0);
    assert_eq!(e.frame.pixel_at(0, 0, 0), 0);
    // A coordinate outside the raster changes nothing.
    e.fast_ingest(&ev(5, 5, 0, 10));
    for y in 0..2 {
        for x in 0..2 {
            assert_eq!(e.frame.pixel_at(y, x, 0), 0);
        }
    }
}

#[test]
fn ticks_advance_on_origin_events_only() {
    let mut e = PlaybackReconstructionEngine::new(
        mono_2x2(),
        ReconstructionPolicy::Fast,
        true,
        100,
    );
    e.fast_ingest(&ev(0, 1, 0, 40));
    assert_eq!(e.timeline.current_ticks, 0);
    e.fast_ingest(&ev(0, 0, 0, 40));
    assert_eq!(e.timeline.current_ticks, 40);
    e.fast_ingest(&ev(0, 0, 0, 70));
    assert_eq!(e.timeline.current_ticks, 110);
}

#[test]
fn fast_frame_boundary_and_emission() {
    // Frame duration: 100 ticks at real time; the fast policy starts
    // aimed at frame one.
    let mut e = PlaybackReconstructionEngine::new(
        mono_2x2(),
        ReconstructionPolicy::Fast,
        true,
        100,
    );
    assert!(!e.fast_frame_ready());
    e.fast_ingest(&ev(0, 0, 0, 101));
    assert!(e.fast_frame_ready());
    e.fast_complete_frame();
    assert_eq!(e.timeline.current_frame, 2);
    assert_eq!(e.emitted_frames, 1);
    assert!(!e.fast_frame_ready());
}

#[test]
fn end_of_stream_stops_unless_looping() {
    let mut looping = PlaybackReconstructionEngine::new(
        mono_2x2(),
        ReconstructionPolicy::Fast,
        true,
        100,
    );
    looping.fast_ingest(&ev(0, 0, 0, 42));
    looping.handle_end_of_stream();
    assert_eq!(looping.state, PlayState::Playing);
    assert_eq!(looping.timeline.current_ticks, 0);

    let mut once = PlaybackReconstructionEngine::new(
        mono_2x2(),
        ReconstructionPolicy::Fast,
        false,
        100,
    );
    once.fast_ingest(&ev(0, 0, 0, 42));
    once.handle_end_of_stream();
    assert_eq!(once.state, PlayState::Stopped);
    assert_eq!(once.timeline.current_ticks, 0);
}

#[test]
fn loop_restart_symmetry_scenario() {
    // Drive two identical engines through the same activity, then
    // restart one reactively (end-of-stream inside the cycle) and one
    // proactively (read position found at the start of data at the
    // top of the next cycle): statistics and timeline come out
    // identical.
    let drive = |e: &mut PlaybackReconstructionEngine| {
        e.accurate_record_ingest();
        e.accurate_record_ingest();
        e.fast_ingest(&ev(0, 0, 0, 130));
        e.refresh_rates();
        e.fast_complete_frame();
    };
    let mut reactive = PlaybackReconstructionEngine::new(
        mono_2x2(),
        ReconstructionPolicy::Fast,
        true,
        100,
    );
    let mut proactive = PlaybackReconstructionEngine::new(
        mono_2x2(),
        ReconstructionPolicy::Fast,
        true,
        100,
    );
    drive(&mut reactive);
    drive(&mut proactive);

    reactive.handle_end_of_stream();
    assert!(proactive.consume_begin(true));

    assert_eq!(reactive.stats, proactive.stats);
    assert_eq!(reactive.timeline, proactive.timeline);
    assert_eq!(reactive.stats, RunningStatistics::new());
    assert_eq!(reactive.timeline.current_ticks, 0);
    assert_eq!(reactive.emitted_frames, proactive.emitted_frames);
}

#[test]
fn consume_begin_only_proceeds_when_playing() {
    let mut e = PlaybackReconstructionEngine::new(
        mono_2x2(),
        ReconstructionPolicy::Fast,
        true,
        100,
    );
    e.pause();
    assert!(!e.consume_begin(false));
    e.play();
    assert!(e.consume_begin(false));
    e.stop();
    assert!(!e.consume_begin(false));
}

#[test]
fn stop_and_step_back_rewind_as_one_unit() {
    let mut e = PlaybackReconstructionEngine::new(
        mono_2x2(),
        ReconstructionPolicy::Fast,
        true,
        100,
    );
    e.fast_ingest(&ev(0, 0, 0, 130));
    e.accurate_record_ingest();
    e.stop();
    assert_eq!(e.state, PlayState::Stopped);
    assert_eq!(e.stats, RunningStatistics::new());
    assert_eq!(e.timeline.current_ticks, 0);
    assert_eq!(e.timeline.current_frame, 1);

    e.fast_ingest(&ev(0, 0, 0, 130));
    e.step_back();
    assert_eq!(e.state, PlayState::Playing);
    assert_eq!(e.timeline.current_ticks, 0);
}

#[test]
fn accurate_policy_pops_frames_with_holes() {
    let mut e = PlaybackReconstructionEngine::new(
        mono_2x2(),
        ReconstructionPolicy::Accurate,
        true,
        100,
    );
    assert_eq!(e.timeline.current_frame, 0);
    let first: Vec<Option<u8>> = vec![Some(9), Some(8), Some(7), Some(6)];
    e.accurate_emit_frame(&first, 100);
    assert_eq!(e.timeline.current_ticks, 100);
    assert_eq!(e.emitted_frames, 1);
    // A None entry keeps the previous value of its position.
    let second: Vec<Option<u8>> = vec![None, Some(88), None, Some(66)];
    e.accurate_emit_frame(&second, 100);
    assert_eq!(e.frame.pixel_at(0, 0, 0), 9);
    assert_eq!(e.frame.pixel_at(0, 1, 0), 88);
    assert_eq!(e.frame.pixel_at(1, 0, 0), 7);
    assert_eq!(e.frame.pixel_at(1, 1, 0), 66);
    assert_eq!(e.timeline.current_ticks, 200);
    assert_eq!(e.emitted_frames, 2);
}

#[test]
fn rates_refresh_from_elapsed_source_time() {
    let mut e = PlaybackReconstructionEngine::new(
        mono_2x2(),
        ReconstructionPolicy::Accurate,
        true,
        100,
    );
    for _ in 0..8 {
        e.accurate_record_ingest();
    }
    // 2000 ticks at 1000 ticks per second: two whole seconds.
    let updates: Vec<Option<u8>> = vec![None; 4];
    e.accurate_emit_frame(&updates, 2000);
    e.refresh_rates();
    assert_eq!(e.stats.events_total, 8);
    assert_eq!(e.stats.events_per_sec, Rate { num: 8, den: 2 });
    assert_eq!(e.stats.events_ppc_total, Rate { num: 8, den: 4 });
    assert_eq!(e.stats.events_ppc_per_sec, Rate { num: 8, den: 8 });
}

#[test]
fn elapsed_text_renders_the_position() {
    let mut e = PlaybackReconstructionEngine::new(
        mono_2x2(),
        ReconstructionPolicy::Accurate,
        true,
        100,
    );
    let updates: Vec<Option<u8>> = vec![None; 4];
    e.accurate_emit_frame(&updates, 2500);
    assert_eq!(e.elapsed_text(), "0:0:2.500000000");
}

#[test]
fn snapshot_expands_mono_to_bgra() {
    let mut e = PlaybackReconstructionEngine::new(
        mono_2x2(),
        ReconstructionPolicy::Fast,
        true,
        100,
    );
    e.fast_ingest(&ev(0, 1, 0, 10)); // intensity 10
    let bgra = e.frame.snapshot_bgra();
    assert_eq!(bgra.len(), 2 * 2 * 4);
    assert_eq!(&bgra[0..4], &[0, 0, 0, 255]);
    assert_eq!(&bgra[4..8], &[10, 10, 10, 255]);
}
