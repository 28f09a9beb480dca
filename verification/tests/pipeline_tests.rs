use adder_viz::config::{ChannelMode, SourceConfiguration, SourceMode, ViewMode};
use adder_viz::consumption::TickPlan;
use adder_viz::event::{event_intensity, EventRecord};
use adder_viz::frame::{plane_to_bgra, FrameAccumulator};
use adder_viz::lifecycle::{ActiveSource, BuiltSource, FramedSourceInfo, SourceLifecycleController};

fn synthetic_config() -> SourceConfiguration {
    SourceConfiguration {
        scale_hundredths: 100,
        thresh_pos: 10,
        thresh_neg: 10,
        ref_time: 255,
        delta_t_max_mult: 120,
        channel_mode: ChannelMode::Mono,
        source_mode: SourceMode::FramedReconstruction,
        view_mode: ViewMode::Intensity,
        output_fps: 30,
        optimize: false,
    }
}

fn synthetic_source() -> FramedSourceInfo {
    FramedSourceInfo {
        built_config: synthetic_config(),
        width: 4,
        height: 4,
        channels: 1,
        tps: 7650,
        in_interval_count: 0,
        frame_idx_start: 0,
        thresh_pos: 10,
        thresh_neg: 10,
        delta_t_max: 120 * 255,
        view_mode: ViewMode::Intensity,
    }
}

fn ev(y: u16, x: u16, d: u8, delta_t: u32) -> EventRecord {
    EventRecord {
        y,
        x,
        c: None,
        d,
        delta_t,
    }
}

#[test]
fn one_cycle_over_a_synthetic_mono_stream() {
    // A 4 x 4 mono stream of 8 events spanning exactly one reference
    // time window of 255 ticks, consumed in one cycle.
    let ref_time = 255;
    let events = vec![
        ev(0, 0, 0, 255), // one full window at the origin
        ev(0, 1, 0, 5),
        ev(0, 2, 1, 10),
        ev(1, 1, 2, 20),
        ev(2, 2, 3, 40),
        ev(3, 3, 4, 80),
        ev(3, 0, 0, 3),
        ev(0, 1, 1, 5), // second write at (0, 1): the last value wins
    ];

    let mut controller = SourceLifecycleController::new();
    controller.rebuild(Ok(BuiltSource::Framed(synthetic_source())), "synthetic.mp4".to_owned());

    // The desired configuration still matches: the cycle consumes.
    let desired = synthetic_config();
    match controller.plan_tick(&desired) {
        TickPlan::Consume { params } => controller.apply_live_params(&params),
        other => panic!("expected a consuming cycle, got {:?}", other),
    }

    // The codec hands back one interval's worth of batches; the frame
    // accumulator plays the part of its instantaneous frame.
    let mut frame = FrameAccumulator::new(4, 4, 1);
    for e in &events {
        frame.ingest(e, ref_time);
    }
    let batch_sizes: Vec<usize> = vec![events.len()];
    controller.record_consume_success(&batch_sizes);
    let bgra = frame.snapshot_bgra();
    controller.publish_display(bgra);

    assert_eq!(controller.stats.events_total, 8);
    // Events per source second: 8 * (7650 / 255) = 240, exactly.
    assert_eq!(controller.stats.events_per_sec.num, 8 * 7650);
    assert_eq!(controller.stats.events_per_sec.den, 255);

    // The display buffer reflects the last-written value at each
    // touched coordinate.
    let display = controller.display.as_ref().unwrap();
    let pixel = |y: usize, x: usize| display[(y * 4 + x) * 4];
    assert_eq!(pixel(0, 0), event_intensity(0, 255, ref_time));
    assert_eq!(pixel(0, 1), event_intensity(1, 5, ref_time));
    assert_eq!(pixel(0, 2), event_intensity(1, 10, ref_time));
    assert_eq!(pixel(1, 1), event_intensity(2, 20, ref_time));
    assert_eq!(pixel(2, 2), event_intensity(3, 40, ref_time));
    assert_eq!(pixel(3, 3), event_intensity(4, 80, ref_time));
    assert_eq!(pixel(3, 0), event_intensity(0, 3, ref_time));
    // Untouched coordinates keep their prior value.
    assert_eq!(pixel(1, 0), 0);
    assert_eq!(pixel(2, 3), 0);
    // Every alpha byte is opaque.
    for p in 0..16 {
        assert_eq!(display[p * 4 + 3], 255);
    }

    match controller.active {
        ActiveSource::Framed(f) => assert_eq!(f.in_interval_count, 1),
        _ => panic!("expected the framed source to stay bound"),
    }
}

#[test]
fn color_plane_conversion_keeps_pixel_order() {
    let plane: Vec<u8> = vec![1, 2, 3, 4, 5, 6];
    let bgra = plane_to_bgra(&plane, 2, 1, 3);
    assert_eq!(bgra, vec![1, 2, 3, 255, 4, 5, 6, 255]);
}

#[test]
fn mono_plane_conversion_replicates_intensity() {
    let plane: Vec<u8> = vec![7, 9];
    let bgra = plane_to_bgra(&plane, 1, 2, 1);
    assert_eq!(bgra, vec![7, 7, 7, 255, 9, 9, 9, 255]);
}

#[test]
fn frame_updates_apply_positionally() {
    let mut frame = FrameAccumulator::new(2, 2, 1);
    frame.ingest(&ev(0, 0, 0, 1), 100);
    let updates: Vec<Option<u8>> = vec![None, Some(50), Some(60), None];
    frame.apply_frame_updates(&updates);
    assert_eq!(frame.byte_at(0), 100); // kept from the ingest
    assert_eq!(frame.byte_at(1), 50);
    assert_eq!(frame.byte_at(2), 60);
    assert_eq!(frame.byte_at(3), 0);
}
