use frontend_im::audio::{
    JsAudioSink, AUDIO_QUANTUM_MICROS, BYTES_PER_SAMPLE, BYTES_PER_SECOND, MAX_HOST_BUFFER_BYTES,
};

#[test]
fn deployment_config_is_used() {
    let sink = JsAudioSink::new();
    assert_eq!(sink.max_buffer_bytes, MAX_HOST_BUFFER_BYTES);
    assert_eq!(sink.bytes_per_second, BYTES_PER_SECOND);
    assert_eq!(sink.quantum_micros, AUDIO_QUANTUM_MICROS);
}

#[test]
fn frame_byte_len_scales_by_sample_width() {
    let sink = JsAudioSink::new();
    assert_eq!(sink.frame_byte_len(0), 0);
    assert_eq!(sink.frame_byte_len(1024), 1024 * BYTES_PER_SAMPLE);
}

#[test]
fn occupancy_below_threshold_sends_without_sleep() {
    let sink = JsAudioSink::new();
    let frame = 1024 * BYTES_PER_SAMPLE;
    let max_fill = (MAX_HOST_BUFFER_BYTES - frame) as i32;
    // Any reading at or below the threshold proceeds immediately.
    assert_eq!(sink.wait_decision(0, frame), None);
    assert_eq!(sink.wait_decision(max_fill - 1, frame), None);
    assert_eq!(sink.wait_decision(max_fill, frame), None);
}

#[test]
fn occupancy_at_or_above_threshold_sleeps_within_quantum() {
    let sink = JsAudioSink::new();
    let frame = 1024 * BYTES_PER_SAMPLE;
    let max_fill = (MAX_HOST_BUFFER_BYTES - frame) as i32;
    for occupancy in [max_fill + 1, max_fill + 100, i32::MAX] {
        let wait = sink.wait_decision(occupancy, frame);
        let micros = wait.expect("a reading above the threshold must sleep");
        assert!(micros <= AUDIO_QUANTUM_MICROS);
    }
}

#[test]
fn negative_occupancy_sends_immediately() {
    let sink = JsAudioSink::new();
    for occupancy in [-1, -100, i32::MIN] {
        assert_eq!(sink.wait_decision(occupancy, 0), None);
        assert_eq!(sink.wait_decision(occupancy, usize::MAX), None);
    }
}

#[test]
fn sleep_estimate_is_scaled_drain_time() {
    // With a drain rate of 100 bytes per second, an excess of 10 bytes is a
    // 100_000 microsecond drain estimate, scaled to 75_000 by the safety
    // factor; a generous quantum leaves it unclamped.
    let sink = JsAudioSink::with_config(1000, 100, 1_000_000);
    assert_eq!(sink.wait_decision(1000, 10), Some(75_000));
    // A small quantum clamps the same estimate.
    let clamped = JsAudioSink::with_config(1000, 100, 50);
    assert_eq!(clamped.wait_decision(1000, 10), Some(50));
}

#[test]
fn oversized_frame_leaves_no_headroom() {
    // A frame larger than the whole buffer makes any non-negative reading
    // excessive.
    let sink = JsAudioSink::with_config(1000, 100, 50);
    assert!(sink.wait_decision(1, 2000).is_some());
    assert_eq!(sink.wait_decision(0, 2000), None);
}
