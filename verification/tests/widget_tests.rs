use frequency::codec::{FRAME_BINS, FRAME_BYTES};
use frequency::ring::{COLS, ROWS};
use frequency::widget::{ConnectionStatus, Frequency, Props};

/// The embedding's sample-to-byte mapping: clamp into the display range,
/// normalize, scale to a byte, rounding toward zero.
fn map_sample(v: f32, min: f32, max: f32) -> u8 {
    ((v.clamp(min, max) - min) / (max - min) * 255.0) as u8
}

fn map_frame(frame: &[u32], min: f32, max: f32) -> Vec<u8> {
    frame.iter().map(|bits| map_sample(f32::from_bits(*bits), min, max)).collect()
}

fn polling_props(min: f32, max: f32) -> Props {
    Props { url: String::new(), min_bits: min.to_bits(), max_bits: max.to_bits() }
}

fn streaming_props(min: f32, max: f32) -> Props {
    Props { url: String::from("ws://localhost:9000/data"), min_bits: min.to_bits(), max_bits: max.to_bits() }
}

fn message_of_floats(values: &[f32]) -> Vec<u8> {
    let mut bytes = Vec::with_capacity(values.len() * 4);
    for v in values {
        bytes.extend_from_slice(&v.to_bits().to_le_bytes());
    }
    bytes
}

#[test]
fn create_selects_intake_mode_from_url() {
    let polling = Frequency::create(polling_props(-100.0, 0.0));
    assert!(!polling.is_streaming());
    let streaming = Frequency::create(streaming_props(-100.0, 0.0));
    assert!(streaming.is_streaming());
    assert_eq!(streaming.url().as_str(), "ws://localhost:9000/data");
    assert_eq!(f32::from_bits(streaming.min_bits()), -100.0);
    assert_eq!(f32::from_bits(streaming.max_bits()), 0.0);
}

#[test]
fn create_starts_zeroed() {
    let w = Frequency::create(polling_props(-100.0, 0.0));
    assert_eq!(w.write_offset(), 0);
    assert!(w.latest_frame().iter().all(|b| *b == 0));
    for r in 0..ROWS {
        assert!(w.ring_row(r).iter().all(|b| *b == 0));
    }
}

#[test]
fn polling_gates_on_mode_and_lifecycle() {
    let mut w = Frequency::create(polling_props(-100.0, 0.0));
    assert!(!w.needs_poll());
    assert!(w.rendered(true));
    assert!(w.needs_poll());
    let mut s = Frequency::create(streaming_props(-100.0, 0.0));
    assert!(s.rendered(true));
    assert!(!s.needs_poll());
}

#[test]
fn first_render_schedules_exactly_once() {
    let mut w = Frequency::create(polling_props(-100.0, 0.0));
    assert!(w.rendered(true));
    assert!(!w.rendered(true));
    assert!(!w.rendered(false));
}

#[test]
fn write_offset_cycles_with_period_of_the_row_count() {
    let mut w = Frequency::create(polling_props(0.0, 255.0));
    assert!(w.rendered(true));
    let marker = vec![9u8; COLS];
    for k in 0..ROWS {
        assert_eq!(w.write_offset(), k % ROWS);
        let step = w.render_tick(&marker).expect("full row must tick");
        assert!(step.wrote);
        assert_eq!(step.row_index, k % ROWS);
        assert!(step.reschedule);
    }
    // A full cycle later the offset is back at its initial value...
    assert_eq!(w.write_offset(), 0);
    // ...and the next write overwrites the same row as the first one did.
    let second_marker = vec![33u8; COLS];
    let step = w.render_tick(&second_marker).expect("full row must tick");
    assert_eq!(step.row_index, 0);
    assert_eq!(w.ring_row(0)[0], 33);
    assert_eq!(w.ring_row(1)[0], 9);
}

#[test]
fn last_binary_message_wins_between_ticks() {
    let mut w = Frequency::create(streaming_props(0.0, 2047.0));
    assert!(w.rendered(true));
    let first: Vec<f32> = (0..FRAME_BINS).map(|_| 1.0).collect();
    let second: Vec<f32> = (0..FRAME_BINS).map(|i| i as f32).collect();
    assert!(!w.handle_data(Ok(message_of_floats(&first))));
    assert!(!w.handle_data(Ok(message_of_floats(&second))));
    // Only the second message's data is held for the next tick.
    let held = w.latest_frame().clone();
    for (i, bits) in held.iter().enumerate() {
        assert_eq!(f32::from_bits(*bits), i as f32);
    }
    let row = map_frame(&held, 0.0, 2047.0);
    let step = w.render_tick(&row).expect("full row must tick");
    assert!(step.wrote);
    assert_eq!(w.ring_row(step.row_index)[0], map_sample(0.0, 0.0, 2047.0));
    assert_eq!(w.ring_row(step.row_index)[2047], map_sample(2047.0, 0.0, 2047.0));
}

#[test]
fn quiet_gap_keeps_frame_and_rendered_row() {
    let mut w = Frequency::create(streaming_props(0.0, 255.0));
    assert!(w.rendered(true));
    let message: Vec<f32> = (0..FRAME_BINS).map(|i| (i % 256) as f32).collect();
    assert!(!w.handle_data(Ok(message_of_floats(&message))));
    let row = map_frame(w.latest_frame(), 0.0, 255.0);
    let step1 = w.render_tick(&row).expect("full row must tick");
    // No message arrives before the next tick: the held frame is unchanged
    // and the next tick writes the next row, leaving the rendered one alone.
    let row2 = map_frame(w.latest_frame(), 0.0, 255.0);
    assert_eq!(row, row2);
    let step2 = w.render_tick(&row2).expect("full row must tick");
    assert_eq!(step2.row_index, step1.row_index + 1);
    assert_eq!(w.ring_row(step1.row_index).as_slice(), row.as_slice());
}

#[test]
fn transport_errors_and_bad_sizes_keep_the_previous_frame() {
    let mut w = Frequency::create(streaming_props(0.0, 255.0));
    assert!(w.rendered(true));
    let good: Vec<f32> = (0..FRAME_BINS).map(|_| 7.0).collect();
    assert!(!w.handle_data(Ok(message_of_floats(&good))));
    let held = w.latest_frame().clone();
    // A transport error is dropped.
    assert!(!w.handle_data(Err(String::from("connection reset"))));
    assert_eq!(w.latest_frame(), &held);
    // So is a message of any wrong size, deterministically, each time.
    for len in [0usize, FRAME_BYTES - 4, FRAME_BYTES - 1, FRAME_BYTES + 1] {
        assert!(!w.handle_data(Ok(vec![1u8; len])));
        assert_eq!(w.latest_frame(), &held);
    }
}

#[test]
fn malformed_polled_frame_is_rejected_whole() {
    let mut w = Frequency::create(polling_props(0.0, 255.0));
    assert!(w.rendered(true));
    for len in [FRAME_BINS - 1, FRAME_BINS + 1] {
        let r = w.poll(vec![0u32; len]);
        assert!(r.is_err());
        assert!(w.latest_frame().iter().all(|b| *b == 0));
    }
    assert!(w.poll(vec![42u32; FRAME_BINS]).is_ok());
    assert!(w.latest_frame().iter().all(|b| *b == 42));
}

#[test]
fn malformed_row_is_never_partially_written() {
    let mut w = Frequency::create(polling_props(0.0, 255.0));
    assert!(w.rendered(true));
    for len in [0usize, COLS - 1, COLS + 1] {
        let before = w.write_offset();
        assert!(w.render_tick(&vec![5u8; len]).is_err());
        assert_eq!(w.write_offset(), before);
        assert!(w.ring_row(before).iter().all(|b| *b == 0));
    }
}

#[test]
fn status_changes_are_observed_only() {
    let w = Frequency::create(streaming_props(0.0, 255.0));
    assert!(!w.handle_status(ConnectionStatus::Opened));
    assert!(!w.handle_status(ConnectionStatus::Error));
    assert!(!w.handle_status(ConnectionStatus::Closed));
}

#[test]
fn constant_polled_vector_renders_half_scale_stably() {
    // Polling mode, display range [-100, 0], accessor pinned at -50: every
    // bin maps to the same mid-scale byte, stable frame over frame.
    let mut w = Frequency::create(polling_props(-100.0, 0.0));
    assert!(w.rendered(true));
    let mut first_row: Option<Vec<u8>> = None;
    for _ in 0..3 {
        assert!(w.needs_poll());
        let samples: Vec<u32> = (0..FRAME_BINS).map(|_| (-50.0f32).to_bits()).collect();
        w.poll(samples).expect("full frame must be accepted");
        let row = map_frame(w.latest_frame(), -100.0, 0.0);
        let step = w.render_tick(&row).expect("full row must tick");
        assert!(step.wrote);
        let written = w.ring_row(step.row_index);
        assert_eq!(written.len(), COLS);
        let expected = (0.5f32 * 255.0) as u8;
        assert!(written.iter().all(|b| *b == expected));
        match &first_row {
            None => first_row = Some(written.clone()),
            Some(prev) => assert_eq!(prev.as_slice(), written.as_slice()),
        }
    }
}

#[test]
fn increasing_stream_renders_monotone_row() {
    // Streaming mode: one message of increasing floats from the display
    // minimum to its maximum maps to a row that climbs from 0 to 255.
    let (min, max) = (-100.0f32, 0.0f32);
    let mut w = Frequency::create(streaming_props(min, max));
    assert!(w.rendered(true));
    let values: Vec<f32> =
        (0..FRAME_BINS).map(|i| min + (max - min) * i as f32 / (FRAME_BINS - 1) as f32).collect();
    let message = message_of_floats(&values);
    assert_eq!(message.len(), FRAME_BYTES);
    assert!(!w.handle_data(Ok(message)));
    let row = map_frame(w.latest_frame(), min, max);
    let step = w.render_tick(&row).expect("full row must tick");
    let written = w.ring_row(step.row_index);
    assert_eq!(written[0], 0);
    assert_eq!(written[COLS - 1], 255);
    for i in 1..COLS {
        assert!(written[i - 1] <= written[i]);
    }
}

#[test]
fn teardown_closes_connection_and_stops_the_loop() {
    let mut w = Frequency::create(streaming_props(0.0, 255.0));
    assert!(w.rendered(true));
    let row = vec![1u8; COLS];
    let step = w.render_tick(&row).expect("full row must tick");
    assert!(step.reschedule);
    // Teardown mid-stream: the open connection must be closed...
    assert!(w.destroy());
    // ...and a late tick writes nothing and schedules nothing further.
    let offset_before = w.write_offset();
    let late = w.render_tick(&row).expect("a late tick is a no-op");
    assert!(!late.wrote);
    assert!(!late.reschedule);
    assert_eq!(w.write_offset(), offset_before);
    // A polling-mode widget holds no connection to close.
    let mut p = Frequency::create(polling_props(0.0, 255.0));
    assert!(!p.destroy());
}

#[test]
fn change_adopts_only_different_props() {
    let mut w = Frequency::create(streaming_props(-100.0, 0.0));
    let same = streaming_props(-100.0, 0.0);
    assert!(!w.change(same));
    let different = streaming_props(-80.0, 20.0);
    assert!(w.change(different));
    assert_eq!(f32::from_bits(w.min_bits()), -80.0);
    assert_eq!(f32::from_bits(w.max_bits()), 20.0);
    // The intake mode is fixed at creation; a change keeps it even when the
    // endpoint address itself changes.
    assert!(w.change(polling_props(-80.0, 20.0)));
    assert_eq!(w.url().as_str(), "");
    assert!(w.is_streaming());
}

#[test]
fn mapping_edges_hit_the_scale_ends() {
    // The display bounds themselves map to the ends of the byte scale, and
    // out-of-range samples clamp to them.
    let mut w = Frequency::create(polling_props(-100.0, 0.0));
    assert!(w.rendered(true));
    let mut values = vec![0.0f32; FRAME_BINS];
    values[0] = -100.0;
    values[1] = 0.0;
    values[2] = -250.0;
    values[3] = 75.0;
    let samples: Vec<u32> = values.iter().map(|v| v.to_bits()).collect();
    w.poll(samples).expect("full frame must be accepted");
    let row = map_frame(w.latest_frame(), -100.0, 0.0);
    let step = w.render_tick(&row).expect("full row must tick");
    let written = w.ring_row(step.row_index);
    assert_eq!(written[0], 0);
    assert_eq!(written[1], 255);
    assert_eq!(written[2], 0);
    assert_eq!(written[3], 255);
}
