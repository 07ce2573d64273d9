use audio_effects::delay_line::DelayLine;

#[test]
fn new_line_is_empty() {
    let line: DelayLine<f32> = DelayLine::new(4);
    assert_eq!(line.len(), 0);
    assert_eq!(line.max_delay(), 4);
    assert_eq!(line.read(1, 0.0), 0.0);
}

#[test]
fn length_never_exceeds_capacity() {
    let mut line: DelayLine<f32> = DelayLine::new(3);
    for i in 0..10 {
        line.write(i as f32);
        assert!(line.len() <= 3);
    }
    assert_eq!(line.len(), 3);
}

#[test]
fn oldest_sample_is_evicted_first() {
    let mut line: DelayLine<i32> = DelayLine::new(3);
    line.write(1);
    line.write(2);
    line.write(3);
    assert_eq!(line.read(3, 0), 1);
    line.write(4);
    assert_eq!(line.read(3, 0), 2);
    assert_eq!(line.read(2, 0), 3);
    assert_eq!(line.read(1, 0), 4);
    line.write(5);
    assert_eq!(line.read(3, 0), 3);
}

#[test]
fn zero_capacity_holds_nothing() {
    let mut line: DelayLine<f32> = DelayLine::new(0);
    line.write(1.0);
    assert_eq!(line.len(), 0);
    assert_eq!(line.read(1, 0.0), 0.0);
}

#[test]
fn read_behind_newest() {
    let mut line: DelayLine<f32> = DelayLine::new(8);
    line.write(0.25);
    line.write(0.5);
    line.write(0.75);
    assert_eq!(line.read(1, 0.0), 0.75);
    assert_eq!(line.read(2, 0.0), 0.5);
    assert_eq!(line.read(3, 0.0), 0.25);
}

#[test]
fn read_past_history_clamps_to_oldest() {
    let mut line: DelayLine<f32> = DelayLine::new(8);
    line.write(0.25);
    line.write(0.5);
    assert_eq!(line.read(5, 0.0), 0.25);
    assert_eq!(line.read(usize::MAX, 0.0), 0.25);
}

#[test]
fn read_of_empty_line_is_silence() {
    let line: DelayLine<f32> = DelayLine::new(8);
    assert_eq!(line.read(0, 0.0), 0.0);
    assert_eq!(line.read(100, 0.0), 0.0);
}

#[test]
fn read_zero_steps_behind_is_silence() {
    let mut line: DelayLine<f32> = DelayLine::new(8);
    line.write(0.5);
    assert_eq!(line.read(0, 0.0), 0.0);
}

#[test]
fn echo_recovers_impulse_after_delay() {
    // 48 kHz, 10 ms of delay, no feedback, fully wet; 480 samples of silence
    // already in the history.
    let delay_samples: usize = 480;
    let feedback: f32 = 0.0;
    let mut line: DelayLine<f32> = DelayLine::new(96000);
    for _ in 0..480 {
        line.write(0.0);
    }
    let input = vec![1.0f32; 1000];
    let mut output = Vec::new();
    for &sample in &input {
        let delayed = line.read(delay_samples, 0.0);
        line.write(sample + delayed * feedback);
        output.push(delayed);
    }
    assert_eq!(output.len(), 1000);
    assert_eq!(output[479], 0.0);
    assert_eq!(output[480], 1.0);
    assert_eq!(output[999], 1.0);
}
