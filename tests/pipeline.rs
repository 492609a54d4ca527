use pitch_overlay::decoder::{argmax, local_window, ActivationVector, InferenceError, Peak};
use pitch_overlay::fbits::{le, nan, total_order_key, NAN_BITS};
use pitch_overlay::filter::{accepts, confident, display_value, AcceptancePolicy, FrameAverager, Prediction};
use pitch_overlay::frames::FrameAssembler;
use pitch_overlay::session::{PitchPoint, PitchSession};
use pitch_overlay::{ACTIVATION_BINS, SAMPLES_PER_STEP};

fn bits(values: &[f32]) -> Vec<u32> {
    values.iter().map(|v| v.to_bits()).collect()
}

fn policy(threshold: f32, min_hz: f32, max_hz: f32) -> AcceptancePolicy {
    AcceptancePolicy {
        confidence_threshold: threshold.to_bits(),
        min_hz: min_hz.to_bits(),
        max_hz: max_hz.to_bits(),
    }
}

fn prediction(frequency: f32, confidence: f32) -> Prediction {
    Prediction { frequency: frequency.to_bits(), confidence: confidence.to_bits() }
}

fn activation(values: &[f32]) -> ActivationVector {
    match ActivationVector::new(bits(values)) {
        Ok(a) => a,
        Err(e) => panic!("refused: {:?}", e),
    }
}

#[test]
fn float_comparison_follows_ieee() {
    assert!(le(1.0f32.to_bits(), 2.0f32.to_bits()));
    assert!(!le(2.0f32.to_bits(), 1.0f32.to_bits()));
    assert!(le((-3.0f32).to_bits(), (-2.5f32).to_bits()));
    assert!(le((-1.0f32).to_bits(), 0.5f32.to_bits()));
    assert!(le((-0.0f32).to_bits(), 0.0f32.to_bits()));
    assert!(le(0.0f32.to_bits(), (-0.0f32).to_bits()));
    assert!(le(7.0f32.to_bits(), 7.0f32.to_bits()));
    assert!(!le(f32::NAN.to_bits(), 1.0f32.to_bits()));
    assert!(!le(1.0f32.to_bits(), f32::NAN.to_bits()));
    assert!(le(1.0e30f32.to_bits(), f32::INFINITY.to_bits()));
    assert!(nan(NAN_BITS));
    assert!(f32::from_bits(NAN_BITS).is_nan());
    assert!(!nan(f32::INFINITY.to_bits()));
}

#[test]
fn total_order_matches_total_cmp() {
    let values = [
        f32::NEG_INFINITY, -2.0, -1.0, -1.0e-40, -0.0, 0.0, 1.0e-40, 0.5, 1.0, f32::INFINITY,
        f32::NAN, -f32::NAN,
    ];
    for a in values.iter() {
        for b in values.iter() {
            let keys = total_order_key(a.to_bits()).cmp(&total_order_key(b.to_bits()));
            assert_eq!(keys, a.total_cmp(b));
        }
    }
}

#[test]
fn short_chunk_is_buffered() {
    let mut assembler = FrameAssembler::new();
    assert!(assembler.push(&[1, 2, 3], 5).is_none());
    assert!(assembler.push(&vec![0i16; SAMPLES_PER_STEP - 4], 6).is_none());
    let frame = assembler.push(&[9], 7).expect("a full frame");
    let samples = frame.samples();
    assert_eq!(samples.len(), SAMPLES_PER_STEP);
    assert_eq!(&samples[..3], &[1, 2, 3]);
    assert_eq!(samples[SAMPLES_PER_STEP - 1], 9);
    assert_eq!(assembler.elapsed(7), Some(2));
}

#[test]
fn frame_keeps_the_freshest_samples() {
    let mut assembler = FrameAssembler::new();
    let first: Vec<i16> = (0..1000).map(|i| i as i16).collect();
    let second: Vec<i16> = (1000..1100).map(|i| i as i16).collect();
    assert!(assembler.push(&first, 0).is_none());
    let frame = assembler.push(&second, 1).expect("a full frame").into_samples();
    let expected: Vec<i16> = (76..1100).map(|i| i as i16).collect();
    assert_eq!(frame, expected);
    // the buffer was emptied: a short chunk now yields nothing
    assert!(assembler.push(&[1; 1023], 2).is_none());
    assert!(assembler.push(&[2], 3).is_some());
}

#[test]
fn long_chunk_yields_its_last_samples() {
    let mut assembler = FrameAssembler::new();
    assert!(assembler.push(&[5; 10], 0).is_none());
    let chunk: Vec<i16> = (0..3000).map(|i| i as i16).collect();
    let frame = assembler.push(&chunk, 1).expect("a full frame").into_samples();
    assert_eq!(frame, chunk[3000 - SAMPLES_PER_STEP..].to_vec());
}

#[test]
fn silence_gives_one_frame_and_a_nan_point() {
    let mut session = PitchSession::new();
    let silence = vec![0i16; 2048];
    let frame = session.push_samples(&silence, 1_000).expect("one frame");
    assert_eq!(frame.samples(), &vec![0i16; SAMPLES_PER_STEP][..]);
    assert!(session.push_samples(&[], 2_000).is_none());

    let elapsed = session.elapsed(1_000).expect("clock set");
    assert_eq!(elapsed, 0);
    let p = prediction(f32::NAN, 0.1);
    let pol = policy(0.5, 50.0, 2000.0);
    assert!(session.accepts_time(elapsed));
    session.submit(p, elapsed, &pol);
    assert_eq!(session.points().len(), 1);
    assert_eq!(session.points()[0].elapsed_nanos, 0);
    assert!(f32::from_bits(session.points()[0].value).is_nan());
    assert_eq!(session.last_good(), None);
}

#[test]
fn clock_latches_first_timestamp() {
    let mut assembler = FrameAssembler::new();
    assert_eq!(assembler.elapsed(10), None);
    assembler.push(&[1], 100);
    assembler.push(&[1], 250);
    assert_eq!(assembler.elapsed(250), Some(150));
    assert_eq!(assembler.elapsed(99), None);
    assembler.reset();
    assert_eq!(assembler.elapsed(300), None);
    assembler.push(&[1; 1023], 300);
    assert_eq!(assembler.elapsed(400), Some(100));
    // reset dropped the buffered sample: 1023 new ones do not make a frame
    assert!(assembler.push(&[], 301).is_none());
}

#[test]
fn argmax_prefers_lowest_index_on_ties() {
    assert_eq!(argmax(&bits(&[0.1, 0.7, 0.3, 0.7, 0.2])), Some(1));
    assert_eq!(argmax(&bits(&[0.9, 0.9])), Some(0));
    assert_eq!(argmax(&bits(&[-2.0, -1.0, -3.0])), Some(1));
    assert_eq!(argmax(&bits(&[-0.0, 0.0])), Some(1));
    assert_eq!(argmax(&[]), None);
}

#[test]
fn tie_in_activation_picks_lower_bin() {
    let mut values = vec![0.0f32; ACTIVATION_BINS];
    values[40] = 0.8;
    values[200] = 0.8;
    values[100] = 0.5;
    let peak = activation(&values).peak();
    assert_eq!(peak.center, 40);
    assert_eq!((peak.start, peak.end), (36, 45));
}

#[test]
fn boundary_windows() {
    assert_eq!(local_window(0), (0, 5));
    assert_eq!(local_window(3), (0, 8));
    assert_eq!(local_window(4), (0, 9));
    assert_eq!(local_window(180), (176, 185));
    assert_eq!(local_window(355), (351, 360));
    assert_eq!(local_window(359), (355, 360));
}

#[test]
fn single_bin_activation() {
    for k in [0usize, 1, 179, 358, 359] {
        let mut values = vec![0.0f32; ACTIVATION_BINS];
        values[k] = 0.25;
        let peak = activation(&values).peak();
        assert_eq!(peak.center, k);
        assert_eq!(f32::from_bits(peak.confidence), 0.25);
        let (start, end) = local_window(k);
        assert_eq!((peak.start, peak.end), (start, end));
    }
}

#[test]
fn sharp_peak_at_180() {
    let mut values = vec![0.01f32; ACTIVATION_BINS];
    values[180] = 1.0;
    let peak = activation(&values).peak();
    assert_eq!(
        peak,
        Peak { center: 180, start: 176, end: 185, confidence: 1.0f32.to_bits() }
    );
}

#[test]
fn wrong_length_activation_is_refused() {
    match ActivationVector::new(vec![0; 359]) {
        Err(InferenceError::WrongLength { len }) => assert_eq!(len, 359),
        _ => panic!("a short vector must be refused"),
    }
    match ActivationVector::new(Vec::new()) {
        Err(InferenceError::WrongLength { len }) => assert_eq!(len, 0),
        _ => panic!("an empty vector must be refused"),
    }
    let a = ActivationVector::new(vec![0; ACTIVATION_BINS]).expect("full length");
    assert_eq!(a.bins().len(), ACTIVATION_BINS);
    assert_eq!(a.peak().center, 0);
}

#[test]
fn per_frame_filtering() {
    let pol = policy(0.5, 50.0, 2000.0);
    assert_eq!(display_value(&prediction(440.0, 0.9), &pol), 440.0f32.to_bits());
    assert_eq!(display_value(&prediction(440.0, 0.5), &pol), 440.0f32.to_bits());
    assert_eq!(display_value(&prediction(440.0, 0.49), &pol), NAN_BITS);
    assert_eq!(display_value(&prediction(440.0, f32::NAN), &pol), NAN_BITS);
    // per-frame filtering looks at the confidence only
    assert_eq!(display_value(&prediction(5000.0, 0.9), &pol), 5000.0f32.to_bits());
    assert!(confident(&prediction(1.0, 0.5), &pol));
}

#[test]
fn acceptance_checks_range() {
    let pol = policy(0.5, 50.0, 2000.0);
    assert!(accepts(&prediction(50.0, 0.6), &pol));
    assert!(accepts(&prediction(2000.0, 0.6), &pol));
    assert!(!accepts(&prediction(49.9, 0.6), &pol));
    assert!(!accepts(&prediction(2000.5, 0.6), &pol));
    assert!(!accepts(&prediction(440.0, 0.4), &pol));
    assert!(!accepts(&prediction(f32::NAN, 0.9), &pol));
}

#[test]
fn two_accepted_frames_form_one_batch() {
    let pol = policy(0.5, 50.0, 2000.0);
    let mut averager = FrameAverager::new(2);
    assert_eq!(averager.offer(prediction(200.0, 0.9), &pol), None);
    let batch = averager.offer(prediction(220.0, 0.8), &pol).expect("batch complete");
    assert_eq!(batch, bits(&[200.0, 220.0]));
    let mean = batch.iter().map(|b| f32::from_bits(*b)).sum::<f32>() / batch.len() as f32;
    assert_eq!(mean, 210.0);
}

#[test]
fn rejected_frames_leave_the_batch() {
    let pol = policy(0.5, 50.0, 2000.0);
    let mut averager = FrameAverager::new(3);
    assert_eq!(averager.offer(prediction(300.0, 0.2), &pol), None);
    assert_eq!(averager.offer(prediction(310.0, 0.9), &pol), None);
    assert_eq!(averager.offer(prediction(9000.0, 0.9), &pol), Some(bits(&[310.0])));
    assert_eq!(averager.offer(prediction(f32::NAN, 0.0), &pol), None);
    averager.clear();
    assert_eq!(averager.offer(prediction(100.0, 0.1), &pol), None);
    assert_eq!(averager.offer(prediction(100.0, 0.1), &pol), None);
    assert_eq!(averager.offer(prediction(100.0, 0.1), &pol), Some(Vec::new()));
}

#[test]
fn trace_records_points_and_last_good() {
    let mut session = PitchSession::new();
    session.record(10, 220.0f32.to_bits());
    assert_eq!(session.last_good(), Some(220.0f32.to_bits()));
    session.record(20, NAN_BITS);
    assert_eq!(session.last_good(), Some(220.0f32.to_bits()));
    session.submit(prediction(330.0, 0.9), 30, &policy(0.5, 50.0, 2000.0));
    assert_eq!(session.last_good(), Some(330.0f32.to_bits()));
    assert_eq!(
        session.points().to_vec(),
        vec![
            PitchPoint { elapsed_nanos: 10, value: 220.0f32.to_bits() },
            PitchPoint { elapsed_nanos: 20, value: NAN_BITS },
            PitchPoint { elapsed_nanos: 30, value: 330.0f32.to_bits() },
        ]
    );
    assert!(session.accepts_time(30));
    assert!(!session.accepts_time(29));
}

#[test]
fn reset_starts_a_new_session() {
    let mut session = PitchSession::new();
    session.push_samples(&[1; 100], 5_000);
    session.record(500, 100.0f32.to_bits());
    session.reset();
    assert_eq!(session.elapsed(6_000), None);
    assert_eq!(session.points().len(), 1);
    assert_eq!(session.last_good(), Some(100.0f32.to_bits()));
    // times restart with the new session
    assert!(session.accepts_time(0));
    session.push_samples(&[1; 100], 9_000);
    assert_eq!(session.elapsed(9_000), Some(0));
    session.record(0, 120.0f32.to_bits());
    assert_eq!(session.points().len(), 2);
    // the hundred samples before the reset were dropped
    assert!(session.push_samples(&[0; SAMPLES_PER_STEP - 100 - 1], 9_100).is_none());
    assert!(session.push_samples(&[0; 1], 9_200).is_some());
}
