use whisper_dictation::resample::{resample_plan, ResamplePlan};

/// Applies a plan to floating samples the way the capture pipeline does.
fn apply(plan: &ResamplePlan, input: &[f32]) -> Vec<f32> {
    let channels = plan.channels as usize;
    let mono: Vec<f32> = if plan.frames == 0 {
        Vec::new()
    } else {
        input
            .chunks_exact(channels)
            .map(|frame| frame.iter().sum::<f32>() / channels as f32)
            .collect()
    };
    if plan.passthrough {
        return mono;
    }
    plan.taps
        .iter()
        .map(|t| {
            if t.blend {
                let w = t.frac as f32 / 16000.0;
                mono[t.index] * (1.0 - w) + mono[t.index + 1] * w
            } else {
                mono[t.index]
            }
        })
        .collect()
}

#[test]
fn test_mono_passthrough_at_16khz() {
    let input = vec![0.1, 0.2, 0.3, 0.4];
    let plan = resample_plan(input.len(), 16000, 1);
    let result = apply(&plan, &input);
    assert_eq!(result.len(), 4);
}

#[test]
fn test_stereo_to_mono() {
    let input = vec![1.0, 0.0, 1.0, 0.0];
    let plan = resample_plan(input.len(), 16000, 2);
    let result = apply(&plan, &input);
    assert_eq!(result.len(), 2);
    assert!((result[0] - 0.5).abs() < 0.001);
}

#[test]
fn test_downsample() {
    let input: Vec<f32> = (0..48000).map(|i| (i as f32 / 48000.0).sin()).collect();
    let plan = resample_plan(input.len(), 48000, 1);
    let result = apply(&plan, &input);
    let expected_len = 16000;
    assert!((result.len() as i64 - expected_len as i64).unsigned_abs() < 2);
}

#[test]
fn test_empty_input() {
    let plan = resample_plan(0, 44100, 2);
    let result = apply(&plan, &[]);
    assert!(result.is_empty());
}

use whisper_dictation::resample::{interpolation_taps, mono_frame_count, resampled_len, Tap};

#[test]
fn passthrough_keeps_one_sample_per_frame() {
    for &(n, c) in &[(12usize, 1u16), (12, 2), (12, 3), (12, 4), (0, 2)] {
        let plan = resample_plan(n, 16000, c);
        let out = if plan.passthrough { plan.frames } else { plan.taps.len() };
        assert_eq!(out, n / c as usize);
    }
}

#[test]
fn empty_input_gives_empty_plan_at_any_rate() {
    for &(rate, c) in &[(0u32, 0u16), (44100, 2), (16000, 1), (8000, 6)] {
        let plan = resample_plan(0, rate, c);
        assert!(!plan.passthrough);
        assert!(plan.taps.is_empty());
        assert_eq!(plan.frames, 0);
    }
}

#[test]
fn partial_trailing_frame_is_dropped() {
    assert_eq!(mono_frame_count(7, 2), 3);
    assert_eq!(mono_frame_count(9, 3), 3);
}

#[test]
fn resampled_length_is_floor_of_ratio() {
    assert_eq!(resampled_len(48000, 48000), 16000);
    assert_eq!(resampled_len(44100, 44100), 16000);
    assert_eq!(resampled_len(10, 44100), 3);
    assert_eq!(resampled_len(5, 8000), 10);
}

#[test]
fn taps_for_44100_hz() {
    let taps = interpolation_taps(10, 44100);
    assert_eq!(taps.len(), 3);
    assert_eq!(taps[0], Tap { index: 0, frac: 0, blend: true });
    // 1 * 44100 = 2 * 16000 + 12100
    assert_eq!(taps[1], Tap { index: 2, frac: 12100, blend: true });
    // 2 * 44100 = 5 * 16000 + 8200
    assert_eq!(taps[2], Tap { index: 5, frac: 8200, blend: true });
}

#[test]
fn upsampling_copies_last_sample_unblended() {
    let taps = interpolation_taps(2, 8000);
    assert_eq!(taps.len(), 4);
    assert_eq!(taps[1], Tap { index: 0, frac: 8000, blend: true });
    assert_eq!(taps[2], Tap { index: 1, frac: 0, blend: false });
    assert_eq!(taps[3], Tap { index: 1, frac: 8000, blend: false });
}

#[test]
fn downsampled_values_blend_neighbours() {
    let input = vec![0.0f32, 1.0, 2.0, 3.0, 4.0, 5.0];
    let plan = resample_plan(input.len(), 32000, 1);
    let out = apply(&plan, &input);
    assert_eq!(out, vec![0.0, 2.0, 4.0]);
}
