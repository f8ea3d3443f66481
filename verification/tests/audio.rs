use raflow::audio::capture::{
    downmix_i16, downmix_i32, negotiate, plan_pipeline, select_config, CaptureConfig, OtherFormat,
    RecordingFlag, SampleFormat, SupportedConfig,
};
use raflow::audio::denoise::{
    plan_resample, resample_tap, resampled_len, suppressor_frames, ResamplePlan, Tap,
    DENOISE_FRAME_SIZE, DENOISE_SAMPLE_RATE,
};
use raflow::framing::{unpadded, FrameBuffer};
use raflow::AppError;

/// The suppressor as the application puts it together: the library's
/// frames, each run through the suppression engine.
struct AudioDenoiser {
    state: Box<nnnoiseless::DenoiseState<'static>>,
    frames: FrameBuffer<f32>,
}

impl AudioDenoiser {
    fn new() -> Self {
        Self { state: nnnoiseless::DenoiseState::new(), frames: suppressor_frames() }
    }

    fn process(&mut self, input: &[f32]) -> Vec<f32> {
        let mut output = Vec::with_capacity(input.len());
        for frame in self.frames.push(input) {
            let mut out_frame = [0.0f32; DENOISE_FRAME_SIZE];
            self.state.process_frame(&mut out_frame, &frame);
            output.extend_from_slice(&out_frame);
        }
        output
    }

    fn flush(&mut self) -> Vec<f32> {
        match self.frames.flush(0.0) {
            None => Vec::new(),
            Some(padded) => {
                let mut out_frame = [0.0f32; DENOISE_FRAME_SIZE];
                self.state.process_frame(&mut out_frame, &padded.samples);
                unpadded(&out_frame, padded.filled)
            }
        }
    }
}

#[test]
fn test_denoiser_creation() {
    let _denoiser = AudioDenoiser::new();
}

#[test]
fn test_denoiser_process() {
    let mut denoiser = AudioDenoiser::new();

    // Create a test signal (silence)
    let input = vec![0.0f32; DENOISE_FRAME_SIZE * 2];
    let output = denoiser.process(&input);

    // Should get back roughly the same number of samples
    assert!(output.len() >= DENOISE_FRAME_SIZE);
}

#[test]
fn denoiser_flush_gives_back_as_many_samples_as_were_waiting() {
    for k in [1usize, 7, 100, 479] {
        let mut denoiser = AudioDenoiser::new();
        let input = vec![0.25f32; DENOISE_FRAME_SIZE + k];
        assert_eq!(denoiser.process(&input).len(), DENOISE_FRAME_SIZE);
        assert_eq!(denoiser.flush().len(), k);
        assert_eq!(denoiser.flush().len(), 0);
    }
}

/// Linear interpolation along the taps that the library plans.
fn resample(input: &[f32], source_rate: u32, target_rate: u32) -> Vec<f32> {
    let n = match plan_resample(input.len(), source_rate, target_rate) {
        ResamplePlan::Unchanged => return input.to_vec(),
        ResamplePlan::Interpolate { len } => len,
        ResamplePlan::TooLong => panic!("capacity overflow"),
    };
    (0..n)
        .map(|i| match resample_tap(i, input.len(), source_rate, target_rate) {
            Tap::Between { index, numer } => {
                let frac = numer as f32 / target_rate as f32;
                input[index] * (1.0 - frac) + input[index + 1] * frac
            }
            Tap::Fading { index, numer } => {
                let frac = numer as f32 / target_rate as f32;
                input[index] * (1.0 - frac)
            }
            Tap::Last { index } => input[index],
            Tap::Silence => 0.0,
        })
        .collect()
}

#[test]
fn test_resample() {
    let input = vec![0.0f32; 480];

    // Upsample
    let upsampled = resample(&input, 16000, 48000);
    assert!(upsampled.len() > input.len());

    // Downsample
    let downsampled = resample(&input, 48000, 16000);
    assert!(downsampled.len() < input.len());
}

#[test]
fn resampling_between_equal_rates_changes_nothing() {
    let input: Vec<f32> = (0..100).map(|k| (k as f32 * 0.37).sin()).collect();
    for rate in [1u32, 8000, 16000, 44100, 48000, u32::MAX] {
        assert_eq!(plan_resample(input.len(), rate, rate), ResamplePlan::Unchanged);
        assert_eq!(resampled_len(input.len(), rate, rate), input.len());
        for i in 0..input.len() {
            match resample_tap(i, input.len(), rate, rate) {
                Tap::Between { index, numer } => {
                    assert_eq!(index, i);
                    assert_eq!(numer, 0);
                }
                Tap::Last { index } => {
                    assert_eq!(index, i);
                    assert_eq!(i, input.len() - 1);
                }
                Tap::Fading { .. } => panic!("a sample between two input samples"),
                Tap::Silence => panic!("silence inside the input"),
            }
        }
        assert_eq!(resample(&input, rate, rate), input);
    }
}

#[test]
fn equal_rates_leave_the_signal_unchanged_at_rate_zero_too() {
    let input: Vec<f32> = vec![0.5, -0.25, 1.0];
    assert_eq!(plan_resample(3, 0, 0), ResamplePlan::Unchanged);
    assert_eq!(plan_resample(0, 0, 0), ResamplePlan::Unchanged);
    assert_eq!(plan_resample(0, 16000, 16000), ResamplePlan::Unchanged);
    assert_eq!(plan_resample(usize::MAX, u32::MAX, u32::MAX), ResamplePlan::Unchanged);
    assert_eq!(resample(&input, 0, 0), input);
    assert_eq!(resample(&[], 0, 0), Vec::<f32>::new());
    assert_eq!(resample(&[], 44100, 44100), Vec::<f32>::new());
}

#[test]
fn plans_of_a_conversion() {
    assert_eq!(plan_resample(480, 16000, 48000), ResamplePlan::Interpolate { len: 1440 });
    assert_eq!(plan_resample(480, 48000, 16000), ResamplePlan::Interpolate { len: 160 });
    assert_eq!(plan_resample(441, 44100, 48000), ResamplePlan::Interpolate { len: 480 });
    assert_eq!(plan_resample(1, 8000, 16000), ResamplePlan::Interpolate { len: 2 });
    assert_eq!(plan_resample(1, 3, 4), ResamplePlan::Interpolate { len: 2 });
    assert_eq!(plan_resample(7, 16000, 0), ResamplePlan::Interpolate { len: 0 });
    assert_eq!(plan_resample(0, 16000, 48000), ResamplePlan::Interpolate { len: 0 });
    assert_eq!(plan_resample(0, 0, 48000), ResamplePlan::Interpolate { len: 0 });
    assert_eq!(plan_resample(1, 0, 48000), ResamplePlan::TooLong);
    assert_eq!(plan_resample(usize::MAX, 1, 2), ResamplePlan::TooLong);
    assert_eq!(plan_resample(usize::MAX, 1, u32::MAX), ResamplePlan::TooLong);
    assert_eq!(
        plan_resample(usize::MAX, 2, 1),
        ResamplePlan::Interpolate { len: usize::MAX / 2 + 1 }
    );
    assert_eq!(resample(&[], 0, 48000), Vec::<f32>::new());
    assert_eq!(resample(&[0.5, 0.25], 16000, 0), Vec::<f32>::new());
}

#[test]
fn the_last_sample_fades_into_silence() {
    assert_eq!(resample(&[1.0], 8000, 16000), vec![1.0, 0.5]);
    assert_eq!(resample_tap(0, 1, 8000, 16000), Tap::Last { index: 0 });
    assert_eq!(resample_tap(1, 1, 8000, 16000), Tap::Fading { index: 0, numer: 8000 });
    assert_eq!(resample(&[1.0, 3.0], 1, 4), vec![1.0, 1.5, 2.0, 2.5, 3.0, 2.25, 1.5, 0.75]);
    assert_eq!(resample(&[4.0, 8.0, 2.0], 2, 1), vec![4.0, 2.0]);
    assert_eq!(resample(&[4.0, 8.0], 6, 4), vec![4.0, 4.0]);
}

#[test]
fn resampled_length_is_the_ceiling() {
    assert_eq!(resampled_len(480, 16000, 48000), 1440);
    assert_eq!(resampled_len(480, 48000, 16000), 160);
    assert_eq!(resampled_len(441, 44100, 48000), 480);
    assert_eq!(resampled_len(100, 44100, 16000), 37);
    assert_eq!(resampled_len(1, 48000, 16000), 1);
    assert_eq!(resampled_len(2, 48000, 16000), 1);
    assert_eq!(resampled_len(4, 48000, 16000), 2);
    assert_eq!(resampled_len(0, 16000, 48000), 0);
    assert_eq!(resampled_len(7, 16000, 0), 0);
    assert_eq!(resampled_len(1, 3, 4), 2);
}

#[test]
fn upsampling_keeps_the_shape_of_a_ramp() {
    let input: Vec<f32> = (0..160).map(|k| k as f32).collect();
    let up = resample(&input, 16000, 48000);
    assert_eq!(up.len(), 480);
    for (i, v) in up.iter().enumerate() {
        // after the last input sample the ramp falls towards silence
        let expected = if i <= 477 { i as f32 / 3.0 } else { 159.0 * (480 - i) as f32 / 3.0 };
        assert!((v - expected).abs() < 1e-3, "sample {} is {}, not {}", i, v, expected);
    }
    let down = resample(&up, 48000, 16000);
    assert_eq!(down.len(), 160);
    for (i, v) in down.iter().enumerate() {
        assert!((v - input[i]).abs() < 1e-3);
    }
}

#[test]
fn taps_of_a_conversion() {
    assert_eq!(resample_tap(0, 480, 16000, 48000), Tap::Between { index: 0, numer: 0 });
    assert_eq!(resample_tap(1, 480, 16000, 48000), Tap::Between { index: 0, numer: 16000 });
    assert_eq!(resample_tap(2, 480, 16000, 48000), Tap::Between { index: 0, numer: 32000 });
    assert_eq!(resample_tap(3, 480, 16000, 48000), Tap::Between { index: 1, numer: 0 });
    assert_eq!(resample_tap(1436, 480, 16000, 48000), Tap::Between { index: 478, numer: 32000 });
    assert_eq!(resample_tap(1437, 480, 16000, 48000), Tap::Last { index: 479 });
    assert_eq!(resample_tap(1438, 480, 16000, 48000), Tap::Fading { index: 479, numer: 16000 });
    assert_eq!(resample_tap(1439, 480, 16000, 48000), Tap::Fading { index: 479, numer: 32000 });
    assert_eq!(resample_tap(1440, 480, 16000, 48000), Tap::Silence);
    assert_eq!(resample_tap(479, 480, 16000, 16000), Tap::Last { index: 479 });
    assert_eq!(resample_tap(1, 2, 3, 2), Tap::Fading { index: 1, numer: 1 });
    assert_eq!(resample_tap(1, 480, 48000, 16000), Tap::Between { index: 3, numer: 0 });
    assert_eq!(resample_tap(159, 480, 48000, 16000), Tap::Between { index: 477, numer: 0 });
    assert_eq!(resample_tap(160, 480, 48000, 16000), Tap::Silence);
    assert_eq!(resample_tap(1, 441, 44100, 48000), Tap::Between { index: 0, numer: 44100 });
    assert_eq!(resample_tap(usize::MAX, 10, u32::MAX, 1), Tap::Silence);
    assert_eq!(resample_tap(5, 0, 16000, 48000), Tap::Silence);
}

#[test]
fn no_tap_of_a_conversion_is_silence() {
    for (len, from, to) in [(480usize, 16000u32, 48000u32), (480, 48000, 16000), (441, 44100, 48000), (100, 44100, 16000), (7, 3, 1000), (7, 1000, 3)] {
        let n = resampled_len(len, from, to);
        for i in 0..n {
            assert_ne!(resample_tap(i, len, from, to), Tap::Silence);
        }
    }
}

#[test]
fn suppressor_hands_out_whole_frames() {
    assert_eq!(DENOISE_FRAME_SIZE, 480);
    assert_eq!(DENOISE_SAMPLE_RATE, 48000);
    let mut frames = suppressor_frames::<f32>();
    assert_eq!(frames.frame_size(), 480);
    let input = vec![0.0f32; DENOISE_FRAME_SIZE * 2];
    let out = frames.push(&input);
    let total: usize = out.iter().map(|f| f.len()).sum();
    assert!(total >= DENOISE_FRAME_SIZE);
    assert_eq!(out.len(), 2);
    assert!(out.iter().all(|f| f.len() == DENOISE_FRAME_SIZE));
    assert_eq!(frames.buffered(), 0);
    assert!(frames.flush(0.0).is_none());
}

#[test]
fn remainder_waits_and_frames_come_in_order() {
    let mut frames: FrameBuffer<i32> = FrameBuffer::new(4);
    assert!(frames.push(&[1, 2, 3]).is_empty());
    assert_eq!(frames.buffered(), 3);
    let out = frames.push(&[4, 5, 6, 7, 8, 9]);
    assert_eq!(out, vec![vec![1, 2, 3, 4], vec![5, 6, 7, 8]]);
    assert_eq!(frames.buffered(), 1);
    let out = frames.push(&[]);
    assert!(out.is_empty());
    let out = frames.push(&[10, 11, 12]);
    assert_eq!(out, vec![vec![9, 10, 11, 12]]);
    assert_eq!(frames.buffered(), 0);
}

#[test]
fn flush_pads_the_remainder_and_keeps_its_length() {
    for k in 1usize..480 {
        let mut frames = suppressor_frames::<f32>();
        let input: Vec<f32> = (0..k).map(|i| i as f32 + 1.0).collect();
        assert!(frames.push(&input).is_empty());
        let padded = frames.flush(0.0).expect("a remainder was waiting");
        assert_eq!(padded.filled, k);
        assert_eq!(padded.samples.len(), DENOISE_FRAME_SIZE);
        assert_eq!(&padded.samples[..k], &input[..]);
        assert!(padded.samples[k..].iter().all(|s| *s == 0.0));
        let kept = unpadded(&padded.samples, padded.filled);
        assert_eq!(kept.len(), k);
        assert_eq!(kept, input);
        assert_eq!(frames.buffered(), 0);
    }
}

#[test]
fn reset_and_take_pending_empty_the_buffer() {
    let mut frames: FrameBuffer<u8> = FrameBuffer::new(10);
    frames.push(&[1, 2, 3]);
    frames.reset();
    assert_eq!(frames.buffered(), 0);
    assert_eq!(frames.frame_size(), 10);
    frames.push(&[4, 5]);
    assert_eq!(frames.take_pending(), vec![4, 5]);
    assert_eq!(frames.buffered(), 0);
}

fn config(channels: u16, min: u32, max: u32, format: SampleFormat) -> SupportedConfig {
    SupportedConfig { channels, min_sample_rate: min, max_sample_rate: max, sample_format: format }
}

#[test]
fn negotiation_takes_the_first_configuration_that_covers_the_rate() {
    let configs = [
        config(4, 8000, 96000, SampleFormat::Float32),
        config(2, 8000, 16000, SampleFormat::Int16),
        config(1, 16000, 48000, SampleFormat::Float32),
    ];
    assert_eq!(select_config(&configs, 16000), Some((1, 16000)));
    assert_eq!(
        negotiate(&configs, 16000),
        Ok(CaptureConfig { channels: 2, sample_format: SampleFormat::Int16, sample_rate: 16000 })
    );
    assert_eq!(select_config(&configs, 32000), Some((2, 32000)));
}

#[test]
fn negotiation_falls_back_through_the_common_rates() {
    let configs = [config(1, 44100, 48000, SampleFormat::Float32)];
    assert_eq!(
        negotiate(&configs, 16000),
        Ok(CaptureConfig { channels: 1, sample_format: SampleFormat::Float32, sample_rate: 48000 })
    );
    let configs = [
        config(1, 44100, 44100, SampleFormat::Int16),
        config(1, 48000, 48000, SampleFormat::Int32),
    ];
    assert_eq!(select_config(&configs, 16000), Some((1, 48000)));
    let configs = [config(2, 22050, 44100, SampleFormat::Int16)];
    assert_eq!(select_config(&configs, 16000), Some((0, 44100)));
    let configs = [config(2, 20000, 30000, SampleFormat::Int16)];
    assert_eq!(select_config(&configs, 16000), Some((0, 24000)));
    let configs = [config(2, 22050, 22050, SampleFormat::Int16)];
    assert_eq!(select_config(&configs, 16000), Some((0, 22050)));
}

#[test]
fn negotiation_fails_when_nothing_fits() {
    let expected = Err(AppError::Audio("No suitable audio configuration found".to_string()));
    assert_eq!(negotiate(&[], 16000), expected);
    assert_eq!(negotiate(&[config(4, 8000, 96000, SampleFormat::Float32)], 16000), expected);
    assert_eq!(negotiate(&[config(1, 96000, 192000, SampleFormat::Float32)], 16000), expected);
    assert_eq!(select_config(&[config(3, 0, u32::MAX, SampleFormat::Int16)], 48000), None);
}

#[test]
fn negotiation_refuses_a_sample_format_it_cannot_take() {
    let configs = [
        config(1, 8000, 48000, SampleFormat::Unsupported(OtherFormat::UInt8)),
        config(1, 8000, 48000, SampleFormat::Int16),
    ];
    assert_eq!(
        negotiate(&configs, 16000),
        Err(AppError::Audio("Unsupported sample format: U8".to_string()))
    );
    for (other, name) in [
        (OtherFormat::Int8, "I8"),
        (OtherFormat::Int64, "I64"),
        (OtherFormat::UInt8, "U8"),
        (OtherFormat::UInt16, "U16"),
        (OtherFormat::UInt32, "U32"),
        (OtherFormat::UInt64, "U64"),
        (OtherFormat::Float64, "F64"),
        (OtherFormat::Unknown, "Unknown"),
    ] {
        assert_eq!(other.name(), name);
        assert_eq!(
            negotiate(&[config(2, 48000, 48000, SampleFormat::Unsupported(other))], 16000),
            Err(AppError::Audio(format!("Unsupported sample format: {}", name)))
        );
    }
}

#[test]
fn supports_means_few_channels_and_rate_in_range() {
    let c = config(2, 8000, 16000, SampleFormat::Int16);
    assert!(c.supports(8000));
    assert!(c.supports(16000));
    assert!(!c.supports(7999));
    assert!(!c.supports(16001));
    assert!(!config(3, 8000, 16000, SampleFormat::Int16).supports(8000));
}

#[test]
fn stereo_is_averaged_towards_zero() {
    assert_eq!(downmix_i16(&[100, 200, -3, -4, 7], 2), vec![150, -3, 3]);
    assert_eq!(downmix_i16(&[i16::MAX, i16::MAX, i16::MIN, i16::MIN], 2), vec![i16::MAX, i16::MIN]);
    assert_eq!(downmix_i16(&[1, 0, -1, 0], 2), vec![0, 0]);
    assert_eq!(downmix_i16(&[], 2), Vec::<i16>::new());
    assert_eq!(downmix_i32(&[i32::MAX, i32::MAX, -1, 0, 5], 2), vec![i32::MAX, 0, 2]);
    assert_eq!(downmix_i32(&[i32::MIN, i32::MIN], 2), vec![i32::MIN]);
}

#[test]
fn mono_is_left_as_it_is() {
    assert_eq!(downmix_i16(&[100, 200, -3], 1), vec![100, 200, -3]);
    assert_eq!(downmix_i32(&[100, 200, -3], 1), vec![100, 200, -3]);
    assert_eq!(downmix_i16(&[100, 200, -3], 0), vec![100, 200, -3]);
}

#[test]
fn pipeline_steps_are_left_out_where_nothing_changes() {
    let c = CaptureConfig { channels: 2, sample_format: SampleFormat::Int16, sample_rate: 44100 };
    let plan = plan_pipeline(&c, 16000);
    assert!(plan.downmix && plan.upsample && plan.downsample);
    let c = CaptureConfig { channels: 1, sample_format: SampleFormat::Float32, sample_rate: 48000 };
    let plan = plan_pipeline(&c, 48000);
    assert!(!plan.downmix && !plan.upsample && !plan.downsample);
}

#[test]
fn recording_flag_falls_when_a_frame_cannot_be_queued() {
    let mut flag = RecordingFlag::new();
    assert!(!flag.is_recording());
    assert!(!flag.admits_buffer());
    flag.start();
    assert!(flag.admits_buffer());
    flag.after_enqueue(true);
    assert!(flag.is_recording());
    flag.after_enqueue(false);
    assert!(!flag.is_recording());
    flag.after_enqueue(true);
    assert!(!flag.is_recording());
}

#[test]
fn a_failed_start_leaves_the_flag_as_it_was() {
    let before = RecordingFlag::new();
    let mut flag = before;
    flag.start();
    flag.after_start(before, false);
    assert_eq!(flag, before);
    assert!(!flag.is_recording());

    let mut flag = before;
    flag.start();
    flag.after_start(before, true);
    assert!(flag.is_recording());

    // a frame could not be queued while the stream was starting
    let mut flag = before;
    flag.start();
    flag.after_enqueue(false);
    flag.after_start(before, true);
    assert!(!flag.is_recording());
}

#[test]
fn stopping_twice_is_stopping_once() {
    let mut flag = RecordingFlag::new();
    flag.start();
    flag.stop();
    let once = flag;
    flag.stop();
    assert_eq!(flag, once);
    assert!(!flag.is_recording());
}
