use sparkles::isqrt;
use sparkles::rms_amplitude;
use sparkles::rms_amplitude_stereo;
use sparkles::PipelineError;
use sparkles::StereoSample;

#[test]
fn test_rms_amplitude_stereo() {
    // Amplitudes 2.0 and 4.0 left, 4.0 and 8.0 right, in milli-units.
    let samples: Vec<StereoSample> = vec![
        StereoSample { left: 2000, right: 4000 },
        StereoSample { left: 4000, right: 8000 },
    ];

    let (left_rms, right_rms) = rms_amplitude_stereo(&samples).unwrap();

    // sqrt((2^2 + 4^2) / 2) = sqrt(10), i.e. 3162 milli-units rounded down.
    assert_eq!(((10.0f64).sqrt() * 1000.0).floor() as u64, left_rms);
    assert_eq!(3162, left_rms);
    // sqrt((4^2 + 8^2) / 2) = sqrt(40), i.e. 6324 milli-units rounded down.
    assert_eq!(((40.0f64).sqrt() * 1000.0).floor() as u64, right_rms);
    assert_eq!(6324, right_rms);
}

#[test]
fn test_rms_amplitude_mono() {
    let samples: Vec<i64> = vec![2000, 4000];
    assert_eq!(rms_amplitude(&samples).unwrap(), 3162);
}

#[test]
fn test_rms_amplitude_of_silence() {
    let samples: Vec<i64> = vec![0, 0, 0];
    assert_eq!(rms_amplitude(&samples).unwrap(), 0);
}

#[test]
fn test_rms_negative_samples_count_like_positive() {
    let plus: Vec<i64> = vec![500, 500];
    let minus: Vec<i64> = vec![-500, -500];
    assert_eq!(rms_amplitude(&plus).unwrap(), rms_amplitude(&minus).unwrap());
    assert_eq!(rms_amplitude(&plus).unwrap(), 500);
}

#[test]
fn test_rms_empty_window_is_rejected() {
    let none: Vec<i64> = Vec::new();
    assert_eq!(rms_amplitude(&none), Err(PipelineError::EmptyWindow));
    let none_stereo: Vec<StereoSample> = Vec::new();
    assert_eq!(rms_amplitude_stereo(&none_stereo), Err(PipelineError::EmptyWindow));
}

#[test]
fn test_isqrt_rounds_down() {
    assert_eq!(isqrt(0), 0);
    assert_eq!(isqrt(1), 1);
    assert_eq!(isqrt(3), 1);
    assert_eq!(isqrt(4), 2);
    assert_eq!(isqrt(10_000_000), 3162);
    assert_eq!(isqrt(u64::MAX), 4_294_967_295);
}
