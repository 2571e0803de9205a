use sparkles::build_audio_stream;
use sparkles::contains_quit;
use sparkles::next_state;
use sparkles::FrameConfig;
use sparkles::LoopState;
use sparkles::PipelineError;
use sparkles::SampleFormat;
use sparkles::ScriptedStream;
use sparkles::Stream;
use sparkles::Type;
use sparkles::QUIT_KEY;

#[test]
fn test_build_audio_stream_yields_stereo_float_config() {
    let config = build_audio_stream(Type::PulseSimple).unwrap();
    assert_eq!(config.format, SampleFormat::Float32);
    assert_eq!(config.channels, 2);
    assert_eq!(config.rate, 48000);
}

#[test]
fn test_scripted_stream_replays_chunks_in_order() {
    let chunks: Vec<Vec<u8>> = vec![vec![1, 2, 3, 4], vec![5, 6, 7, 8]];
    let mut stream = ScriptedStream::new(chunks);
    let mut buffer: Vec<u8> = vec![0; 4];

    assert_eq!(stream.stream(&mut buffer), Ok(()));
    assert_eq!(buffer, vec![1, 2, 3, 4]);
    assert_eq!(stream.stream(&mut buffer), Ok(()));
    assert_eq!(buffer, vec![5, 6, 7, 8]);
    // The recording is exhausted; the buffer is left as it was.
    assert_eq!(stream.stream(&mut buffer), Err(PipelineError::CaptureError));
    assert_eq!(buffer, vec![5, 6, 7, 8]);
}

#[test]
fn test_scripted_stream_rejects_partial_fill() {
    let chunks: Vec<Vec<u8>> = vec![vec![1, 2, 3]];
    let mut stream = ScriptedStream::new(chunks);
    let mut buffer: Vec<u8> = vec![0; 4];
    // A chunk that cannot fill the buffer completely is a capture failure.
    assert_eq!(stream.stream(&mut buffer), Err(PipelineError::CaptureError));
    assert_eq!(buffer, vec![0, 0, 0, 0]);
}

#[test]
fn test_contains_quit_scans_all_drained_bytes() {
    assert_eq!(QUIT_KEY, b'q');
    assert!(!contains_quit(&Vec::new()));
    assert!(!contains_quit(&vec![b'a', b'z', b'Q']));
    assert!(contains_quit(&vec![b'q']));
    assert!(contains_quit(&vec![b'x', b'y', b'q', b'z']));
}

#[test]
fn test_next_state_transitions() {
    // A healthy frame keeps running.
    assert_eq!(next_state(LoopState::Running, true, false), LoopState::Running);
    // A quit request stops the loop.
    assert_eq!(next_state(LoopState::Running, true, true), LoopState::Stopped);
    // A capture failure stops the loop.
    assert_eq!(next_state(LoopState::Running, false, false), LoopState::Stopped);
    // A stopped loop never restarts.
    assert_eq!(next_state(LoopState::Stopped, true, false), LoopState::Stopped);
}

#[test]
fn test_frame_config_buffer_size() {
    let config = FrameConfig::default();
    assert_eq!(config.sample_rate, 48000);
    assert_eq!(config.fps, 20);
    assert_eq!(config.floor_magnitude_milli, 30_000);
    // One frame consumes the byte rate divided by the frame rate.
    assert_eq!(config.buffer_bytes(), 2400);
}
