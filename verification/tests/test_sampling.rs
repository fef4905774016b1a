use imagechain::config::{Config, VideoConfig};
use imagechain::error::{AppError, ResultExt};
use imagechain::video::{accept_frame, acceptance_interval, init_ffmpeg, FrameExtractor};

#[test]
fn ten_second_video_at_one_second_interval() {
    // A 10-second stream sampled every second: frames at 0.0, 1.0, ..., 10.0
    // seconds, boundary inclusive.
    let extractor = FrameExtractor::new("synthetic.mp4".to_string(), 1000);
    let timestamps = extractor.sample_timestamps(10_000);
    assert_eq!(timestamps.len(), 11);
    for (i, t) in timestamps.iter().enumerate() {
        assert_eq!(*t, i as u64 * 1000);
    }
    assert!(timestamps.windows(2).all(|w| w[0] < w[1]));
    assert!(timestamps.iter().all(|t| t % 1000 == 0));
}

#[test]
fn partial_trailing_interval_is_not_sampled() {
    let extractor = FrameExtractor::new("v.mp4".to_string(), 1000);
    let timestamps = extractor.sample_timestamps(9_500);
    assert_eq!(timestamps.len(), 10);
    assert_eq!(*timestamps.last().unwrap(), 9_000);
}

#[test]
fn zero_duration_samples_the_first_frame() {
    let extractor = FrameExtractor::new("v.mp4".to_string(), 2_000);
    let timestamps = extractor.sample_timestamps(0);
    assert_eq!(timestamps, vec![0]);
}

#[test]
fn zero_interval_falls_back_to_one_second() {
    let extractor = FrameExtractor::new("v.mp4".to_string(), 0);
    assert_eq!(extractor.interval_millis, 1000);
}

#[test]
fn acceptance_interval_whole_units() {
    // A time base of 1/25 seconds per unit: one second is 25 units.
    assert_eq!(acceptance_interval(1, 25, 1000), 25);
    // NTSC-like 1001/30000: one second rounds to 30 units.
    assert_eq!(acceptance_interval(1001, 30000, 1000), 30);
    // An interval shorter than one unit still yields at least one.
    assert_eq!(acceptance_interval(1, 1, 1), 1);
}

#[test]
fn accept_frame_takes_multiples_only() {
    assert!(accept_frame(0, 25));
    assert!(accept_frame(50, 25));
    assert!(!accept_frame(51, 25));
    assert!(!accept_frame(24, 25));
}

#[test]
fn missing_toolchain_is_a_distinct_error() {
    assert!(init_ffmpeg(true).is_ok());
    assert!(matches!(
        init_ffmpeg(false),
        Err(AppError::ToolchainUnavailable(_))
    ));
}

#[test]
fn error_status_codes_and_responses() {
    assert_eq!(AppError::InvalidInput("x".to_string()).status_code(), 400);
    assert_eq!(AppError::Validation("x".to_string()).status_code(), 400);
    assert_eq!(AppError::NotFound("x".to_string()).status_code(), 404);
    assert_eq!(AppError::Auth("x".to_string()).status_code(), 401);
    assert_eq!(AppError::Io("x".to_string()).status_code(), 500);

    let response = AppError::Io("disk gone".to_string()).to_json();
    assert_eq!(response.code, 500);
    assert_eq!(response.message, "I/O error: disk gone");
    assert!(response.details.is_none());

    let response = AppError::RateLimit {
        message: "slow down".to_string(),
        retry_after: Some(30),
    }
    .to_json();
    assert_eq!(response.code, 429);
    assert_eq!(response.message, "slow down");
    assert_eq!(response.details.as_deref(), Some("Retry after 30 seconds"));
}

#[test]
fn result_context_wraps_errors() {
    let ok: Result<u32, AppError> = Ok(7);
    assert!(matches!(ok.context("reading"), Ok(7)));

    let err: Result<u32, AppError> = Err(AppError::NotFound("thing".to_string()));
    match err.context("reading") {
        Err(AppError::Internal(msg)) => assert_eq!(msg, "reading: Not found: thing"),
        other => panic!("unexpected result: {:?}", other),
    }

    let err: Result<u32, AppError> = Err(AppError::Io("boom".to_string()));
    match err.with_context(|| "loading file".to_string()) {
        Err(AppError::Internal(msg)) => assert_eq!(msg, "loading file: I/O error: boom"),
        other => panic!("unexpected result: {:?}", other),
    }
}

#[test]
fn default_configuration() {
    let config = Config::default();
    assert_eq!(config.upload_dir, "uploads");
    assert_eq!(config.max_upload_size, 100 * 1024 * 1024);
    assert_eq!(
        config.allowed_extensions,
        vec!["jpg", "jpeg", "png", "webp", "mp4", "mov", "avi"]
    );
    let video = VideoConfig::default();
    assert_eq!(video.frame_interval, 5);
    assert_eq!(video.target_width, 640);
    assert_eq!(video.target_height, 360);
    assert_eq!(video.codec, "libx264");
}

#[test]
fn normalize_path_edge_cases() {
    assert_eq!(imagechain::utils::normalize_path(""), "");
    assert_eq!(imagechain::utils::normalize_path("\\\\server\\x"), "//server/x");
}
