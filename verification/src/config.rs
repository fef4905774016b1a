//! Configuration consumed by the pipeline, with its documented defaults.

use vstd::prelude::*;
use vstd::string::StringExecFns;

verus! {

/// Video processing configuration.
#[derive(Debug, Clone)]
pub struct VideoConfig {
    /// Interval in seconds between extracted frames.
    pub frame_interval: u64,
    /// Target width for resizing frames (maintains aspect ratio).
    pub target_width: u32,
    /// Target height for resizing frames (maintains aspect ratio).
    pub target_height: u32,
    /// Video codec for processed videos.
    pub codec: String,
}

impl Default for VideoConfig {
    /// Five seconds between frames, 640 by 360 targets, the libx264 codec.
    fn default() -> (r: VideoConfig)
        ensures
            r.frame_interval == 5,
            r.target_width == 640,
            r.target_height == 360,
            r.codec@ == "libx264"@,
    {
        VideoConfig {
            frame_interval: 5,
            target_width: 640,
            target_height: 360,
            codec: String::from_str("libx264"),
        }
    }
}

/// The file extensions accepted for upload by default.
pub open spec fn default_allowed_extensions() -> Seq<Seq<char>> {
    seq!["jpg"@, "jpeg"@, "png"@, "webp"@, "mp4"@, "mov"@, "avi"@]
}

/// Configuration for the pipeline and its surrounding service.
#[derive(Debug, Clone)]
pub struct Config {
    /// Base directory for file uploads.
    pub upload_dir: String,
    /// Maximum file size in bytes.
    pub max_upload_size: u64,
    /// Allowed file extensions for uploads.
    pub allowed_extensions: Vec<String>,
    /// Video processing configuration.
    pub video: VideoConfig,
}

impl Default for Config {
    /// Uploads under `uploads`, a 100 MiB size cap, the documented extension
    /// list, and default video settings.
    fn default() -> (r: Config)
        ensures
            r.upload_dir@ == "uploads"@,
            r.max_upload_size == 104857600,
            r.allowed_extensions@.map_values(|s: String| s@) == default_allowed_extensions(),
            r.video.frame_interval == 5,
            r.video.target_width == 640,
            r.video.target_height == 360,
            r.video.codec@ == "libx264"@,
    {
        let mut allowed_extensions: Vec<String> = Vec::new();
        allowed_extensions.push(String::from_str("jpg"));
        allowed_extensions.push(String::from_str("jpeg"));
        allowed_extensions.push(String::from_str("png"));
        allowed_extensions.push(String::from_str("webp"));
        allowed_extensions.push(String::from_str("mp4"));
        allowed_extensions.push(String::from_str("mov"));
        allowed_extensions.push(String::from_str("avi"));
        proof {
            assert(allowed_extensions@.map_values(|s: String| s@)
                =~= default_allowed_extensions());
        }
        Config {
            upload_dir: String::from_str("uploads"),
            max_upload_size: 100 * 1024 * 1024,
            allowed_extensions,
            video: VideoConfig::default(),
        }
    }
}

} // verus!
