//! Media fingerprinting library: cryptographic content hashes, perceptual
//! fingerprints of decoded rasters, time-interval frame sampling for video,
//! and a manifest model with a verification routine.
//!
//! A manifest binds a file's identity, its content hash and, per media kind,
//! a perceptual hash or per-frame records; verification re-derives those
//! values from a candidate file's bytes and compares them field by field.

pub mod config;
pub mod error;
pub mod hash;
pub mod manifest;
pub mod pipeline;
pub mod raster;
pub mod text;
pub mod utils;
pub mod video;

pub use crate::config::{Config, VideoConfig};
pub use crate::error::{AppError, ErrorResponse, ResultExt};
pub use crate::hash::{compute_file_hash, compute_pdq_hash, compute_sha3_256, sha3_256};
pub use crate::manifest::{FrameInfo, MediaManifest, MediaType};
pub use crate::pipeline::{
    media_type_for, process_image, process_other_file, process_video_file, resolve_upload_params,
    ResolvedUploadParams, UploadParams,
};
pub use crate::raster::Raster;
pub use crate::utils::{generate_filename, normalize_path, validate_file_extension};
pub use crate::video::{accept_frame, acceptance_interval, init_ffmpeg, FrameExtractor};
