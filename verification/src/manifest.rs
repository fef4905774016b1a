//! The manifest data model and its verification routine.
//!
//! A manifest binds a file's identity (name, size, timestamps), its
//! cryptographic content hash, an optional perceptual hash (images), and
//! optional per-frame records (video). Verification re-derives size, content
//! hash and, for images, the perceptual hash from a candidate file's bytes
//! and compares them field by field; any mismatch or missing file is the
//! `Invalid` outcome (`Ok(false)`), never an error. Only an undecodable image
//! during perceptual re-derivation is a hard error.

use vstd::prelude::*;

use crate::error::AppError;
use crate::hash::{compute_file_hash, content_hash_of, pdq_chars};
use crate::raster::{decode_image_rgb8, decode_rgb8};

verus! {

/// The type of media a manifest records.
#[derive(Debug, Clone, PartialEq, Eq, Structural)]
pub enum MediaType {
    /// An image file.
    Image,
    /// A video file.
    Video,
    /// Any other file type: identity-only data, no fingerprint.
    Other,
}

/// One sampled video frame.
#[derive(Debug, Clone)]
pub struct FrameInfo {
    /// Playback time of the sample in milliseconds from the start.
    pub timestamp_millis: u64,
    /// The perceptual hash of the frame's raster.
    pub pdq_hash: String,
}

/// A manifest containing metadata and hashes for a media file.
#[derive(Debug, Clone)]
pub struct MediaManifest {
    /// The type of media.
    pub media_type: MediaType,
    /// The original name of the file.
    pub file_name: String,
    /// The size of the file in bytes.
    pub file_size: u64,
    /// The creation timestamp of the file (RFC 3339 form).
    pub created_at: String,
    /// The last modification timestamp of the file (RFC 3339 form).
    pub modified_at: String,
    /// The SHA3-256 content hash of the file, 64 lowercase hex characters.
    pub sha3_256_hash: String,
    /// The perceptual hash of the image; present only for images.
    pub pdq_hash: Option<String>,
    /// Records of sampled frames; present only for videos.
    pub frames: Option<Vec<FrameInfo>>,
    /// Open key-value payload with pipeline parameters; informational only,
    /// never consulted by verification. Absent means none was recorded.
    pub metadata: Option<serde_json::Value>,
}

/// Declares serde_json's JSON value type so manifests can carry a metadata
/// payload through; nothing in the library reads inside it.
#[verifier::external_type_specification]
#[verifier::external_body]
pub struct ExValue(serde_json::Value);

/// The candidate file a manifest is verified against: `None` where no regular
/// file exists at the path, else its bytes.
pub open spec fn file_view(file: Option<&Vec<u8>>) -> Option<Seq<u8>> {
    match file {
        Some(v) => Some(v@),
        None => None,
    }
}

/// The outcome of verifying a manifest against a candidate file: `Some(true)`
/// where size, content hash and (for an image with a stored perceptual hash)
/// the recomputed perceptual hash all match; `Some(false)` where the file is
/// missing or any comparison fails; `None` where the stored perceptual hash
/// would have to be recomputed but the bytes do not decode as an image, which
/// is a hard error rather than a verdict.
pub open spec fn manifest_verifies(m: MediaManifest, data: Option<Seq<u8>>) -> Option<bool> {
    match data {
        None => Some(false),
        Some(bytes) => if bytes.len() != m.file_size {
            Some(false)
        } else if m.sha3_256_hash@ != content_hash_of(bytes) {
            Some(false)
        } else if m.media_type == MediaType::Image && m.pdq_hash is Some {
            match decode_rgb8(bytes) {
                Some(d) => Some(m.pdq_hash->Some_0@ == pdq_chars(d.0, d.1, d.2)),
                None => None,
            }
        } else {
            Some(true)
        },
    }
}

impl MediaManifest {
    /// Creates a new manifest from a file's identity and the hashes already
    /// derived for it. The caller supplies size and timestamps, read from the
    /// file it processed.
    pub fn new(
        file_name: String,
        file_size: u64,
        created_at: String,
        modified_at: String,
        media_type: MediaType,
        sha3_256_hash: String,
        pdq_hash: Option<String>,
        frames: Option<Vec<FrameInfo>>,
        metadata: Option<serde_json::Value>,
    ) -> (r: MediaManifest)
        ensures
            r.media_type == media_type,
            r.file_name == file_name,
            r.file_size == file_size,
            r.created_at == created_at,
            r.modified_at == modified_at,
            r.sha3_256_hash == sha3_256_hash,
            r.pdq_hash == pdq_hash,
            r.frames == frames,
            r.metadata == metadata,
    {
        MediaManifest {
            media_type,
            file_name,
            file_size,
            created_at,
            modified_at,
            sha3_256_hash,
            pdq_hash,
            frames,
            metadata,
        }
    }

    /// Verifies the integrity of a candidate file against the manifest:
    /// size, content hash, and, for an image with a stored perceptual hash,
    /// the recomputed perceptual hash, short-circuiting on the first
    /// mismatch. A missing file or any mismatch is `Ok(false)`; the only
    /// error is an image whose bytes no longer decode.
    pub fn verify(&self, file: Option<&Vec<u8>>) -> (r: Result<bool, AppError>)
        ensures
            match r {
                Ok(b) => manifest_verifies(*self, file_view(file)) == Some(b),
                Err(e) => manifest_verifies(*self, file_view(file)) is None && e is Image,
            },
    {
        let data = match file {
            None => {
                return Ok(false);
            },
            Some(data) => data,
        };
        if data.len() as u64 != self.file_size {
            return Ok(false);
        }
        let file_hash = compute_file_hash(data.as_slice());
        if file_hash != self.sha3_256_hash {
            return Ok(false);
        }
        if self.media_type == MediaType::Image {
            if let Some(expected) = &self.pdq_hash {
                match decode_image_rgb8(data.as_slice()) {
                    Ok(raster) => {
                        let computed = crate::hash::compute_pdq_hash(&raster);
                        return Ok(*expected == computed);
                    },
                    Err(msg) => {
                        return Err(AppError::Image(msg));
                    },
                }
            }
        }
        Ok(true)
    }
}

/// Tamper detection, as far as it is a matter of the recorded values: a
/// candidate whose size differs from the recorded one, or whose content hash
/// differs from the recorded one, never verifies as Valid. That changing one
/// byte changes the hash is collision resistance of the digest algorithm,
/// exercised by tests, not stated here.
pub proof fn lemma_tamper_detected(m: MediaManifest, data: Seq<u8>)
    requires
        m.file_size != data.len() || m.sha3_256_hash@ != content_hash_of(data),
    ensures
        manifest_verifies(m, Some(data)) != Some(true),
{
}

/// Verification round-trip: a manifest whose size and content hash were
/// derived from the very bytes now being verified, and whose perceptual hash
/// (for an image) was derived from those bytes' decoded raster, always
/// verifies as Valid against those bytes.
pub proof fn lemma_verify_round_trip(m: MediaManifest, data: Seq<u8>)
    requires
        m.file_size == data.len(),
        m.sha3_256_hash@ == content_hash_of(data),
        m.media_type == MediaType::Image && m.pdq_hash is Some ==> {
            &&& decode_rgb8(data) is Some
            &&& m.pdq_hash->Some_0@ == pdq_chars(
                decode_rgb8(data)->Some_0.0,
                decode_rgb8(data)->Some_0.1,
                decode_rgb8(data)->Some_0.2,
            )
        },
    ensures
        manifest_verifies(m, Some(data)) == Some(true),
{
}

} // verus!
