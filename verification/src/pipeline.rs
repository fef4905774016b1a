//! The processing pipeline: classify a file by extension, resolve upload
//! parameters to their defaults, and build a manifest for an image, a video,
//! or any other file from its bytes and decoded frames.

use vstd::prelude::*;

use crate::error::AppError;
use crate::hash::{compute_pdq_hash, compute_sha3_256, content_hash_of, pdq_chars};
use crate::manifest::{FrameInfo, MediaManifest, MediaType};
use crate::raster::{decode_image_rgb8, decode_rgb8, Raster};
use crate::utils::extension_allowed;

verus! {

/// The extensions classified as images.
pub open spec fn image_extension_views() -> Seq<Seq<char>> {
    seq!["jpg"@, "jpeg"@, "png"@, "gif"@, "bmp"@, "webp"@]
}

/// The extensions classified as videos.
pub open spec fn video_extension_views() -> Seq<Seq<char>> {
    seq!["mp4"@, "avi"@, "mov"@, "mkv"@, "webm"@]
}

/// The media type a file name classifies as, by its extension, compared
/// case-insensitively over ASCII.
pub open spec fn media_type_of(name: Seq<char>) -> MediaType {
    if extension_allowed(name, image_extension_views()) {
        MediaType::Image
    } else if extension_allowed(name, video_extension_views()) {
        MediaType::Video
    } else {
        MediaType::Other
    }
}

/// Classifies a file by its name's extension: known image extensions are
/// `Image`, known video extensions are `Video`, everything else `Other`.
pub fn media_type_for(file_name: &str) -> (t: MediaType)
    ensures
        t == media_type_of(file_name@),
{
    let mut image_exts: Vec<&str> = Vec::new();
    image_exts.push("jpg");
    image_exts.push("jpeg");
    image_exts.push("png");
    image_exts.push("gif");
    image_exts.push("bmp");
    image_exts.push("webp");
    proof {
        assert(image_exts@.map_values(|e: &str| e@) =~= image_extension_views());
    }
    if crate::utils::validate_file_extension(file_name, image_exts.as_slice()) {
        return MediaType::Image;
    }
    let mut video_exts: Vec<&str> = Vec::new();
    video_exts.push("mp4");
    video_exts.push("avi");
    video_exts.push("mov");
    video_exts.push("mkv");
    video_exts.push("webm");
    proof {
        assert(video_exts@.map_values(|e: &str| e@) =~= video_extension_views());
    }
    if crate::utils::validate_file_extension(file_name, video_exts.as_slice()) {
        return MediaType::Video;
    }
    MediaType::Other
}

/// Optional parameters of an upload request.
#[derive(Debug)]
pub struct UploadParams {
    /// Whether image or frame embeddings are requested.
    pub include_embeddings: Option<bool>,
    /// Seconds between sampled frames, in milliseconds; video only.
    pub frame_interval_millis: Option<u64>,
    /// Cap on the number of processed frames; video only.
    pub max_frames: Option<usize>,
    /// Whether frame extraction is enabled at all; video only.
    pub extract_frames: Option<bool>,
}

impl Default for UploadParams {
    /// All parameters left unspecified.
    fn default() -> (r: UploadParams)
        ensures
            r.include_embeddings is None,
            r.frame_interval_millis is None,
            r.max_frames is None,
            r.extract_frames is None,
    {
        UploadParams {
            include_embeddings: None,
            frame_interval_millis: None,
            max_frames: None,
            extract_frames: None,
        }
    }
}

/// Upload parameters with their defaults filled in.
#[derive(Debug)]
pub struct ResolvedUploadParams {
    /// Whether embeddings are requested; defaults to off.
    pub include_embeddings: bool,
    /// The sampling interval in milliseconds; positive, defaults to one
    /// second.
    pub frame_interval_millis: u64,
    /// Cap on the number of processed frames, if any.
    pub max_frames: Option<usize>,
    /// Whether frame extraction is enabled; defaults to on.
    pub extract_frames: bool,
}

/// Resolves upload parameters to their defaults: embeddings off, a one-second
/// sampling interval (also where a non-positive interval was requested), no
/// frame cap, extraction on.
pub fn resolve_upload_params(params: &UploadParams) -> (r: ResolvedUploadParams)
    ensures
        r.include_embeddings == match params.include_embeddings {
            Some(b) => b,
            None => false,
        },
        r.frame_interval_millis == match params.frame_interval_millis {
            Some(v) => if v > 0 {
                v as int
            } else {
                1000int
            },
            None => 1000int,
        },
        r.frame_interval_millis > 0,
        r.max_frames == params.max_frames,
        r.extract_frames == match params.extract_frames {
            Some(b) => b,
            None => true,
        },
{
    let include_embeddings = match params.include_embeddings {
        Some(b) => b,
        None => false,
    };
    let frame_interval_millis = match params.frame_interval_millis {
        Some(v) => if v > 0 {
            v
        } else {
            1000
        },
        None => 1000,
    };
    let extract_frames = match params.extract_frames {
        Some(b) => b,
        None => true,
    };
    ResolvedUploadParams {
        include_embeddings,
        frame_interval_millis,
        max_frames: params.max_frames,
        extract_frames,
    }
}

/// Relies on chrono::Utc::now and DateTime::to_rfc3339: the current time in
/// RFC 3339 form. Nothing is promised of it; manifests carry it as an opaque
/// timestamp.
#[verifier::external_body]
fn now_rfc3339() -> String {
    chrono::Utc::now().to_rfc3339()
}

/// Processes an image file's bytes into a manifest: the content hash of the
/// bytes and the perceptual hash of the decoded raster. Bytes that do not
/// decode as an image are an error; nothing is partially emitted.
pub fn process_image(file_name: String, data: &[u8], metadata: Option<serde_json::Value>) -> (r:
    Result<MediaManifest, AppError>)
    ensures
        match r {
            Ok(m) => {
                &&& decode_rgb8(data@) is Some
                &&& m.media_type == MediaType::Image
                &&& m.file_name == file_name
                &&& m.file_size == data@.len()
                &&& m.sha3_256_hash@ == content_hash_of(data@)
                &&& m.pdq_hash is Some
                &&& m.pdq_hash->Some_0@ == pdq_chars(
                    decode_rgb8(data@)->Some_0.0,
                    decode_rgb8(data@)->Some_0.1,
                    decode_rgb8(data@)->Some_0.2,
                )
                &&& m.frames is None
                &&& m.metadata == metadata
                &&& m.created_at == m.modified_at
            },
            Err(e) => decode_rgb8(data@) is None && e is Image,
        },
{
    let sha3_hash = compute_sha3_256(data);
    let raster = match decode_image_rgb8(data) {
        Ok(raster) => raster,
        Err(msg) => {
            return Err(AppError::Image(msg));
        },
    };
    let pdq_hash = compute_pdq_hash(&raster);
    let now = now_rfc3339();
    Ok(
        MediaManifest::new(
            file_name,
            data.len() as u64,
            now.clone(),
            now,
            MediaType::Image,
            sha3_hash,
            Some(pdq_hash),
            None,
            metadata,
        ),
    )
}

/// The number of frames kept under an optional cap.
pub open spec fn capped_len(len: nat, cap: Option<usize>) -> nat {
    match cap {
        Some(c) => if (c as nat) < len {
            c as nat
        } else {
            len
        },
        None => len,
    }
}

/// Processes a video file's bytes and its already-decoded sampled frames into
/// a manifest: the content hash of the bytes and, per kept frame, its
/// perceptual hash and its timestamp, consecutive multiples of the sampling
/// interval. An optional cap truncates the frame records, never the hashes.
pub fn process_video_file(
    file_name: String,
    data: &[u8],
    frames: &Vec<Raster>,
    interval_millis: u64,
    max_frames: Option<usize>,
    metadata: Option<serde_json::Value>,
) -> (r: Result<MediaManifest, AppError>)
    requires
        interval_millis > 0,
        frames@.len() * interval_millis <= u64::MAX,
    ensures
        r is Ok,
        ({
            let m = r->Ok_0;
            let recs = m.frames->Some_0@;
            &&& m.media_type == MediaType::Video
            &&& m.file_name == file_name
            &&& m.file_size == data@.len()
            &&& m.sha3_256_hash@ == content_hash_of(data@)
            &&& m.pdq_hash is None
            &&& m.frames is Some
            &&& recs.len() == capped_len(frames@.len(), max_frames)
            &&& forall|i: int|
                0 <= i < recs.len() ==> #[trigger] recs[i].timestamp_millis == i * interval_millis
            &&& forall|i: int|
                0 <= i < recs.len() ==> #[trigger] recs[i].pdq_hash@ == pdq_chars(
                    frames@[i].width,
                    frames@[i].height,
                    frames@[i].pixels@,
                )
            &&& forall|i: int, j: int|
                0 <= i < j < recs.len() ==> recs[i].timestamp_millis < recs[j].timestamp_millis
            &&& m.metadata == metadata
            &&& m.created_at == m.modified_at
        }),
{
    let sha3_hash = compute_sha3_256(data);
    let len = frames.len();
    let n: usize = match max_frames {
        Some(c) => if c < len {
            c
        } else {
            len
        },
        None => len,
    };
    let mut infos: Vec<FrameInfo> = Vec::new();
    let mut i: usize = 0;
    while i < n
        invariant
            i <= n <= len,
            len == frames@.len(),
            interval_millis > 0,
            len * interval_millis <= u64::MAX,
            infos@.len() == i,
            forall|t: int|
                0 <= t < i ==> #[trigger] infos@[t].timestamp_millis == t * interval_millis,
            forall|t: int|
                0 <= t < i ==> #[trigger] infos@[t].pdq_hash@ == pdq_chars(
                    frames@[t].width,
                    frames@[t].height,
                    frames@[t].pixels@,
                ),
        decreases n - i,
    {
        proof {
            assert(i * interval_millis <= len * interval_millis) by (nonlinear_arith)
                requires
                    0 <= i <= len,
                    interval_millis >= 0,
            ;
        }
        let ts = (i as u64) * interval_millis;
        let pdq = compute_pdq_hash(&frames[i]);
        infos.push(FrameInfo { timestamp_millis: ts, pdq_hash: pdq });
        i = i + 1;
    }
    proof {
        assert forall|a: int, b: int|
            0 <= a < b < infos@.len() implies infos@[a].timestamp_millis
            < infos@[b].timestamp_millis by {
            assert(a * interval_millis < b * interval_millis) by (nonlinear_arith)
                requires
                    0 <= a < b,
                    interval_millis > 0,
            ;
        }
    }
    let now = now_rfc3339();
    Ok(
        MediaManifest::new(
            file_name,
            data.len() as u64,
            now.clone(),
            now,
            MediaType::Video,
            sha3_hash,
            None,
            Some(infos),
            metadata,
        ),
    )
}

/// Processes a file of any other type into an identity-only manifest: name,
/// size and content hash, no fingerprint and no frames.
pub fn process_other_file(file_name: String, data: &[u8], metadata: Option<serde_json::Value>)
    -> (m: MediaManifest)
    ensures
        m.media_type == MediaType::Other,
        m.file_name == file_name,
        m.file_size == data@.len(),
        m.sha3_256_hash@ == content_hash_of(data@),
        m.pdq_hash is None,
        m.frames is None,
        m.metadata == metadata,
        m.created_at == m.modified_at,
{
    let sha3_hash = compute_sha3_256(data);
    let now = now_rfc3339();
    MediaManifest::new(
        file_name,
        data.len() as u64,
        now.clone(),
        now,
        MediaType::Other,
        sha3_hash,
        None,
        None,
        metadata,
    )
}

/// Fingerprint stability: two encodings (for instance, two lossless
/// compressions) that decode to the same raster have the same perceptual
/// hash.
pub proof fn lemma_fingerprint_stability(e1: Seq<u8>, e2: Seq<u8>)
    requires
        decode_rgb8(e1) == decode_rgb8(e2),
        decode_rgb8(e1) is Some,
    ensures
        pdq_chars(
            decode_rgb8(e1)->Some_0.0,
            decode_rgb8(e1)->Some_0.1,
            decode_rgb8(e1)->Some_0.2,
        ) == pdq_chars(
            decode_rgb8(e2)->Some_0.0,
            decode_rgb8(e2)->Some_0.1,
            decode_rgb8(e2)->Some_0.2,
        ),
{
}

} // verus!
