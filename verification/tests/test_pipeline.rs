use imagechain::hash::{compute_file_hash, compute_pdq_hash};
use imagechain::manifest::{MediaManifest, MediaType};
use imagechain::pipeline::{
    media_type_for, process_image, process_other_file, process_video_file, resolve_upload_params,
    UploadParams,
};
use imagechain::raster::Raster;

fn gradient_image() -> image::DynamicImage {
    let mut img = image::RgbImage::new(10, 10);
    for (x, y, pixel) in img.enumerate_pixels_mut() {
        *pixel = image::Rgb([(x * 25) as u8, (y * 25) as u8, 128]);
    }
    image::DynamicImage::ImageRgb8(img)
}

fn encode(img: &image::DynamicImage, format: image::ImageOutputFormat) -> Vec<u8> {
    let mut buf: Vec<u8> = Vec::new();
    let mut cursor = std::io::Cursor::new(&mut buf);
    img.write_to(&mut cursor, format).unwrap();
    buf
}

#[test]
fn image_round_trip_verifies() {
    let png = encode(&gradient_image(), image::ImageOutputFormat::Png);
    let manifest = process_image("g.png".to_string(), &png, None).unwrap();
    assert_eq!(manifest.media_type, MediaType::Image);
    assert_eq!(manifest.file_size, png.len() as u64);
    assert!(manifest.pdq_hash.is_some());
    assert!(manifest.frames.is_none());
    assert_eq!(manifest.verify(Some(&png)).unwrap(), true);
}

#[test]
fn tampered_byte_fails_verification() {
    let png = encode(&gradient_image(), image::ImageOutputFormat::Png);
    let manifest = process_image("g.png".to_string(), &png, None).unwrap();
    let mut tampered = png.clone();
    let mid = tampered.len() / 2;
    tampered[mid] ^= 1;
    assert_eq!(manifest.verify(Some(&tampered)).unwrap(), false);
}

#[test]
fn missing_file_is_invalid_not_error() {
    let png = encode(&gradient_image(), image::ImageOutputFormat::Png);
    let manifest = process_image("g.png".to_string(), &png, None).unwrap();
    assert_eq!(manifest.verify(None).unwrap(), false);
}

#[test]
fn size_mismatch_fails_verification() {
    let png = encode(&gradient_image(), image::ImageOutputFormat::Png);
    let manifest = process_image("g.png".to_string(), &png, None).unwrap();
    let mut truncated = png.clone();
    truncated.pop();
    assert_eq!(manifest.verify(Some(&truncated)).unwrap(), false);
}

#[test]
fn fingerprint_stable_across_lossless_encodings() {
    let img = gradient_image();
    let png = encode(&img, image::ImageOutputFormat::Png);
    let bmp = encode(&img, image::ImageOutputFormat::Bmp);
    assert_ne!(png, bmp);
    let m1 = process_image("g.png".to_string(), &png, None).unwrap();
    let m2 = process_image("g.bmp".to_string(), &bmp, None).unwrap();
    assert_ne!(m1.sha3_256_hash, m2.sha3_256_hash);
    assert_eq!(m1.pdq_hash, m2.pdq_hash);
}

#[test]
fn undecodable_image_is_an_error() {
    let result = process_image("x.png".to_string(), b"not an image", None);
    assert!(matches!(
        result,
        Err(imagechain::error::AppError::Image(_))
    ));
}

#[test]
fn verify_errors_on_undecodable_stored_image() {
    // Size and content hash match, so verification reaches the perceptual
    // re-derivation; the bytes are no image, which is the one hard error.
    let data = b"test content".to_vec();
    let manifest = MediaManifest::new(
        "x.png".to_string(),
        data.len() as u64,
        String::new(),
        String::new(),
        MediaType::Image,
        compute_file_hash(&data),
        Some("0".repeat(64)),
        None,
        None,
    );
    assert!(matches!(
        manifest.verify(Some(&data)),
        Err(imagechain::error::AppError::Image(_))
    ));
}

#[test]
fn video_manifest_frames_and_timestamps() {
    let frames = vec![
        Raster { width: 2, height: 2, pixels: vec![0u8; 12] },
        Raster { width: 2, height: 2, pixels: vec![255u8; 12] },
        Raster { width: 2, height: 2, pixels: vec![7u8; 12] },
    ];
    let data = b"fake video bytes";
    let manifest =
        process_video_file("v.mp4".to_string(), data, &frames, 1000, None, None).unwrap();
    assert_eq!(manifest.media_type, MediaType::Video);
    assert_eq!(manifest.file_size, data.len() as u64);
    assert!(manifest.pdq_hash.is_none());
    let recs = manifest.frames.as_ref().unwrap();
    assert_eq!(recs.len(), 3);
    for (i, rec) in recs.iter().enumerate() {
        assert_eq!(rec.timestamp_millis, i as u64 * 1000);
        assert_eq!(rec.pdq_hash, compute_pdq_hash(&frames[i]));
    }
    // Strictly increasing timestamps
    assert!(recs.windows(2).all(|w| w[0].timestamp_millis < w[1].timestamp_millis));
}

#[test]
fn video_manifest_frame_cap_truncates() {
    let frames = vec![
        Raster { width: 1, height: 1, pixels: vec![1, 2, 3] },
        Raster { width: 1, height: 1, pixels: vec![4, 5, 6] },
        Raster { width: 1, height: 1, pixels: vec![7, 8, 9] },
    ];
    let manifest =
        process_video_file("v.mp4".to_string(), b"bytes", &frames, 500, Some(2), None).unwrap();
    assert_eq!(manifest.frames.as_ref().unwrap().len(), 2);
}

#[test]
fn other_file_gets_identity_manifest() {
    let data = b"just some text";
    let manifest = process_other_file("notes.txt".to_string(), data, None);
    assert_eq!(manifest.media_type, MediaType::Other);
    assert_eq!(manifest.file_size, data.len() as u64);
    assert_eq!(manifest.sha3_256_hash, compute_file_hash(data));
    assert!(manifest.pdq_hash.is_none());
    assert!(manifest.frames.is_none());
}

#[test]
fn media_type_classification() {
    assert_eq!(media_type_for("photo.jpg"), MediaType::Image);
    assert_eq!(media_type_for("photo.WEBP"), MediaType::Image);
    assert_eq!(media_type_for("clip.mp4"), MediaType::Video);
    assert_eq!(media_type_for("clip.MOV"), MediaType::Video);
    assert_eq!(media_type_for("notes.txt"), MediaType::Other);
    assert_eq!(media_type_for("no_extension"), MediaType::Other);
    assert_eq!(media_type_for(".hidden"), MediaType::Other);
    // Classification reads the final path component
    assert_eq!(media_type_for("dir/clip.mp4"), MediaType::Video);
    assert_eq!(media_type_for("dir/.jpg"), MediaType::Other);
    assert_eq!(media_type_for("photo.png/"), MediaType::Image);
}

#[test]
fn upload_params_defaults() {
    let params = UploadParams::default();
    let resolved = resolve_upload_params(&params);
    assert_eq!(resolved.include_embeddings, false);
    assert_eq!(resolved.frame_interval_millis, 1000);
    assert_eq!(resolved.max_frames, None);
    assert_eq!(resolved.extract_frames, true);
}

#[test]
fn upload_params_zero_interval_falls_back() {
    let params = UploadParams {
        include_embeddings: Some(true),
        frame_interval_millis: Some(0),
        max_frames: Some(5),
        extract_frames: Some(false),
    };
    let resolved = resolve_upload_params(&params);
    assert_eq!(resolved.include_embeddings, true);
    assert_eq!(resolved.frame_interval_millis, 1000);
    assert_eq!(resolved.max_frames, Some(5));
    assert_eq!(resolved.extract_frames, false);
}

#[test]
fn manifest_carries_metadata_value() {
    let metadata = serde_json::Value::String("frame_interval_millis=1000".to_string());
    let data = b"content";
    let manifest = process_other_file("m.bin".to_string(), data, Some(metadata.clone()));
    assert_eq!(manifest.metadata, Some(metadata));
}
