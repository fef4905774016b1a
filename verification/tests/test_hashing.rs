use imagechain::hash::{compute_file_hash, compute_pdq_hash, compute_sha3_256, sha3_256};
use imagechain::raster::Raster;

// Conformance vector: SHA3-256 of the ASCII bytes "test content", stable
// across runs and across the streaming and one-shot entry points.
const TEST_CONTENT_HASH: &str = "d87ca20fb47b105c59e46a63a86193a546b980991c86115a08da820304450b9d";

#[test]
fn content_hash_pinned_vector() {
    let data = b"test content";
    let hash = compute_sha3_256(data);
    assert_eq!(hash.len(), 64);
    assert_eq!(hash, TEST_CONTENT_HASH);
    assert_eq!(compute_file_hash(data), TEST_CONTENT_HASH);
    assert_eq!(sha3_256(data), TEST_CONTENT_HASH);
}

#[test]
fn content_hash_empty_input() {
    // SHA3-256 of the empty byte string
    let expected = "a7ffc6f8bf1ed76651c14756a061d662f580ff4de43b49fa82d80a4b80f8434a";
    assert_eq!(compute_file_hash(b""), expected);
    assert_eq!(compute_sha3_256(b""), expected);
}

#[test]
fn content_hash_chunked_matches_one_shot() {
    // More than two 1 KiB chunks, with a partial final chunk
    let mut data: Vec<u8> = Vec::new();
    for i in 0..3000usize {
        data.push((i % 251) as u8);
    }
    assert_eq!(compute_file_hash(&data), compute_sha3_256(&data));
}

#[test]
fn content_hash_differs_on_one_byte() {
    let a = b"test content".to_vec();
    let mut b = a.clone();
    b[0] ^= 1;
    assert_ne!(compute_file_hash(&a), compute_file_hash(&b));
}

#[test]
fn pdq_hash_pinned_vector() {
    // The 2x2 gradient raster: rows of (0,0,128), (127,0,128) then
    // (0,127,128), (127,127,128)
    let raster = Raster {
        width: 2,
        height: 2,
        pixels: vec![0, 0, 128, 127, 0, 128, 0, 127, 128, 127, 127, 128],
    };
    let hash = compute_pdq_hash(&raster);
    assert_eq!(hash.len(), 64);
    assert_eq!(
        hash,
        "0000000000000000000000000000000000000000000001111010110001111010"
    );
}

#[test]
fn pdq_hash_is_binary_string() {
    let raster = Raster {
        width: 1,
        height: 1,
        pixels: vec![9, 8, 7],
    };
    let hash = compute_pdq_hash(&raster);
    assert_eq!(hash.len(), 64);
    assert!(hash.chars().all(|c| c == '0' || c == '1'));
}

#[test]
fn pdq_hash_empty_raster() {
    // A degenerate raster with no pixels still yields a fixed-length hash
    let raster = Raster {
        width: 0,
        height: 0,
        pixels: Vec::new(),
    };
    let hash = compute_pdq_hash(&raster);
    assert_eq!(hash.len(), 64);
}

#[test]
fn pdq_hash_depends_on_dimensions() {
    let a = Raster {
        width: 4,
        height: 1,
        pixels: vec![1, 2, 3, 4, 5, 6, 7, 8, 9, 10, 11, 12],
    };
    let b = Raster {
        width: 1,
        height: 4,
        pixels: vec![1, 2, 3, 4, 5, 6, 7, 8, 9, 10, 11, 12],
    };
    assert_ne!(compute_pdq_hash(&a), compute_pdq_hash(&b));
}
