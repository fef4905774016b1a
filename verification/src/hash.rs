//! Cryptographic content hashing and the perceptual fingerprint.
//!
//! The content hash is the SHA3-256 digest of a byte stream, rendered as 64
//! lowercase hexadecimal characters. The digest itself comes from the `sha3`
//! crate behind trusted wrappers; feeding the stream in bounded chunks and the
//! hexadecimal rendering are verified here.
//!
//! The perceptual fingerprint reduces an RGB8 raster to a 64-bit word by
//! XOR-accumulating a dimension seed with evenly spaced pixel samples, then
//! renders it as a 64-character binary string, most significant bit first.

use vstd::prelude::*;
use vstd::slice::slice_subrange;

use crate::raster::Raster;
use crate::text::{hex_of, push_char, to_hex};

verus! {

/// The SHA3-256 digest (32 bytes) of a byte sequence. The digest is a pure
/// function of the bytes; its value is given only by the trusted wrappers
/// around the `sha3` crate.
pub uninterp spec fn sha3_digest(data: Seq<u8>) -> Seq<u8>;

/// The byte stream a `ContentHasher` has absorbed so far.
pub uninterp spec fn absorbed(h: ContentHasher) -> Seq<u8>;

/// Streaming SHA3-256 state. The hasher of the `sha3` crate cannot be declared
/// to the verifier (its type is a generic wrapper), so it sits in a hidden
/// field and the absorbed stream is tracked through `absorbed`.
#[verifier::external_body]
pub struct ContentHasher {
    inner: sha3::Sha3_256,
}

impl ContentHasher {
    /// Relies on sha3::Sha3_256 via Digest::new: a fresh hasher has absorbed
    /// nothing.
    #[verifier::external_body]
    pub(crate) fn new() -> (r: ContentHasher)
        ensures
            absorbed(r) == Seq::<u8>::empty(),
    {
        ContentHasher { inner: <sha3::Sha3_256 as sha3::Digest>::new() }
    }

    /// Relies on Digest::update: processing data appends it to the absorbed
    /// stream.
    #[verifier::external_body]
    pub(crate) fn update(&mut self, data: &[u8])
        ensures
            absorbed(*final(self)) == absorbed(*old(self)) + data@,
    {
        sha3::Digest::update(&mut self.inner, data);
    }

    /// Relies on Digest::finalize: returns the 32-byte SHA3-256 digest of the
    /// absorbed stream.
    #[verifier::external_body]
    pub(crate) fn finalize(self) -> (r: Vec<u8>)
        ensures
            r@ == sha3_digest(absorbed(self)),
            r@.len() == 32,
    {
        sha3::Digest::finalize(self.inner).to_vec()
    }
}

/// The content hash of a byte stream: its SHA3-256 digest in lowercase
/// hexadecimal.
pub open spec fn content_hash_of(data: Seq<u8>) -> Seq<char> {
    hex_of(sha3_digest(data))
}

/// The content hash is a pure function of the bytes: byte-identical inputs
/// have identical content hashes, in every run.
pub proof fn lemma_content_hash_deterministic(a: Seq<u8>, b: Seq<u8>)
    requires
        a == b,
    ensures
        content_hash_of(a) == content_hash_of(b),
{
}

/// Computes the SHA3-256 content hash of a file's bytes, consuming them in
/// bounded 1 KiB chunks.
pub fn compute_file_hash(data: &[u8]) -> (r: String)
    ensures
        r@ == content_hash_of(data@),
        r@.len() == 64,
{
    let n = data.len();
    let mut hasher = ContentHasher::new();
    let mut offset: usize = 0;
    while offset < n
        invariant
            n == data@.len(),
            offset <= n,
            absorbed(hasher) == data@.subrange(0, offset as int),
        decreases n - offset,
    {
        let end = if n - offset < 1024 {
            n
        } else {
            offset + 1024
        };
        let chunk = slice_subrange(data, offset, end);
        hasher.update(chunk);
        proof {
            assert(data@.subrange(0, offset as int) + data@.subrange(offset as int, end as int)
                =~= data@.subrange(0, end as int));
        }
        offset = end;
    }
    proof {
        assert(data@.subrange(0, n as int) =~= data@);
    }
    let digest = hasher.finalize();
    let r = to_hex(digest.as_slice());
    r
}

/// Computes the SHA3-256 content hash of byte data in one pass.
pub fn compute_sha3_256(data: &[u8]) -> (r: String)
    ensures
        r@ == content_hash_of(data@),
        r@.len() == 64,
{
    let mut hasher = ContentHasher::new();
    hasher.update(data);
    proof {
        assert(Seq::<u8>::empty() + data@ =~= data@);
    }
    let digest = hasher.finalize();
    to_hex(digest.as_slice())
}

/// Alias for `compute_file_hash`, kept for callers of the older name.
pub fn sha3_256(data: &[u8]) -> (r: String)
    ensures
        r@ == content_hash_of(data@),
        r@.len() == 64,
{
    compute_file_hash(data)
}

/// The sampling stride over a pixel buffer: one sixty-fourth of its length,
/// but at least one.
pub open spec fn pdq_stride(len: nat) -> nat {
    if len / 64 < 1 {
        1
    } else {
        len / 64
    }
}

/// The dimension seed of the fingerprint: width XORed with height shifted
/// sixteen bits up.
pub open spec fn pdq_seed(width: u32, height: u32) -> u64 {
    (width as u64) ^ ((height as u64) << 16u64)
}

/// XOR-accumulates up to 64 pixel samples, one every `stride` bytes, starting
/// from sample index `i` with accumulator `acc`.
pub open spec fn pdq_fold(pixels: Seq<u8>, stride: nat, i: nat, acc: u64) -> u64
    decreases 64 - i when i <= 64
{
    if i >= 64 || i * stride >= pixels.len() {
        acc
    } else {
        pdq_fold(pixels, stride, i + 1, acc ^ ((pixels[(i * stride) as int] as u64) << (i as u64)))
    }
}

/// The 64-bit perceptual fingerprint of an RGB8 raster.
pub open spec fn pdq_hash_u64(width: u32, height: u32, pixels: Seq<u8>) -> u64 {
    pdq_fold(pixels, pdq_stride(pixels.len()), 0, pdq_seed(width, height))
}

/// One character of the binary rendering of `v`: position 0 is the most
/// significant bit.
pub open spec fn bit_char(v: u64, i: int) -> char {
    if (v >> ((63 - i) as u64)) & 1 == 1 {
        '1'
    } else {
        '0'
    }
}

/// The 64-character binary rendering of a 64-bit word, most significant bit
/// first.
pub open spec fn binary_chars(v: u64) -> Seq<char> {
    Seq::new(64, |i: int| bit_char(v, i))
}

/// The perceptual fingerprint of an RGB8 raster as a 64-character string of
/// '0' and '1'.
pub open spec fn pdq_chars(width: u32, height: u32, pixels: Seq<u8>) -> Seq<char> {
    binary_chars(pdq_hash_u64(width, height, pixels))
}

/// Renders a 64-bit word as 64 binary characters, most significant bit first.
fn to_binary_string(v: u64) -> (r: String)
    ensures
        r@ == binary_chars(v),
        r@.len() == 64,
{
    let mut r = String::new();
    let mut i: usize = 0;
    while i < 64
        invariant
            i <= 64,
            r@.len() == i,
            forall|j: int| 0 <= j < i ==> r@[j] == bit_char(v, j),
        decreases 64 - i,
    {
        let shift: u64 = 63 - (i as u64);
        let c = if (v >> shift) & 1 == 1 {
            '1'
        } else {
            '0'
        };
        push_char(&mut r, c);
        i = i + 1;
    }
    proof {
        assert(r@ =~= binary_chars(v));
    }
    r
}

/// Computes the perceptual fingerprint of a decoded RGB8 raster: a dimension
/// seed XOR-accumulated with up to 64 evenly spaced pixel samples, rendered
/// as a 64-character binary string, most significant bit first.
pub fn compute_pdq_hash(raster: &Raster) -> (r: String)
    ensures
        r@ == pdq_chars(raster.width, raster.height, raster.pixels@),
        r@.len() == 64,
{
    let n = raster.pixels.len();
    let stride: usize = if n / 64 < 1 {
        1
    } else {
        n / 64
    };
    proof {
        assert(stride == pdq_stride(raster.pixels@.len()));
        assert(63 * stride < usize::MAX) by (nonlinear_arith)
            requires
                stride == (if n / 64 < 1 { 1nat } else { n as nat / 64 }),
                n <= usize::MAX,
        ;
    }
    let seed: u64 = (raster.width as u64) ^ ((raster.height as u64) << 16u64);
    let mut acc: u64 = seed;
    let mut i: usize = 0;
    while i < 64
        invariant_except_break
            i <= 64,
            n == raster.pixels@.len(),
            stride == pdq_stride(raster.pixels@.len()),
            63 * stride < usize::MAX,
            pdq_fold(raster.pixels@, stride as nat, i as nat, acc) == pdq_hash_u64(
                raster.width,
                raster.height,
                raster.pixels@,
            ),
        ensures
            acc == pdq_hash_u64(raster.width, raster.height, raster.pixels@),
        decreases 64 - i,
    {
        proof {
            assert(i * stride <= 63 * stride) by (nonlinear_arith)
                requires
                    i <= 63,
                    stride >= 1,
            ;
        }
        let j = i * stride;
        if j >= n {
            proof {
                assert(pdq_fold(raster.pixels@, stride as nat, i as nat, acc) == acc);
            }
            break ;
        }
        let sample = raster.pixels[j];
        acc = acc ^ ((sample as u64) << (i as u64));
        i = i + 1;
    }
    to_binary_string(acc)
}

} // verus!
