//! Frame deduplication: a 64-bit average hash of an 8x8 grayscale thumbnail,
//! a pixel-delta score between successive grayscale thumbnails, and the
//! decision whether a frame repeats the previous one.
//!
//! Ratios are kept exact: a delta score is `diff / scale` (`scale` is the
//! largest possible difference), and the delta threshold is given in parts
//! per ten thousand.
use vstd::prelude::*;
use vstd::arithmetic::power2::{lemma2_to64, lemma2_to64_rest, lemma_pow2_unfold, pow2};
use vstd::bytes::{
    lemma_auto_spec_u64_to_from_le_bytes, spec_u64_from_le_bytes, spec_u64_to_le_bytes,
    u64_from_le_bytes, u64_to_le_bytes,
};
use base64::Engine;

verus! {

/// A captured frame: `width` x `height` pixels of 8-bit RGBA, row by row.
pub struct FrameImage {
    pub width: u32,
    pub height: u32,
    pub rgba: Vec<u8>,
}

/// The pixel bytes are exactly those of a `width` x `height` RGBA image.
pub open spec fn frame_fits(f: FrameImage) -> bool {
    f.rgba@.len() == f.width as int * f.height as int * 4
}

/// The intermediate buffers of a resize of `f` to `size` x `size` can be
/// allocated: `width * size` and `size * size` float RGBA pixels, 16 bytes
/// each, stay within `isize::MAX` bytes.
pub open spec fn frame_resizable(f: FrameImage, size: u32) -> bool {
    &&& f.width as int * size as int * 16 <= isize::MAX
    &&& size as int * size as int * 16 <= isize::MAX
}

/// The `size` x `size` 8-bit grayscale thumbnail of an RGBA image, as
/// `image` computes it (`resize_exact` with nearest-neighbour sampling,
/// then `to_luma8`), row by row.
pub uninterp spec fn luma_thumbnail_of(width: u32, height: u32, rgba: Seq<u8>, size: u32) -> Seq<u8>;

/// Builds an `RgbaImage` from the frame's bytes (`ImageBuffer::from_raw`,
/// which accepts a buffer of exactly the image's size), then calls
/// `DynamicImage::resize_exact(size, size, FilterType::Nearest)`,
/// `to_luma8()` and `into_raw()`. Trusted: the result is `image`'s thumbnail
/// (named `luma_thumbnail_of`), and a `size` x `size` grayscale buffer holds
/// `size * size` bytes. Resizing first samples the columns into an
/// intermediate `width` x `size` image of 32-bit float RGBA, then the rows
/// into a `size` x `size` one; `image` panics when such a buffer's length
/// overflows `usize` or its bytes exceed `isize::MAX`, which
/// `frame_resizable` rules out.
#[verifier::external_body]
fn luma_thumbnail(frame: &FrameImage, size: u32) -> (r: Vec<u8>)
    requires
        frame_fits(*frame),
        frame_resizable(*frame, size),
        0 < size,
    ensures
        r@ == luma_thumbnail_of(frame.width, frame.height, frame.rgba@, size),
        r@.len() == size * size,
{
    match image::RgbaImage::from_raw(frame.width, frame.height, frame.rgba.clone()) {
        Some(img) => image::DynamicImage::ImageRgba8(img)
            .resize_exact(size, size, image::imageops::FilterType::Nearest)
            .to_luma8()
            .into_raw(),
        None => Vec::new(),
    }
}

/// The thumbnail a frame is compared by: empty at size 0 (a zero-sized
/// resize gives an empty buffer), else the grayscale thumbnail.
pub open spec fn delta_thumbnail_of(f: FrameImage, size: u32) -> Seq<u8> {
    if size == 0 {
        Seq::empty()
    } else {
        luma_thumbnail_of(f.width, f.height, f.rgba@, size)
    }
}

/// Standard (padded) base64 encoding of bytes, as `base64::engine::general_purpose::STANDARD` writes it.
pub uninterp spec fn base64_encode(data: Seq<u8>) -> Seq<char>;

/// Standard base64 decoding of text, as the same engine reads it (`None` on error).
pub uninterp spec fn base64_decode(text: Seq<char>) -> Option<Seq<u8>>;

/// Calls `STANDARD.encode`. Trusted: the result is the standard encoding of
/// `data`, and the same engine decodes it back to `data`.
#[verifier::external_body]
pub(crate) fn b64_encode(data: &[u8]) -> (r: String)
    ensures
        r@ == base64_encode(data@),
        base64_decode(r@) == Some(data@),
{
    base64::engine::general_purpose::STANDARD.encode(data)
}

/// Calls `STANDARD.decode`, the error mapped to `None`. Trusted: the result is
/// the standard decoding of `text`.
#[verifier::external_body]
fn b64_decode(text: &str) -> (r: Option<Vec<u8>>)
    ensures
        r matches Some(v) ==> base64_decode(text@) == Some(v@),
        r is None ==> base64_decode(text@) is None,
{
    base64::engine::general_purpose::STANDARD.decode(text).ok()
}

/// Sum of bytes.
pub open spec fn sum_bytes(p: Seq<u8>) -> nat
    decreases p.len(),
{
    if p.len() == 0 {
        0
    } else {
        sum_bytes(p.drop_last()) + p.last() as nat
    }
}

/// Mean pixel value of an 8x8 thumbnail, rounded down.
pub open spec fn mean64(p: Seq<u8>) -> nat {
    sum_bytes(p) / 64
}

/// Sum of `2^i` over the first `n` pixels `i` that are brighter than `mean`.
pub open spec fn bits_above(p: Seq<u8>, mean: nat, n: nat) -> nat
    decreases n,
{
    if n == 0 {
        0
    } else {
        bits_above(p, mean, (n - 1) as nat) + if p[n - 1] > mean {
            pow2((n - 1) as nat)
        } else {
            0
        }
    }
}

/// The average hash of 64 grayscale pixels: bit `i` is set exactly when
/// pixel `i` is brighter than the mean.
pub open spec fn ahash_of(p: Seq<u8>) -> nat {
    bits_above(p, mean64(p), 64)
}

proof fn lemma_bits_above_bound(p: Seq<u8>, mean: nat, n: nat)
    ensures
        bits_above(p, mean, n) < pow2(n),
    decreases n,
{
    if n == 0 {
        lemma2_to64();
    } else {
        lemma_bits_above_bound(p, mean, (n - 1) as nat);
        lemma_pow2_unfold(n);
    }
}

proof fn lemma_sum_bytes_bound(p: Seq<u8>)
    ensures
        sum_bytes(p) <= 255 * p.len(),
    decreases p.len(),
{
    if p.len() > 0 {
        lemma_sum_bytes_bound(p.drop_last());
    }
}

/// Number of set bits among the low `k` bits of `x`.
pub open spec fn popcount(x: nat, k: nat) -> nat
    decreases k,
{
    if k == 0 {
        0
    } else {
        x % 2 + popcount(x / 2, (k - 1) as nat)
    }
}

proof fn lemma_popcount_bound(x: nat, k: nat)
    ensures
        popcount(x, k) <= k,
    decreases k,
{
    if k > 0 {
        lemma_popcount_bound(x / 2, (k - 1) as nat);
    }
}

proof fn lemma_popcount_zero(k: nat)
    ensures
        popcount(0, k) == 0,
    decreases k,
{
    if k > 0 {
        lemma_popcount_zero((k - 1) as nat);
    }
}

/// Custom 64-bit average hash.
#[derive(Debug, Clone, Copy, PartialEq, Eq, Structural)]
pub struct AverageHash {
    pub hash: u64,
}

impl AverageHash {
    /// Compute the average hash of an image (through an 8x8 grayscale thumbnail).
    pub fn compute(image: &FrameImage) -> (r: Self)
        requires
            frame_fits(*image),
            frame_resizable(*image, 8),
        ensures
            r.hash == ahash_of(luma_thumbnail_of(image.width, image.height, image.rgba@, 8)),
    {
        let thumb = luma_thumbnail(image, 8);
        Self::from_pixels(&thumb)
    }

    /// Average hash of 64 grayscale pixels (row-major 8x8 thumbnail).
    pub fn from_pixels(pixels: &Vec<u8>) -> (r: Self)
        requires
            pixels@.len() == 64,
        ensures
            r.hash == ahash_of(pixels@),
    {
        let mut sum: u64 = 0;
        let mut i: usize = 0;
        while i < 64
            invariant
                pixels@.len() == 64,
                i <= 64,
                sum == sum_bytes(pixels@.take(i as int)),
                sum <= 255 * i,
            decreases 64 - i,
        {
            proof {
                assert(pixels@.take(i + 1).drop_last() =~= pixels@.take(i as int));
            }
            sum = sum + pixels[i] as u64;
            i += 1;
        }
        proof {
            assert(pixels@.take(64) =~= pixels@);
        }
        let mean = sum / 64;
        let mut hash: u64 = 0;
        let mut bit: u64 = 1;
        let mut j: usize = 0;
        proof {
            lemma2_to64();
            lemma2_to64_rest();
        }
        while j < 64
            invariant
                pixels@.len() == 64,
                mean == mean64(pixels@),
                j <= 64,
                j < 64 ==> bit == pow2(j as nat),
                hash == bits_above(pixels@, mean as nat, j as nat),
                pow2(63) == 0x8000000000000000,
            decreases 64 - j,
        {
            proof {
                lemma_bits_above_bound(pixels@, mean as nat, j as nat);
                if j + 1 < 64 {
                    lemma_pow2_unfold((j + 1) as nat);
                }
                if j < 63 {
                    lemma_pow2_unfold(63);
                    assert(pow2(j as nat) < pow2(63)) by {
                        vstd::arithmetic::power2::lemma_pow2_strictly_increases(j as nat, 63);
                    }
                }
            }
            if pixels[j] as u64 > mean {
                hash = hash + bit;
            }
            if j < 63 {
                bit = bit * 2;
            }
            j += 1;
        }
        proof {
            lemma_bits_above_bound(pixels@, mean as nat, 64);
        }
        AverageHash { hash }
    }

    /// Hamming distance between two hashes.
    pub fn distance(&self, other: &Self) -> (r: u32)
        ensures
            r == popcount((self.hash ^ other.hash) as nat, 64),
            r <= 64,
    {
        let x = self.hash ^ other.hash;
        let mut v: u64 = x;
        let mut c: u32 = 0;
        let mut i: u32 = 0;
        while i < 64
            invariant
                i <= 64,
                c <= i,
                c + popcount(v as nat, (64 - i) as nat) == popcount(x as nat, 64),
            decreases 64 - i,
        {
            c = c + (v % 2) as u32;
            v = v / 2;
            i += 1;
        }
        proof {
            lemma_popcount_bound(x as nat, 64);
        }
        c
    }

    /// Base64 of the hash's eight little-endian bytes.
    pub fn to_base64(&self) -> (r: String)
        ensures
            r@ == base64_encode(spec_u64_to_le_bytes(self.hash)),
            base64_decode(r@) == Some(spec_u64_to_le_bytes(self.hash)),
    {
        let bytes = u64_to_le_bytes(self.hash);
        b64_encode(bytes.as_slice())
    }

    /// Parse from base64: `None` unless the text decodes to exactly eight bytes.
    pub fn from_base64(s: &str) -> (r: Option<Self>)
        ensures
            r == parse_hash(s@),
    {
        proof {
            lemma_auto_spec_u64_to_from_le_bytes();
        }
        let decoded = b64_decode(s);
        match decoded {
            Some(bytes) => {
                if bytes.len() != 8 {
                    return None;
                }
                let hash = u64_from_le_bytes(bytes.as_slice());
                Some(AverageHash { hash })
            },
            None => None,
        }
    }
}

/// The hash stored in a string: its base64 decoding read as a little-endian
/// `u64`, when it decodes to exactly eight bytes.
pub open spec fn parse_hash(s: Seq<char>) -> Option<AverageHash> {
    match base64_decode(s) {
        Some(b) => if b.len() == 8 {
            Some(AverageHash { hash: spec_u64_from_le_bytes(b) })
        } else {
            None
        },
        None => None,
    }
}

/// Law: a stored hash reads back as the same hash. Any string that decodes
/// to a hash's eight little-endian bytes (as `AverageHash::to_base64` output
/// does, by its contract) parses to that hash.
pub proof fn lemma_hash_string_roundtrip(h: AverageHash, s: Seq<char>)
    requires
        base64_decode(s) == Some(spec_u64_to_le_bytes(h.hash)),
    ensures
        parse_hash(s) == Some(h),
{
    lemma_auto_spec_u64_to_from_le_bytes();
}

/// Configuration for deduplication thresholds.
#[derive(Debug, Clone)]
pub struct DedupConfig {
    /// Hamming distance threshold for the average hash (0-64); lower is stricter.
    pub hash_threshold: u32,
    /// Pixel delta threshold in parts per ten thousand; higher is more tolerant.
    pub delta_threshold_per_10k: u32,
    /// Side of the square thumbnail used for delta computation.
    pub delta_size: u32,
}

impl Default for DedupConfig {
    fn default() -> (r: Self)
        ensures
            r.hash_threshold == 8,
            r.delta_threshold_per_10k == 200,
            r.delta_size == 32,
    {
        DedupConfig { hash_threshold: 8, delta_threshold_per_10k: 200, delta_size: 32 }
    }
}

/// Why a frame was or was not considered a duplicate.
#[derive(Debug, Clone, Copy, PartialEq, Eq, Structural)]
pub enum DedupReason {
    /// First frame, no previous to compare
    FirstFrame,
    /// Hash distance below threshold
    HashSimilar,
    /// Hash different but delta below threshold (noise)
    DeltaSimilar,
    /// Both hash and delta indicate change
    SignificantChange,
    /// Hash similar but delta high (motion blur, cursor)
    MotionNoise,
}

/// A delta score `diff / scale` in `[0, 1]`.
#[derive(Debug, Clone, Copy, PartialEq, Eq, Structural)]
pub struct DeltaScore {
    pub diff: u64,
    pub scale: u64,
}

/// Result of a deduplication check.
#[derive(Debug, Clone)]
pub struct DedupResult {
    /// Whether this frame is a duplicate of the previous
    pub is_duplicate: bool,
    /// Computed perceptual hash
    pub ahash: AverageHash,
    /// Hamming distance from previous hash
    pub hamming_distance: u32,
    /// Pixel delta score
    pub delta_score: DeltaScore,
    /// Reason for the decision
    pub reason: DedupReason,
}

/// Sum of absolute pixel differences between two equally sized thumbnails.
pub open spec fn abs_diff_sum(a: Seq<u8>, b: Seq<u8>) -> nat
    decreases a.len(),
{
    if a.len() == 0 || b.len() == 0 {
        0
    } else {
        abs_diff_sum(a.drop_last(), b.drop_last()) + if a.last() >= b.last() {
            (a.last() - b.last()) as nat
        } else {
            (b.last() - a.last()) as nat
        }
    }
}

/// Delta score of two thumbnails: mean absolute difference over 255; an
/// empty thumbnail counts as completely different.
pub open spec fn delta_of(cur: Seq<u8>, prev: Seq<u8>) -> DeltaScore {
    if cur.len() == 0 {
        DeltaScore { diff: 1, scale: 1 }
    } else {
        DeltaScore { diff: abs_diff_sum(cur, prev) as u64, scale: (cur.len() * 255) as u64 }
    }
}

/// The duplicate decision for a hash distance and a delta score.
pub open spec fn decide(config: DedupConfig, hamming: u32, delta: DeltaScore) -> (bool, DedupReason) {
    let hash_similar = hamming <= config.hash_threshold;
    let delta_similar = 10000 * delta.diff <= config.delta_threshold_per_10k * delta.scale;
    let delta_extreme = 2 * delta.diff > delta.scale;
    if delta_extreme {
        (false, DedupReason::SignificantChange)
    } else if hash_similar && delta_similar {
        (true, DedupReason::HashSimilar)
    } else if !hash_similar && delta_similar {
        (true, DedupReason::DeltaSimilar)
    } else if hash_similar && !delta_similar {
        (true, DedupReason::MotionNoise)
    } else {
        (false, DedupReason::SignificantChange)
    }
}

/// Law: a frame is a duplicate exactly when its pixels did not change
/// beyond half the largest possible difference and either its hash is within
/// the hash threshold or its delta within the delta threshold. A frame whose
/// hash is close but whose pixels moved more than the delta threshold allows
/// (and not extremely) is motion noise: still a duplicate.
pub proof fn lemma_duplicate_decision(config: DedupConfig, hamming: u32, delta: DeltaScore)
    ensures
        decide(config, hamming, delta).0 == (2 * delta.diff <= delta.scale && (hamming
            <= config.hash_threshold || 10000 * delta.diff <= config.delta_threshold_per_10k
            * delta.scale)),
        !decide(config, hamming, delta).0 ==> decide(config, hamming, delta).1
            == DedupReason::SignificantChange,
        (hamming <= config.hash_threshold && 2 * delta.diff <= delta.scale && 10000 * delta.diff
            > config.delta_threshold_per_10k * delta.scale) ==> decide(config, hamming, delta) == (
            true,
            DedupReason::MotionNoise,
        ),
{
}

/// Deduplication gate for frame processing.
pub struct DedupGate {
    pub config: DedupConfig,
    pub last_ahash: Option<AverageHash>,
    pub last_thumbnail: Option<Vec<u8>>,
}

/// The outcome of checking a frame, given its average hash and its small
/// grayscale image for pixel deltas. The deduplicator keeps its settings and
/// to this frame. Against a previous frame the result holds the hash distance,
/// the delta score and the decision; with none, the result is a first frame
/// with zero distance and zero delta, never a duplicate.
pub open spec fn checked_against(
    old_gate: DedupGate,
    new_gate: DedupGate,
    ahash: AverageHash,
    thumbnail: Seq<u8>,
    r: DedupResult,
) -> bool {
    &&& new_gate.config == old_gate.config
    &&& new_gate.last_ahash == Some(ahash)
    &&& new_gate.last_thumbnail matches Some(t) && t@ == thumbnail
    &&& r.ahash == ahash
    &&& match (old_gate.last_ahash, old_gate.last_thumbnail) {
        (Some(h), Some(t)) => {
            let hamming = popcount((ahash.hash ^ h.hash) as nat, 64);
            let delta = delta_of(thumbnail, t@);
            &&& r.hamming_distance == hamming
            &&& r.delta_score == delta
            &&& (r.is_duplicate, r.reason) == decide(old_gate.config, r.hamming_distance, delta)
        },
        _ => {
            &&& !r.is_duplicate
            &&& r.hamming_distance == 0
            &&& r.delta_score == DeltaScore { diff: 0, scale: 1 }
            &&& r.reason == DedupReason::FirstFrame
        },
    }
}

impl DedupGate {
    /// A previous frame is kept in comparable form.
    pub open spec fn wf(&self) -> bool {
        match self.last_thumbnail {
            Some(t) => t@.len() == self.config.delta_size * self.config.delta_size,
            None => true,
        }
    }

    /// Create a new deduplication gate with default config.
    pub fn new() -> (r: Self)
        ensures
            r.config.hash_threshold == 8,
            r.config.delta_threshold_per_10k == 200,
            r.config.delta_size == 32,
            r.last_ahash is None,
            r.last_thumbnail is None,
            r.wf(),
    {
        Self::with_config(DedupConfig::default())
    }

    /// Create with custom configuration.
    pub fn with_config(config: DedupConfig) -> (r: Self)
        ensures
            r.config == config,
            r.last_ahash is None,
            r.last_thumbnail is None,
            r.wf(),
    {
        DedupGate { config, last_ahash: None, last_thumbnail: None }
    }

    /// Check an image against the previous one: its average hash and its
    /// delta thumbnail are checked as `check_hashed` checks them.
    pub fn check_frame(&mut self, image: &FrameImage) -> (r: DedupResult)
        requires
            old(self).wf(),
            frame_fits(*image),
            frame_resizable(*image, 8),
            frame_resizable(*image, old(self).config.delta_size),
            old(self).config.delta_size <= 4096,
        ensures
            final(self).wf(),
            checked_against(
                *old(self),
                *final(self),
                AverageHash { hash: ahash_of(luma_thumbnail_of(image.width, image.height, image.rgba@, 8)) as u64 },
                delta_thumbnail_of(*image, old(self).config.delta_size),
                r,
            ),
    {
        let ahash = AverageHash::compute(image);
        let size = self.config.delta_size;
        let thumb = if size == 0 {
            let empty: Vec<u8> = Vec::new();
            assert(size * size == 0) by (nonlinear_arith)
                requires
                    size == 0,
            ;
            assert(empty@.len() == 0);
            empty
        } else {
            luma_thumbnail(image, size)
        };
        assert(thumb@ =~= delta_thumbnail_of(*image, size));
        self.check_hashed(ahash, thumb)
    }

    /// Check a frame, given its average hash and its delta thumbnail, against
    /// the previous frame, and remember it for the next check.
    pub fn check_hashed(&mut self, ahash: AverageHash, thumbnail: Vec<u8>) -> (r: DedupResult)
        requires
            old(self).wf(),
            thumbnail@.len() == old(self).config.delta_size * old(self).config.delta_size,
            old(self).config.delta_size <= 4096,
        ensures
            final(self).wf(),
            checked_against(*old(self), *final(self), ahash, thumbnail@, r),
    {
        proof {
            let d = old(self).config.delta_size;
            assert(d * d <= 4096 * 4096) by (nonlinear_arith)
                requires
                    d <= 4096,
            ;
        }
        let result = match (&self.last_ahash, &self.last_thumbnail) {
            (Some(last_hash), Some(last_thumb)) => {
                let hamming = ahash.distance(last_hash);
                let delta = Self::compute_delta(&thumbnail, last_thumb);
                let (is_dup, reason) = self.decide_duplicate(hamming, delta);
                DedupResult {
                    is_duplicate: is_dup,
                    ahash: ahash,
                    hamming_distance: hamming,
                    delta_score: delta,
                    reason,
                }
            },
            _ => DedupResult {
                is_duplicate: false,
                ahash: ahash,
                hamming_distance: 0,
                delta_score: DeltaScore { diff: 0, scale: 1 },
                reason: DedupReason::FirstFrame,
            },
        };
        self.last_ahash = Some(ahash);
        self.last_thumbnail = Some(thumbnail);
        result
    }

    /// Forget the previous frame (for a new meeting).
    pub fn reset(&mut self)
        ensures
            final(self).config == old(self).config,
            final(self).last_ahash is None,
            final(self).last_thumbnail is None,
            final(self).wf(),
    {
        self.last_ahash = None;
        self.last_thumbnail = None;
    }

    /// Mean absolute pixel difference between two thumbnails.
    pub fn compute_delta(current: &Vec<u8>, previous: &Vec<u8>) -> (r: DeltaScore)
        requires
            current@.len() == previous@.len(),
            current@.len() <= 4096 * 4096,
        ensures
            r == delta_of(current@, previous@),
            r.diff <= r.scale,
            r.scale <= 255 * 4096 * 4096,
    {
        let n = current.len();
        if n == 0 {
            return DeltaScore { diff: 1, scale: 1 };
        }
        let mut total: u64 = 0;
        let mut i: usize = 0;
        while i < n
            invariant
                n == current@.len(),
                n == previous@.len(),
                n <= 4096 * 4096,
                i <= n,
                total == abs_diff_sum(current@.take(i as int), previous@.take(i as int)),
                total <= 255 * i,
            decreases n - i,
        {
            proof {
                assert(current@.take(i + 1).drop_last() =~= current@.take(i as int));
                assert(previous@.take(i + 1).drop_last() =~= previous@.take(i as int));
            }
            let c = current[i];
            let p = previous[i];
            if c >= p {
                total = total + (c - p) as u64;
            } else {
                total = total + (p - c) as u64;
            }
            i += 1;
        }
        proof {
            assert(current@.take(n as int) =~= current@);
            assert(previous@.take(n as int) =~= previous@);
        }
        DeltaScore { diff: total, scale: (n as u64) * 255 }
    }

    /// Decision logic for duplicate detection.
    pub fn decide_duplicate(&self, hamming: u32, delta: DeltaScore) -> (r: (bool, DedupReason))
        requires
            delta.diff <= delta.scale,
            delta.scale <= 0xFFFF_FFFF_FFFF,
        ensures
            r == decide(self.config, hamming, delta),
    {
        let hash_similar = hamming <= self.config.hash_threshold;
        assert((self.config.delta_threshold_per_10k as u128) * (delta.scale as u128)
            <= 0xFFFF_FFFF * 0xFFFF_FFFF_FFFF) by (nonlinear_arith)
            requires
                delta.scale <= 0xFFFF_FFFF_FFFF,
        ;
        let delta_similar = 10000u128 * (delta.diff as u128) <= (
        self.config.delta_threshold_per_10k as u128) * (delta.scale as u128);
        let delta_extreme = 2 * (delta.diff as u128) > delta.scale as u128;
        if delta_extreme {
            (false, DedupReason::SignificantChange)
        } else if hash_similar && delta_similar {
            (true, DedupReason::HashSimilar)
        } else if !hash_similar && delta_similar {
            (true, DedupReason::DeltaSimilar)
        } else if hash_similar && !delta_similar {
            (true, DedupReason::MotionNoise)
        } else {
            (false, DedupReason::SignificantChange)
        }
    }

    /// Hash as a string for storage.
    pub fn hash_to_string(hash: &AverageHash) -> (r: String)
        ensures
            r@ == base64_encode(spec_u64_to_le_bytes(hash.hash)),
            base64_decode(r@) == Some(spec_u64_to_le_bytes(hash.hash)),
    {
        hash.to_base64()
    }

    /// Parse a hash from a stored string.
    pub fn hash_from_string(s: &str) -> (r: Option<AverageHash>)
        ensures
            r == parse_hash(s@),
    {
        AverageHash::from_base64(s)
    }
}

proof fn lemma_abs_diff_self(t: Seq<u8>)
    ensures
        abs_diff_sum(t, t) == 0,
    decreases t.len(),
{
    if t.len() > 0 {
        lemma_abs_diff_self(t.drop_last());
    }
}

/// Law: the Hamming distance between hashes is symmetric, and a hash is at
/// distance zero from itself.
pub proof fn lemma_distance_symmetric_and_reflexive(a: AverageHash, b: AverageHash)
    ensures
        popcount((a.hash ^ b.hash) as nat, 64) == popcount((b.hash ^ a.hash) as nat, 64),
        popcount((a.hash ^ a.hash) as nat, 64) == 0,
{
    let x = a.hash;
    let y = b.hash;
    assert(x ^ y == y ^ x) by (bit_vector);
    assert(x ^ x == 0) by (bit_vector);
    lemma_popcount_zero(64);
}

proof fn lemma_popcount_triangle(a: u64, b: u64, c: u64, k: nat)
    ensures
        popcount((a ^ c) as nat, k) <= popcount((a ^ b) as nat, k) + popcount((b ^ c) as nat, k),
    decreases k,
{
    if k > 0 {
        assert((a ^ c) % 2 <= (a ^ b) % 2 + (b ^ c) % 2) by (bit_vector);
        assert((a ^ c) / 2 == (a / 2) ^ (c / 2)) by (bit_vector);
        assert((a ^ b) / 2 == (a / 2) ^ (b / 2)) by (bit_vector);
        assert((b ^ c) / 2 == (b / 2) ^ (c / 2)) by (bit_vector);
        lemma_popcount_triangle(a / 2, b / 2, c / 2, (k - 1) as nat);
    }
}

/// Law: the distance between hashes obeys the triangle inequality: going
/// through a third hash is never shorter.
pub proof fn lemma_distance_triangle(a: AverageHash, b: AverageHash, c: AverageHash)
    ensures
        popcount((a.hash ^ c.hash) as nat, 64) <= popcount((a.hash ^ b.hash) as nat, 64) + popcount(
            (b.hash ^ c.hash) as nat,
            64,
        ),
{
    lemma_popcount_triangle(a.hash, b.hash, c.hash, 64);
}

/// Law: a frame presented twice in a row (same hash, same non-empty
/// thumbnail) is judged a duplicate the second time, whatever the thresholds.
pub proof fn lemma_repeated_frame_is_duplicate(config: DedupConfig, h: AverageHash, t: Seq<u8>)
    requires
        t.len() > 0,
        t.len() * 255 <= u64::MAX,
    ensures
        decide(config, popcount((h.hash ^ h.hash) as nat, 64) as u32, delta_of(t, t)) == (
            true,
            DedupReason::HashSimilar,
        ),
{
    lemma_distance_symmetric_and_reflexive(h, h);
    lemma_abs_diff_self(t);
}

} // verus!
