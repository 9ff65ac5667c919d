//! Frame extraction settings: where extracted frames are cached and the
//! arguments handed to the video tool for quality and thumbnail size.
//! Running the tool is left to the caller.
use vstd::prelude::*;
use crate::text::{dec_nat, dec_u64, extend_chars, extend_str, string_of};

verus! {

/// Extracts frames from recorded video.
pub struct FrameExtractor {
    /// Where extracted frames are cached.
    pub cache_dir: String,
    /// JPEG quality, 1 to 100.
    pub jpeg_quality: u32,
}

impl FrameExtractor {
    /// An extractor caching into `cache_dir`, at JPEG quality 85.
    pub fn new(cache_dir: String) -> (r: Self)
        ensures
            r.cache_dir == cache_dir,
            r.jpeg_quality == 85,
    {
        FrameExtractor { cache_dir, jpeg_quality: 85 }
    }

    /// The video tool's quality scale for the JPEG quality (2 is best).
    pub fn ffmpeg_quality(&self) -> (r: u32)
        requires
            self.jpeg_quality <= 100,
        ensures
            r == (100 - self.jpeg_quality) / 3 + 1,
    {
        (100 - self.jpeg_quality) / 3 + 1
    }

    /// The scaling filter of a thumbnail `thumb_size` pixels wide.
    pub fn thumbnail_filter(thumb_size: u32) -> (r: String)
        ensures
            r@ == "scale="@ + dec_nat(thumb_size as nat) + ":-1"@,
    {
        let mut out: Vec<char> = Vec::new();
        extend_str(&mut out, "scale=");
        let d = dec_u64(thumb_size as u64);
        extend_chars(&mut out, &d);
        extend_str(&mut out, ":-1");
        string_of(&out)
    }
}

} // verus!
