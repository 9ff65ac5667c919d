//! Finding a frame's image from the identifier the interface shows: screen
//! states are named by UUIDs, older frames by their number.
use vstd::prelude::*;
use crate::chunk_manager::{all_digits, digits_value, lemma_prefix_value_bound, utf8_len, utf8_length};
use crate::dedupe_gate::{b64_encode, base64_encode};
use crate::text::{chars_of, contains_seq, extend_str, string_of};

verus! {

/// What parsing an `i64` accepts: an optional sign, then at least one ASCII
/// digit, with a value that fits.
pub open spec fn parse_i64(s: Seq<char>) -> Option<i64> {
    let neg = s.len() > 0 && s[0] == '-';
    let d = if s.len() > 0 && (s[0] == '-' || s[0] == '+') { s.skip(1) } else { s };
    if d.len() > 0 && all_digits(d) {
        let v: int = if neg { -(digits_value(d) as int) } else { digits_value(d) as int };
        if i64::MIN <= v <= i64::MAX {
            Some(v as i64)
        } else {
            None
        }
    } else {
        None
    }
}

/// Parses a signed decimal as `i64` parsing does.
pub fn parse_i64_chars(s: &Vec<char>) -> (r: Option<i64>)
    ensures
        r == parse_i64(s@),
{
    let neg = s.len() > 0 && s[0] == '-';
    let start: usize = if s.len() > 0 && (s[0] == '-' || s[0] == '+') { 1 } else { 0 };
    let ghost d = if s@.len() > 0 && (s@[0] == '-' || s@[0] == '+') { s@.skip(1) } else { s@ };
    assert(d =~= s@.skip(start as int));
    if start >= s.len() {
        return None;
    }
    let limit: u128 = if neg { 9223372036854775808 } else { 9223372036854775807 };
    let mut v: u128 = 0;
    let mut i: usize = start;
    while i < s.len()
        invariant
            start <= i <= s@.len(),
            d == s@.skip(start as int),
            d == (if s@.len() > 0 && (s@[0] == '-' || s@[0] == '+') { s@.skip(1) } else { s@ }),
            neg == (s@.len() > 0 && s@[0] == '-'),
            limit == (if neg { 9223372036854775808u128 } else { 9223372036854775807u128 }),
            all_digits(s@.subrange(start as int, i as int)),
            v == digits_value(s@.subrange(start as int, i as int)),
            v <= limit,
        decreases s.len() - i,
    {
        let c = s[i];
        proof {
            assert(s@.subrange(start as int, i + 1).drop_last() =~= s@.subrange(start as int, i as int));
        }
        if c < '0' || c > '9' {
            assert(s@.subrange(start as int, s@.len() as int) =~= d);
            assert(d[i - start] == c);
            assert(!('0' <= d[i - start] <= '9'));
            return None;
        }
        let nv: u128 = v * 10 + (c as u128 - '0' as u128);
        assert(nv == digits_value(s@.subrange(start as int, i + 1)));
        if nv > limit {
            proof {
                let k = i + 1;
                assert(s@.subrange(start as int, i + 1) =~= d.take(k - start));
                lemma_prefix_value_bound(d, k - start);
            }
            return None;
        }
        v = nv;
        i += 1;
    }
    assert(s@.subrange(start as int, s@.len() as int) =~= d);
    if neg {
        if v == 9223372036854775808 {
            Some(i64::MIN)
        } else {
            let m: i64 = v as i64;
            Some(-m)
        }
    } else {
        Some(v as i64)
    }
}

/// Which record a frame identifier names.
#[derive(Clone, Debug)]
pub enum FrameRef {
    /// A screen state, by its UUID.
    ScreenState(String),
    /// An older frame, by its number.
    Legacy(i64),
}

/// Identifiers holding a `-` and longer than 20 bytes are screen states'
/// UUIDs; any other is a frame number (0 when it does not parse).
pub open spec fn frame_ref_of(id: Seq<char>) -> Option<i64> {
    if contains_seq(id, "-"@) && utf8_len(id) > 20 {
        None
    } else {
        Some(match parse_i64(id) {
            Some(n) => n,
            None => 0,
        })
    }
}

/// Classifies a frame identifier.
pub fn frame_ref(frame_id: String) -> (r: FrameRef)
    ensures
        match frame_ref_of(frame_id@) {
            None => r == FrameRef::ScreenState(frame_id),
            Some(n) => r == FrameRef::Legacy(n),
        },
{
    let cs = chars_of(frame_id.as_str());
    let dash = chars_of("-");
    if crate::text::contains_chars(&cs, &dash) && utf8_length(frame_id.as_str()) > 20 {
        FrameRef::ScreenState(frame_id)
    } else {
        let n = match parse_i64_chars(&cs) {
            Some(n) => n,
            None => 0,
        };
        FrameRef::Legacy(n)
    }
}

/// The stored image of a frame, as the interface receives it: its bytes in
/// standard base64.
pub fn frame_image_base64(data: &[u8]) -> (r: String)
    ensures
        r@ == base64_encode(data@),
{
    b64_encode(data)
}

/// A screenshot as a data URL: its JPEG bytes in standard base64 behind the
/// `data:image/jpeg;base64,` prefix.
pub fn jpeg_data_url(jpeg: &[u8]) -> (r: String)
    ensures
        r@ == "data:image/jpeg;base64,"@ + base64_encode(jpeg@),
{
    let encoded = b64_encode(jpeg);
    let mut v = chars_of("data:image/jpeg;base64,");
    extend_str(&mut v, encoded.as_str());
    string_of(&v)
}

} // verus!
