//! Decisions of the application's command layer: readable byte counts for
//! diagnostics, the choice of transcription provider, and the sources and
//! text filter of a knowledge base search.
use vstd::prelude::*;
use crate::calendar_client::{string_listed, string_views};
use crate::sizes::{as_double, double_of, one_decimal, one_decimal_chars, GB, KB, MB};
use crate::text::{
    chars_of, contains_chars, contains_seq, dec_nat, dec_u64, extend_chars, extend_str, lowercase,
    str_eq, string_of, to_lowercase_str,
};

verus! {

/// Byte count as the diagnostics show it (`1.5 GB`, `512 bytes`).
pub open spec fn bytes_label(bytes: nat) -> Seq<char> {
    if bytes >= GB {
        one_decimal(as_double(bytes), GB as nat) + " GB"@
    } else if bytes >= MB {
        one_decimal(bytes, MB as nat) + " MB"@
    } else if bytes >= KB {
        one_decimal(bytes, KB as nat) + " KB"@
    } else {
        dec_nat(bytes) + " bytes"@
    }
}

/// Formats a byte count for the capture diagnostics.
pub fn format_bytes(bytes: u64) -> (r: String)
    ensures
        r@ == bytes_label(bytes as nat),
{
    let mut out: Vec<char> = Vec::new();
    if bytes >= GB {
        let d = one_decimal_chars(double_of(bytes), GB);
        extend_chars(&mut out, &d);
        extend_str(&mut out, " GB");
    } else if bytes >= MB {
        let d = one_decimal_chars(bytes as u128, MB);
        extend_chars(&mut out, &d);
        extend_str(&mut out, " MB");
    } else if bytes >= KB {
        let d = one_decimal_chars(bytes as u128, KB);
        extend_chars(&mut out, &d);
        extend_str(&mut out, " KB");
    } else {
        let d = dec_u64(bytes);
        extend_chars(&mut out, &d);
        extend_str(&mut out, " bytes");
    }
    string_of(&out)
}

// ---------------------------------------------------------------------------
// Transcription providers
// ---------------------------------------------------------------------------

/// The transcription services.
#[derive(Debug, Clone, Copy, PartialEq, Eq, Structural)]
pub enum ProviderType {
    Deepgram,
    Gemini,
    Gladia,
    GoogleSTT,
}

/// The setting name of a provider.
pub open spec fn provider_name_of(p: ProviderType) -> Seq<char> {
    match p {
        ProviderType::Deepgram => "deepgram"@,
        ProviderType::Gemini => "gemini"@,
        ProviderType::Gladia => "gladia"@,
        ProviderType::GoogleSTT => "google_stt"@,
    }
}

/// The provider a setting name names.
pub open spec fn provider_of_name(name: Seq<char>) -> Option<ProviderType> {
    if name == "deepgram"@ {
        Some(ProviderType::Deepgram)
    } else if name == "gemini"@ {
        Some(ProviderType::Gemini)
    } else if name == "gladia"@ {
        Some(ProviderType::Gladia)
    } else if name == "google_stt"@ {
        Some(ProviderType::GoogleSTT)
    } else {
        None
    }
}

/// The setting name of a provider.
pub fn provider_name(p: ProviderType) -> (r: &'static str)
    ensures
        r@ == provider_name_of(p),
{
    match p {
        ProviderType::Deepgram => "deepgram",
        ProviderType::Gemini => "gemini",
        ProviderType::Gladia => "gladia",
        ProviderType::GoogleSTT => "google_stt",
    }
}

/// Reads a provider's setting name; an unknown name is refused.
pub fn parse_provider(name: &str) -> (r: Result<ProviderType, String>)
    ensures
        match provider_of_name(name@) {
            Some(p) => r == Ok::<ProviderType, String>(p),
            None => r matches Err(e) && e@ == "Invalid provider"@,
        },
{
    if str_eq(name, "deepgram") {
        Ok(ProviderType::Deepgram)
    } else if str_eq(name, "gemini") {
        Ok(ProviderType::Gemini)
    } else if str_eq(name, "gladia") {
        Ok(ProviderType::Gladia)
    } else if str_eq(name, "google_stt") {
        Ok(ProviderType::GoogleSTT)
    } else {
        Err(String::from_str("Invalid provider"))
    }
}

/// Which providers have a key stored.
#[derive(Debug, Clone, Copy, PartialEq, Eq, Structural)]
pub struct ProviderKeys {
    pub deepgram: bool,
    pub gemini: bool,
    pub gladia: bool,
    pub google_stt: bool,
}

/// Whether provider `p` has a key.
pub open spec fn has_key(k: ProviderKeys, p: ProviderType) -> bool {
    match p {
        ProviderType::Deepgram => k.deepgram,
        ProviderType::Gemini => k.gemini,
        ProviderType::Gladia => k.gladia,
        ProviderType::GoogleSTT => k.google_stt,
    }
}

/// The provider a recording uses: the current one if it has a key, else
/// the first other one with a key in the order Deepgram, Gemini, Gladia,
/// Google; `None` when no provider has a key (the current one is kept,
/// without transcription).
pub open spec fn provider_choice(current: ProviderType, k: ProviderKeys) -> Option<ProviderType> {
    if has_key(k, current) {
        Some(current)
    } else if has_key(k, ProviderType::Deepgram) {
        Some(ProviderType::Deepgram)
    } else if has_key(k, ProviderType::Gemini) {
        Some(ProviderType::Gemini)
    } else if has_key(k, ProviderType::Gladia) {
        Some(ProviderType::Gladia)
    } else if has_key(k, ProviderType::GoogleSTT) {
        Some(ProviderType::GoogleSTT)
    } else {
        None
    }
}

fn key_of(k: ProviderKeys, p: ProviderType) -> (r: bool)
    ensures
        r == has_key(k, p),
{
    match p {
        ProviderType::Deepgram => k.deepgram,
        ProviderType::Gemini => k.gemini,
        ProviderType::Gladia => k.gladia,
        ProviderType::GoogleSTT => k.google_stt,
    }
}

/// Chooses the transcription provider for a recording.
pub fn choose_provider(current: ProviderType, keys: ProviderKeys) -> (r: Option<ProviderType>)
    ensures
        r == provider_choice(current, keys),
{
    if key_of(keys, current) {
        return Some(current);
    }
    let order = [ProviderType::Deepgram, ProviderType::Gemini, ProviderType::Gladia, ProviderType::GoogleSTT];
    let mut i: usize = 0;
    while i < 4
        invariant
            i <= 4,
            order@ == seq![
                ProviderType::Deepgram,
                ProviderType::Gemini,
                ProviderType::Gladia,
                ProviderType::GoogleSTT,
            ],
            !has_key(keys, current),
            forall|j: int| 0 <= j < i ==> !has_key(keys, #[trigger] order@[j]),
        decreases 4 - i,
    {
        if key_of(keys, order[i]) {
            return Some(order[i]);
        }
        i += 1;
    }
    None
}

// ---------------------------------------------------------------------------
// Knowledge base search
// ---------------------------------------------------------------------------

/// What a knowledge base search asks for.
#[derive(Debug, Clone)]
pub struct SearchOptions {
    /// Text searched for.
    pub query: Option<String>,
    /// Start of the time range (ISO date).
    pub start_date: Option<String>,
    /// End of the time range (ISO date).
    pub end_date: Option<String>,
    pub category: Option<String>,
    /// Most results per source.
    pub limit: Option<u32>,
    /// Sources searched: `local`, `pinecone`, `supabase`.
    pub sources: Option<Vec<String>>,
}

/// The sources searched: those asked for, else the local store only.
pub open spec fn searched_sources(o: SearchOptions) -> Seq<Seq<char>> {
    match o.sources {
        Some(v) => string_views(v@),
        None => seq!["local"@],
    }
}

/// Whether a search reads source `name`.
pub fn searches_source(options: &SearchOptions, name: &str) -> (r: bool)
    ensures
        r == searched_sources(*options).contains(name@),
{
    match &options.sources {
        Some(v) => string_listed(v, name),
        None => {
            let r = str_eq(name, "local");
            proof {
                if r {
                    assert(seq!["local"@][0] == name@);
                } else {
                    assert(seq!["local"@] =~= seq!["local"@]);
                    if seq!["local"@].contains(name@) {
                        let j = choose|j: int| 0 <= j < 1 && seq!["local"@][j] == name@;
                        assert(j == 0);
                    }
                }
            }
            r
        },
    }
}

/// The number of results asked of each source: the limit given, else 20,
/// as a 32-bit signed count (wrapping as the conversion does).
pub open spec fn result_limit(o: SearchOptions) -> i32 {
    match o.limit {
        Some(l) => if l <= i32::MAX { l as i32 } else { (l - 0x1_0000_0000) as i32 },
        None => 20,
    }
}

/// The result limit of a search.
pub fn search_limit(options: &SearchOptions) -> (r: i32)
    ensures
        r == result_limit(*options),
{
    match options.limit {
        Some(l) => if l <= i32::MAX as u32 {
            l as i32
        } else {
            (l as i64 - 0x1_0000_0000i64) as i32
        },
        None => 20,
    }
}

/// A local activity matches a query when the query, lowercased, occurs in
/// its lowercased summary, category or focus area.
pub open spec fn activity_match(
    summary: Seq<char>,
    category: Seq<char>,
    focus_area: Option<Seq<char>>,
    query: Seq<char>,
) -> bool {
    let q = lowercase(query);
    ||| contains_seq(lowercase(summary), q)
    ||| contains_seq(lowercase(category), q)
    ||| match focus_area {
        Some(f) => contains_seq(lowercase(f), q),
        None => false,
    }
}

/// Whether a local activity matches the search text.
pub fn activity_matches_query(
    summary: &str,
    category: &str,
    focus_area: &Option<String>,
    query: &str,
) -> (r: bool)
    ensures
        r == activity_match(
            summary@,
            category@,
            match focus_area {
                Some(f) => Some(f@),
                None => None,
            },
            query@,
        ),
{
    let q = chars_of(to_lowercase_str(query).as_str());
    if contains_chars(&chars_of(to_lowercase_str(summary).as_str()), &q) {
        return true;
    }
    if contains_chars(&chars_of(to_lowercase_str(category).as_str()), &q) {
        return true;
    }
    match focus_area {
        Some(f) => contains_chars(&chars_of(to_lowercase_str(f.as_str()).as_str()), &q),
        None => false,
    }
}

} // verus!
