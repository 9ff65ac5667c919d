//! Decisions taken when the application starts and while transcription
//! streams in: which settings are filled from the environment file, whether
//! the ingest client is set up, and what becomes of a transcription message.
use vstd::prelude::*;
use crate::text::{chars_of, dec_u64, extend_chars, string_of};

verus! {

/// A stored setting is filled from the environment file when it is unset or
/// empty and the file has a value; the value to store is returned.
pub open spec fn env_fill_of(saved: Option<Seq<char>>, from_env: Option<Seq<char>>) -> Option<Seq<char>> {
    let empty = match saved {
        Some(s) => s.len() == 0,
        None => true,
    };
    if empty {
        from_env
    } else {
        None
    }
}

/// The value a setting is filled with from the environment file, if any.
pub fn env_fill(saved: Option<&str>, from_env: Option<String>) -> (r: Option<String>)
    ensures
        match r {
            Some(v) => env_fill_of(
                match saved {
                    Some(s) => Some(s@),
                    None => None,
                },
                match from_env {
                    Some(e) => Some(e@),
                    None => None,
                },
            ) == Some(v@),
            None => env_fill_of(
                match saved {
                    Some(s) => Some(s@),
                    None => None,
                },
                match from_env {
                    Some(e) => Some(e@),
                    None => None,
                },
            ) is None,
        },
{
    let empty = match saved {
        Some(s) => chars_of(s).len() == 0,
        None => true,
    };
    if empty {
        from_env
    } else {
        None
    }
}

/// Where the ingest client connects, and with which token: only when ingest
/// is enabled (it is off unless a setting says otherwise) and both are set.
pub fn ingest_client_config(
    enable_ingest: Option<bool>,
    base_url: Option<String>,
    bearer_token: Option<String>,
) -> (r: Option<(String, String)>)
    ensures
        match r {
            Some((u, t)) => enable_ingest == Some(true) && base_url == Some(u) && bearer_token == Some(t),
            None => enable_ingest != Some(true) || base_url is None || bearer_token is None,
        },
{
    let enabled = match enable_ingest {
        Some(e) => e,
        None => false,
    };
    if !enabled {
        return None;
    }
    match (base_url, bearer_token) {
        (Some(u), Some(t)) => Some((u, t)),
        _ => None,
    }
}

/// A transcription as the interface shows it and the store keeps it.
pub struct TranscriptEvent {
    pub text: String,
    pub is_final: bool,
    /// `Speaker <n>`, from the first word's speaker.
    pub speaker: Option<String>,
    /// Final transcriptions are stored.
    pub save: bool,
}

/// What a transcription message gives: nothing for an empty transcript;
/// else the text, whether it is final (not unless the message says so), the
/// first word's speaker as `Speaker <n>`, and whether to store it (when final).
pub fn transcript_event(transcript: String, is_final: Option<bool>, first_word_speaker: Option<u32>) -> (r:
    Option<TranscriptEvent>)
    ensures
        match r {
            None => transcript@.len() == 0,
            Some(ev) => {
                &&& transcript@.len() > 0
                &&& ev.text == transcript
                &&& ev.is_final == (is_final == Some(true))
                &&& ev.save == ev.is_final
                &&& match first_word_speaker {
                    Some(n) => ev.speaker matches Some(s) && s@ == "Speaker "@ + crate::text::dec_nat(n as nat),
                    None => ev.speaker is None,
                }
            },
        },
{
    if chars_of(transcript.as_str()).len() == 0 {
        return None;
    }
    let fin = match is_final {
        Some(b) => b,
        None => false,
    };
    let speaker = match first_word_speaker {
        Some(n) => {
            let mut v = chars_of("Speaker ");
            let d = dec_u64(n as u64);
            extend_chars(&mut v, &d);
            Some(string_of(&v))
        },
        None => None,
    };
    Some(TranscriptEvent { text: transcript, is_final: fin, speaker, save: fin })
}

} // verus!
