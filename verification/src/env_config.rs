//! Default settings read from the environment (and `.env` files): which
//! values are taken, with which defaults, and the text written back to the
//! user's `.env` file. Reading the environment and the files is left to the
//! caller.
use vstd::prelude::*;
use crate::episode_builder::opt_view;
use crate::text::{chars_of, extend_str, str_eq, string_of};

verus! {

/// The default analysis service address.
pub open spec fn default_vlm_url() -> Seq<char> {
    "https://7wk68vrq9achr2djw.caas.targon.com"@
}

/// Settings taken from the environment.
#[derive(Debug, Clone)]
pub struct EnvConfig {
    pub supabase_connection_string: Option<String>,
    pub pinecone_api_key: Option<String>,
    pub pinecone_index_host: Option<String>,
    pub pinecone_namespace: Option<String>,
    pub vlm_base_url: Option<String>,
    pub thebrain_email: Option<String>,
    pub thebrain_password: Option<String>,
    pub remote_intelligence_enabled: bool,
    pub remote_intelligence_url: Option<String>,
    pub remote_intelligence_token: Option<String>,
    pub deepgram_api_key: Option<String>,
    pub gemini_api_key: Option<String>,
}

impl Default for EnvConfig {
    fn default() -> (r: Self)
        ensures
            r.supabase_connection_string is None,
            r.pinecone_api_key is None,
            r.pinecone_index_host is None,
            opt_view(r.pinecone_namespace) == Some("default"@),
            opt_view(r.vlm_base_url) == Some(default_vlm_url()),
            r.thebrain_email is None,
            r.thebrain_password is None,
            !r.remote_intelligence_enabled,
            r.remote_intelligence_url is None,
            r.remote_intelligence_token is None,
            r.deepgram_api_key is None,
            r.gemini_api_key is None,
    {
        EnvConfig {
            supabase_connection_string: None,
            pinecone_api_key: None,
            pinecone_index_host: None,
            pinecone_namespace: Some(String::from_str("default")),
            vlm_base_url: Some(String::from_str("https://7wk68vrq9achr2djw.caas.targon.com")),
            thebrain_email: None,
            thebrain_password: None,
            remote_intelligence_enabled: false,
            remote_intelligence_url: None,
            remote_intelligence_token: None,
            deepgram_api_key: None,
            gemini_api_key: None,
        }
    }
}

/// The raw values of the environment variables (`None` where unset).
#[derive(Debug, Clone)]
pub struct EnvValues {
    pub supabase_connection_string: Option<String>,
    pub pinecone_api_key: Option<String>,
    pub pinecone_index_host: Option<String>,
    pub pinecone_namespace: Option<String>,
    pub vlm_base_url: Option<String>,
    pub thebrain_email: Option<String>,
    pub thebrain_password: Option<String>,
    pub remote_intelligence_enabled: Option<String>,
    pub remote_intelligence_url: Option<String>,
    pub remote_intelligence_token: Option<String>,
    pub deepgram_api_key: Option<String>,
    pub gemini_api_key: Option<String>,
}

/// What parsing a `bool` accepts: exactly `true` or `false`.
pub open spec fn parse_bool(s: Seq<char>) -> Option<bool> {
    if s == "true"@ {
        Some(true)
    } else if s == "false"@ {
        Some(false)
    } else {
        None
    }
}

/// An unset or empty key counts as no key.
pub open spec fn non_empty_key(v: Option<Seq<char>>) -> Option<Seq<char>> {
    match v {
        Some(s) => if s.len() > 0 {
            Some(s)
        } else {
            None
        },
        None => None,
    }
}

fn keep_non_empty(v: Option<String>) -> (r: Option<String>)
    ensures
        opt_view(r) == non_empty_key(opt_view(v)),
{
    match v {
        Some(s) => if chars_of(s.as_str()).len() > 0 {
            Some(s)
        } else {
            None
        },
        None => None,
    }
}

fn or_default(v: Option<String>, default: &str) -> (r: Option<String>)
    ensures
        opt_view(r) == Some(
            match v {
                Some(s) => s@,
                None => default@,
            },
        ),
{
    match v {
        Some(s) => Some(s),
        None => Some(String::from_str(default)),
    }
}

/// One `KEY=value` line of the `.env` file, for a value that is set.
pub open spec fn env_line(key: Seq<char>, v: Option<Seq<char>>) -> Seq<char> {
    match v {
        Some(x) => key + "="@ + x + "\n"@,
        None => Seq::empty(),
    }
}

/// The text of the user's `.env` file for a configuration (the model
/// service keys are not written).
pub open spec fn env_file(c: EnvConfig) -> Seq<char> {
    "# noFriction Meetings - User Configuration\n# Auto-generated - Edit these values as needed\n\n"@
        + env_line("SUPABASE_CONNECTION_STRING"@, opt_view(c.supabase_connection_string))
        + env_line("PINECONE_API_KEY"@, opt_view(c.pinecone_api_key))
        + env_line("PINECONE_INDEX_HOST"@, opt_view(c.pinecone_index_host))
        + env_line("PINECONE_NAMESPACE"@, opt_view(c.pinecone_namespace))
        + env_line("VLM_BASE_URL"@, opt_view(c.vlm_base_url))
        + env_line("THEBRAIN_EMAIL"@, opt_view(c.thebrain_email))
        + env_line("THEBRAIN_PASSWORD"@, opt_view(c.thebrain_password))
        + "REMOTE_INTELLIGENCE_ENABLED="@ + (if c.remote_intelligence_enabled {
        "true"@
    } else {
        "false"@
    }) + "\n"@ + env_line("REMOTE_INTELLIGENCE_URL"@, opt_view(c.remote_intelligence_url))
        + env_line("REMOTE_INTELLIGENCE_TOKEN"@, opt_view(c.remote_intelligence_token))
}

fn push_line(out: &mut Vec<char>, key: &str, v: &Option<String>)
    ensures
        final(out)@ == old(out)@ + env_line(key@, opt_view(*v)),
{
    match v {
        Some(x) => {
            extend_str(out, key);
            extend_str(out, "=");
            extend_str(out, x.as_str());
            extend_str(out, "\n");
        },
        None => {
            assert(old(out)@ + Seq::<char>::empty() =~= old(out)@);
        },
    }
}

impl EnvConfig {
    /// The configuration for the environment's values: the namespace
    /// defaults to `default`, the analysis service to its usual address,
    /// remote intelligence is on only for `true`, and empty model service
    /// keys count as unset.
    pub fn from_env(v: EnvValues) -> (r: Self)
        ensures
            opt_view(r.supabase_connection_string) == opt_view(v.supabase_connection_string),
            opt_view(r.pinecone_api_key) == opt_view(v.pinecone_api_key),
            opt_view(r.pinecone_index_host) == opt_view(v.pinecone_index_host),
            opt_view(r.pinecone_namespace) == Some(
                match v.pinecone_namespace {
                    Some(s) => s@,
                    None => "default"@,
                },
            ),
            opt_view(r.vlm_base_url) == Some(
                match v.vlm_base_url {
                    Some(s) => s@,
                    None => default_vlm_url(),
                },
            ),
            opt_view(r.thebrain_email) == opt_view(v.thebrain_email),
            opt_view(r.thebrain_password) == opt_view(v.thebrain_password),
            r.remote_intelligence_enabled == match v.remote_intelligence_enabled {
                Some(s) => parse_bool(s@) == Some(true),
                None => false,
            },
            opt_view(r.remote_intelligence_url) == opt_view(v.remote_intelligence_url),
            opt_view(r.remote_intelligence_token) == opt_view(v.remote_intelligence_token),
            opt_view(r.deepgram_api_key) == non_empty_key(opt_view(v.deepgram_api_key)),
            opt_view(r.gemini_api_key) == non_empty_key(opt_view(v.gemini_api_key)),
    {
        let remote = match &v.remote_intelligence_enabled {
            Some(s) => str_eq(s.as_str(), "true"),
            None => false,
        };
        proof {
            reveal_strlit("true");
            reveal_strlit("false");
        }
        EnvConfig {
            supabase_connection_string: v.supabase_connection_string,
            pinecone_api_key: v.pinecone_api_key,
            pinecone_index_host: v.pinecone_index_host,
            pinecone_namespace: or_default(v.pinecone_namespace, "default"),
            vlm_base_url: or_default(v.vlm_base_url, "https://7wk68vrq9achr2djw.caas.targon.com"),
            thebrain_email: v.thebrain_email,
            thebrain_password: v.thebrain_password,
            remote_intelligence_enabled: remote,
            remote_intelligence_url: v.remote_intelligence_url,
            remote_intelligence_token: v.remote_intelligence_token,
            deepgram_api_key: keep_non_empty(v.deepgram_api_key),
            gemini_api_key: keep_non_empty(v.gemini_api_key),
        }
    }

    /// The text saved to the user's `.env` file.
    pub fn env_file_text(&self) -> (r: String)
        ensures
            r@ == env_file(*self),
    {
        let mut out: Vec<char> = Vec::new();
        extend_str(
            &mut out,
            "# noFriction Meetings - User Configuration\n# Auto-generated - Edit these values as needed\n\n",
        );
        push_line(&mut out, "SUPABASE_CONNECTION_STRING", &self.supabase_connection_string);
        push_line(&mut out, "PINECONE_API_KEY", &self.pinecone_api_key);
        push_line(&mut out, "PINECONE_INDEX_HOST", &self.pinecone_index_host);
        push_line(&mut out, "PINECONE_NAMESPACE", &self.pinecone_namespace);
        push_line(&mut out, "VLM_BASE_URL", &self.vlm_base_url);
        push_line(&mut out, "THEBRAIN_EMAIL", &self.thebrain_email);
        push_line(&mut out, "THEBRAIN_PASSWORD", &self.thebrain_password);
        extend_str(&mut out, "REMOTE_INTELLIGENCE_ENABLED=");
        if self.remote_intelligence_enabled {
            extend_str(&mut out, "true");
        } else {
            extend_str(&mut out, "false");
        }
        extend_str(&mut out, "\n");
        push_line(&mut out, "REMOTE_INTELLIGENCE_URL", &self.remote_intelligence_url);
        push_line(&mut out, "REMOTE_INTELLIGENCE_TOKEN", &self.remote_intelligence_token);
        string_of(&out)
    }
}

} // verus!
