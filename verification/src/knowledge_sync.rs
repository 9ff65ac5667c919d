//! Feeding the knowledge base: the texts and identifiers under which
//! conversations, transcripts and activities are indexed, and the tallies of
//! the indexing, analysis and sync passes. Each pass calls the outside
//! services item by item; the result types here record what each call gave.
use vstd::prelude::*;
use crate::calendar_client::string_views;
use crate::data_editor::{first_chars, take_chars};
use crate::text::{
    chars_of, dec_i64, dec_int, dec_nat, dec_u64, extend_chars, extend_str, join, join_chars, string_of, views,
};

verus! {

/// A question and answer kept for later retrieval.
pub struct ConversationRecord {
    pub id: String,
    pub timestamp: String,
    pub user_query: String,
    pub assistant_response: String,
    pub model_used: String,
    /// Identifiers of the context items the answer used.
    pub context_refs: Vec<String>,
}

/// The text under which a conversation is searched: the question and the answer.
pub fn conversation_search_text(user_query: &str, assistant_response: &str) -> (r: String)
    ensures
        r@ == "Q: "@ + user_query@ + "\nA: "@ + assistant_response@,
{
    let mut v: Vec<char> = Vec::new();
    extend_str(&mut v, "Q: ");
    extend_str(&mut v, user_query);
    extend_str(&mut v, "\nA: ");
    extend_str(&mut v, assistant_response);
    string_of(&v)
}

/// The summary stored with a conversation: its question's first hundred
/// characters.
pub fn conversation_summary(user_query: &str) -> (r: String)
    ensures
        r@ == "User asked about: "@ + first_chars(user_query@, 100) + "..."@,
{
    let mut v: Vec<char> = Vec::new();
    extend_str(&mut v, "User asked about: ");
    let head = take_chars(user_query, 100);
    extend_chars(&mut v, &head);
    extend_str(&mut v, "...");
    string_of(&v)
}

/// How indexing one meeting's transcripts went.
pub struct TranscriptIndexResult {
    pub meeting_id: String,
    pub transcripts_indexed: usize,
    pub errors: Vec<String>,
}

/// The identifier of a transcript's vector.
pub fn transcript_vector_id(meeting_id: &str, transcript_id: i64) -> (r: String)
    ensures
        r@ == "transcript_"@ + meeting_id@ + "_"@ + dec_int(transcript_id as int),
{
    let mut v: Vec<char> = Vec::new();
    extend_str(&mut v, "transcript_");
    extend_str(&mut v, meeting_id);
    extend_str(&mut v, "_");
    let d = dec_i64(transcript_id);
    extend_chars(&mut v, &d);
    string_of(&v)
}

/// The title recorded with a meeting's transcripts.
pub fn indexed_meeting_title(title: Option<String>) -> (r: String)
    ensures
        r@ == match title {
            Some(t) => t@,
            None => "Unknown Meeting"@,
        },
{
    match title {
        Some(t) => t,
        None => String::from_str("Unknown Meeting"),
    }
}

impl TranscriptIndexResult {
    /// Nothing indexed yet.
    pub fn new(meeting_id: String) -> (r: Self)
        ensures
            r.meeting_id == meeting_id,
            r.transcripts_indexed == 0,
            r.errors@.len() == 0,
    {
        TranscriptIndexResult { meeting_id, transcripts_indexed: 0, errors: Vec::new() }
    }

    /// The meeting has no transcripts.
    pub fn nothing_found(meeting_id: String) -> (r: Self)
        ensures
            r.meeting_id == meeting_id,
            r.transcripts_indexed == 0,
            string_views(r.errors@) == seq!["No transcripts found for this meeting"@],
    {
        let mut errors: Vec<String> = Vec::new();
        errors.push(String::from_str("No transcripts found for this meeting"));
        proof {
            assert(string_views(errors@) =~= seq!["No transcripts found for this meeting"@]);
        }
        TranscriptIndexResult { meeting_id, transcripts_indexed: 0, errors }
    }

    /// Reading the meeting's transcripts failed, so none was indexed.
    pub fn fetch_failed(meeting_id: String, error: &str) -> (r: Self)
        ensures
            r.meeting_id == meeting_id,
            r.transcripts_indexed == 0,
            string_views(r.errors@) == seq!["Failed to get transcripts: "@ + error@],
    {
        let mut v: Vec<char> = Vec::new();
        extend_str(&mut v, "Failed to get transcripts: ");
        extend_str(&mut v, error);
        let line = string_of(&v);
        let mut errors: Vec<String> = Vec::new();
        errors.push(line);
        proof {
            assert(string_views(errors@) =~= seq![line@]);
        }
        TranscriptIndexResult { meeting_id, transcripts_indexed: 0, errors }
    }

    /// Records, in a pass over all meetings, how storing one transcript's
    /// vector went.
    pub fn record_in_batch(&mut self, transcript_id: i64, outcome: Result<(), String>)
        requires
            old(self).transcripts_indexed < usize::MAX,
        ensures
            final(self).meeting_id == old(self).meeting_id,
            match outcome {
                Ok(()) => final(self).transcripts_indexed == old(self).transcripts_indexed + 1
                    && final(self).errors@ == old(self).errors@,
                Err(e) => final(self).transcripts_indexed == old(self).transcripts_indexed
                    && string_views(final(self).errors@) == string_views(old(self).errors@).push(
                    "transcript "@ + dec_int(transcript_id as int) + " failed: "@ + e@,
                ),
            },
    {
        match outcome {
            Ok(()) => {
                self.transcripts_indexed = self.transcripts_indexed + 1;
            },
            Err(e) => {
                let mut v: Vec<char> = Vec::new();
                extend_str(&mut v, "transcript ");
                let d = dec_i64(transcript_id);
                extend_chars(&mut v, &d);
                extend_str(&mut v, " failed: ");
                extend_str(&mut v, e.as_str());
                let line = string_of(&v);
                let ghost before = self.errors@;
                self.errors.push(line);
                proof {
                    assert(string_views(self.errors@) =~= string_views(before).push(line@));
                }
            },
        }
    }

    /// Records how storing one transcript's vector went.
    pub fn record(&mut self, transcript_id: i64, outcome: Result<(), String>)
        requires
            old(self).transcripts_indexed < usize::MAX,
        ensures
            final(self).meeting_id == old(self).meeting_id,
            match outcome {
                Ok(()) => final(self).transcripts_indexed == old(self).transcripts_indexed + 1
                    && final(self).errors@ == old(self).errors@,
                Err(e) => final(self).transcripts_indexed == old(self).transcripts_indexed
                    && string_views(final(self).errors@) == string_views(old(self).errors@).push(
                    "Failed to index transcript "@ + dec_int(transcript_id as int) + ": "@ + e@,
                ),
            },
    {
        match outcome {
            Ok(()) => {
                self.transcripts_indexed = self.transcripts_indexed + 1;
            },
            Err(e) => {
                let mut v: Vec<char> = Vec::new();
                extend_str(&mut v, "Failed to index transcript ");
                let d = dec_i64(transcript_id);
                extend_chars(&mut v, &d);
                extend_str(&mut v, ": ");
                extend_str(&mut v, e.as_str());
                let line = string_of(&v);
                let ghost before = self.errors@;
                self.errors.push(line);
                proof {
                    assert(string_views(self.errors@) =~= string_views(before).push(line@));
                }
            },
        }
    }
}

/// How a pass of frame analysis went.
pub struct AnalysisResult {
    pub frames_processed: usize,
    pub activities_created: usize,
    pub errors: Vec<String>,
}

/// The prompt a theme analyses frames with.
pub fn analysis_prompt_key(theme: &str) -> (r: String)
    ensures
        r@ == theme@ + "_context_analysis"@,
{
    let mut v: Vec<char> = Vec::new();
    extend_str(&mut v, theme);
    extend_str(&mut v, "_context_analysis");
    string_of(&v)
}

/// The files seen in a frame, as stored with its activity: none when the
/// list is empty, else the names separated by commas.
pub fn visible_files_text(files: &Vec<String>) -> (r: Option<String>)
    ensures
        match r {
            Some(t) => files@.len() > 0 && t@ == join(string_views(files@), ", "@),
            None => files@.len() == 0,
        },
{
    if files.len() == 0 {
        return None;
    }
    let mut parts: Vec<Vec<char>> = Vec::new();
    let mut i: usize = 0;
    while i < files.len()
        invariant
            i <= files.len(),
            views(parts@) == string_views(files@.take(i as int)),
        decreases files.len() - i,
    {
        let p = chars_of(files[i].as_str());
        let ghost before = parts@;
        parts.push(p);
        proof {
            assert(views(parts@) =~= views(before).push(p@));
            assert(string_views(files@.take(i + 1)) =~= string_views(files@.take(i as int)).push(files@[i as int]@));
        }
        i += 1;
    }
    proof {
        assert(files@.take(files.len() as int) =~= files@);
    }
    let sep = chars_of(", ");
    let joined = join_chars(&parts, &sep);
    Some(string_of(&joined))
}

impl AnalysisResult {
    /// Nothing analysed yet.
    pub fn new() -> (r: Self)
        ensures
            r.frames_processed == 0,
            r.activities_created == 0,
            r.errors@.len() == 0,
    {
        AnalysisResult { frames_processed: 0, activities_created: 0, errors: Vec::new() }
    }

    /// Records one frame: the model's analysis failed with `Err`, or it
    /// succeeded and storing the activity gave `stored`.
    pub fn record(&mut self, frame_path: &str, outcome: Result<Result<i64, String>, String>)
        requires
            old(self).frames_processed < usize::MAX,
            old(self).activities_created < usize::MAX,
        ensures
            match outcome {
                Err(e) => final(self).frames_processed == old(self).frames_processed
                    && final(self).activities_created == old(self).activities_created
                    && string_views(final(self).errors@) == string_views(old(self).errors@).push(
                    "VLM analysis failed for "@ + frame_path@ + ": "@ + e@,
                ),
                Ok(Ok(_)) => final(self).frames_processed == old(self).frames_processed + 1
                    && final(self).activities_created == old(self).activities_created + 1
                    && final(self).errors@ == old(self).errors@,
                Ok(Err(e)) => final(self).frames_processed == old(self).frames_processed + 1
                    && final(self).activities_created == old(self).activities_created
                    && string_views(final(self).errors@) == string_views(old(self).errors@).push(
                    "Failed to store activity: "@ + e@,
                ),
            },
    {
        let ghost before = self.errors@;
        match outcome {
            Err(e) => {
                let mut v: Vec<char> = Vec::new();
                extend_str(&mut v, "VLM analysis failed for ");
                extend_str(&mut v, frame_path);
                extend_str(&mut v, ": ");
                extend_str(&mut v, e.as_str());
                let line = string_of(&v);
                self.errors.push(line);
                proof {
                    assert(string_views(self.errors@) =~= string_views(before).push(line@));
                }
            },
            Ok(stored) => {
                self.frames_processed = self.frames_processed + 1;
                match stored {
                    Ok(_) => {
                        self.activities_created = self.activities_created + 1;
                    },
                    Err(e) => {
                        let mut v: Vec<char> = Vec::new();
                        extend_str(&mut v, "Failed to store activity: ");
                        extend_str(&mut v, e.as_str());
                        let line = string_of(&v);
                        self.errors.push(line);
                        proof {
                            assert(string_views(self.errors@) =~= string_views(before).push(line@));
                        }
                    },
                }
            },
        }
    }
}

/// How a pass of cloud sync went.
pub struct SyncResult {
    pub activities_synced: usize,
    pub pinecone_upserts: usize,
    pub supabase_inserts: usize,
    pub errors: Vec<String>,
}

/// The identifier of an activity's vector.
pub fn activity_vector_id(activity_id: i64) -> (r: String)
    ensures
        r@ == "activity_"@ + dec_int(activity_id as int),
{
    let mut v: Vec<char> = Vec::new();
    extend_str(&mut v, "activity_");
    let d = dec_i64(activity_id);
    extend_chars(&mut v, &d);
    string_of(&v)
}

/// The text under which an activity is searched.
pub fn activity_vector_text(category: &str, summary: &str, focus_area: Option<&str>) -> (r: String)
    ensures
        r@ == category@ + " - "@ + summary@ + " - "@ + match focus_area {
            Some(f) => f@,
            None => Seq::empty(),
        },
{
    let mut v: Vec<char> = Vec::new();
    extend_str(&mut v, category);
    extend_str(&mut v, " - ");
    extend_str(&mut v, summary);
    extend_str(&mut v, " - ");
    let ghost head = v@;
    match focus_area {
        Some(f) => extend_str(&mut v, f),
        None => {},
    }
    proof {
        if focus_area is None {
            assert(v@ =~= head + Seq::<char>::empty());
        }
    }
    string_of(&v)
}

impl SyncResult {
    /// Nothing synced yet.
    pub fn new() -> (r: Self)
        ensures
            r.activities_synced == 0,
            r.pinecone_upserts == 0,
            r.supabase_inserts == 0,
            r.errors@.len() == 0,
    {
        SyncResult { activities_synced: 0, pinecone_upserts: 0, supabase_inserts: 0, errors: Vec::new() }
    }

    /// Records one activity: how the vector store took it (`None` when it
    /// is not configured) and how the database took it (`None` when not
    /// connected). Answers whether the activity now counts as synced, which
    /// it does when either took it.
    pub fn record(&mut self, pinecone: Option<Result<(), String>>, supabase: Option<Result<(), String>>) -> (synced: bool)
        requires
            old(self).activities_synced < usize::MAX,
            old(self).pinecone_upserts < usize::MAX,
            old(self).supabase_inserts < usize::MAX,
        ensures
            synced == (pinecone matches Some(Ok(_)) || supabase matches Some(Ok(_))),
            final(self).activities_synced == old(self).activities_synced + (if synced { 1int } else { 0 }),
            final(self).pinecone_upserts == old(self).pinecone_upserts + (if pinecone matches Some(Ok(_)) { 1int } else { 0 }),
            final(self).supabase_inserts == old(self).supabase_inserts + (if supabase matches Some(Ok(_)) { 1int } else { 0 }),
            string_views(final(self).errors@) == string_views(old(self).errors@) + match pinecone {
                Some(Err(e)) => seq!["Pinecone sync failed: "@ + e@],
                _ => Seq::empty(),
            } + match supabase {
                Some(Err(e)) => seq!["Supabase sync failed: "@ + e@],
                _ => Seq::empty(),
            },
    {
        let ghost before = string_views(self.errors@);
        let mut stored = false;
        match pinecone {
            Some(Ok(())) => {
                self.pinecone_upserts = self.pinecone_upserts + 1;
                stored = true;
            },
            Some(Err(e)) => {
                let mut v: Vec<char> = Vec::new();
                extend_str(&mut v, "Pinecone sync failed: ");
                extend_str(&mut v, e.as_str());
                let line = string_of(&v);
                let ghost b = self.errors@;
                self.errors.push(line);
                proof {
                    assert(string_views(self.errors@) =~= string_views(b).push(line@));
                }
            },
            None => {},
        }
        let ghost mid = string_views(self.errors@);
        proof {
            assert(mid =~= before + match pinecone {
                Some(Err(e)) => seq!["Pinecone sync failed: "@ + e@],
                _ => Seq::<Seq<char>>::empty(),
            });
        }
        match supabase {
            Some(Ok(())) => {
                self.supabase_inserts = self.supabase_inserts + 1;
                stored = true;
            },
            Some(Err(e)) => {
                let mut v: Vec<char> = Vec::new();
                extend_str(&mut v, "Supabase sync failed: ");
                extend_str(&mut v, e.as_str());
                let line = string_of(&v);
                let ghost b = self.errors@;
                self.errors.push(line);
                proof {
                    assert(string_views(self.errors@) =~= string_views(b).push(line@));
                }
            },
            None => {},
        }
        proof {
            assert(string_views(self.errors@) =~= mid + match supabase {
                Some(Err(e)) => seq!["Supabase sync failed: "@ + e@],
                _ => Seq::<Seq<char>>::empty(),
            });
        }
        if stored {
            self.activities_synced = self.activities_synced + 1;
        }
        stored
    }
}

/// The prompt used to analyse frames when neither the theme nor a generic
/// prompt is stored.
pub open spec fn fallback_frame_prompt() -> Seq<char> {
    "Analyze this screenshot and describe what the user is doing. \n                    Respond in JSON format with these fields:\n                    {\n                      \"app_name\": \"name of the main application visible\",\n                      \"window_title\": \"title of the window or document\",\n                      \"category\": \"one of: development, communication, research, writing, design, media, browsing, system, other\",\n                      \"summary\": \"brief description of what the user is doing\",\n                      \"focus_area\": \"specific task or project\",\n                      \"visible_files\": [],\n                      \"confidence\": 0.8\n                    }\n                    Only respond with valid JSON."@
}

/// The prompt frames are analysed with: the active theme's, else the
/// generic `frame_analysis` prompt, else the built-in one. A failure to read
/// the theme's prompt is reported as `Failed to retrieve prompt: <error>`.
/// `generic_prompt` is what looking up the generic prompt gave, which is
/// only asked for when the theme has none.
pub fn analysis_prompt(theme_prompt: Result<Option<String>, String>, generic_prompt: Option<String>) -> (r: Result<String, String>)
    ensures
        match theme_prompt {
            Ok(Some(p)) => r == Ok::<String, String>(p),
            Ok(None) => match generic_prompt {
                Some(g) => r == Ok::<String, String>(g),
                None => r matches Ok(t) && t@ == fallback_frame_prompt(),
            },
            Err(e) => r matches Err(m) && m@ == "Failed to retrieve prompt: "@ + e@,
        },
{
    match theme_prompt {
        Ok(Some(p)) => Ok(p),
        Ok(None) => match generic_prompt {
            Some(g) => Ok(g),
            None => Ok(String::from_str("Analyze this screenshot and describe what the user is doing. \n                    Respond in JSON format with these fields:\n                    {\n                      \"app_name\": \"name of the main application visible\",\n                      \"window_title\": \"title of the window or document\",\n                      \"category\": \"one of: development, communication, research, writing, design, media, browsing, system, other\",\n                      \"summary\": \"brief description of what the user is doing\",\n                      \"focus_area\": \"specific task or project\",\n                      \"visible_files\": [],\n                      \"confidence\": 0.8\n                    }\n                    Only respond with valid JSON.")),
        },
        Err(e) => {
            let mut v: Vec<char> = Vec::new();
            extend_str(&mut v, "Failed to retrieve prompt: ");
            extend_str(&mut v, e.as_str());
            Err(string_of(&v))
        },
    }
}

/// One line of retrieved context, as the assistant sees it: its position
/// (from one), its time, its relevance (already rendered as a whole
/// percentage) and its summary.
pub fn context_line(position: usize, timestamp: Option<&str>, relevance: &str, summary: &str) -> (r: String)
    ensures
        r@ == "["@ + dec_nat(position as nat) + "] "@ + match timestamp {
            Some(t) => t@,
            None => "Unknown time"@,
        } + " (relevance: "@ + relevance@ + "%)\n   "@ + summary@,
{
    let mut v: Vec<char> = Vec::new();
    extend_str(&mut v, "[");
    let d = dec_u64(position as u64);
    extend_chars(&mut v, &d);
    extend_str(&mut v, "] ");
    match timestamp {
        Some(t) => extend_str(&mut v, t),
        None => extend_str(&mut v, "Unknown time"),
    }
    extend_str(&mut v, " (relevance: ");
    extend_str(&mut v, relevance);
    extend_str(&mut v, "%)\n   ");
    extend_str(&mut v, summary);
    string_of(&v)
}

/// The question put to the assistant: with the retrieved context lines when
/// there are any, else noting that none was found.
pub open spec fn rag_prompt_text(context_lines: Seq<Seq<char>>, message: Seq<char>) -> Seq<char> {
    if context_lines.len() > 0 {
        "You are an intelligent assistant with access to the user's activity history and meeting data.\n\nRELEVANT CONTEXT FROM USER'S HISTORY:\n"@ + join(context_lines, "\n"@) + "\n\nUSER QUESTION: "@ + message + "\n\nInstructions:\n- Use the context above to inform your answer when relevant\n- If the context doesn't contain relevant information, say so and answer based on general knowledge\n- Reference specific items from the context when applicable (e.g., \"Based on your meeting on [date]...\")\n- Be concise and actionable"@
    } else {
        "You are an intelligent assistant helping with daily operations.\n\nUSER QUESTION: "@ + message + "\n\nNote: No relevant context was found in the user's history for this query. Answer based on general knowledge."@
    }
}

/// Builds the question put to the assistant.
pub fn rag_prompt(context_lines: &Vec<String>, message: &str) -> (r: String)
    ensures
        r@ == rag_prompt_text(string_views(context_lines@), message@),
{
    let mut v: Vec<char> = Vec::new();
    if context_lines.len() > 0 {
        let mut parts: Vec<Vec<char>> = Vec::new();
        let mut i: usize = 0;
        while i < context_lines.len()
            invariant
                i <= context_lines.len(),
                views(parts@) == string_views(context_lines@.take(i as int)),
            decreases context_lines.len() - i,
        {
            let p = chars_of(context_lines[i].as_str());
            let ghost before = parts@;
            parts.push(p);
            proof {
                assert(views(parts@) =~= views(before).push(p@));
                assert(string_views(context_lines@.take(i + 1)) =~= string_views(context_lines@.take(i as int)).push(
                    context_lines@[i as int]@,
                ));
            }
            i += 1;
        }
        proof {
            assert(context_lines@.take(context_lines.len() as int) =~= context_lines@);
        }
        let nl = chars_of("\n");
        let body = join_chars(&parts, &nl);
        extend_str(&mut v, "You are an intelligent assistant with access to the user's activity history and meeting data.\n\nRELEVANT CONTEXT FROM USER'S HISTORY:\n");
        extend_chars(&mut v, &body);
        extend_str(&mut v, "\n\nUSER QUESTION: ");
        extend_str(&mut v, message);
        extend_str(&mut v, "\n\nInstructions:\n- Use the context above to inform your answer when relevant\n- If the context doesn't contain relevant information, say so and answer based on general knowledge\n- Reference specific items from the context when applicable (e.g., \"Based on your meeting on [date]...\")\n- Be concise and actionable");
    } else {
        extend_str(&mut v, "You are an intelligent assistant helping with daily operations.\n\nUSER QUESTION: ");
        extend_str(&mut v, message);
        extend_str(&mut v, "\n\nNote: No relevant context was found in the user's history for this query. Answer based on general knowledge.");
    }
    string_of(&v)
}

/// The report of a manual ingest of a meeting.
pub fn ingest_summary(frames_uploaded: usize, transcripts_uploaded: usize) -> (r: String)
    ensures
        r@ == "Ingest complete. Uploaded "@ + dec_nat(frames_uploaded as nat) + " frames and "@ + dec_nat(
            transcripts_uploaded as nat,
        ) + " transcripts."@,
{
    let mut v: Vec<char> = Vec::new();
    extend_str(&mut v, "Ingest complete. Uploaded ");
    let a = dec_u64(frames_uploaded as u64);
    extend_chars(&mut v, &a);
    extend_str(&mut v, " frames and ");
    let b = dec_u64(transcripts_uploaded as u64);
    extend_chars(&mut v, &b);
    extend_str(&mut v, " transcripts.");
    string_of(&v)
}

} // verus!
