//! Study sessions: the transcript gathered while a session is active, the
//! check that there is something to study, and the prompts asking for a
//! summary, key concepts and a quiz. Calling the model and parsing its JSON
//! are left to the caller. Times are milliseconds since the Unix epoch.
use vstd::prelude::*;
use crate::catch_up_agent::{trim, trim_chars};
use crate::text::{chars_of, extend_str, join, join_chars, lemma_views_push, string_of, views};

verus! {

/// A key term of the session.
#[derive(Debug, Clone)]
pub struct KeyConcept {
    pub term: String,
    pub definition: String,
}

/// A multiple-choice question.
#[derive(Debug, Clone)]
pub struct QuizQuestion {
    pub question: String,
    pub options: Vec<String>,
    pub correct_index: usize,
    pub explanation: String,
}

/// What a session produced.
#[derive(Debug, Clone)]
pub struct StudyMaterials {
    pub session_id: String,
    pub summary: String,
    pub concepts: Vec<KeyConcept>,
    pub quiz: Vec<QuizQuestion>,
    pub created_at_ms: i64,
}

/// A study session.
pub struct DorkModeSession {
    pub session_id: String,
    pub start_time_ms: i64,
    pub content_buffer: Vec<String>,
    pub is_active: bool,
}

/// Whether a text is only whitespace.
pub open spec fn blank(s: Seq<char>) -> bool {
    trim(s).len() == 0
}

fn is_blank(s: &str) -> (r: bool)
    ensures
        r == blank(s@),
{
    trim_chars(&chars_of(s)).len() == 0
}

impl DorkModeSession {
    /// A session started at `now_ms`, active, with nothing gathered.
    pub fn new(session_id: String, now_ms: i64) -> (r: Self)
        ensures
            r.session_id == session_id,
            r.start_time_ms == now_ms,
            r.content_buffer@.len() == 0,
            r.is_active,
    {
        DorkModeSession { session_id, start_time_ms: now_ms, content_buffer: Vec::new(), is_active: true }
    }

    /// Gathers a piece of transcript, unless it is blank or the session
    /// ended.
    pub fn accumulate_content(&mut self, text: &str)
        ensures
            final(self).content_buffer@.map_values(|s: String| s@) == if !blank(text@)
                && old(self).is_active {
                old(self).content_buffer@.map_values(|s: String| s@).push(text@)
            } else {
                old(self).content_buffer@.map_values(|s: String| s@)
            },
            final(self).is_active == old(self).is_active,
            final(self).session_id == old(self).session_id,
    {
        if !is_blank(text) && self.is_active {
            let ghost before = self.content_buffer@;
            self.content_buffer.push(String::from_str(text));
            assert(self.content_buffer@.map_values(|s: String| s@) =~= before.map_values(
                |s: String| s@,
            ).push(text@));
        }
    }

    /// Everything gathered, one piece per line.
    pub fn get_all_content(&self) -> (r: String)
        ensures
            r@ == join(self.content_buffer@.map_values(|s: String| s@), "\n"@),
    {
        let mut parts: Vec<Vec<char>> = Vec::new();
        let mut i: usize = 0;
        while i < self.content_buffer.len()
            invariant
                i <= self.content_buffer@.len(),
                views(parts@) == self.content_buffer@.take(i as int).map_values(|s: String| s@),
            decreases self.content_buffer.len() - i,
        {
            let c = chars_of(self.content_buffer[i].as_str());
            proof {
                lemma_views_push(parts@, c);
                assert(self.content_buffer@.take(i + 1).map_values(|s: String| s@)
                    =~= self.content_buffer@.take(i as int).map_values(|s: String| s@).push(
                    self.content_buffer@[i as int]@,
                ));
            }
            parts.push(c);
            i += 1;
        }
        proof {
            assert(self.content_buffer@.take(self.content_buffer@.len() as int)
                =~= self.content_buffer@);
        }
        let nl = vec!['\n'];
        proof {
            reveal_strlit("\n");
            assert(nl@ =~= "\n"@);
        }
        let joined = join_chars(&parts, &nl);
        string_of(&joined)
    }

    /// Ends the session: nothing more is gathered.
    pub fn end_session(&mut self)
        ensures
            !final(self).is_active,
            final(self).content_buffer@ == old(self).content_buffer@,
            final(self).session_id == old(self).session_id,
    {
        self.is_active = false;
    }

    pub fn is_active(&self) -> (r: bool)
        ensures
            r == self.is_active,
    {
        self.is_active
    }
}

/// Study materials need some content: blank content is refused.
pub fn check_study_content(content: &str) -> (r: Result<(), String>)
    ensures
        blank(content@) ==> (r matches Err(e) && e@ == "No content to generate study materials from"@),
        !blank(content@) ==> r is Ok,
{
    if is_blank(content) {
        Err(String::from_str("No content to generate study materials from"))
    } else {
        Ok(())
    }
}

/// Ending a session needs something captured: blank content is refused.
pub fn check_session_content(content: &str) -> (r: Result<(), String>)
    ensures
        blank(content@) ==> (r matches Err(e) && e@ == "No content captured during session"@),
        !blank(content@) ==> r is Ok,
{
    if is_blank(content) {
        Err(String::from_str("No content captured during session"))
    } else {
        Ok(())
    }
}

/// The prompt asking for a summary of the session.
pub fn summary_prompt(content: &str) -> (r: String)
    ensures
        r@ == "You are a study assistant. Summarize the following study session content into a clear, structured summary. Use bullet points for key topics and include any important details mentioned.\n\nSTUDY SESSION CONTENT:\n"@ + content@ + "\n\nProvide a well-organized summary that would help a student review what they learned."@,
{
    let mut out: Vec<char> = Vec::new();
    extend_str(&mut out, "You are a study assistant. Summarize the following study session content into a clear, structured summary. Use bullet points for key topics and include any important details mentioned.\n\nSTUDY SESSION CONTENT:\n");
    extend_str(&mut out, content);
    extend_str(&mut out, "\n\nProvide a well-organized summary that would help a student review what they learned.");
    string_of(&out)
}

/// The prompt asking for the session's key concepts (as JSON).
pub fn concepts_prompt(content: &str) -> (r: String)
    ensures
        r@ == "You are a study assistant. Extract the key terms and concepts from this study session. For each term, provide a clear, concise definition.\n\nSTUDY SESSION CONTENT:\n"@ + content@ + "\n\nReturn your response as a JSON array of objects with \"term\" and \"definition\" fields. Example:\n[{\"term\": \"Photosynthesis\", \"definition\": \"The process by which plants convert sunlight into energy\"}]\n\nReturn ONLY the JSON array, no other text."@,
{
    let mut out: Vec<char> = Vec::new();
    extend_str(&mut out, "You are a study assistant. Extract the key terms and concepts from this study session. For each term, provide a clear, concise definition.\n\nSTUDY SESSION CONTENT:\n");
    extend_str(&mut out, content);
    extend_str(&mut out, "\n\nReturn your response as a JSON array of objects with \"term\" and \"definition\" fields. Example:\n[{\"term\": \"Photosynthesis\", \"definition\": \"The process by which plants convert sunlight into energy\"}]\n\nReturn ONLY the JSON array, no other text.");
    string_of(&out)
}

/// The prompt asking for quiz questions (as JSON).
pub fn quiz_prompt(content: &str) -> (r: String)
    ensures
        r@ == "You are a study assistant. Generate 5 multiple-choice quiz questions based on this study session content. Each question should test understanding of key concepts.\n\nSTUDY SESSION CONTENT:\n"@ + content@ + "\n\nReturn your response as a JSON array of objects with these fields:\n- \"question\": The question text\n- \"options\": Array of 4 possible answers\n- \"correct_index\": Index (0-3) of the correct answer\n- \"explanation\": Brief explanation of why the answer is correct\n\nExample:\n[{\"question\": \"What is the primary function of mitochondria?\", \"options\": [\"Cell division\", \"Energy production\", \"Protein synthesis\", \"Waste removal\"], \"correct_index\": 1, \"explanation\": \"Mitochondria are the powerhouse of the cell, producing ATP through cellular respiration.\"}]\n\nReturn ONLY the JSON array, no other text."@,
{
    let mut out: Vec<char> = Vec::new();
    extend_str(&mut out, "You are a study assistant. Generate 5 multiple-choice quiz questions based on this study session content. Each question should test understanding of key concepts.\n\nSTUDY SESSION CONTENT:\n");
    extend_str(&mut out, content);
    extend_str(&mut out, "\n\nReturn your response as a JSON array of objects with these fields:\n- \"question\": The question text\n- \"options\": Array of 4 possible answers\n- \"correct_index\": Index (0-3) of the correct answer\n- \"explanation\": Brief explanation of why the answer is correct\n\nExample:\n[{\"question\": \"What is the primary function of mitochondria?\", \"options\": [\"Cell division\", \"Energy production\", \"Protein synthesis\", \"Waste removal\"], \"correct_index\": 1, \"explanation\": \"Mitochondria are the powerhouse of the cell, producing ATP through cellular respiration.\"}]\n\nReturn ONLY the JSON array, no other text.");
    string_of(&out)
}

/// The materials of a session, from the model's summary, concepts and quiz.
pub fn study_materials(
    session_id: &str,
    summary: String,
    concepts: Vec<KeyConcept>,
    quiz: Vec<QuizQuestion>,
    now_ms: i64,
) -> (r: StudyMaterials)
    ensures
        r.session_id@ == session_id@,
        r.summary == summary,
        r.concepts@ == concepts@,
        r.quiz@ == quiz@,
        r.created_at_ms == now_ms,
{
    StudyMaterials {
        session_id: String::from_str(session_id),
        summary,
        concepts,
        quiz,
        created_at_ms: now_ms,
    }
}

} // verus!
