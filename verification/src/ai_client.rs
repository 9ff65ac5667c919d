//! The local model service: presets, the messages of a chat request, the
//! service's endpoints and the listing of its models. The HTTP exchange is
//! made by the caller.
use vstd::prelude::*;
use crate::sizes::{as_double, double_of, one_decimal, one_decimal_chars, GB, KB, MB};
use crate::text::{dec_i64, dec_int, extend_chars, extend_str, string_of};

verus! {

/// A model preset for one meeting task. The sampling temperature is kept in
/// hundredths.
#[derive(Debug, Clone)]
pub struct AIPreset {
    pub id: String,
    pub name: String,
    pub description: String,
    pub model: String,
    pub system_prompt: String,
    pub temperature_hundredths: u32,
}

/// A model the service offers.
#[derive(Debug, Clone)]
pub struct OllamaModel {
    pub name: String,
    pub size: String,
    pub modified_at: String,
}

/// One chat message; `role` is `user`, `assistant` or `system`.
#[derive(Debug, Clone)]
pub struct ChatMessage {
    pub role: String,
    pub content: String,
}

impl AIPreset {
    /// Meeting summary preset.
    pub fn summarize() -> (r: Self)
        ensures
            r.id@ == "summarize"@,
            r.name@ == "Summarize Meeting"@,
            r.description@ == "Generate a concise summary of the meeting"@,
            r.model@ == "llama3.2"@,
            r.system_prompt@ == "You are a professional meeting assistant. Your task is to summarize meeting content concisely and accurately.\nFocus on:\n- Key discussion points\n- Decisions made\n- Important numbers, dates, or commitments mentioned\n- Overall sentiment and tone\n\nKeep summaries clear and actionable. Use bullet points when appropriate."@,
            r.temperature_hundredths == 30,
    {
        AIPreset {
            id: String::from_str("summarize"),
            name: String::from_str("Summarize Meeting"),
            description: String::from_str("Generate a concise summary of the meeting"),
            model: String::from_str("llama3.2"),
            system_prompt: String::from_str("You are a professional meeting assistant. Your task is to summarize meeting content concisely and accurately.\nFocus on:\n- Key discussion points\n- Decisions made\n- Important numbers, dates, or commitments mentioned\n- Overall sentiment and tone\n\nKeep summaries clear and actionable. Use bullet points when appropriate."),
            temperature_hundredths: 30,
        }
    }

    /// Action item preset.
    pub fn action_items() -> (r: Self)
        ensures
            r.id@ == "action_items"@,
            r.name@ == "Extract Action Items"@,
            r.description@ == "Identify tasks and action items from the meeting"@,
            r.model@ == "llama3.2"@,
            r.system_prompt@ == "You are a task extraction assistant. Your job is to identify action items, tasks, and commitments from meeting content.\nFor each action item, extract:\n- The task description\n- Who is responsible (if mentioned)\n- Due date or timeline (if mentioned)\n- Priority level based on context\n\nFormat as a clear, actionable checklist."@,
            r.temperature_hundredths == 20,
    {
        AIPreset {
            id: String::from_str("action_items"),
            name: String::from_str("Extract Action Items"),
            description: String::from_str("Identify tasks and action items from the meeting"),
            model: String::from_str("llama3.2"),
            system_prompt: String::from_str("You are a task extraction assistant. Your job is to identify action items, tasks, and commitments from meeting content.\nFor each action item, extract:\n- The task description\n- Who is responsible (if mentioned)\n- Due date or timeline (if mentioned)\n- Priority level based on context\n\nFormat as a clear, actionable checklist."),
            temperature_hundredths: 20,
        }
    }

    /// Question answering preset.
    pub fn qa() -> (r: Self)
        ensures
            r.id@ == "qa"@,
            r.name@ == "Q&A Assistant"@,
            r.description@ == "Answer questions about the meeting content"@,
            r.model@ == "llama3.2"@,
            r.system_prompt@ == "You are a helpful meeting assistant with access to meeting transcripts and screen content.\nAnswer questions based solely on the meeting content provided. If the answer isn't in the content, say so.\nBe precise and cite specific parts of the meeting when relevant."@,
            r.temperature_hundredths == 50,
    {
        AIPreset {
            id: String::from_str("qa"),
            name: String::from_str("Q&A Assistant"),
            description: String::from_str("Answer questions about the meeting content"),
            model: String::from_str("llama3.2"),
            system_prompt: String::from_str("You are a helpful meeting assistant with access to meeting transcripts and screen content.\nAnswer questions based solely on the meeting content provided. If the answer isn't in the content, say so.\nBe precise and cite specific parts of the meeting when relevant."),
            temperature_hundredths: 50,
        }
    }

    /// All presets: summary, action items, questions.
    pub fn get_all_presets() -> (r: Vec<AIPreset>)
        ensures
            r@.len() == 3,
            r@[0].id@ == "summarize"@,
            r@[1].id@ == "action_items"@,
            r@[2].id@ == "qa"@,
    {
        vec![Self::summarize(), Self::action_items(), Self::qa()]
    }
}

/// A byte count as the model list shows it: one decimal and the unit glued
/// on (`1.5GB`), or whole bytes (`512B`).
pub open spec fn size_label(bytes: int) -> Seq<char> {
    if bytes >= GB {
        one_decimal(as_double(bytes as nat), GB as nat) + "GB"@
    } else if bytes >= MB {
        one_decimal(bytes as nat, MB as nat) + "MB"@
    } else if bytes >= KB {
        one_decimal(bytes as nat, KB as nat) + "KB"@
    } else {
        dec_int(bytes) + "B"@
    }
}

/// Formats a model's size.
pub fn format_size(bytes: i64) -> (r: String)
    ensures
        r@ == size_label(bytes as int),
{
    let mut out: Vec<char> = Vec::new();
    if bytes >= GB as i64 {
        let d = one_decimal_chars(double_of(bytes as u64), GB);
        extend_chars(&mut out, &d);
        extend_str(&mut out, "GB");
    } else if bytes >= MB as i64 {
        let d = one_decimal_chars(bytes as u128, MB);
        extend_chars(&mut out, &d);
        extend_str(&mut out, "MB");
    } else if bytes >= KB as i64 {
        let d = one_decimal_chars(bytes as u128, KB);
        extend_chars(&mut out, &d);
        extend_str(&mut out, "KB");
    } else {
        let d = dec_i64(bytes);
        extend_chars(&mut out, &d);
        extend_str(&mut out, "B");
    }
    string_of(&out)
}

/// A model entry of the service's listing, its size made readable.
pub fn model_entry(name: String, size: i64, modified_at: String) -> (r: OllamaModel)
    ensures
        r.name == name,
        r.size@ == size_label(size as int),
        r.modified_at == modified_at,
{
    OllamaModel { name, size: format_size(size), modified_at }
}

/// The service's address and its endpoints.
pub struct AIClient {
    pub base_url: String,
}

impl AIClient {
    /// The service on this machine.
    pub fn new() -> (r: Self)
        ensures
            r.base_url@ == "http://localhost:11434"@,
    {
        AIClient { base_url: String::from_str("http://localhost:11434") }
    }

    /// The service at `base_url`.
    pub fn with_url(base_url: &str) -> (r: Self)
        ensures
            r.base_url@ == base_url@,
    {
        AIClient { base_url: String::from_str(base_url) }
    }

    /// Endpoint answering whether the service runs.
    pub fn version_url(&self) -> (r: String)
        ensures
            r@ == self.base_url@ + "/api/version"@,
    {
        let mut out: Vec<char> = Vec::new();
        extend_str(&mut out, self.base_url.as_str());
        extend_str(&mut out, "/api/version");
        string_of(&out)
    }

    /// Endpoint listing the models.
    pub fn tags_url(&self) -> (r: String)
        ensures
            r@ == self.base_url@ + "/api/tags"@,
    {
        let mut out: Vec<char> = Vec::new();
        extend_str(&mut out, self.base_url.as_str());
        extend_str(&mut out, "/api/tags");
        string_of(&out)
    }

    /// Endpoint of a chat.
    pub fn chat_url(&self) -> (r: String)
        ensures
            r@ == self.base_url@ + "/api/chat"@,
    {
        let mut out: Vec<char> = Vec::new();
        extend_str(&mut out, self.base_url.as_str());
        extend_str(&mut out, "/api/chat");
        string_of(&out)
    }
}

/// The message carrying the meeting content.
pub open spec fn context_text(ctx: Seq<char>) -> Seq<char> {
    "Here is the meeting content for reference:\n\n"@ + ctx
}

/// The messages of a chat request: the preset's system prompt, then the
/// meeting content as a second system message where there is one, then the
/// caller's messages in order.
pub open spec fn chat_request_messages(
    preset: AIPreset,
    messages: Seq<ChatMessage>,
    context: Option<Seq<char>>,
    r: Seq<ChatMessage>,
) -> bool {
    let k: int = if context is Some { 2 } else { 1 };
    &&& r.len() == messages.len() + k
    &&& r[0].role@ == "system"@
    &&& r[0].content@ == preset.system_prompt@
    &&& (context matches Some(c) ==> r[1].role@ == "system"@ && r[1].content@ == context_text(c))
    &&& forall|i: int| 0 <= i < messages.len() ==> #[trigger] r[i + k] == messages[i]
}

/// Builds the messages of a chat request.
pub fn chat_messages(preset: &AIPreset, messages: Vec<ChatMessage>, context: Option<&str>) -> (r:
    Vec<ChatMessage>)
    ensures
        chat_request_messages(
            *preset,
            messages@,
            match context {
                Some(c) => Some(c@),
                None => None,
            },
            r@,
        ),
{
    let mut out: Vec<ChatMessage> = Vec::new();
    out.push(ChatMessage {
        role: String::from_str("system"),
        content: preset.system_prompt.clone(),
    });
    match context {
        Some(ctx) => {
            let mut c: Vec<char> = Vec::new();
            extend_str(&mut c, "Here is the meeting content for reference:\n\n");
            extend_str(&mut c, ctx);
            out.push(ChatMessage { role: String::from_str("system"), content: string_of(&c) });
        },
        None => {},
    }
    let k = out.len();
    let ghost head = out@;
    assert(k == if context is Some { 2usize } else { 1usize });
    assert(head[0].role@ == "system"@ && head[0].content@ == preset.system_prompt@);
    let mut src = messages;
    let ghost orig = src@;
    let n = src.len();
    let mut i: usize = 0;
    while i < n
        invariant
            i <= n == orig.len(),
            src@ == orig.skip(i as int),
            out@.len() == k + i,
            out@.take(k as int) == head,
            forall|j: int| 0 <= j < i ==> #[trigger] out@[j + k] == orig[j],
        decreases n - i,
    {
        let m = src.remove(0);
        assert(m == orig[i as int]);
        assert(src@ =~= orig.skip(i + 1));
        let ghost before = out@;
        out.push(m);
        proof {
            assert(out@.take(k as int) =~= before.take(k as int));
        }
        i += 1;
    }
    proof {
        assert(out@[0] == out@.take(k as int)[0]);
        if context is Some {
            assert(out@[1] == out@.take(k as int)[1]);
        }
    }
    out
}

/// The user message asking for a summary.
pub fn summarize_request() -> (r: ChatMessage)
    ensures
        r.role@ == "user"@,
        r.content@ == "Please summarize this meeting."@,
{
    ChatMessage {
        role: String::from_str("user"),
        content: String::from_str("Please summarize this meeting."),
    }
}

/// The user message asking for action items.
pub fn action_items_request() -> (r: ChatMessage)
    ensures
        r.role@ == "user"@,
        r.content@ == "Please extract the action items from this meeting."@,
{
    ChatMessage {
        role: String::from_str("user"),
        content: String::from_str("Please extract the action items from this meeting."),
    }
}

/// The model a prompt is tried with: the one its configuration names, else
/// the default vision model.
pub fn prompt_test_model(configured: Option<String>) -> (r: String)
    ensures
        r@ == match configured {
            Some(m) => m@,
            None => "qwen2.5vl:7b"@,
        },
{
    match configured {
        Some(m) => m,
        None => String::from_str("qwen2.5vl:7b"),
    }
}

/// The text a prompt is tried with: the prompt, then the test input as the user's turn.
pub fn prompt_test_text(system_prompt: &str, test_input: &str) -> (r: String)
    ensures
        r@ == system_prompt@ + "\n\nUser: "@ + test_input@,
{
    let mut v: Vec<char> = Vec::new();
    extend_str(&mut v, system_prompt);
    extend_str(&mut v, "\n\nUser: ");
    extend_str(&mut v, test_input);
    string_of(&v)
}

/// What a prompt test shows: the model's response, or a note that there was none.
pub fn prompt_test_reply(response: Option<String>) -> (r: String)
    ensures
        r@ == match response {
            Some(t) => t@,
            None => "(No response)"@,
        },
{
    match response {
        Some(t) => t,
        None => String::from_str("(No response)"),
    }
}

} // verus!
