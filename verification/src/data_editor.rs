//! Editing learned data with versions: which kinds of record and which of
//! their fields may be edited, the SQL text for each (table and column names
//! come only from fixed lists), the diff kept with a version, and the items
//! shown for database rows. Running the statements is left to the caller.
use vstd::prelude::*;
use crate::chunk_manager::{char_utf8_width, utf8_len};
use crate::episode_builder::opt_view;
use crate::text::{
    chars_of, dec_i64, dec_int, extend_chars, extend_str, lemma_rfind_range, rfind, rfind_chars, str_eq,
    string_of, sub_chars,
};

verus! {

/// One learned record as listed for editing.
#[derive(Debug, Clone)]
pub struct LearnedDataItem {
    pub entity_type: String,
    pub entity_id: String,
    pub title: String,
    pub content: String,
    pub metadata: Option<String>,
    pub created_at: String,
    pub updated_at: String,
}

/// One recorded edit.
#[derive(Debug, Clone)]
pub struct DataVersion {
    pub id: i64,
    pub entity_type: String,
    pub entity_id: String,
    pub field_name: String,
    pub previous_value: Option<String>,
    pub new_value: Option<String>,
    pub diff: Option<String>,
    pub timestamp: String,
}

/// Outcome of an edit.
#[derive(Debug, Clone)]
pub struct EditResult {
    pub success: bool,
    pub version_id: i64,
    pub message: String,
}

/// Kinds of learned record.
#[derive(Debug, Clone, Copy, PartialEq, Eq, Structural)]
pub enum LearnedKind {
    TextSnapshot,
    Entity,
    ActivityLog,
    Episode,
}

/// The kind named by an entity type (`text_snapshot`, `entity`,
/// `activity_log`, `episode`).
pub open spec fn kind_of(entity_type: Seq<char>) -> Option<LearnedKind> {
    if entity_type == "text_snapshot"@ {
        Some(LearnedKind::TextSnapshot)
    } else if entity_type == "entity"@ {
        Some(LearnedKind::Entity)
    } else if entity_type == "activity_log"@ {
        Some(LearnedKind::ActivityLog)
    } else if entity_type == "episode"@ {
        Some(LearnedKind::Episode)
    } else {
        None
    }
}

/// Reads an entity type.
pub fn learned_kind(entity_type: &str) -> (r: Option<LearnedKind>)
    ensures
        r == kind_of(entity_type@),
{
    if str_eq(entity_type, "text_snapshot") {
        Some(LearnedKind::TextSnapshot)
    } else if str_eq(entity_type, "entity") {
        Some(LearnedKind::Entity)
    } else if str_eq(entity_type, "activity_log") {
        Some(LearnedKind::ActivityLog)
    } else if str_eq(entity_type, "episode") {
        Some(LearnedKind::Episode)
    } else {
        None
    }
}

/// Table of a kind.
pub open spec fn table_of(k: LearnedKind) -> Seq<char> {
    match k {
        LearnedKind::TextSnapshot => "text_snapshots"@,
        LearnedKind::Entity => "entities"@,
        LearnedKind::ActivityLog => "activity_log"@,
        LearnedKind::Episode => "document_episodes"@,
    }
}

/// Column searched when counting records of a kind.
pub open spec fn search_column_of(k: LearnedKind) -> Seq<char> {
    match k {
        LearnedKind::TextSnapshot => "content"@,
        LearnedKind::Entity => "entity_value"@,
        LearnedKind::ActivityLog => "action"@,
        LearnedKind::Episode => "document_path"@,
    }
}

/// Fields of a kind that may be edited.
pub open spec fn editable_field(k: LearnedKind, f: Seq<char>) -> bool {
    match k {
        LearnedKind::TextSnapshot => f == "content"@,
        LearnedKind::Entity => f == "entity_value"@ || f == "entity_type"@ || f == "metadata"@,
        LearnedKind::ActivityLog => f == "action"@ || f == "metadata"@,
        LearnedKind::Episode => f == "document_path"@,
    }
}

fn table_name(k: LearnedKind) -> (r: &'static str)
    ensures
        r@ == table_of(k),
{
    match k {
        LearnedKind::TextSnapshot => "text_snapshots",
        LearnedKind::Entity => "entities",
        LearnedKind::ActivityLog => "activity_log",
        LearnedKind::Episode => "document_episodes",
    }
}

fn search_column(k: LearnedKind) -> (r: &'static str)
    ensures
        r@ == search_column_of(k),
{
    match k {
        LearnedKind::TextSnapshot => "content",
        LearnedKind::Entity => "entity_value",
        LearnedKind::ActivityLog => "action",
        LearnedKind::Episode => "document_path",
    }
}

/// Whether field `f` of records of kind `k` may be edited.
pub fn is_editable_field(k: LearnedKind, f: &str) -> (r: bool)
    ensures
        r == editable_field(k, f@),
{
    match k {
        LearnedKind::TextSnapshot => str_eq(f, "content"),
        LearnedKind::Entity => str_eq(f, "entity_value") || str_eq(f, "entity_type") || str_eq(
            f,
            "metadata",
        ),
        LearnedKind::ActivityLog => str_eq(f, "action") || str_eq(f, "metadata"),
        LearnedKind::Episode => str_eq(f, "document_path"),
    }
}

/// The statement counting records of a type (with a `LIKE ?` filter when
/// searching); `None` for an unknown type, which counts as zero.
pub open spec fn count_sql(entity_type: Seq<char>, searching: bool) -> Option<Seq<char>> {
    match kind_of(entity_type) {
        None => None,
        Some(k) => Some(
            if searching {
                "SELECT COUNT(*) as count FROM "@ + table_of(k) + " WHERE "@ + search_column_of(k)
                    + " LIKE ?"@
            } else {
                "SELECT COUNT(*) as count FROM "@ + table_of(k)
            },
        ),
    }
}

/// Builds the counting statement.
pub fn count_query(entity_type: &str, searching: bool) -> (r: Option<String>)
    ensures
        opt_view(r) == count_sql(entity_type@, searching),
{
    let k = match learned_kind(entity_type) {
        Some(k) => k,
        None => {
            return None;
        },
    };
    let mut out: Vec<char> = Vec::new();
    extend_str(&mut out, "SELECT COUNT(*) as count FROM ");
    extend_str(&mut out, table_name(k));
    if searching {
        extend_str(&mut out, " WHERE ");
        extend_str(&mut out, search_column(k));
        extend_str(&mut out, " LIKE ?");
    }
    Some(string_of(&out))
}

/// The `LIKE` pattern of a search text: the text anywhere.
pub fn like_pattern(search: &str) -> (r: String)
    ensures
        r@ == "%"@ + search@ + "%"@,
{
    let mut out: Vec<char> = Vec::new();
    extend_str(&mut out, "%");
    extend_str(&mut out, search);
    extend_str(&mut out, "%");
    string_of(&out)
}

/// The statement reading one field of a record, if that field may be
/// edited.
pub open spec fn select_field_sql(entity_type: Seq<char>, field: Seq<char>) -> Option<Seq<char>> {
    match kind_of(entity_type) {
        Some(k) => if editable_field(k, field) {
            Some("SELECT "@ + field + " FROM "@ + table_of(k) + " WHERE id = ?"@)
        } else {
            None
        },
        None => None,
    }
}

/// The statement writing one field of a record, if that field may be
/// edited.
pub open spec fn update_field_sql(entity_type: Seq<char>, field: Seq<char>) -> Option<Seq<char>> {
    match kind_of(entity_type) {
        Some(k) => if editable_field(k, field) {
            Some("UPDATE "@ + table_of(k) + " SET "@ + field + " = ? WHERE id = ?"@)
        } else {
            None
        },
        None => None,
    }
}

/// Builds the statement reading a field.
pub fn select_field_query(entity_type: &str, field: &str) -> (r: Option<String>)
    ensures
        opt_view(r) == select_field_sql(entity_type@, field@),
{
    let k = match learned_kind(entity_type) {
        Some(k) => k,
        None => {
            return None;
        },
    };
    if !is_editable_field(k, field) {
        return None;
    }
    let mut out: Vec<char> = Vec::new();
    extend_str(&mut out, "SELECT ");
    extend_str(&mut out, field);
    extend_str(&mut out, " FROM ");
    extend_str(&mut out, table_name(k));
    extend_str(&mut out, " WHERE id = ?");
    Some(string_of(&out))
}

/// Builds the statement writing a field.
pub fn update_field_query(entity_type: &str, field: &str) -> (r: Option<String>)
    ensures
        opt_view(r) == update_field_sql(entity_type@, field@),
{
    let k = match learned_kind(entity_type) {
        Some(k) => k,
        None => {
            return None;
        },
    };
    if !is_editable_field(k, field) {
        return None;
    }
    let mut out: Vec<char> = Vec::new();
    extend_str(&mut out, "UPDATE ");
    extend_str(&mut out, table_name(k));
    extend_str(&mut out, " SET ");
    extend_str(&mut out, field);
    extend_str(&mut out, " = ? WHERE id = ?");
    Some(string_of(&out))
}

/// At most the first `n` characters.
pub open spec fn first_chars(s: Seq<char>, n: nat) -> Seq<char> {
    if s.len() <= n {
        s
    } else {
        s.take(n as int)
    }
}

pub(crate) fn take_chars(s: &str, n: usize) -> (r: Vec<char>)
    ensures
        r@ == first_chars(s@, n as nat),
{
    let cs = chars_of(s);
    if cs.len() <= n {
        cs
    } else {
        let r = sub_chars(&cs, 0, n);
        assert(r@ =~= cs@.take(n as int));
        r
    }
}

/// The diff kept with a version: `-old` and `+new` on two lines, or `+new`
/// alone, each value cut to 100 characters.
pub open spec fn version_diff_of(previous: Option<Seq<char>>, new_value: Seq<char>) -> Seq<char> {
    match previous {
        Some(p) => "-"@ + first_chars(p, 100) + "\n+"@ + first_chars(new_value, 100),
        None => "+"@ + first_chars(new_value, 100),
    }
}

/// Builds the diff kept with a version.
pub fn version_diff(previous: Option<&str>, new_value: &str) -> (r: String)
    ensures
        r@ == version_diff_of(
            match previous {
                Some(p) => Some(p@),
                None => None,
            },
            new_value@,
        ),
{
    let mut out: Vec<char> = Vec::new();
    match previous {
        Some(p) => {
            extend_str(&mut out, "-");
            let a = take_chars(p, 100);
            extend_chars(&mut out, &a);
            extend_str(&mut out, "\n+");
        },
        None => {
            extend_str(&mut out, "+");
        },
    }
    let b = take_chars(new_value, 100);
    extend_chars(&mut out, &b);
    string_of(&out)
}

/// The outcome of a successful edit.
pub fn edit_result(version_id: i64, entity_type: &str, field_name: &str) -> (r: EditResult)
    ensures
        r.success,
        r.version_id == version_id,
        r.message@ == "Updated "@ + entity_type@ + "."@ + field_name@,
{
    let mut out: Vec<char> = Vec::new();
    extend_str(&mut out, "Updated ");
    extend_str(&mut out, entity_type);
    extend_str(&mut out, ".");
    extend_str(&mut out, field_name);
    EditResult { success: true, version_id, message: string_of(&out) }
}

/// The outcome of restoring a version that kept no previous value.
pub fn nothing_to_restore() -> (r: EditResult)
    ensures
        !r.success,
        r.version_id == 0,
        r.message@ == "No previous value to restore"@,
{
    EditResult {
        success: false,
        version_id: 0,
        message: String::from_str("No previous value to restore"),
    }
}

/// The longest prefix of `s` at most `n` bytes long in UTF-8.
pub open spec fn byte_prefix(s: Seq<char>, n: nat) -> Seq<char>
    decreases s.len(),
{
    if utf8_len(s) <= n {
        s
    } else {
        byte_prefix(s.drop_last(), n)
    }
}

/// Cutting `s` after `n` bytes falls between characters (or `s` is shorter).
pub open spec fn cut_on_boundary(s: Seq<char>, n: nat) -> bool {
    utf8_len(s) <= n || utf8_len(byte_prefix(s, n)) == n
}

fn char_width(c: char) -> (r: usize)
    ensures
        r == char_utf8_width(c),
{
    let n = c as u32;
    if n < 0x80 {
        1
    } else if n < 0x800 {
        2
    } else if n < 0x10000 {
        3
    } else {
        4
    }
}

proof fn lemma_utf8_len_push(s: Seq<char>, c: char)
    ensures
        utf8_len(s.push(c)) == utf8_len(s) + char_utf8_width(c),
{
    assert(s.push(c).drop_last() =~= s);
}

proof fn lemma_byte_prefix_of_take(s: Seq<char>, k: int, n: nat)
    requires
        0 <= k <= s.len(),
        utf8_len(s.take(k)) <= n,
        k == s.len() || utf8_len(s.take(k + 1)) > n,
    ensures
        byte_prefix(s, n) == s.take(k),
    decreases s.len() - k,
{
    if k == s.len() {
        assert(s.take(k) =~= s);
    } else {
        assert(s.take(s.len() as int) =~= s);
        lemma_utf8_len_monotone(s, k + 1, s.len() as int);
        assert(s.drop_last().take(k) =~= s.take(k));
        if k + 1 <= s.len() - 1 {
            assert(s.drop_last().take(k + 1) =~= s.take(k + 1));
        }
        lemma_byte_prefix_of_take(s.drop_last(), k, n);
    }
}

proof fn lemma_utf8_len_monotone(s: Seq<char>, a: int, b: int)
    requires
        0 <= a <= b <= s.len(),
    ensures
        utf8_len(s.take(a)) <= utf8_len(s.take(b)),
    decreases b - a,
{
    if a < b {
        lemma_utf8_len_monotone(s, a, b - 1);
        assert(s.take(b).drop_last() =~= s.take(b - 1));
    }
}

/// The first `n` bytes of a text (all of it when shorter).
pub fn byte_prefix_chars(s: &str, n: usize) -> (r: Vec<char>)
    ensures
        r@ == byte_prefix(s@, n as nat),
{
    let cs = chars_of(s);
    let mut k: usize = 0;
    let mut used: usize = 0;
    assert(cs@.take(0) =~= Seq::<char>::empty());
    while k < cs.len()
        invariant
            k <= cs@.len(),
            cs@ == s@,
            used == utf8_len(cs@.take(k as int)),
            used <= n,
        decreases cs.len() - k,
    {
        let w = char_width(cs[k]);
        proof {
            assert(cs@.take(k + 1) =~= cs@.take(k as int).push(cs@[k as int]));
            lemma_utf8_len_push(cs@.take(k as int), cs@[k as int]);
        }
        if w > n - used {
            proof {
                lemma_byte_prefix_of_take(cs@, k as int, n as nat);
            }
            let r = sub_chars(&cs, 0, k);
            assert(r@ =~= cs@.take(k as int));
            return r;
        }
        used = used + w;
        k += 1;
    }
    proof {
        lemma_byte_prefix_of_take(cs@, k as int, n as nat);
    }
    let r = sub_chars(&cs, 0, k);
    assert(r@ =~= cs@.take(k as int));
    r
}

/// The item shown for a text snapshot row: titled by the first 8 bytes of
/// its identifier, its text cut to 200 characters.
pub fn text_snapshot_item(id: String, text: &str, created_at: String, metadata: Option<String>) -> (r:
    LearnedDataItem)
    requires
        cut_on_boundary(id@, 8),
    ensures
        r.entity_type@ == "text_snapshot"@,
        r.entity_id == id,
        r.title@ == "Text Snapshot "@ + byte_prefix(id@, 8),
        r.content@ == first_chars(text@, 200),
        r.metadata == metadata,
        r.created_at == created_at,
        r.updated_at == created_at,
{
    let mut title: Vec<char> = Vec::new();
    extend_str(&mut title, "Text Snapshot ");
    let head = byte_prefix_chars(id.as_str(), 8);
    extend_chars(&mut title, &head);
    let content = take_chars(text, 200);
    LearnedDataItem {
        entity_type: String::from_str("text_snapshot"),
        entity_id: id,
        title: string_of(&title),
        content: string_of(&content),
        metadata,
        created_at: created_at.clone(),
        updated_at: created_at,
    }
}

/// The item shown for an entity row: titled `[type] value`.
pub fn entity_item(
    id: i64,
    entity_type: &str,
    entity_value: String,
    first_seen: String,
    last_seen: String,
    metadata: Option<String>,
) -> (r: LearnedDataItem)
    ensures
        r.entity_type@ == "entity"@,
        r.entity_id@ == dec_int(id as int),
        r.title@ == "["@ + entity_type@ + "] "@ + entity_value@,
        r.content == entity_value,
        r.metadata == metadata,
        r.created_at == first_seen,
        r.updated_at == last_seen,
{
    let mut title: Vec<char> = Vec::new();
    extend_str(&mut title, "[");
    extend_str(&mut title, entity_type);
    extend_str(&mut title, "] ");
    extend_str(&mut title, entity_value.as_str());
    let idc = dec_i64(id);
    LearnedDataItem {
        entity_type: String::from_str("entity"),
        entity_id: string_of(&idc),
        title: string_of(&title),
        content: entity_value,
        metadata,
        created_at: first_seen,
        updated_at: last_seen,
    }
}

/// The item shown for an activity row: titled by its action.
pub fn activity_item(id: i64, action: String, timestamp: String, metadata: Option<String>) -> (r:
    LearnedDataItem)
    ensures
        r.entity_type@ == "activity_log"@,
        r.entity_id@ == dec_int(id as int),
        r.title == action,
        r.content == action,
        r.metadata == metadata,
        r.created_at == timestamp,
        r.updated_at == timestamp,
{
    let idc = dec_i64(id);
    LearnedDataItem {
        entity_type: String::from_str("activity_log"),
        entity_id: string_of(&idc),
        title: action.clone(),
        content: action,
        metadata,
        created_at: timestamp.clone(),
        updated_at: timestamp,
    }
}

/// The last component of a path (after the last `/`).
pub open spec fn last_component(p: Seq<char>) -> Seq<char> {
    match rfind(p, "/"@) {
        Some(i) => p.skip(i + 1),
        None => p,
    }
}

/// The item shown for an episode row: titled by its document's file name.
pub fn episode_item(id: i64, document_path: String, started_at: String, ended_at: Option<String>) -> (r:
    LearnedDataItem)
    ensures
        r.entity_type@ == "episode"@,
        r.entity_id@ == dec_int(id as int),
        r.title@ == last_component(document_path@),
        r.content == document_path,
        r.metadata is None,
        r.created_at == started_at,
        r.updated_at@ == match ended_at {
            Some(e) => e@,
            None => Seq::<char>::empty(),
        },
{
    let pc = chars_of(document_path.as_str());
    let slash = chars_of("/");
    let n = pc.len();
    let title = match rfind_chars(&pc, &slash) {
        Some(i) => {
            proof {
                lemma_rfind_range(pc@, slash@, pc@.len() - slash@.len());
                reveal_strlit("/");
                assert(i + 1 <= n);
            }
            let t = sub_chars(&pc, i + 1, n);
            assert(t@ =~= pc@.skip(i + 1));
            t
        },
        None => pc,
    };
    let idc = dec_i64(id);
    LearnedDataItem {
        entity_type: String::from_str("episode"),
        entity_id: string_of(&idc),
        title: string_of(&title),
        content: document_path,
        metadata: None,
        created_at: started_at,
        updated_at: match ended_at {
            Some(e) => e,
            None => String::new(),
        },
    }
}

/// Where edits are recorded, and how many versions are kept per record.
pub struct DataEditor {
    pub max_versions: u32,
}

impl DataEditor {
    pub fn new(max_versions: u32) -> (r: Self)
        ensures
            r.max_versions == max_versions,
    {
        DataEditor { max_versions }
    }
}

} // verus!
