//! Queries built from the filters a caller gives, and the text a final
//! transcript is deduplicated by. Each query binds, in order, one value per
//! filter present and then the row limit, so it holds exactly that many
//! placeholders.
use vstd::prelude::*;
use crate::catch_up_agent::{trim, trim_chars};
use crate::text::{chars_of, extend_str, lowercase, string_of, to_lowercase_str};

verus! {

/// Number of `?` placeholders in a query.
pub open spec fn placeholders(s: Seq<char>) -> nat
    decreases s.len(),
{
    if s.len() == 0 {
        0
    } else {
        placeholders(s.drop_last()) + if s.last() == '?' { 1nat } else { 0nat }
    }
}

proof fn lemma_placeholders_concat(a: Seq<char>, b: Seq<char>)
    ensures
        placeholders(a + b) == placeholders(a) + placeholders(b),
    decreases b.len(),
{
    if b.len() == 0 {
        assert(a + b =~= a);
    } else {
        assert((a + b).drop_last() =~= a + b.drop_last());
        lemma_placeholders_concat(a, b.drop_last());
    }
}

proof fn lemma_activities_head_literal()
    ensures
        placeholders("SELECT * FROM activity_log WHERE 1=1"@) == 0,
{
    reveal_strlit("SELECT * FROM activity_log WHERE 1=1");
    reveal_with_fuel(placeholders, 38);
}

proof fn lemma_start_filter_literal()
    ensures
        placeholders(" AND start_time >= ?"@) == 1,
{
    reveal_strlit(" AND start_time >= ?");
    reveal_with_fuel(placeholders, 22);
}

proof fn lemma_end_filter_literal()
    ensures
        placeholders(" AND start_time <= ?"@) == 1,
{
    reveal_strlit(" AND start_time <= ?");
    reveal_with_fuel(placeholders, 22);
}

proof fn lemma_category_filter_literal()
    ensures
        placeholders(" AND category = ?"@) == 1,
{
    reveal_strlit(" AND category = ?");
    reveal_with_fuel(placeholders, 19);
}

proof fn lemma_activities_tail_literal()
    ensures
        placeholders(" ORDER BY start_time DESC LIMIT ?"@) == 1,
{
    reveal_strlit(" ORDER BY start_time DESC LIMIT ?");
    reveal_with_fuel(placeholders, 35);
}

proof fn lemma_activity_literals()
    ensures
        placeholders("SELECT * FROM activity_log WHERE 1=1"@) == 0,
        placeholders(" AND start_time >= ?"@) == 1,
        placeholders(" AND start_time <= ?"@) == 1,
        placeholders(" AND category = ?"@) == 1,
        placeholders(" ORDER BY start_time DESC LIMIT ?"@) == 1,
{
    lemma_activities_head_literal();
    lemma_start_filter_literal();
    lemma_end_filter_literal();
    lemma_category_filter_literal();
    lemma_activities_tail_literal();
}

/// `s` when `on`, else nothing.
pub open spec fn when(on: bool, s: Seq<char>) -> Seq<char> {
    if on {
        s
    } else {
        Seq::empty()
    }
}

pub open spec fn flag(b: bool) -> nat {
    if b {
        1
    } else {
        0
    }
}

/// The query for logged activities: the filters present, newest first, at
/// most the bound limit.
pub open spec fn activities_sql(has_start: bool, has_end: bool, has_category: bool) -> Seq<char> {
    "SELECT * FROM activity_log WHERE 1=1"@ + when(has_start, " AND start_time >= ?"@) + when(
        has_end,
        " AND start_time <= ?"@,
    ) + when(has_category, " AND category = ?"@) + " ORDER BY start_time DESC LIMIT ?"@
}

fn push_when(q: &mut Vec<char>, on: bool, s: &str)
    ensures
        final(q)@ == old(q)@ + when(on, s@),
{
    if on {
        extend_str(q, s);
    } else {
        assert(q@ =~= q@ + Seq::<char>::empty());
    }
}

/// Builds the activities query for the filters present (start date, end
/// date, category). It holds one placeholder per filter present and one for
/// the limit.
pub fn activities_query(has_start: bool, has_end: bool, has_category: bool) -> (r: String)
    ensures
        r@ == activities_sql(has_start, has_end, has_category),
        placeholders(r@) == flag(has_start) + flag(has_end) + flag(has_category) + 1,
{
    let mut q = chars_of("SELECT * FROM activity_log WHERE 1=1");
    push_when(&mut q, has_start, " AND start_time >= ?");
    push_when(&mut q, has_end, " AND start_time <= ?");
    push_when(&mut q, has_category, " AND category = ?");
    extend_str(&mut q, " ORDER BY start_time DESC LIMIT ?");
    proof {
        let base = "SELECT * FROM activity_log WHERE 1=1"@;
        let s1 = " AND start_time >= ?"@;
        let s2 = " AND start_time <= ?"@;
        let s3 = " AND category = ?"@;
        let tail = " ORDER BY start_time DESC LIMIT ?"@;
        lemma_activity_literals();
        assert(placeholders(Seq::<char>::empty()) == 0);
        let w1 = when(has_start, s1);
        let w2 = when(has_end, s2);
        let w3 = when(has_category, s3);
        lemma_placeholders_concat(base, w1);
        lemma_placeholders_concat(base + w1, w2);
        lemma_placeholders_concat(base + w1 + w2, w3);
        lemma_placeholders_concat(base + w1 + w2 + w3, tail);
    }
    string_of(&q)
}

proof fn lemma_entities_first_columns()
    ensures
        placeholders("SELECT id, activity_id, entity_type, name, "@) == 0,
{
    reveal_strlit("SELECT id, activity_id, entity_type, name, ");
    reveal_with_fuel(placeholders, 45);
}

proof fn lemma_entities_last_columns()
    ensures
        placeholders("metadata, confidence, theme, created_at "@) == 0,
{
    reveal_strlit("metadata, confidence, theme, created_at ");
    reveal_with_fuel(placeholders, 42);
}

proof fn lemma_entities_table_literal()
    ensures
        placeholders("FROM entities WHERE 1=1"@) == 0,
{
    reveal_strlit("FROM entities WHERE 1=1");
    reveal_with_fuel(placeholders, 25);
}

/// The columns and table the entities query reads.
pub open spec fn entities_head() -> Seq<char> {
    "SELECT id, activity_id, entity_type, name, "@ + "metadata, confidence, theme, created_at "@ + "FROM entities WHERE 1=1"@
}

proof fn lemma_entities_head_literal()
    ensures
        placeholders(entities_head()) == 0,
{
    lemma_entities_first_columns();
    lemma_entities_last_columns();
    lemma_entities_table_literal();
    lemma_placeholders_concat("SELECT id, activity_id, entity_type, name, "@, "metadata, confidence, theme, created_at "@);
    lemma_placeholders_concat("SELECT id, activity_id, entity_type, name, "@ + "metadata, confidence, theme, created_at "@, "FROM entities WHERE 1=1"@);
}

proof fn lemma_type_filter_literal()
    ensures
        placeholders(" AND entity_type = ?"@) == 1,
{
    reveal_strlit(" AND entity_type = ?");
    reveal_with_fuel(placeholders, 22);
}

proof fn lemma_theme_filter_literal()
    ensures
        placeholders(" AND theme = ?"@) == 1,
{
    reveal_strlit(" AND theme = ?");
    reveal_with_fuel(placeholders, 16);
}

proof fn lemma_entities_tail_literal()
    ensures
        placeholders(" ORDER BY created_at DESC LIMIT ?"@) == 1,
{
    reveal_strlit(" ORDER BY created_at DESC LIMIT ?");
    reveal_with_fuel(placeholders, 35);
}

/// The query for extracted entities: the filters present, newest first, at
/// most the bound limit.
pub open spec fn entities_sql(has_type: bool, has_theme: bool) -> Seq<char> {
    entities_head() + when(has_type, " AND entity_type = ?"@) + when(has_theme, " AND theme = ?"@)
        + " ORDER BY created_at DESC LIMIT ?"@
}

/// Builds the entities query for the filters present (entity type, theme).
/// It holds one placeholder per filter present and one for the limit.
pub fn entities_query(has_type: bool, has_theme: bool) -> (r: String)
    ensures
        r@ == entities_sql(has_type, has_theme),
        placeholders(r@) == flag(has_type) + flag(has_theme) + 1,
{
    let mut q = chars_of("SELECT id, activity_id, entity_type, name, ");
    extend_str(&mut q, "metadata, confidence, theme, created_at ");
    extend_str(&mut q, "FROM entities WHERE 1=1");
    push_when(&mut q, has_type, " AND entity_type = ?");
    push_when(&mut q, has_theme, " AND theme = ?");
    extend_str(&mut q, " ORDER BY created_at DESC LIMIT ?");
    proof {
        let base = entities_head();
        let w1 = when(has_type, " AND entity_type = ?"@);
        let w2 = when(has_theme, " AND theme = ?"@);
        let tail = " ORDER BY created_at DESC LIMIT ?"@;
        lemma_entities_head_literal();
        lemma_type_filter_literal();
        lemma_theme_filter_literal();
        lemma_entities_tail_literal();
        assert(placeholders(Seq::<char>::empty()) == 0);
        lemma_placeholders_concat(base, w1);
        lemma_placeholders_concat(base + w1, w2);
        lemma_placeholders_concat(base + w1 + w2, tail);
    }
    string_of(&q)
}

/// How many entities are listed when no limit is given.
pub fn entity_list_limit(limit: Option<i32>) -> (r: i32)
    ensures
        r == match limit {
            Some(l) => l,
            None => 100,
        },
{
    match limit {
        Some(l) => l,
        None => 100,
    }
}

/// The text a transcript is deduplicated by: final transcripts that are not
/// blank are compared by their trimmed, lowercased text; others are stored
/// as they come.
pub open spec fn dedup_text(is_final: bool, text: Seq<char>) -> Option<Seq<char>> {
    if is_final && trim(text).len() > 0 {
        Some(lowercase(trim(text)))
    } else {
        None
    }
}

/// The text a new transcript is deduplicated by, if it is deduplicated.
pub fn transcript_dedup_text(is_final: bool, text: &str) -> (r: Option<String>)
    ensures
        match r {
            Some(t) => dedup_text(is_final, text@) == Some(t@),
            None => dedup_text(is_final, text@) is None,
        },
{
    if !is_final {
        return None;
    }
    let cs = chars_of(text);
    let t = trim_chars(&cs);
    if t.len() == 0 {
        return None;
    }
    let ts = string_of(&t);
    Some(to_lowercase_str(ts.as_str()))
}

} // verus!
