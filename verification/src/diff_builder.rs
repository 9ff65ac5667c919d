//! Text diffs between successive snapshots of a document: which lines were
//! added or removed, a unified-diff rendering, a classification of the change
//! and a one-line summary.
use vstd::prelude::*;
use crate::hashing::{new_uuid_v4, sha256_hex, text_hash, uuid_v4_text};
use crate::text::{
    chars_of, dec_i64, dec_int, extend_chars, extend_str, join, join_chars, lines, split_lines,
    split_words, string_of, views, words,
};
use crate::wordset::{copy_chars, has_word, word_overlap, word_set};

verus! {

/// Change types for text modifications.
#[derive(Debug, Clone, Copy, PartialEq, Eq, Structural)]
pub enum ChangeType {
    /// New content added
    ContentAdded,
    /// Content removed
    ContentRemoved,
    /// Text reworded but meaning similar
    Reworded,
    /// Only formatting changed (whitespace, etc)
    FormatOnly,
    /// Cursor or selection changes only
    CursorOnly,
    /// Scroll changes only
    ScrollOnly,
    /// Navigation to different section
    Navigation,
    /// New document opened
    NewDocument,
    /// Mixed changes
    ContentChanged,
}

/// The snake-case name under which a change type is stored.
pub open spec fn change_type_name(t: ChangeType) -> Seq<char> {
    match t {
        ChangeType::ContentAdded => "content_added"@,
        ChangeType::ContentRemoved => "content_removed"@,
        ChangeType::Reworded => "reworded"@,
        ChangeType::FormatOnly => "format_only"@,
        ChangeType::CursorOnly => "cursor_only"@,
        ChangeType::ScrollOnly => "scroll_only"@,
        ChangeType::Navigation => "navigation"@,
        ChangeType::NewDocument => "new_document"@,
        ChangeType::ContentChanged => "content_changed"@,
    }
}

impl ChangeType {
    /// The snake-case name of the change type.
    pub fn as_str(&self) -> (r: &'static str)
        ensures
            r@ == change_type_name(*self),
    {
        match self {
            ChangeType::ContentAdded => "content_added",
            ChangeType::ContentRemoved => "content_removed",
            ChangeType::Reworded => "reworded",
            ChangeType::FormatOnly => "format_only",
            ChangeType::CursorOnly => "cursor_only",
            ChangeType::ScrollOnly => "scroll_only",
            ChangeType::Navigation => "navigation",
            ChangeType::NewDocument => "new_document",
            ChangeType::ContentChanged => "content_changed",
        }
    }
}

impl Default for ChangeType {
    fn default() -> (r: Self)
        ensures
            r == ChangeType::ContentChanged,
    {
        ChangeType::ContentChanged
    }
}

/// Result of a text diff operation. `ts_ms` is the snapshot time in
/// milliseconds since the Unix epoch.
#[derive(Debug, Clone)]
pub struct TextDiff {
    pub patch_id: String,
    pub episode_id: String,
    pub from_text_hash: String,
    pub to_text_hash: String,
    pub ts_ms: i64,
    pub unified_diff: String,
    pub lines_added: i32,
    pub lines_removed: i32,
    pub change_type: ChangeType,
    pub change_summary: Option<String>,
}

/// Configuration for diff builder.
#[derive(Debug, Clone)]
pub struct DiffConfig {
    /// Maximum lines to include in diff output
    pub max_diff_lines: usize,
    /// Context lines around changes
    pub context_lines: usize,
    /// Whether to generate summaries
    pub generate_summaries: bool,
}

impl Default for DiffConfig {
    fn default() -> (r: Self)
        ensures
            r.max_diff_lines == 500,
            r.context_lines == 3,
            r.generate_summaries,
    {
        DiffConfig { max_diff_lines: 500, context_lines: 3, generate_summaries: true }
    }
}

/// One line of a diff, as a value of the specification.
pub enum SpecChange {
    Same(Seq<char>),
    Add(Seq<char>),
    Del(Seq<char>),
}

/// One line of a diff.
#[derive(Debug, Clone)]
pub enum LineChange {
    Unchanged(Vec<char>),
    Added(Vec<char>),
    Removed(Vec<char>),
}

impl View for LineChange {
    type V = SpecChange;

    open spec fn view(&self) -> SpecChange {
        match self {
            LineChange::Unchanged(l) => SpecChange::Same(l@),
            LineChange::Added(l) => SpecChange::Add(l@),
            LineChange::Removed(l) => SpecChange::Del(l@),
        }
    }
}

pub open spec fn change_views(v: Seq<LineChange>) -> Seq<SpecChange> {
    v.map_values(|c: LineChange| c@)
}

/// Lines of `from` that do not occur in `to`, in order, as removals.
pub open spec fn removed_changes(from: Seq<Seq<char>>, to: Seq<Seq<char>>) -> Seq<SpecChange>
    decreases from.len(),
{
    if from.len() == 0 {
        Seq::empty()
    } else {
        let r = removed_changes(from.drop_last(), to);
        if to.contains(from.last()) {
            r
        } else {
            r.push(SpecChange::Del(from.last()))
        }
    }
}

/// Lines of `to` that do not occur in `from`, in order, as additions.
pub open spec fn added_changes(from: Seq<Seq<char>>, to: Seq<Seq<char>>) -> Seq<SpecChange>
    decreases to.len(),
{
    if to.len() == 0 {
        Seq::empty()
    } else {
        let r = added_changes(from, to.drop_last());
        if from.contains(to.last()) {
            r
        } else {
            r.push(SpecChange::Add(to.last()))
        }
    }
}

/// Lines that do not occur in `other`.
pub open spec fn not_in(other: Seq<Seq<char>>) -> spec_fn(Seq<char>) -> bool {
    |l: Seq<char>| !other.contains(l)
}

/// Law: the removals of a diff are the old lines missing from the new
/// text, in their order, each marked removed.
pub proof fn lemma_removals_are_missing_old_lines(from: Seq<Seq<char>>, to: Seq<Seq<char>>)
    ensures
        removed_changes(from, to) == from.filter(not_in(to)).map_values(
            |l: Seq<char>| SpecChange::Del(l),
        ),
    decreases from.len(),
{
    reveal(Seq::filter);
    if from.len() == 0 {
        assert(from.filter(not_in(to)) =~= Seq::<Seq<char>>::empty());
        assert(from.filter(not_in(to)).map_values(|l: Seq<char>| SpecChange::Del(l))
            =~= Seq::<SpecChange>::empty());
    } else {
        lemma_removals_are_missing_old_lines(from.drop_last(), to);
        let f = from.drop_last().filter(not_in(to));
        if !to.contains(from.last()) {
            assert(f.push(from.last()).map_values(|l: Seq<char>| SpecChange::Del(l)) =~= f.map_values(
                |l: Seq<char>| SpecChange::Del(l),
            ).push(SpecChange::Del(from.last())));
        }
    }
}

/// Law: the additions of a diff are the new lines missing from the old
/// text, in their order, each marked added.
pub proof fn lemma_additions_are_missing_new_lines(from: Seq<Seq<char>>, to: Seq<Seq<char>>)
    ensures
        added_changes(from, to) == to.filter(not_in(from)).map_values(
            |l: Seq<char>| SpecChange::Add(l),
        ),
    decreases to.len(),
{
    reveal(Seq::filter);
    if to.len() == 0 {
        assert(to.filter(not_in(from)) =~= Seq::<Seq<char>>::empty());
        assert(to.filter(not_in(from)).map_values(|l: Seq<char>| SpecChange::Add(l))
            =~= Seq::<SpecChange>::empty());
    } else {
        lemma_additions_are_missing_new_lines(from, to.drop_last());
        let f = to.drop_last().filter(not_in(from));
        if !from.contains(to.last()) {
            assert(f.push(to.last()).map_values(|l: Seq<char>| SpecChange::Add(l)) =~= f.map_values(
                |l: Seq<char>| SpecChange::Add(l),
            ).push(SpecChange::Add(to.last())));
        }
    }
}

/// Context: the lines of `head` (a prefix of the new text) that also occur
/// in `from`, most recent first.
pub open spec fn context_changes(from: Seq<Seq<char>>, head: Seq<Seq<char>>) -> Seq<SpecChange>
    decreases head.len(),
{
    if head.len() == 0 {
        Seq::empty()
    } else {
        let r = context_changes(from, head.drop_last());
        if from.contains(head.last()) {
            seq![SpecChange::Same(head.last())] + r
        } else {
            r
        }
    }
}

/// Lines that occur in `other`.
pub open spec fn found_in(other: Seq<Seq<char>>) -> spec_fn(Seq<char>) -> bool {
    |l: Seq<char>| other.contains(l)
}

/// Law: the context of a diff is the lines of the given head of the new
/// text that also occur in the old one, latest first, each unchanged.
pub proof fn lemma_context_is_shared_head_lines_latest_first(from: Seq<Seq<char>>, head: Seq<Seq<char>>)
    ensures
        context_changes(from, head) == head.filter(found_in(from)).reverse().map_values(
            |l: Seq<char>| SpecChange::Same(l),
        ),
    decreases head.len(),
{
    reveal(Seq::filter);
    if head.len() == 0 {
        assert(head.filter(found_in(from)) =~= Seq::<Seq<char>>::empty());
        assert(head.filter(found_in(from)).reverse().map_values(|l: Seq<char>| SpecChange::Same(l))
            =~= Seq::<SpecChange>::empty());
    } else {
        lemma_context_is_shared_head_lines_latest_first(from, head.drop_last());
        let f = head.drop_last().filter(found_in(from));
        if from.contains(head.last()) {
            let g = f.push(head.last());
            assert(g.reverse() =~= seq![head.last()] + f.reverse());
            assert(g.reverse().map_values(|l: Seq<char>| SpecChange::Same(l)) =~= seq![
                SpecChange::Same(head.last()),
            ] + f.reverse().map_values(|l: Seq<char>| SpecChange::Same(l)));
        }
    }
}

pub open spec fn min_nat(a: int, b: int) -> int {
    if a <= b {
        a
    } else {
        b
    }
}

/// All line changes: context from the first `ctx` new lines, then removals,
/// then additions.
pub open spec fn line_changes(from: Seq<Seq<char>>, to: Seq<Seq<char>>, ctx: int) -> Seq<
    SpecChange,
> {
    context_changes(from, to.take(min_nat(ctx, to.len() as int))) + removed_changes(from, to)
        + added_changes(from, to)
}

/// The unified-diff line for one change.
pub open spec fn change_line(c: SpecChange) -> Seq<char> {
    match c {
        SpecChange::Same(l) => seq![' '] + l + seq!['\n'],
        SpecChange::Add(l) => seq!['+'] + l + seq!['\n'],
        SpecChange::Del(l) => seq!['-'] + l + seq!['\n'],
    }
}

/// Unified-diff text of a list of changes.
pub open spec fn render(cs: Seq<SpecChange>) -> Seq<char>
    decreases cs.len(),
{
    if cs.len() == 0 {
        Seq::empty()
    } else {
        render(cs.drop_last()) + change_line(cs.last())
    }
}

/// The line a change is about.
pub open spec fn line_of(c: SpecChange) -> Seq<char> {
    match c {
        SpecChange::Same(l) => l,
        SpecChange::Add(l) => l,
        SpecChange::Del(l) => l,
    }
}

/// Law: a rendered diff is written line by line, one line per change, in
/// order: `+` before an added line, `-` before a removed one, a space
/// before an unchanged one, each followed by a newline.
pub proof fn lemma_render_marks_each_change(cs: Seq<SpecChange>)
    ensures
        render(cs.take(0)).len() == 0,
        render(cs) == render(cs.take(cs.len() as int)),
        forall|i: int|
            0 <= i < cs.len() ==> render(#[trigger] cs.take(i + 1)) == render(cs.take(i)) + seq![
                if cs[i] is Add {
                    '+'
                } else if cs[i] is Del {
                    '-'
                } else {
                    ' '
                },
            ] + line_of(cs[i]) + seq!['\n'],
{
    assert(cs.take(0) =~= Seq::<SpecChange>::empty());
    assert(cs.take(cs.len() as int) =~= cs);
    assert forall|i: int| 0 <= i < cs.len() implies render(#[trigger] cs.take(i + 1)) == render(
        cs.take(i),
    ) + seq![
        if cs[i] is Add {
            '+'
        } else if cs[i] is Del {
            '-'
        } else {
            ' '
        },
    ] + line_of(cs[i]) + seq!['\n'] by {
        assert(cs.take(i + 1).drop_last() =~= cs.take(i));
        assert(cs.take(i + 1).last() == cs[i]);
        match cs[i] {
            SpecChange::Same(l) => {
                assert(seq![' '] + l + seq!['\n'] =~= seq![' '] + line_of(cs[i]) + seq!['\n']);
            },
            SpecChange::Add(l) => {
                assert(seq!['+'] + l + seq!['\n'] =~= seq!['+'] + line_of(cs[i]) + seq!['\n']);
            },
            SpecChange::Del(l) => {
                assert(seq!['-'] + l + seq!['\n'] =~= seq!['-'] + line_of(cs[i]) + seq!['\n']);
            },
        }
    }
}

/// Number of additions in a list of changes.
pub open spec fn count_added(cs: Seq<SpecChange>) -> int
    decreases cs.len(),
{
    if cs.len() == 0 {
        0
    } else {
        count_added(cs.drop_last()) + if cs.last() is Add {
            1int
        } else {
            0int
        }
    }
}

/// Number of removals in a list of changes.
pub open spec fn count_removed(cs: Seq<SpecChange>) -> int
    decreases cs.len(),
{
    if cs.len() == 0 {
        0
    } else {
        count_removed(cs.drop_last()) + if cs.last() is Del {
            1int
        } else {
            0int
        }
    }
}

/// The changes that make it into the output: at most `max` of them.
pub open spec fn shown(cs: Seq<SpecChange>, max: int) -> Seq<SpecChange> {
    cs.take(min_nat(max, cs.len() as int))
}

/// Whitespace runs collapsed to single spaces, ends trimmed.
pub open spec fn normalize(t: Seq<char>) -> Seq<char> {
    join(words(t), seq![' '])
}

/// 95% word overlap between the normalized texts (the larger word set
/// decides): `20 * |A ∩ B| >= 19 * max(|A|, |B|)`, false when either is empty.
pub open spec fn scroll_like(from: Seq<char>, to: Seq<char>) -> bool {
    let a = word_set(words(normalize(from)));
    let b = word_set(words(normalize(to)));
    let total = if a.len() >= b.len() {
        a.len()
    } else {
        b.len()
    };
    a.len() != 0 && b.len() != 0 && 20 * a.intersect(b).len() >= 19 * total
}

/// Classification of a change between two texts.
pub open spec fn classify(from: Seq<char>, to: Seq<char>, added: int, removed: int) -> ChangeType {
    if from.len() == 0 && to.len() != 0 {
        ChangeType::NewDocument
    } else if from.len() != 0 && to.len() == 0 {
        ChangeType::ContentRemoved
    } else if normalize(from) == normalize(to) {
        ChangeType::FormatOnly
    } else if scroll_like(from, to) {
        ChangeType::ScrollOnly
    } else if added > 0 && removed == 0 {
        ChangeType::ContentAdded
    } else if removed > 0 && added == 0 {
        ChangeType::ContentRemoved
    } else {
        ChangeType::ContentChanged
    }
}

/// Law: the added and removed counts of a list of changes are the numbers
/// of additions and of removals in it.
pub proof fn lemma_counts_are_numbers_of_changes(cs: Seq<SpecChange>)
    ensures
        count_added(cs) == cs.filter(|c: SpecChange| c is Add).len(),
        count_removed(cs) == cs.filter(|c: SpecChange| c is Del).len(),
    decreases cs.len(),
{
    reveal(Seq::filter);
    if cs.len() > 0 {
        lemma_counts_are_numbers_of_changes(cs.drop_last());
    }
}

/// Human-readable summary of a change.
pub open spec fn summary(added: int, removed: int, t: ChangeType) -> Seq<char> {
    match t {
        ChangeType::ContentAdded => dec_int(added) + " lines added"@,
        ChangeType::ContentRemoved => dec_int(removed) + " lines removed"@,
        ChangeType::ScrollOnly => "Scroll position changed"@,
        ChangeType::FormatOnly => "Formatting changes only"@,
        ChangeType::NewDocument => "New document opened"@,
        ChangeType::CursorOnly => "No visible changes"@,
        _ => "+"@ + dec_int(added) + " -"@ + dec_int(removed) + " lines"@,
    }
}

pub proof fn lemma_counts_prefix(cs: Seq<SpecChange>, n: int)
    requires
        0 <= n <= cs.len(),
    ensures
        count_added(cs.take(n)) <= count_added(cs),
        count_removed(cs.take(n)) <= count_removed(cs),
        count_added(cs) <= cs.len(),
        count_removed(cs) <= cs.len(),
    decreases cs.len(),
{
    if cs.len() == 0 {
        assert(cs.take(n) =~= cs);
    } else if n == cs.len() {
        assert(cs.take(n) =~= cs);
        lemma_counts_prefix(cs.drop_last(), 0);
    } else {
        assert(cs.take(n) =~= cs.drop_last().take(n));
        lemma_counts_prefix(cs.drop_last(), n);
    }
}

pub proof fn lemma_counts_concat(a: Seq<SpecChange>, b: Seq<SpecChange>)
    ensures
        count_added(a + b) == count_added(a) + count_added(b),
        count_removed(a + b) == count_removed(a) + count_removed(b),
    decreases b.len(),
{
    if b.len() == 0 {
        assert(a + b =~= a);
    } else {
        assert((a + b).drop_last() =~= a + b.drop_last());
        lemma_counts_concat(a, b.drop_last());
    }
}

pub proof fn lemma_context_counts(from: Seq<Seq<char>>, head: Seq<Seq<char>>)
    ensures
        count_added(context_changes(from, head)) == 0,
        count_removed(context_changes(from, head)) == 0,
    decreases head.len(),
{
    if head.len() > 0 {
        lemma_context_counts(from, head.drop_last());
        let r = context_changes(from, head.drop_last());
        if from.contains(head.last()) {
            let one = seq![SpecChange::Same(head.last())];
            lemma_counts_concat(one, r);
            assert(one.drop_last() =~= Seq::<SpecChange>::empty());
            assert(count_added(Seq::<SpecChange>::empty()) == 0);
            assert(count_removed(Seq::<SpecChange>::empty()) == 0);
            assert(one.last() is Same);
            assert(count_added(one) == 0);
            assert(count_removed(one) == 0);
            assert(context_changes(from, head) == one + r);
        } else {
            assert(context_changes(from, head) == r);
        }
    } else {
        assert(context_changes(from, head) == Seq::<SpecChange>::empty());
    }
}

pub proof fn lemma_removed_counts(from: Seq<Seq<char>>, to: Seq<Seq<char>>)
    ensures
        count_added(removed_changes(from, to)) == 0,
        count_removed(removed_changes(from, to)) <= from.len(),
    decreases from.len(),
{
    if from.len() > 0 {
        lemma_removed_counts(from.drop_last(), to);
        let r = removed_changes(from.drop_last(), to);
        if !to.contains(from.last()) {
            assert(r.push(SpecChange::Del(from.last())).drop_last() =~= r);
        }
    }
}

pub proof fn lemma_added_counts(from: Seq<Seq<char>>, to: Seq<Seq<char>>)
    ensures
        count_removed(added_changes(from, to)) == 0,
        count_added(added_changes(from, to)) <= to.len(),
    decreases to.len(),
{
    if to.len() > 0 {
        lemma_added_counts(from, to.drop_last());
        let r = added_changes(from, to.drop_last());
        if !from.contains(to.last()) {
            assert(r.push(SpecChange::Add(to.last())).drop_last() =~= r);
        }
    }
}

/// Additions are bounded by the new lines and removals by the old ones.
pub proof fn lemma_line_change_counts(from: Seq<Seq<char>>, to: Seq<Seq<char>>, ctx: int, max: int)
    requires
        0 <= ctx,
        0 <= max,
    ensures
        count_added(shown(line_changes(from, to, ctx), max)) <= to.len(),
        count_removed(shown(line_changes(from, to, ctx), max)) <= from.len(),
{
    let head = to.take(min_nat(ctx, to.len() as int));
    let c = context_changes(from, head);
    let r = removed_changes(from, to);
    let a = added_changes(from, to);
    lemma_context_counts(from, head);
    lemma_removed_counts(from, to);
    lemma_added_counts(from, to);
    lemma_counts_concat(c, r);
    lemma_counts_concat(c + r, a);
    let cs = line_changes(from, to, ctx);
    lemma_counts_prefix(cs, min_nat(max, cs.len() as int));
}

/// A text compared with itself gives no diff: empty, nothing added or
/// removed, a cursor-only change.
pub proof fn lemma_identical_text_no_diff(config: DiffConfig, t: Seq<char>)
    ensures
        diff_content(config, t, t) == (
            Seq::<char>::empty(),
            0int,
            0int,
            ChangeType::CursorOnly,
            Some("No text changes detected"@),
        ),
{
}

/// A change of whitespace only, between two non-empty texts, is a
/// formatting change.
pub proof fn lemma_whitespace_change_is_format_only(from: Seq<char>, to: Seq<char>, added: int, removed: int)
    requires
        from.len() != 0,
        to.len() != 0,
        normalize(from) == normalize(to),
    ensures
        classify(from, to, added, removed) == ChangeType::FormatOnly,
{
}

/// Scroll detection does not depend on the order of the two texts.
pub proof fn lemma_scroll_like_symmetric(a: Seq<char>, b: Seq<char>)
    ensures
        scroll_like(a, b) == scroll_like(b, a),
{
    let x = word_set(words(normalize(a)));
    let y = word_set(words(normalize(b)));
    assert(x.intersect(y) =~= y.intersect(x));
}

/// Swapping the two texts turns the removed lines into added ones: as many
/// lines are removed going from `a` to `b` as are added going from `b` to
/// `a`.
pub proof fn lemma_swap_removed_added(a: Seq<Seq<char>>, b: Seq<Seq<char>>)
    ensures
        count_removed(removed_changes(a, b)) == count_added(added_changes(b, a)),
    decreases a.len(),
{
    if a.len() > 0 {
        lemma_swap_removed_added(a.drop_last(), b);
        let r = removed_changes(a.drop_last(), b);
        let d = added_changes(b, a.drop_last());
        if !b.contains(a.last()) {
            assert(r.push(SpecChange::Del(a.last())).drop_last() =~= r);
            assert(d.push(SpecChange::Add(a.last())).drop_last() =~= d);
        }
    }
}

/// Diff builder for comparing text snapshots.
pub struct DiffBuilder {
    pub config: DiffConfig,
}

/// What a diff of two texts holds, apart from its identifiers and time:
/// the unified diff, the added and removed line counts, the change type and
/// the summary.
pub open spec fn diff_content(config: DiffConfig, from: Seq<char>, to: Seq<char>) -> (
    Seq<char>,
    int,
    int,
    ChangeType,
    Option<Seq<char>>,
) {
    if text_hash(from) == text_hash(to) {
        (Seq::empty(), 0, 0, ChangeType::CursorOnly, Some("No text changes detected"@))
    } else {
        let cs = shown(
            line_changes(lines(from), lines(to), config.context_lines as int),
            config.max_diff_lines as int,
        );
        let a = count_added(cs);
        let r = count_removed(cs);
        let t = classify(from, to, a, r);
        (
            render(cs),
            a,
            r,
            t,
            if config.generate_summaries {
                Some(summary(a, r, t))
            } else {
                None
            },
        )
    }
}

/// Law: a text compared with itself gives no diff: no lines, no counts,
/// a cursor-only change with its summary.
pub proof fn lemma_same_text_no_diff(config: DiffConfig, text: Seq<char>)
    ensures
        diff_content(config, text, text) == (
            Seq::<char>::empty(),
            0int,
            0int,
            ChangeType::CursorOnly,
            Some("No text changes detected"@),
        ),
{
}

/// Law: the changes shown are the first ones, at most the configured
/// number of them.
pub proof fn lemma_shown_changes_are_first_ones(cs: Seq<SpecChange>, max: int)
    requires
        0 <= max,
    ensures
        shown(cs, max).len() <= max,
        shown(cs, max).len() <= cs.len(),
        shown(cs, max).len() == max || shown(cs, max).len() == cs.len(),
        forall|i: int| 0 <= i < shown(cs, max).len() ==> #[trigger] shown(cs, max)[i] == cs[i],
{
}

impl DiffBuilder {
    pub fn new() -> (r: Self)
        ensures
            r.config.max_diff_lines == 500,
            r.config.context_lines == 3,
            r.config.generate_summaries,
    {
        Self::with_config(DiffConfig::default())
    }

    pub fn with_config(config: DiffConfig) -> (r: Self)
        ensures
            r.config == config,
    {
        DiffBuilder { config }
    }

    /// Compute the diff between two text snapshots, under a fresh random
    /// patch identifier.
    pub fn compute_diff(&self, episode_id: &str, from_text: &str, to_text: &str, ts_ms: i64) -> (r:
        TextDiff)
        requires
            lines(from_text@).len() <= i32::MAX,
            lines(to_text@).len() <= i32::MAX,
        ensures
            uuid_v4_text(r.patch_id@),
            r.episode_id@ == episode_id@,
            r.from_text_hash@ == text_hash(from_text@),
            r.to_text_hash@ == text_hash(to_text@),
            r.ts_ms == ts_ms,
            (r.unified_diff@, r.lines_added as int, r.lines_removed as int, r.change_type,
                match r.change_summary {
                    Some(s) => Some(s@),
                    None => None,
                }) == diff_content(self.config, from_text@, to_text@),
    {
        let id = new_uuid_v4();
        self.compute_diff_with_id(id, episode_id, from_text, to_text, ts_ms)
    }

    /// Compute the diff between two text snapshots under the given patch
    /// identifier.
    pub fn compute_diff_with_id(
        &self,
        patch_id: String,
        episode_id: &str,
        from_text: &str,
        to_text: &str,
        ts_ms: i64,
    ) -> (r: TextDiff)
        requires
            lines(from_text@).len() <= i32::MAX,
            lines(to_text@).len() <= i32::MAX,
        ensures
            r.patch_id@ == patch_id@,
            r.episode_id@ == episode_id@,
            r.from_text_hash@ == text_hash(from_text@),
            r.to_text_hash@ == text_hash(to_text@),
            r.ts_ms == ts_ms,
            (r.unified_diff@, r.lines_added as int, r.lines_removed as int, r.change_type,
                match r.change_summary {
                    Some(s) => Some(s@),
                    None => None,
                }) == diff_content(self.config, from_text@, to_text@),
    {
        let from_hash = Self::compute_text_hash(from_text);
        let to_hash = Self::compute_text_hash(to_text);
        let ep = String::from_str(episode_id);
        let fh = chars_of(from_hash.as_str());
        let th = chars_of(to_hash.as_str());
        if crate::text::chars_eq(&fh, &th) {
            return TextDiff {
                patch_id,
                episode_id: ep,
                from_text_hash: from_hash,
                to_text_hash: to_hash,
                ts_ms,
                unified_diff: String::new(),
                lines_added: 0,
                lines_removed: 0,
                change_type: ChangeType::CursorOnly,
                change_summary: Some(String::from_str("No text changes detected")),
            };
        }
        let from_chars = chars_of(from_text);
        let to_chars = chars_of(to_text);
        let from_lines = split_lines(&from_chars);
        let to_lines = split_lines(&to_chars);
        let (unified, added, removed) = self.generate_unified_diff(&from_lines, &to_lines);
        let change_type = self.classify_change(from_text, to_text, added, removed);
        let change_summary = if self.config.generate_summaries {
            Some(self.generate_summary(added, removed, &change_type))
        } else {
            None
        };
        TextDiff {
            patch_id,
            episode_id: ep,
            from_text_hash: from_hash,
            to_text_hash: to_hash,
            ts_ms,
            unified_diff: string_of(&unified),
            lines_added: added,
            lines_removed: removed,
            change_type,
            change_summary,
        }
    }

    /// Lowercase hex SHA-256 of the text's UTF-8 bytes.
    pub fn compute_text_hash(text: &str) -> (r: String)
        ensures
            r@ == text_hash(text@),
    {
        sha256_hex(text)
    }

    /// Whether two texts are similar enough to count as a scroll-only change.
    pub fn is_scroll_like(&self, from_text: &str, to_text: &str) -> (r: bool)
        ensures
            r == scroll_like(from_text@, to_text@),
    {
        let f = self.normalize_for_comparison(from_text);
        let t = self.normalize_for_comparison(to_text);
        let fw = split_words(&chars_of(f.as_str()));
        let tw = split_words(&chars_of(t.as_str()));
        let o = word_overlap(&fw, &tw);
        if o.left == 0 || o.right == 0 {
            return false;
        }
        let total = if o.left >= o.right {
            o.left
        } else {
            o.right
        };
        20 * (o.common as u128) >= 19 * (total as u128)
    }

    /// Unified diff of two line lists: the rendered text and the numbers of
    /// added and removed lines among the first `max_diff_lines` changes.
    pub fn generate_unified_diff(&self, from_lines: &Vec<Vec<char>>, to_lines: &Vec<Vec<char>>) -> (r: (
        Vec<char>,
        i32,
        i32,
    ))
        requires
            from_lines@.len() <= i32::MAX,
            to_lines@.len() <= i32::MAX,
        ensures
            r.0@ == render(
                shown(
                    line_changes(
                        views(from_lines@),
                        views(to_lines@),
                        self.config.context_lines as int,
                    ),
                    self.config.max_diff_lines as int,
                ),
            ),
            r.1 == count_added(
                shown(
                    line_changes(
                        views(from_lines@),
                        views(to_lines@),
                        self.config.context_lines as int,
                    ),
                    self.config.max_diff_lines as int,
                ),
            ),
            r.2 == count_removed(
                shown(
                    line_changes(
                        views(from_lines@),
                        views(to_lines@),
                        self.config.context_lines as int,
                    ),
                    self.config.max_diff_lines as int,
                ),
            ),
    {
        let changes = self.compute_line_changes(from_lines, to_lines);
        let ghost all = change_views(changes@);
        let ghost cs = shown(all, self.config.max_diff_lines as int);
        proof {
            lemma_line_change_counts(
                views(from_lines@),
                views(to_lines@),
                self.config.context_lines as int,
                self.config.max_diff_lines as int,
            );
        }
        let n = if self.config.max_diff_lines <= changes.len() {
            self.config.max_diff_lines
        } else {
            changes.len()
        };
        let mut out: Vec<char> = Vec::new();
        let mut added: i32 = 0;
        let mut removed: i32 = 0;
        let mut i: usize = 0;
        while i < n
            invariant
                n <= changes.len(),
                n == cs.len(),
                all == change_views(changes@),
                cs == all.take(n as int),
                count_added(cs) <= i32::MAX,
                count_removed(cs) <= i32::MAX,
                i <= n,
                out@ == render(cs.take(i as int)),
                added == count_added(cs.take(i as int)),
                removed == count_removed(cs.take(i as int)),
            decreases n - i,
        {
            proof {
                assert(cs.take(i + 1).drop_last() =~= cs.take(i as int));
                assert(cs.take(i + 1).last() == changes@[i as int]@);
                lemma_counts_prefix(cs, i + 1);
            }
            match &changes[i] {
                LineChange::Unchanged(l) => {
                    out.push(' ');
                    extend_chars(&mut out, l);
                    out.push('\n');
                },
                LineChange::Added(l) => {
                    out.push('+');
                    extend_chars(&mut out, l);
                    out.push('\n');
                    added = added + 1;
                },
                LineChange::Removed(l) => {
                    out.push('-');
                    extend_chars(&mut out, l);
                    out.push('\n');
                    removed = removed + 1;
                },
            }
            proof {
                assert(out@ =~= render(cs.take(i as int)) + change_line(cs.take(i + 1).last()));
            }
            i += 1;
        }
        proof {
            assert(cs.take(n as int) =~= cs);
        }
        (out, added, removed)
    }

    /// Line changes between two line lists (see `line_changes`).
    pub fn compute_line_changes(&self, from_lines: &Vec<Vec<char>>, to_lines: &Vec<Vec<char>>) -> (r:
        Vec<LineChange>)
        ensures
            change_views(r@) == line_changes(
                views(from_lines@),
                views(to_lines@),
                self.config.context_lines as int,
            ),
    {
        let ghost f = views(from_lines@);
        let ghost t = views(to_lines@);
        // Context lines: the first `context_lines` new lines that also occur in the old text.
        let k = if self.config.context_lines <= to_lines.len() {
            self.config.context_lines
        } else {
            to_lines.len()
        };
        let mut changes: Vec<LineChange> = Vec::new();
        let mut i: usize = 0;
        while i < k
            invariant
                k <= to_lines.len(),
                f == views(from_lines@),
                t == views(to_lines@),
                i <= k,
                change_views(changes@) == context_changes(f, t.take(i as int)),
            decreases k - i,
        {
            proof {
                assert(t.take(i + 1).drop_last() =~= t.take(i as int));
                assert(t.take(i + 1).last() == to_lines@[i as int]@);
            }
            if has_word(from_lines, &to_lines[i]) {
                let ghost before = change_views(changes@);
                changes.insert(0, LineChange::Unchanged(copy_chars(&to_lines[i])));
                proof {
                    assert(change_views(changes@) =~= seq![SpecChange::Same(to_lines@[i as int]@)]
                        + before);
                }
            }
            i += 1;
        }
        proof {
            assert(k as int == min_nat(self.config.context_lines as int, t.len() as int));
        }
        // Removed lines: old lines missing from the new text.
        let ghost ctx = change_views(changes@);
        let mut j: usize = 0;
        while j < from_lines.len()
            invariant
                f == views(from_lines@),
                t == views(to_lines@),
                j <= from_lines.len(),
                change_views(changes@) == ctx + removed_changes(f.take(j as int), t),
            decreases from_lines.len() - j,
        {
            proof {
                assert(f.take(j + 1).drop_last() =~= f.take(j as int));
                assert(f.take(j + 1).last() == from_lines@[j as int]@);
            }
            if !has_word(to_lines, &from_lines[j]) {
                let ghost before = change_views(changes@);
                changes.push(LineChange::Removed(copy_chars(&from_lines[j])));
                proof {
                    assert(change_views(changes@) =~= before.push(
                        SpecChange::Del(from_lines@[j as int]@),
                    ));
                }
            }
            j += 1;
        }
        proof {
            assert(f.take(f.len() as int) =~= f);
        }
        // Added lines: new lines missing from the old text.
        let ghost ctx_rem = change_views(changes@);
        let mut m: usize = 0;
        while m < to_lines.len()
            invariant
                f == views(from_lines@),
                t == views(to_lines@),
                m <= to_lines.len(),
                change_views(changes@) == ctx_rem + added_changes(f, t.take(m as int)),
            decreases to_lines.len() - m,
        {
            proof {
                assert(t.take(m + 1).drop_last() =~= t.take(m as int));
                assert(t.take(m + 1).last() == to_lines@[m as int]@);
            }
            if !has_word(from_lines, &to_lines[m]) {
                let ghost before = change_views(changes@);
                changes.push(LineChange::Added(copy_chars(&to_lines[m])));
                proof {
                    assert(change_views(changes@) =~= before.push(
                        SpecChange::Add(to_lines@[m as int]@),
                    ));
                }
            }
            m += 1;
        }
        proof {
            assert(t.take(t.len() as int) =~= t);
        }
        changes
    }

    /// Classify the type of change.
    pub fn classify_change(&self, from_text: &str, to_text: &str, lines_added: i32, lines_removed: i32) -> (r:
        ChangeType)
        ensures
            r == classify(from_text@, to_text@, lines_added as int, lines_removed as int),
    {
        if from_text.is_empty() && !to_text.is_empty() {
            return ChangeType::NewDocument;
        }
        if !from_text.is_empty() && to_text.is_empty() {
            return ChangeType::ContentRemoved;
        }
        let f = self.normalize_for_comparison(from_text);
        let t = self.normalize_for_comparison(to_text);
        if crate::text::chars_eq(&chars_of(f.as_str()), &chars_of(t.as_str())) {
            return ChangeType::FormatOnly;
        }
        if self.is_scroll_like(from_text, to_text) {
            return ChangeType::ScrollOnly;
        }
        if lines_added > 0 && lines_removed == 0 {
            ChangeType::ContentAdded
        } else if lines_removed > 0 && lines_added == 0 {
            ChangeType::ContentRemoved
        } else {
            ChangeType::ContentChanged
        }
    }

    /// Normalize text for comparison: words joined by single spaces.
    pub fn normalize_for_comparison(&self, text: &str) -> (r: String)
        ensures
            r@ == normalize(text@),
    {
        let w = split_words(&chars_of(text));
        let mut sep: Vec<char> = Vec::new();
        sep.push(' ');
        assert(sep@ =~= seq![' ']);
        string_of(&join_chars(&w, &sep))
    }

    /// Human-readable summary.
    pub fn generate_summary(&self, added: i32, removed: i32, change_type: &ChangeType) -> (r:
        String)
        ensures
            r@ == summary(added as int, removed as int, *change_type),
    {
        let mut out: Vec<char> = Vec::new();
        match change_type {
            ChangeType::ContentAdded => {
                extend_chars(&mut out, &dec_i64(added as i64));
                extend_str(&mut out, " lines added");
            },
            ChangeType::ContentRemoved => {
                extend_chars(&mut out, &dec_i64(removed as i64));
                extend_str(&mut out, " lines removed");
            },
            ChangeType::ScrollOnly => {
                extend_str(&mut out, "Scroll position changed");
            },
            ChangeType::FormatOnly => {
                extend_str(&mut out, "Formatting changes only");
            },
            ChangeType::NewDocument => {
                extend_str(&mut out, "New document opened");
            },
            ChangeType::CursorOnly => {
                extend_str(&mut out, "No visible changes");
            },
            _ => {
                extend_str(&mut out, "+");
                extend_chars(&mut out, &dec_i64(added as i64));
                extend_str(&mut out, " -");
                extend_chars(&mut out, &dec_i64(removed as i64));
                extend_str(&mut out, " lines");
            },
        }
        string_of(&out)
    }
}

impl Default for DiffBuilder {
    fn default() -> (r: Self)
        ensures
            r.config.max_diff_lines == 500,
            r.config.context_lines == 3,
            r.config.generate_summaries,
    {
        Self::new()
    }
}

} // verus!
