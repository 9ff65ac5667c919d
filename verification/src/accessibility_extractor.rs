//! Text of the focused window read through the accessibility tree: which
//! elements give text, how deep the tree is read, how the pieces are
//! joined, and which windows are skipped as private. Reading the tree from
//! the system is left to the caller, who hands it in as an `AxNode` tree;
//! `window_step` says whether to read it, and the result builders assemble
//! what the focused window gives.
use vstd::prelude::*;
use crate::instant::{utc_now, UtcInstant};
use crate::calendar_client::{string_listed, string_views};
use crate::text::{
    chars_of, contains_chars, contains_seq, string_of, extend_chars, join, join_chars, lemma_views_push,
    lowercase, str_eq, to_lowercase_str, views,
};

verus! {

/// How the tree is read.
#[derive(Debug, Clone)]
pub struct AccessibilityConfig {
    /// Deepest level read (the window is level 0).
    pub max_depth: usize,
    pub include_hidden: bool,
    /// Roles whose elements give text.
    pub text_roles: Vec<String>,
}

impl Default for AccessibilityConfig {
    fn default() -> (r: Self)
        ensures
            r.max_depth == 10,
            !r.include_hidden,
            string_views(r.text_roles@) == seq![
                "AXStaticText"@, "AXTextField"@, "AXTextArea"@, "AXButton"@, "AXLink"@,
                "AXHeading"@, "AXCell"@,
            ],
    {
        let roles = vec![
            String::from_str("AXStaticText"), String::from_str("AXTextField"),
            String::from_str("AXTextArea"), String::from_str("AXButton"),
            String::from_str("AXLink"), String::from_str("AXHeading"), String::from_str("AXCell"),
        ];
        assert(string_views(roles@) =~= seq![
            "AXStaticText"@, "AXTextField"@, "AXTextArea"@, "AXButton"@, "AXLink"@,
            "AXHeading"@, "AXCell"@,
        ]);
        AccessibilityConfig { max_depth: 10, include_hidden: false, text_roles: roles }
    }
}

/// One element of the accessibility tree, as read: its role, its value and
/// title where it has them, its children in order.
#[derive(Debug)]
pub struct AxNode {
    pub role: String,
    pub value: Option<String>,
    pub title: Option<String>,
    pub children: Vec<AxNode>,
}

/// Pieces an element gives itself: its value if its role gives text, and
/// also its title for buttons and links; empty pieces dropped.
pub open spec fn own_pieces(roles: Seq<Seq<char>>, n: AxNode) -> Seq<Seq<char>> {
    if roles.contains(n.role@) {
        let v = match n.value {
            Some(t) => if t@.len() > 0 { seq![t@] } else { Seq::empty() },
            None => Seq::empty(),
        };
        let t = if n.role@ == "AXButton"@ || n.role@ == "AXLink"@ {
            match n.title {
                Some(t) => if t@.len() > 0 { seq![t@] } else { Seq::empty() },
                None => Seq::empty(),
            }
        } else {
            Seq::empty()
        };
        v + t
    } else {
        Seq::empty()
    }
}

/// Text of an element at `depth`: nothing below the deepest level read;
/// else its own pieces and its children's non-empty texts, one per line.
pub open spec fn node_text(roles: Seq<Seq<char>>, max_depth: int, n: AxNode, depth: int) -> Seq<char>
    decreases n, 1int, 0int,
{
    if depth > max_depth {
        Seq::empty()
    } else {
        join(own_pieces(roles, n) + child_pieces(roles, max_depth, n, depth, n.children@.len() as int), "\n"@)
    }
}

/// Non-empty texts of the first `k` children of `n` (at `depth + 1`).
pub open spec fn child_pieces(roles: Seq<Seq<char>>, max_depth: int, n: AxNode, depth: int, k: int) -> Seq<
    Seq<char>,
>
    decreases n, 0int, k,
{
    if k <= 0 || k > n.children@.len() {
        Seq::empty()
    } else {
        let c = n.children@[k - 1];
        proof {
            assert(decreases_to!(n => n.children));
            assert(decreases_to!(n.children => n.children@));
            assert(decreases_to!(n.children@ => n.children@[k - 1]));
        }
        let t = node_text(roles, max_depth, c, depth + 1);
        let before = child_pieces(roles, max_depth, n, depth, k - 1);
        if t.len() > 0 {
            before.push(t)
        } else {
            before
        }
    }
}

fn non_empty(s: &str) -> (r: bool)
    ensures
        r == (s@.len() > 0),
{
    chars_of(s).len() > 0
}

/// The accessibility text extractor.
pub struct AccessibilityExtractor {
    pub config: AccessibilityConfig,
}

impl AccessibilityExtractor {
    pub fn new() -> (r: Self)
        ensures
            r.config.max_depth == 10,
            !r.config.include_hidden,
            string_views(r.config.text_roles@) == seq![
                "AXStaticText"@, "AXTextField"@, "AXTextArea"@, "AXButton"@, "AXLink"@,
                "AXHeading"@, "AXCell"@,
            ],
    {
        Self::with_config(AccessibilityConfig::default())
    }

    pub fn with_config(config: AccessibilityConfig) -> (r: Self)
        ensures
            r.config == config,
    {
        AccessibilityExtractor { config }
    }

    fn own_piece_vec(&self, n: &AxNode) -> (r: Vec<Vec<char>>)
        ensures
            views(r@) == own_pieces(string_views(self.config.text_roles@), *n),
    {
        let mut out: Vec<Vec<char>> = Vec::new();
        if !string_listed(&self.config.text_roles, n.role.as_str()) {
            assert(views(out@) =~= Seq::<Seq<char>>::empty());
            return out;
        }
        match &n.value {
            Some(t) => {
                if non_empty(t.as_str()) {
                    let c = chars_of(t.as_str());
                    proof {
                        lemma_views_push(out@, c);
                    }
                    out.push(c);
                }
            },
            None => {},
        }
        let ghost after_value = views(out@);
        if str_eq(n.role.as_str(), "AXButton") || str_eq(n.role.as_str(), "AXLink") {
            match &n.title {
                Some(t) => {
                    if non_empty(t.as_str()) {
                        let c = chars_of(t.as_str());
                        proof {
                            lemma_views_push(out@, c);
                        }
                        out.push(c);
                    }
                },
                None => {},
            }
        }
        assert(views(out@) =~= own_pieces(string_views(self.config.text_roles@), *n));
        out
    }

    /// Text of element `n` at `depth` (as `node_text`).
    pub fn element_text(&self, n: &AxNode, depth: usize) -> (r: Vec<char>)
        requires
            self.config.max_depth < usize::MAX,
        ensures
            r@ == node_text(
                string_views(self.config.text_roles@),
                self.config.max_depth as int,
                *n,
                depth as int,
            ),
        decreases *n,
    {
        if depth > self.config.max_depth {
            return Vec::new();
        }
        let ghost roles = string_views(self.config.text_roles@);
        let mut pieces = self.own_piece_vec(n);
        let ghost own = views(pieces@);
        let mut i: usize = 0;
        while i < n.children.len()
            invariant
                i <= n.children@.len(),
                depth <= self.config.max_depth < usize::MAX,
                roles == string_views(self.config.text_roles@),
                views(pieces@) == own + child_pieces(
                    roles,
                    self.config.max_depth as int,
                    *n,
                    depth as int,
                    i as int,
                ),
            decreases n.children@.len() - i,
        {
            proof {
                assert(decreases_to!(*n => n.children));
                assert(decreases_to!(n.children => n.children@));
                assert(decreases_to!(n.children@ => n.children@[i as int]));
            }
            let t = self.element_text(&n.children[i], depth + 1);
            if t.len() > 0 {
                proof {
                    lemma_views_push(pieces@, t);
                }
                pieces.push(t);
            }
            i += 1;
        }
        let nl = vec!['\n'];
        proof {
            reveal_strlit("\n");
            assert(nl@ =~= "\n"@);
        }
        join_chars(&pieces, &nl)
    }
}

/// A window whose title mentions incognito or private browsing (in any
/// case) is skipped.
pub open spec fn private_title(title: Seq<char>) -> bool {
    contains_seq(lowercase(title), "incognito"@) || contains_seq(lowercase(title), "private"@)
}

/// Whether a window with this title is skipped as private.
pub fn is_private_window(title: &str) -> (r: bool)
    ensures
        r == private_title(title@),
{
    let lower = to_lowercase_str(title);
    let lc = chars_of(lower.as_str());
    contains_chars(&lc, &chars_of("incognito")) || contains_chars(&lc, &chars_of("private"))
}

/// What an extraction of the focused window gives.
#[derive(Debug, Clone)]
pub struct AccessibilityResult {
    /// Text read from the window's tree.
    pub text: String,
    pub app_name: Option<String>,
    pub window_title: Option<String>,
    /// Whether the application exposes its window to accessibility.
    pub is_accessible: bool,
    /// How long the extraction took.
    pub duration_ms: u64,
    /// When the extraction was made.
    pub extracted_at: UtcInstant,
}

impl Default for AccessibilityResult {
    /// No text, no application or window, not accessible, no time taken,
    /// made now.
    fn default() -> (r: Self)
        ensures
            r.text@ == Seq::<char>::empty(),
            r.app_name is None,
            r.window_title is None,
            !r.is_accessible,
            r.duration_ms == 0,
    {
        AccessibilityResult {
            text: String::new(),
            app_name: None,
            window_title: None,
            is_accessible: false,
            duration_ms: 0,
            extracted_at: utc_now(),
        }
    }
}

/// What to do with the focused window.
#[derive(Debug, Clone, PartialEq, Eq)]
pub enum WindowAction {
    /// Extraction is refused, with this message.
    Deny(String),
    /// The window is private: nothing is read from it.
    SkipPrivate,
    /// The window's tree is read.
    ReadTree,
}

/// A window title that marks the window as private.
pub open spec fn title_is_private(title: Option<String>) -> bool {
    match title {
        Some(t) => private_title(t@),
        None => false,
    }
}

/// Decides on the focused window: without the accessibility grant the
/// extraction is refused; a private window is skipped; any other window's
/// tree is read.
pub fn window_step(trusted: bool, title: &Option<String>) -> (r: WindowAction)
    ensures
        !trusted ==> (r matches WindowAction::Deny(m) && m@ == "Accessibility permission not granted"@),
        trusted && title_is_private(*title) ==> r == WindowAction::SkipPrivate,
        trusted && !title_is_private(*title) ==> r == WindowAction::ReadTree,
{
    if !trusted {
        return WindowAction::Deny(String::from_str("Accessibility permission not granted"));
    }
    match title {
        Some(t) => {
            if is_private_window(t.as_str()) {
                WindowAction::SkipPrivate
            } else {
                WindowAction::ReadTree
            }
        },
        None => WindowAction::ReadTree,
    }
}

/// The result for a window skipped as private: no text, not accessible,
/// the application and the title kept.
pub fn skipped_result(
    app_name: String,
    window_title: Option<String>,
    duration_ms: u64,
    extracted_at: UtcInstant,
) -> (r: AccessibilityResult)
    ensures
        r.text@ == Seq::<char>::empty(),
        r.app_name == Some(app_name),
        r.window_title == window_title,
        !r.is_accessible,
        r.duration_ms == duration_ms,
        r.extracted_at == extracted_at,
{
    AccessibilityResult {
        text: String::new(),
        app_name: Some(app_name),
        window_title,
        is_accessible: false,
        duration_ms,
        extracted_at,
    }
}

impl AccessibilityExtractor {
    /// The result for a window whose tree was read: the tree's text from
    /// the window down, accessible, the application and the title kept.
    pub fn read_result(
        &self,
        app_name: String,
        window_title: Option<String>,
        tree: &AxNode,
        duration_ms: u64,
        extracted_at: UtcInstant,
    ) -> (r: AccessibilityResult)
        requires
            self.config.max_depth < usize::MAX,
        ensures
            r.text@ == node_text(
                string_views(self.config.text_roles@),
                self.config.max_depth as int,
                *tree,
                0,
            ),
            r.app_name == Some(app_name),
            r.window_title == window_title,
            r.is_accessible,
            r.duration_ms == duration_ms,
            r.extracted_at == extracted_at,
    {
        let chars = self.element_text(tree, 0);
        let text = string_of(&chars);
        AccessibilityResult {
            text,
            app_name: Some(app_name),
            window_title,
            is_accessible: true,
            duration_ms,
            extracted_at,
        }
    }
}

} // verus!
