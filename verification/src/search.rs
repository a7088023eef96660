//! Search helpers of the AI context menu.
use vstd::prelude::*;
use vstd::utf8::*;
use vstd::string::*;
use crate::ids::{DiffMode, ObjectType};
use crate::text::{byte_len, chars_of, lemma_utf8_prefix, string_truncate, utf8_bytes};

verus! {

/// How many more spaces a navigation query may add to the previous query.
pub const MAX_NEW_SPACES: usize = 2;

/// The number of occurrences of `c` in `s`.
pub open spec fn count_char(s: Seq<char>, c: char) -> nat
    decreases s.len(),
{
    if s.len() == 0 {
        0
    } else {
        count_char(s.drop_last(), c) + if s.last() == c { 1nat } else { 0nat }
    }
}

/// Whether `s` holds two spaces in a row.
pub open spec fn has_double_space(s: Seq<char>) -> bool {
    exists|i: int| 0 <= i < s.len() - 1 && #[trigger] double_space_at(s, i)
}

/// Whether positions `i` and `i + 1` of `s` are both spaces.
pub open spec fn double_space_at(s: Seq<char>, i: int) -> bool {
    s[i] == ' ' && s[i + 1] == ' '
}

/// The characters of `s` after the first `n` (none when `n` is past the end).
pub open spec fn skip_chars(s: Seq<char>, n: int) -> Seq<char> {
    if n >= s.len() { Seq::empty() } else { s.subrange(n, s.len() as int) }
}

/// A query is valid when it has no newline and no double space; while the user
/// navigates, the characters past the previous query's byte length may add fewer
/// than `MAX_NEW_SPACES` spaces.
pub open spec fn spec_is_valid_search_query(is_navigation: bool, prev_query: Seq<char>, query: Seq<char>) -> bool {
    &&& !query.contains('\n')
    &&& !has_double_space(query)
    &&& is_navigation ==> count_char(skip_chars(query, byte_len(prev_query) as int), ' ') < MAX_NEW_SPACES
}

proof fn lemma_count_char_push(s: Seq<char>, x: char, c: char)
    ensures
        count_char(s.push(x), c) == count_char(s, c) + if x == c { 1nat } else { 0nat },
{
    assert(s.push(x).drop_last() =~= s);
}

/// Checks a search query typed into the AI context menu.
pub fn is_valid_search_query(is_navigation: bool, prev_query: &str, query: &str) -> (b: bool)
    ensures
        b == spec_is_valid_search_query(is_navigation, prev_query@, query@),
{
    let q = chars_of(query);
    let n = q.len();
    let mut i: usize = 0;
    while i < n
        invariant
            n == q@.len(),
            q@ == query@,
            i <= n,
            forall|k: int| 0 <= k < i ==> q@[k] != '\n',
            forall|k: int| 0 <= k < i && k + 1 < n ==> !#[trigger] double_space_at(q@, k),
        decreases n - i,
    {
        if q[i] == '\n' {
            proof { assert(query@.contains('\n')) by { assert(query@[i as int] == '\n'); } }
            return false;
        }
        if i + 1 < n && q[i] == ' ' && q[i + 1] == ' ' {
            proof { assert(double_space_at(query@, i as int)); }
            return false;
        }
        i = i + 1;
    }
    proof {
        assert(!query@.contains('\n'));
    }
    if is_navigation {
        let start = prev_query.len();
        let mut count: usize = 0;
        let mut j: usize = start;
        proof {
            assert(skip_chars(q@, start as int).subrange(0, 0) =~= Seq::<char>::empty());
        }
        if j > n {
            j = n;
        }
        let ghost first = j;
        while j < n
            invariant
                n == q@.len(),
                first <= j <= n,
                first == (if start > n { n } else { start }),
                count <= j - first,
                count as nat == count_char(q@.subrange(first as int, j as int), ' '),
            decreases n - j,
        {
            proof {
                lemma_count_char_push(q@.subrange(first as int, j as int), q@[j as int], ' ');
                assert(q@.subrange(first as int, j as int).push(q@[j as int]) =~= q@.subrange(first as int, j + 1));
            }
            if q[j] == ' ' {
                count = count + 1;
            }
            j = j + 1;
        }
        proof {
            if start >= n {
                assert(q@.subrange(first as int, n as int) =~= Seq::<char>::empty());
            } else {
                assert(q@.subrange(first as int, n as int) =~= skip_chars(q@, start as int));
            }
        }
        return count < MAX_NEW_SPACES;
    }
    true
}

/// Cutting again to the same length changes nothing: what a cut gives fits
/// in the length, and is a prefix of what was cut.
pub proof fn law_safe_truncate_is_idempotent(s: Seq<char>, new_len: usize, r: Seq<char>)
    requires
        safe_truncated(s, new_len, r),
    ensures
        byte_len(r) <= new_len,
        safe_truncated(r, new_len, r),
        r == s.subrange(0, r.len() as int),
{
    assert(r.subrange(0, r.len() as int) =~= r);
}

/// Returns the byte index of the closest character boundary at or before `idx`
/// (the string's length when `idx` is not below it).
pub fn floor_char_boundary(text: &str, idx: usize) -> (r: usize)
    ensures
        idx >= text.len() ==> r == text.len(),
        idx < text.len() ==> {
            &&& r <= idx
            &&& is_char_boundary(text.spec_bytes(), r as int)
            &&& forall|j: int| r < j <= idx ==> !is_char_boundary(text.spec_bytes(), j)
        },
{
    proof {
        encode_utf8_valid_utf8(text@);
        is_char_boundary_start_end_of_seq(text.spec_bytes());
    }
    if idx >= text.len() {
        text.len()
    } else {
        let mut curr = idx;
        let mut at_boundary = text.is_char_boundary(curr);
        while curr > 0 && !at_boundary
            invariant
                curr <= idx,
                idx < text.len(),
                valid_utf8(text.spec_bytes()),
                forall|j: int| curr < j <= idx ==> !is_char_boundary(text.spec_bytes(), j),
                at_boundary == is_char_boundary(text.spec_bytes(), curr as int),
            decreases curr,
        {
            curr -= 1;
            at_boundary = text.is_char_boundary(curr);
        }
        proof {
            if curr == 0 {
                assert(is_char_boundary(text.spec_bytes(), 0));
            }
        }
        curr
    }
}

/// What cutting `s` to at most `new_len` bytes gives: `s` itself when it fits,
/// else the prefix that ends on the last character boundary at or before
/// `new_len`.
pub open spec fn safe_truncated(s: Seq<char>, new_len: usize, r: Seq<char>) -> bool {
    &&& new_len >= byte_len(s) ==> r == s
    &&& new_len < byte_len(s) ==> {
        let k = utf8_bytes(r).len() as int;
        &&& k <= new_len
        &&& is_char_boundary(utf8_bytes(s), k)
        &&& forall|j: int| k < j <= new_len ==> !is_char_boundary(utf8_bytes(s), j)
        &&& utf8_bytes(r) == utf8_bytes(s).subrange(0, k)
    }
    &&& r.len() <= s.len()
    &&& r == s.subrange(0, r.len() as int)
}

/// Shortens `s` to at most `new_len` bytes without splitting a character: the cut
/// falls on the closest character boundary at or before `new_len`.
pub fn safe_truncate(s: &mut String, new_len: usize)
    ensures
        safe_truncated(old(s)@, new_len, final(s)@),
{
    if new_len >= s.as_str().len() {
        proof {
            assert(old(s)@.subrange(0, old(s)@.len() as int) =~= old(s)@);
        }
        return;
    }
    let safe_len = floor_char_boundary(s.as_str(), new_len);
    let ghost before = s@;
    string_truncate(s, safe_len);
    proof {
        lemma_utf8_prefix(before, s@, safe_len as int);
    }
}

} // verus!

verus! {

/// An item of the AI context menu that a user can pick.
#[derive(PartialEq)]
pub enum AIContextMenuSearchableAction {
    InsertFilePath { file_path: String },
    InsertText { text: String },
    InsertDriveObject { object_type: ObjectType, object_uid: String },
    InsertPlan { ai_document_uid: String },
    InsertDiffSet { diff_mode: DiffMode },
    InsertConversation { conversation_id: String },
    InsertSkill { name: String },
}

impl Clone for AIContextMenuSearchableAction {
    fn clone(&self) -> (r: Self)
        ensures
            r == *self,
    {
        match self {
            Self::InsertFilePath { file_path } => Self::InsertFilePath { file_path: file_path.clone() },
            Self::InsertText { text } => Self::InsertText { text: text.clone() },
            Self::InsertDriveObject { object_type, object_uid } => Self::InsertDriveObject {
                object_type: ObjectType(object_type.0.clone()),
                object_uid: object_uid.clone(),
            },
            Self::InsertPlan { ai_document_uid } => Self::InsertPlan { ai_document_uid: ai_document_uid.clone() },
            Self::InsertDiffSet { diff_mode } => Self::InsertDiffSet { diff_mode: DiffMode(diff_mode.0.clone()) },
            Self::InsertConversation { conversation_id } => Self::InsertConversation { conversation_id: conversation_id.clone() },
            Self::InsertSkill { name } => Self::InsertSkill { name: name.clone() },
        }
    }
}

/// Mixes the context menu's data sources; this build has none.
pub struct AIContextMenuMixer;

/// Where the context menu opens.
#[derive(Clone, Copy, PartialEq, Eq)]
pub enum AIContextMenuPosition {
    AtButton,
    AtCursor,
}

/// A category of the context menu.
#[derive(Clone, Copy, PartialEq, Eq)]
pub enum AIContextMenuCategory {
    CurrentFolderFiles,
    RepoFiles,
    Commands,
    Blocks,
    Workflows,
    Notebooks,
    Plans,
    Diffs,
    Docs,
    Tasks,
    Rules,
    Servers,
    Terminal,
    Web,
    RecentDiff,
    RecentBlock,
    Code,
    DiffSet,
    Conversations,
    Skills,
}

impl AIContextMenuCategory {
    /// The category's display name; empty in this build.
    pub fn name(&self) -> (s: &'static str)
        ensures
            s@ == Seq::<char>::empty(),
    {
        proof { reveal_strlit(""); }
        ""
    }

    /// The category's icon path; empty in this build.
    pub fn icon(&self) -> (s: &'static str)
        ensures
            s@ == Seq::<char>::empty(),
    {
        proof { reveal_strlit(""); }
        ""
    }
}

/// What the context menu is asked to do.
#[derive(Clone)]
pub enum AIContextMenuAction {
    Prev,
    Next,
    SelectCurrentItem,
    ResultAccepted { action: AIContextMenuSearchableAction },
    CategorySelected { category: AIContextMenuCategory },
    Close,
}

/// What the context menu tells its parent.
pub enum AIContextMenuEvent {
    Close { query_length: usize, item_count: Option<usize> },
    ResultAccepted { action: AIContextMenuSearchableAction, query_length: usize, item_count: Option<usize> },
    CategorySelected { category: AIContextMenuCategory },
}

/// The state of the AI context menu: its query and the mode flags it is shown in.
pub struct AIContextMenu {
    pub query: String,
    pub is_ai_or_autodetect_mode: bool,
    pub is_shared_session_viewer: bool,
    pub is_in_ambient_agent: bool,
    pub is_cli_agent_input: bool,
}

impl AIContextMenu {
    /// A menu with an empty query, in AI mode, outside shared sessions, ambient agents and CLI agents.
    pub fn new() -> (m: Self)
        ensures
            m.query@ == Seq::<char>::empty(),
            m.is_ai_or_autodetect_mode,
            !m.is_shared_session_viewer,
            !m.is_in_ambient_agent,
            !m.is_cli_agent_input,
    {
        AIContextMenu {
            query: String::new(),
            is_ai_or_autodetect_mode: true,
            is_shared_session_viewer: false,
            is_in_ambient_agent: false,
            is_cli_agent_input: false,
        }
    }

    /// The categories offered in a mode; this build offers none.
    pub fn get_categories_for_mode(
        is_ai_or_autodetect_mode: bool,
        is_shared_session_viewer: bool,
        is_in_ambient_agent: bool,
        is_cli_agent_input: bool,
    ) -> (v: Vec<AIContextMenuCategory>)
        ensures
            v@.len() == 0,
    {
        Vec::new()
    }

    pub fn set_is_shared_session_viewer(&mut self, is_viewer: bool)
        ensures
            *final(self) == (AIContextMenu { is_shared_session_viewer: is_viewer, ..*old(self) }),
    {
        self.is_shared_session_viewer = is_viewer;
    }

    pub fn set_is_in_ambient_agent(&mut self, is_ambient: bool)
        ensures
            *final(self) == (AIContextMenu { is_in_ambient_agent: is_ambient, ..*old(self) }),
    {
        self.is_in_ambient_agent = is_ambient;
    }

    pub fn set_is_cli_agent_input(&mut self, is_cli_agent_input: bool)
        ensures
            *final(self) == (AIContextMenu { is_cli_agent_input: is_cli_agent_input, ..*old(self) }),
    {
        self.is_cli_agent_input = is_cli_agent_input;
    }

    pub fn set_input_mode(&mut self, is_ai_or_autodetect_mode: bool)
        ensures
            *final(self) == (AIContextMenu { is_ai_or_autodetect_mode: is_ai_or_autodetect_mode, ..*old(self) }),
    {
        self.is_ai_or_autodetect_mode = is_ai_or_autodetect_mode;
    }

    /// Selecting the current item does nothing in this build.
    pub fn select_current_item(&mut self)
        ensures
            *final(self) == *old(self),
    {
    }

    /// Closes the menu: the event reports the query's byte length and no items.
    pub fn close(&self) -> (e: AIContextMenuEvent)
        ensures
            e == (AIContextMenuEvent::Close { query_length: byte_len(self.query@), item_count: Some(0) }),
    {
        AIContextMenuEvent::Close { query_length: self.query.as_str().len(), item_count: Some(0) }
    }

    /// Clears the query.
    pub fn reset_menu_state(&mut self)
        ensures
            final(self).query@ == Seq::<char>::empty(),
            final(self).is_ai_or_autodetect_mode == old(self).is_ai_or_autodetect_mode,
            final(self).is_shared_session_viewer == old(self).is_shared_session_viewer,
            final(self).is_in_ambient_agent == old(self).is_in_ambient_agent,
            final(self).is_cli_agent_input == old(self).is_cli_agent_input,
    {
        self.query = String::new();
    }

    /// Replaces the query.
    pub fn update_search_query(&mut self, query: String)
        ensures
            *final(self) == (AIContextMenu { query: query, ..*old(self) }),
    {
        self.query = query;
    }

    /// The menu is never shown in this build.
    pub fn should_render(&self) -> (b: bool)
        ensures
            !b,
    {
        false
    }

    /// Handles an action and returns the event the menu emits, if any.
    pub fn handle_action(&mut self, action: &AIContextMenuAction) -> (e: Option<AIContextMenuEvent>)
        ensures
            *final(self) == *old(self),
            e == match *action {
                AIContextMenuAction::ResultAccepted { action } => Some(AIContextMenuEvent::ResultAccepted {
                    action: action,
                    query_length: byte_len(old(self).query@),
                    item_count: Some(0),
                }),
                AIContextMenuAction::CategorySelected { category } => Some(AIContextMenuEvent::CategorySelected { category }),
                AIContextMenuAction::Close => Some(AIContextMenuEvent::Close {
                    query_length: byte_len(old(self).query@),
                    item_count: Some(0),
                }),
                _ => None,
            },
    {
        match action {
            AIContextMenuAction::ResultAccepted { action } => Some(AIContextMenuEvent::ResultAccepted {
                action: action.clone(),
                query_length: self.query.as_str().len(),
                item_count: Some(0),
            }),
            AIContextMenuAction::CategorySelected { category } => Some(AIContextMenuEvent::CategorySelected { category: *category }),
            AIContextMenuAction::Close => Some(self.close()),
            _ => None,
        }
    }
}

/// A menu whose query was just reset reports an empty query when it closes:
/// the event carries a query length of zero and no items.
pub proof fn law_reset_menu_closes_empty(menu: AIContextMenu)
    requires
        menu.query@ == Seq::<char>::empty(),
    ensures
        byte_len(menu.query@) == 0,
{
    assert(encode_utf8(menu.query@) =~= Seq::<u8>::empty());
}

} // verus!
