//! Static slash commands of the terminal input and the registry that holds them.
use vstd::prelude::*;
use std::collections::HashMap;
use crate::text::{chars_of, chars_start_with, chars_suffix, has_prefix, str_eq, string_push};

verus! {

broadcast use vstd::std_specs::hash::group_hash_axioms;

/// Where a slash command can be used.
#[derive(Clone, Copy, PartialEq, Eq)]
pub enum Availability {
    /// In every session.
    Always,
    /// Only in local sessions.
    Local,
}

/// The argument a slash command takes.
#[derive(PartialEq, Eq)]
pub struct Argument {
    pub is_optional: bool,
    pub hint_text: Option<String>,
    pub execute_on_selection: bool,
}

impl Clone for Argument {
    fn clone(&self) -> (a: Self)
        ensures
            a == *self,
    {
        Argument {
            is_optional: self.is_optional,
            hint_text: match &self.hint_text {
                Some(h) => Some(h.clone()),
                None => None,
            },
            execute_on_selection: self.execute_on_selection,
        }
    }
}

impl Argument {
    /// A required argument without hint.
    pub fn required() -> (a: Argument)
        ensures
            !a.is_optional,
            a.hint_text is None,
            !a.execute_on_selection,
    {
        Argument { is_optional: false, hint_text: None, execute_on_selection: false }
    }

    /// An optional argument without hint.
    pub fn optional() -> (a: Argument)
        ensures
            a.is_optional,
            a.hint_text is None,
            !a.execute_on_selection,
    {
        Argument { is_optional: true, hint_text: None, execute_on_selection: false }
    }

    /// The same argument with a hint text.
    pub fn with_hint_text(self, hint: String) -> (a: Argument)
        ensures
            a == (Argument { hint_text: Some(hint), ..self }),
    {
        Argument { hint_text: Some(hint), ..self }
    }

    /// The same argument, run as soon as it is selected.
    pub fn with_execute_on_selection(self) -> (a: Argument)
        ensures
            a == (Argument { execute_on_selection: true, ..self }),
    {
        Argument { execute_on_selection: true, ..self }
    }
}

/// A slash command offered in the input.
#[derive(PartialEq, Eq)]
pub struct StaticCommand {
    pub name: &'static str,
    pub description: &'static str,
    pub icon_path: &'static str,
    pub availability: Availability,
    pub auto_enter_ai_mode: bool,
    pub argument: Option<Argument>,
}

impl Clone for StaticCommand {
    fn clone(&self) -> (c: Self)
        ensures
            c == *self,
    {
        StaticCommand {
            name: self.name,
            description: self.description,
            icon_path: self.icon_path,
            availability: self.availability,
            auto_enter_ai_mode: self.auto_enter_ai_mode,
            argument: match &self.argument {
                Some(a) => Some(a.clone()),
                None => None,
            },
        }
    }
}

/// A command that this build does not offer: every text is empty.
pub fn unavailable_command() -> (c: StaticCommand)
    ensures
        c.name@ == Seq::<char>::empty(),
        c.description@ == Seq::<char>::empty(),
        c.icon_path@ == Seq::<char>::empty(),
        c.availability == Availability::Always,
        !c.auto_enter_ai_mode,
        c.argument is None,
{
    proof { reveal_strlit(""); }
    StaticCommand {
        name: "",
        description: "",
        icon_path: "",
        availability: Availability::Always,
        auto_enter_ai_mode: false,
        argument: None,
    }
}

/// `/rename-tab`, which takes the new tab name.
pub open spec fn is_rename_tab(c: StaticCommand) -> bool {
    &&& c.name@ == "/rename-tab"@
    &&& c.description@ == "Rename the current tab"@
    &&& c.icon_path@ == "bundled/svg/pencil-line.svg"@
    &&& c.availability == Availability::Always
    &&& !c.auto_enter_ai_mode
    &&& c.argument is Some
    &&& !c.argument->0.is_optional
    &&& !c.argument->0.execute_on_selection
    &&& c.argument->0.hint_text is Some
    &&& c.argument->0.hint_text->0@ == "<tab name>"@
}

pub fn rename_tab() -> (c: StaticCommand)
    ensures
        is_rename_tab(c),
{
    let hint = String::from_str("<tab name>");
    StaticCommand {
        name: "/rename-tab",
        description: "Rename the current tab",
        icon_path: "bundled/svg/pencil-line.svg",
        availability: Availability::Always,
        auto_enter_ai_mode: false,
        argument: Some(Argument::required().with_hint_text(hint)),
    }
}

/// The ASCII lower-case form of a character.
pub open spec fn ascii_lower(c: char) -> char {
    if 'A' <= c && c <= 'Z' { ((c as u32) + 32) as char } else { c }
}

/// A string with its ASCII letters in lower case.
pub open spec fn ascii_lower_seq(s: Seq<char>) -> Seq<char> {
    s.map_values(|c: char| ascii_lower(c))
}

/// Appends the ASCII lower-case form of `src` to `dst`.
fn push_ascii_lowercase(dst: &mut String, src: &str)
    ensures
        final(dst)@ == old(dst)@ + ascii_lower_seq(src@),
{
    let cs = chars_of(src);
    let mut i: usize = 0;
    while i < cs.len()
        invariant
            i <= cs@.len(),
            cs@ == src@,
            dst@ == old(dst)@ + ascii_lower_seq(cs@.subrange(0, i as int)),
        decreases cs@.len() - i,
    {
        let c = cs[i];
        let cu = c as u32;
        let lc = if 65 <= cu && cu <= 90 { ((cu + 32) as u8) as char } else { c };
        proof {
            assert(lc == ascii_lower(c));
            assert(ascii_lower_seq(cs@.subrange(0, i as int)).push(lc) =~= ascii_lower_seq(cs@.subrange(0, i + 1)));
        }
        string_push(dst, lc);
        i = i + 1;
    }
    proof {
        assert(cs@.subrange(0, cs@.len() as int) =~= cs@);
    }
}

/// The hint of `/set-tab-color`: `<`, each color name in lower case followed by `|`, then `none>`.
pub open spec fn spec_tab_color_hint(colors: Seq<Seq<char>>) -> Seq<char>
    decreases colors.len(),
{
    if colors.len() == 0 {
        seq!['<']
    } else {
        spec_tab_color_hint(colors.drop_last()) + ascii_lower_seq(colors.last()) + seq!['|']
    }
}

/// Builds the argument hint of `/set-tab-color` from the tab colors' names.
pub fn set_tab_color_hint(color_names: &Vec<String>) -> (hint: String)
    ensures
        hint@ == spec_tab_color_hint(color_names@.map_values(|s: String| s@)) + "none>"@,
{
    let mut hint = String::new();
    string_push(&mut hint, '<');
    let ghost names = color_names@.map_values(|s: String| s@);
    let mut i: usize = 0;
    proof {
        assert(names.subrange(0, 0).len() == 0);
        assert(hint@ =~= spec_tab_color_hint(names.subrange(0, 0)));
    }
    while i < color_names.len()
        invariant
            i <= color_names@.len(),
            names == color_names@.map_values(|s: String| s@),
            hint@ == spec_tab_color_hint(names.subrange(0, i as int)),
        decreases color_names@.len() - i,
    {
        push_ascii_lowercase(&mut hint, color_names[i].as_str());
        string_push(&mut hint, '|');
        proof {
            assert(names.subrange(0, i + 1).drop_last() =~= names.subrange(0, i as int));
            assert(hint@ =~= spec_tab_color_hint(names.subrange(0, i + 1)));
        }
        i = i + 1;
    }
    hint.append("none>");
    proof {
        assert(names.subrange(0, names.len() as int) =~= names);
    }
    hint
}

/// `/set-tab-color`, whose argument hint lists the tab colors.
pub open spec fn is_set_tab_color(c: StaticCommand, color_names: Seq<String>) -> bool {
    &&& c.name@ == "/set-tab-color"@
    &&& c.description@ == "Set the color of the current tab"@
    &&& c.icon_path@ == "bundled/svg/ellipse.svg"@
    &&& c.availability == Availability::Always
    &&& !c.auto_enter_ai_mode
    &&& c.argument is Some
    &&& !c.argument->0.is_optional
    &&& !c.argument->0.execute_on_selection
    &&& c.argument->0.hint_text is Some
    &&& c.argument->0.hint_text->0@ == spec_tab_color_hint(color_names.map_values(|s: String| s@)) + "none>"@
}

pub fn set_tab_color(color_names: &Vec<String>) -> (c: StaticCommand)
    ensures
        is_set_tab_color(c, color_names@),
        c.name@ == "/set-tab-color"@,
        c.description@ == "Set the color of the current tab"@,
        c.icon_path@ == "bundled/svg/ellipse.svg"@,
        c.availability == Availability::Always,
        !c.auto_enter_ai_mode,
        c.argument is Some,
        !c.argument->0.is_optional,
        !c.argument->0.execute_on_selection,
        c.argument->0.hint_text is Some,
        c.argument->0.hint_text->0@ == spec_tab_color_hint(color_names@.map_values(|s: String| s@)) + "none>"@,
{
    let hint = set_tab_color_hint(color_names);
    StaticCommand {
        name: "/set-tab-color",
        description: "Set the color of the current tab",
        icon_path: "bundled/svg/ellipse.svg",
        availability: Availability::Always,
        auto_enter_ai_mode: false,
        argument: Some(Argument::required().with_hint_text(hint)),
    }
}

/// `/open-settings-file`, offered in local sessions only.
pub open spec fn is_open_settings_file(c: StaticCommand) -> bool {
    &&& c.name@ == "/open-settings-file"@
    &&& c.description@ == "Open settings file (TOML)"@
    &&& c.icon_path@ == "bundled/svg/file-code-02.svg"@
    &&& c.availability == Availability::Local
    &&& !c.auto_enter_ai_mode
    &&& c.argument is None
}

pub fn open_settings_file() -> (c: StaticCommand)
    ensures
        is_open_settings_file(c),
{
    StaticCommand {
        name: "/open-settings-file",
        description: "Open settings file (TOML)",
        icon_path: "bundled/svg/file-code-02.svg",
        availability: Availability::Local,
        auto_enter_ai_mode: false,
        argument: None,
    }
}

/// `/changelog`.
pub open spec fn is_changelog(c: StaticCommand) -> bool {
    &&& c.name@ == "/changelog"@
    &&& c.description@ == "Open the latest changelog"@
    &&& c.icon_path@ == "bundled/svg/book-open.svg"@
    &&& c.availability == Availability::Always
    &&& !c.auto_enter_ai_mode
    &&& c.argument is None
}

pub fn changelog() -> (c: StaticCommand)
    ensures
        is_changelog(c),
{
    StaticCommand {
        name: "/changelog",
        description: "Open the latest changelog",
        icon_path: "bundled/svg/book-open.svg",
        availability: Availability::Always,
        auto_enter_ai_mode: false,
        argument: None,
    }
}

/// `/feedback`, whose optional argument runs on selection.
pub open spec fn is_feedback(c: StaticCommand) -> bool {
    &&& c.name@ == "/feedback"@
    &&& c.description@ == "Send feedback"@
    &&& c.icon_path@ == "bundled/svg/feedback.svg"@
    &&& c.availability == Availability::Always
    &&& !c.auto_enter_ai_mode
    &&& c.argument == Some((Argument { is_optional: true, hint_text: None, execute_on_selection: true }))
}

pub fn feedback() -> (c: StaticCommand)
    ensures
        is_feedback(c),
{
    StaticCommand {
        name: "/feedback",
        description: "Send feedback",
        icon_path: "bundled/svg/feedback.svg",
        availability: Availability::Always,
        auto_enter_ai_mode: false,
        argument: Some(Argument::optional().with_execute_on_selection()),
    }
}

/// The commands this build offers, in order: `/feedback`, `/rename-tab`,
/// `/set-tab-color`, then `/changelog` when that feature is on, then
/// `/open-settings-file` when the settings file feature is on in a build with
/// local file access.
pub fn all_commands(
    changelog_enabled: bool,
    settings_file_enabled: bool,
    local_fs: bool,
    tab_color_names: &Vec<String>,
) -> (v: Vec<StaticCommand>)
    ensures
        is_all_commands(v@, changelog_enabled, settings_file_enabled, local_fs, tab_color_names@),
{
    let mut commands = vec![feedback(), rename_tab(), set_tab_color(tab_color_names)];
    if changelog_enabled {
        commands.push(changelog());
    }
    if settings_file_enabled && local_fs {
        commands.push(open_settings_file());
    }
    commands
}

/// The commands of this build in order: feedback, rename tab, set tab colour,
/// then the changelog when it is enabled, then the settings file when it is
/// enabled on a local filesystem.
pub open spec fn is_all_commands(
    v: Seq<StaticCommand>,
    changelog_enabled: bool,
    settings_file_enabled: bool,
    local_fs: bool,
    tab_color_names: Seq<String>,
) -> bool {
    &&& v.len() == 3 + (if changelog_enabled { 1int } else { 0 }) + (if settings_file_enabled && local_fs { 1int } else { 0 })
    &&& is_feedback(v[0])
    &&& is_rename_tab(v[1])
    &&& is_set_tab_color(v[2], tab_color_names)
    &&& changelog_enabled ==> is_changelog(v[3])
    &&& settings_file_enabled && local_fs ==> is_open_settings_file(v[v.len() - 1])
}

/// The remainder of `query` after the command `name` and one space; `None` when
/// `query` does not start that way.
pub open spec fn spec_strip_command_prefix(query: Seq<char>, name: Seq<char>) -> Option<Seq<char>> {
    if has_prefix(query, name.push(' ')) {
        Some(query.subrange(name.len() as int + 1, query.len() as int))
    } else {
        None
    }
}

/// A query made of a command's name, a space and an argument gives back the
/// argument.
pub proof fn law_strip_command_prefix_round_trip(name: Seq<char>, argument: Seq<char>)
    ensures
        spec_strip_command_prefix(name.push(' ') + argument, name) == Some(argument),
{
    let q = name.push(' ') + argument;
    assert(q.subrange(0, name.push(' ').len() as int) =~= name.push(' '));
    assert(q.subrange(name.len() as int + 1, q.len() as int) =~= argument);
}

/// If `query` starts with the given command `name` followed by a space,
/// returns the remainder of the query. Otherwise returns `None`.
pub fn strip_command_prefix(query: &str, name: &str) -> (r: Option<String>)
    ensures
        r matches Some(rest) ==> spec_strip_command_prefix(query@, name@) == Some(rest@),
        r is None ==> spec_strip_command_prefix(query@, name@) is None,
{
    let n = chars_of(name);
    let q = chars_of(query);
    let mut with_space = n.clone();
    with_space.push(' ');
    if chars_start_with(q.as_slice(), with_space.as_slice()) {
        Some(chars_suffix(q.as_slice(), with_space.len()))
    } else {
        None
    }
}

/// A slash command's id: a random UUID, held as its 128-bit value.
#[derive(Clone, Copy, Debug, PartialEq, Eq, Structural, Hash)]
pub struct SlashCommandId(pub u128);

/// `uuid::Uuid::new_v4`, as a 128-bit value: a random UUID, so nothing is
/// stated of it.
#[verifier::external_body]
fn random_uuid_value() -> (v: u128) {
    uuid::Uuid::new_v4().as_u128()
}

impl SlashCommandId {
    /// A new random id.
    pub fn new() -> (id: Self) {
        SlashCommandId(random_uuid_value())
    }
}

/// The commands by id that inserting each command under its id in turn
/// gives, a later command replacing an earlier one with the same id.
pub open spec fn commands_by_id(ids: Seq<SlashCommandId>, commands: Seq<StaticCommand>) -> Map<u128, StaticCommand>
    decreases ids.len(),
{
    if ids.len() == 0 || commands.len() == 0 {
        Map::empty()
    } else {
        commands_by_id(ids.drop_last(), commands.drop_last()).insert(ids.last().0, commands.last())
    }
}

/// The map that a list of entries with distinct ids stands for.
pub open spec fn entry_map(e: Seq<(SlashCommandId, StaticCommand)>) -> Map<u128, StaticCommand> {
    Map::new(
        |k: u128| exists|i: int| 0 <= i < e.len() && #[trigger] e[i].0.0 == k,
        |k: u128| e[choose|i: int| 0 <= i < e.len() && #[trigger] e[i].0.0 == k].1,
    )
}

/// No two entries share an id.
pub open spec fn ids_distinct(e: Seq<(SlashCommandId, StaticCommand)>) -> bool {
    forall|i: int, j: int| 0 <= i < e.len() && 0 <= j < e.len() && i != j ==> #[trigger] e[i].0 != #[trigger] e[j].0
}

/// The slash commands of the input, by id: each entry holds its own id beside
/// its command.
pub struct Registry {
    commands: HashMap<u128, (SlashCommandId, StaticCommand)>,
}

impl View for Registry {
    type V = Map<u128, StaticCommand>;

    closed spec fn view(&self) -> Map<u128, StaticCommand> {
        Map::new(|k: u128| self.commands@.contains_key(k), |k: u128| self.commands@[k].1)
    }
}

impl Registry {
    /// Each entry is stored under its own id.
    #[verifier::type_invariant]
    closed spec fn keyed_by_own_id(self) -> bool {
        forall|k: u128| #[trigger] self.commands@.contains_key(k) ==> self.commands@[k].0.0 == k
    }

    /// A registry of the commands, each under the id at the same place.
    pub fn from_commands_with_ids(commands: Vec<StaticCommand>, ids: Vec<SlashCommandId>) -> (r: Self)
        requires
            commands@.len() == ids@.len(),
        ensures
            r@ == commands_by_id(ids@, commands@),
    {
        let ghost cs = commands@;
        let mut map: HashMap<u128, (SlashCommandId, StaticCommand)> = HashMap::new();
        let mut i: usize = 0;
        proof {
            assert(cs.subrange(0, 0) =~= Seq::<StaticCommand>::empty());
            assert(ids@.subrange(0, 0) =~= Seq::<SlashCommandId>::empty());
        }
        while i < commands.len()
            invariant
                i <= cs.len(),
                cs == commands@,
                cs.len() == ids@.len(),
                forall|k: u128| #[trigger] map@.contains_key(k) ==> map@[k].0.0 == k,
                Map::new(|k: u128| map@.contains_key(k), |k: u128| map@[k].1)
                    == commands_by_id(ids@.subrange(0, i as int), cs.subrange(0, i as int)),
            decreases cs.len() - i,
        {
            let ghost before = map@;
            let c = commands[i].clone();
            let id = ids[i];
            map.insert(id.0, (id, c));
            proof {
                assert(ids@.subrange(0, i + 1).drop_last() =~= ids@.subrange(0, i as int));
                assert(cs.subrange(0, i + 1).drop_last() =~= cs.subrange(0, i as int));
                assert(Map::new(|k: u128| map@.contains_key(k), |k: u128| map@[k].1)
                    =~= Map::new(|k: u128| before.contains_key(k), |k: u128| before[k].1).insert(id.0, c));
            }
            i = i + 1;
        }
        proof {
            assert(ids@.subrange(0, ids@.len() as int) =~= ids@);
            assert(cs.subrange(0, cs.len() as int) =~= cs);
        }
        Registry { commands: map }
    }

    /// The commands of this build, each under a new random id.
    pub fn new(changelog_enabled: bool, settings_file_enabled: bool, local_fs: bool, tab_color_names: &Vec<String>) -> (r: Self)
        ensures
            exists|ids: Seq<SlashCommandId>, commands: Seq<StaticCommand>|
                is_all_commands(commands, changelog_enabled, settings_file_enabled, local_fs, tab_color_names@)
                && ids.len() == commands.len()
                && r@ == commands_by_id(ids, commands),
    {
        let commands = all_commands(changelog_enabled, settings_file_enabled, local_fs, tab_color_names);
        let mut ids: Vec<SlashCommandId> = Vec::new();
        let mut i: usize = 0;
        while i < commands.len()
            invariant
                i <= commands@.len(),
                ids@.len() == i,
            decreases commands@.len() - i,
        {
            ids.push(SlashCommandId::new());
            i = i + 1;
        }
        let ghost cs = commands@;
        let ghost is = ids@;
        let r = Registry::from_commands_with_ids(commands, ids);
        proof {
            assert(is.len() == cs.len() && r@ == commands_by_id(is, cs));
        }
        r
    }

    /// Every command with its id, in the map's order.
    pub fn all_commands_by_id(&self) -> (v: Vec<(SlashCommandId, StaticCommand)>)
        ensures
            ids_distinct(v@),
            entry_map(v@) == self@,
    {
        proof {
            use_type_invariant(self);
        }
        let ghost m = self.commands@;
        let mut v: Vec<(SlashCommandId, StaticCommand)> = Vec::new();
        for pair in it: self.commands.iter()
            invariant
                m == self.commands@,
                forall|k: u128| #[trigger] m.contains_key(k) ==> m[k].0.0 == k,
                forall|i: int| 0 <= i < it.seq().len() ==> #[trigger] m.contains_key(*it.seq()[i].0) && m[*it.seq()[i].0] == *it.seq()[i].1,
                forall|k: u128| #[trigger] m.contains_key(k) ==> it.seq().contains((&k, &m[k])),
                it.seq().no_duplicates(),
                v@.len() == it.index(),
                forall|i: int| 0 <= i < v@.len() ==> #[trigger] v@[i] == *it.seq()[i].1 && v@[i].0.0 == *it.seq()[i].0,
                forall|i: int| 0 <= i < v@.len() ==> m.contains_key((#[trigger] v@[i]).0.0) && m[v@[i].0.0] == v@[i],
                ids_distinct(v@),
                forall|k: u128| #[trigger] m.contains_key(k) ==>
                    (exists|i: int| 0 <= i < v@.len() && #[trigger] v@[i].0.0 == k)
                    || (exists|j: int| it.index() <= j < it.seq().len() && *(#[trigger] it.seq()[j]).0 == k),
        {
            let (_, entry) = pair;
            let ghost idx = v@.len() as int;
            let ghost sq = it.seq();
            let ghost v0 = v@;
            v.push((entry.0, entry.1.clone()));
            proof {
                let kk = *sq[idx].0;
                assert(m.contains_key(kk) && m[kk] == *sq[idx].1);
                assert(v@[idx] == *sq[idx].1);
                assert forall|a: int, b: int| 0 <= a < v@.len() && 0 <= b < v@.len() && a != b implies #[trigger] v@[a].0 != #[trigger] v@[b].0 by {
                    if a < idx && b < idx {
                        assert(v@[a] == v0[a] && v@[b] == v0[b]);
                    } else {
                        let o = if a == idx { b } else { a };
                        assert(v@[o] == v0[o]);
                        if v@[o].0 == v@[idx].0 {
                            assert(*sq[o].0 == kk);
                            assert(*sq[o].1 == m[kk]);
                            assert(sq[o] == sq[idx]);
                        }
                    }
                }
                assert forall|k: u128| #[trigger] m.contains_key(k) implies
                    (exists|i: int| 0 <= i < v@.len() && #[trigger] v@[i].0.0 == k)
                    || (exists|j: int| idx + 1 <= j < sq.len() && *(#[trigger] sq[j]).0 == k) by {
                    if exists|i: int| 0 <= i < v0.len() && #[trigger] v0[i].0.0 == k {
                        let i = choose|i: int| 0 <= i < v0.len() && #[trigger] v0[i].0.0 == k;
                        assert(v@[i] == v0[i]);
                    } else {
                        let j = choose|j: int| idx <= j < sq.len() && *(#[trigger] sq[j]).0 == k;
                        if j == idx {
                            assert(v@[idx].0.0 == k);
                        }
                    }
                }
            }
        }
        proof {
            assert(entry_map(v@) =~= self@) by {
                assert forall|k: u128| entry_map(v@).contains_key(k) == self@.contains_key(k) by {
                    if self@.contains_key(k) {
                        assert(m.contains_key(k));
                    }
                    if entry_map(v@).contains_key(k) {
                        let j = choose|j: int| 0 <= j < v@.len() && #[trigger] v@[j].0.0 == k;
                        assert(m.contains_key(v@[j].0.0));
                    }
                }
                assert forall|k: u128| #[trigger] entry_map(v@).contains_key(k) implies entry_map(v@)[k] == self@[k] by {
                    let j = choose|j: int| 0 <= j < v@.len() && #[trigger] v@[j].0.0 == k;
                    assert(m.contains_key(v@[j].0.0) && m[v@[j].0.0] == v@[j]);
                }
            }
        }
        v
    }

    /// Every command.
    pub fn all_commands(&self) -> (v: Vec<StaticCommand>)
        ensures
            forall|c: StaticCommand| v@.contains(c) <==> exists|k: u128| #[trigger] self@.contains_key(k) && self@[k] == c,
    {
        let all = self.all_commands_by_id();
        let mut v: Vec<StaticCommand> = Vec::new();
        let mut i: usize = 0;
        while i < all.len()
            invariant
                i <= all@.len(),
                v@.len() == i,
                forall|j: int| 0 <= j < i ==> v@[j] == #[trigger] all@[j].1,
            decreases all@.len() - i,
        {
            v.push(all[i].1.clone());
            i = i + 1;
        }
        proof {
            assert forall|c: StaticCommand| v@.contains(c) <==> exists|k: u128| #[trigger] self@.contains_key(k) && self@[k] == c by {
                if v@.contains(c) {
                    let j = choose|j: int| 0 <= j < v@.len() && v@[j] == c;
                    let k = all@[j].0.0;
                    assert(all@[j].0.0 == k);
                    let jj = choose|jj: int| 0 <= jj < all@.len() && #[trigger] all@[jj].0.0 == k;
                    assert(jj == j);
                    assert(entry_map(all@).contains_key(k));
                }
                if exists|k: u128| #[trigger] self@.contains_key(k) && self@[k] == c {
                    let k = choose|k: u128| #[trigger] self@.contains_key(k) && self@[k] == c;
                    let j = choose|j: int| 0 <= j < all@.len() && #[trigger] all@[j].0.0 == k;
                    assert(v@[j] == c);
                }
            }
        }
        v
    }

    /// The command with the id, if any.
    pub fn get_command(&self, id: &SlashCommandId) -> (c: Option<&StaticCommand>)
        ensures
            match c {
                Some(x) => self@.contains_key(id.0) && self@[id.0] == *x,
                None => !self@.contains_key(id.0),
            },
    {
        match self.commands.get(&id.0) {
            Some(entry) => Some(&entry.1),
            None => None,
        }
    }

    /// A command with the name, if there is one.
    pub fn get_command_with_name(&self, name: &str) -> (c: Option<&StaticCommand>)
        ensures
            match c {
                Some(x) => x.name@ == name@ && exists|k: u128| #[trigger] self@.contains_key(k) && self@[k] == *x,
                None => forall|k: u128| #[trigger] self@.contains_key(k) ==> self@[k].name@ != name@,
            },
    {
        match self.get_command_id_with_name(name) {
            Some(id) => self.get_command(id),
            None => None,
        }
    }

    /// The id of a command with the name, if there is one.
    pub fn get_command_id_with_name(&self, name: &str) -> (r: Option<&SlashCommandId>)
        ensures
            match r {
                Some(id) => self@.contains_key(id.0) && self@[id.0].name@ == name@,
                None => forall|k: u128| #[trigger] self@.contains_key(k) ==> self@[k].name@ != name@,
            },
    {
        proof {
            use_type_invariant(self);
        }
        let ghost m = self.commands@;
        for pair in it: self.commands.iter()
            invariant
                m == self.commands@,
                forall|k: u128| #[trigger] m.contains_key(k) ==> m[k].0.0 == k,
                forall|i: int| 0 <= i < it.seq().len() ==> #[trigger] m.contains_key(*it.seq()[i].0) && m[*it.seq()[i].0] == *it.seq()[i].1,
                forall|k: u128| #[trigger] m.contains_key(k) ==>
                    m[k].1.name@ != name@ || (exists|j: int| it.index() <= j < it.seq().len() && *(#[trigger] it.seq()[j]).0 == k),
        {
            let (key, entry) = pair;
            let ghost idx = it.index();
            let ghost sq = it.seq();
            proof {
                assert(m.contains_key(*key) && m[*key] == *entry);
            }
            if str_eq(entry.1.name, name) {
                return Some(&entry.0);
            }
            proof {
                assert forall|k: u128| #[trigger] m.contains_key(k) implies
                    m[k].1.name@ != name@ || (exists|j: int| idx + 1 <= j < sq.len() && *(#[trigger] sq[j]).0 == k) by {
                    if m[k].1.name@ == name@ {
                        let j = choose|j: int| idx <= j < sq.len() && *(#[trigger] sq[j]).0 == k;
                        if j == idx {
                            assert(*sq[idx].0 == *key);
                        }
                    }
                }
            }
        }
        None
    }
}

} // verus!
