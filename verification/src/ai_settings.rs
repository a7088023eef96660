//! AI settings: voice input keys, session modes, thinking display, command
//! execution predicates and the settings group's derived values.
use vstd::prelude::*;
use crate::ids::CLIAgent;
use crate::tab_configs::TabConfig;
use crate::text::{str_eq, string_push};

verus! {

/// What the focused-terminal model reports.
pub enum FocusedTerminalInfoEvent {
    TerminalInfoUpdated,
}

/// Facts about the focused terminal; this build tracks none.
#[derive(Default, Clone, Debug)]
pub struct FocusedTerminalInfo;

impl FocusedTerminalInfo {
    pub fn new() -> (r: Self) {
        FocusedTerminalInfo
    }

    /// Never true in this build.
    pub fn contains_any_remote_blocks(&self) -> (b: bool)
        ensures
            !b,
    {
        false
    }

    /// Never true in this build.
    pub fn contains_any_restored_remote_blocks(&self) -> (b: bool)
        ensures
            !b,
    {
        false
    }

    /// Ignores the update and reports that nothing changed.
    pub fn update(&mut self, contains_any_remote_blocks: bool, contains_any_restored_remote_blocks: bool) -> (changed: bool)
        ensures
            !changed,
    {
        false
    }
}

/// The operating system the application runs on.
#[derive(Clone, PartialEq, Eq, Debug)]
pub enum OperatingSystem {
    Mac,
    Windows,
    Linux,
    Other(String),
}

/// A key code of the keyboard.
#[derive(Clone, Copy, PartialEq, Eq, Debug)]
pub enum KeyCode {
    Fn,
    AltLeft,
    AltRight,
    ControlLeft,
    ControlRight,
    SuperLeft,
    SuperRight,
    ShiftLeft,
    ShiftRight,
}

/// A keystroke: a key name and the modifiers held with it.
#[derive(Clone, PartialEq, Eq, Debug)]
pub struct Keystroke {
    pub key: String,
    pub alt: bool,
    pub ctrl: bool,
    pub cmd: bool,
    pub shift: bool,
}

/// The key that toggles voice input while held.
#[derive(Default, Debug, PartialEq, Eq, Copy, Clone)]
pub enum VoiceInputToggleKey {
    #[default]
    NoKey,
    Fn,
    AltLeft,
    AltRight,
    ControlLeft,
    ControlRight,
    SuperLeft,
    SuperRight,
    ShiftLeft,
    ShiftRight,
}

/// Every toggle key, in declaration order.
pub open spec fn all_voice_keys() -> Seq<VoiceInputToggleKey> {
    seq![
        VoiceInputToggleKey::NoKey,
        VoiceInputToggleKey::Fn,
        VoiceInputToggleKey::AltLeft,
        VoiceInputToggleKey::AltRight,
        VoiceInputToggleKey::ControlLeft,
        VoiceInputToggleKey::ControlRight,
        VoiceInputToggleKey::SuperLeft,
        VoiceInputToggleKey::SuperRight,
        VoiceInputToggleKey::ShiftLeft,
        VoiceInputToggleKey::ShiftRight,
    ]
}

/// Names of the super and alt keys on an operating system.
pub open spec fn modifier_names(os: OperatingSystem) -> (Seq<char>, Seq<char>) {
    match os {
        OperatingSystem::Mac => ("Command"@, "Option"@),
        OperatingSystem::Windows => ("Windows"@, "Alt"@),
        _ => ("Super"@, "Alt"@),
    }
}

/// The display name of a toggle key on an operating system.
pub open spec fn spec_voice_key_display_name(key: VoiceInputToggleKey, os: OperatingSystem) -> Seq<char> {
    let (super_name, alt_name) = modifier_names(os);
    match key {
        VoiceInputToggleKey::NoKey => "None"@,
        VoiceInputToggleKey::Fn => "Fn"@,
        VoiceInputToggleKey::AltLeft => alt_name + " (Left)"@,
        VoiceInputToggleKey::AltRight => alt_name + " (Right)"@,
        VoiceInputToggleKey::ControlLeft => "Control (Left)"@,
        VoiceInputToggleKey::ControlRight => "Control (Right)"@,
        VoiceInputToggleKey::SuperLeft => super_name + " (Left)"@,
        VoiceInputToggleKey::SuperRight => super_name + " (Right)"@,
        VoiceInputToggleKey::ShiftLeft => "Shift (Left)"@,
        VoiceInputToggleKey::ShiftRight => "Shift (Right)"@,
    }
}

/// The side a toggle key sits on, if it has one.
pub open spec fn voice_key_side(key: VoiceInputToggleKey) -> Option<Seq<char>> {
    match key {
        VoiceInputToggleKey::AltLeft | VoiceInputToggleKey::ControlLeft | VoiceInputToggleKey::SuperLeft
        | VoiceInputToggleKey::ShiftLeft => Some("Left"@),
        VoiceInputToggleKey::AltRight | VoiceInputToggleKey::ControlRight | VoiceInputToggleKey::SuperRight
        | VoiceInputToggleKey::ShiftRight => Some("Right"@),
        _ => None,
    }
}

/// The keystroke a toggle key stands for.
pub open spec fn spec_voice_keystroke(key: VoiceInputToggleKey) -> Option<(Seq<char>, bool, bool, bool, bool)> {
    match key {
        VoiceInputToggleKey::NoKey => None,
        VoiceInputToggleKey::Fn => Some(("fn"@, false, false, false, false)),
        VoiceInputToggleKey::AltLeft | VoiceInputToggleKey::AltRight => Some((Seq::empty(), true, false, false, false)),
        VoiceInputToggleKey::ControlLeft | VoiceInputToggleKey::ControlRight => Some((Seq::empty(), false, true, false, false)),
        VoiceInputToggleKey::SuperLeft | VoiceInputToggleKey::SuperRight => Some((Seq::empty(), false, false, true, false)),
        VoiceInputToggleKey::ShiftLeft | VoiceInputToggleKey::ShiftRight => Some((Seq::empty(), false, false, false, true)),
    }
}

/// The tooltip of the voice input button, given how the toggle key's keystroke is displayed.
pub open spec fn spec_voice_tooltip(key: VoiceInputToggleKey, symbol: Seq<char>) -> Seq<char> {
    if key == VoiceInputToggleKey::NoKey {
        "Voice input"@
    } else {
        let key_name = match voice_key_side(key) {
            Some(side) => side + " "@ + symbol,
            None => symbol,
        };
        "Voice input (hold "@ + key_name + " key)"@
    }
}

impl VoiceInputToggleKey {
    /// The keys a user can pick on an operating system: all of them on macOS,
    /// all but `Fn` elsewhere.
    pub fn all_possible_values(os: &OperatingSystem) -> (v: Vec<VoiceInputToggleKey>)
        ensures
            *os == OperatingSystem::Mac ==> v@ == all_voice_keys(),
            *os != OperatingSystem::Mac ==> v@ == all_voice_keys().filter(|k: VoiceInputToggleKey| k != VoiceInputToggleKey::Fn),
    {
        let is_mac = match os {
            OperatingSystem::Mac => true,
            _ => false,
        };
        let mut v = Vec::new();
        v.push(VoiceInputToggleKey::NoKey);
        if is_mac {
            v.push(VoiceInputToggleKey::Fn);
        }
        v.push(VoiceInputToggleKey::AltLeft);
        v.push(VoiceInputToggleKey::AltRight);
        v.push(VoiceInputToggleKey::ControlLeft);
        v.push(VoiceInputToggleKey::ControlRight);
        v.push(VoiceInputToggleKey::SuperLeft);
        v.push(VoiceInputToggleKey::SuperRight);
        v.push(VoiceInputToggleKey::ShiftLeft);
        v.push(VoiceInputToggleKey::ShiftRight);
        proof {
            let all = all_voice_keys();
            let pred = |k: VoiceInputToggleKey| k != VoiceInputToggleKey::Fn;
            reveal_with_fuel(Seq::filter, 11);
            assert(all.subrange(0, 0).filter(pred) =~= Seq::<VoiceInputToggleKey>::empty());
            if is_mac {
                assert(v@ =~= all);
            } else {
                assert(all.filter(pred) =~= seq![
                    VoiceInputToggleKey::NoKey,
                    VoiceInputToggleKey::AltLeft,
                    VoiceInputToggleKey::AltRight,
                    VoiceInputToggleKey::ControlLeft,
                    VoiceInputToggleKey::ControlRight,
                    VoiceInputToggleKey::SuperLeft,
                    VoiceInputToggleKey::SuperRight,
                    VoiceInputToggleKey::ShiftLeft,
                    VoiceInputToggleKey::ShiftRight,
                ]);
                assert(v@ =~= all.filter(pred));
            }
        }
        v
    }

    /// The key's display name on an operating system.
    pub fn display_name(&self, os: &OperatingSystem) -> (s: &'static str)
        ensures
            s@ == spec_voice_key_display_name(*self, *os),
    {
        let which: u8 = match os {
            OperatingSystem::Mac => 0,
            OperatingSystem::Windows => 1,
            _ => 2,
        };
        proof {
            reveal_strlit("None");
            reveal_strlit("Fn");
            reveal_strlit("Control (Left)");
            reveal_strlit("Control (Right)");
            reveal_strlit("Shift (Left)");
            reveal_strlit("Shift (Right)");
            reveal_strlit("Option (Left)");
            reveal_strlit("Option (Right)");
            reveal_strlit("Alt (Left)");
            reveal_strlit("Alt (Right)");
            reveal_strlit("Command (Left)");
            reveal_strlit("Command (Right)");
            reveal_strlit("Windows (Left)");
            reveal_strlit("Windows (Right)");
            reveal_strlit("Super (Left)");
            reveal_strlit("Super (Right)");
            reveal_strlit("Command");
            reveal_strlit("Option");
            reveal_strlit("Windows");
            reveal_strlit("Alt");
            reveal_strlit("Super");
            reveal_strlit(" (Left)");
            reveal_strlit(" (Right)");
        }
        let s = match self {
            VoiceInputToggleKey::NoKey => "None",
            VoiceInputToggleKey::Fn => "Fn",
            VoiceInputToggleKey::AltLeft => if which == 0 { "Option (Left)" } else { "Alt (Left)" },
            VoiceInputToggleKey::AltRight => if which == 0 { "Option (Right)" } else { "Alt (Right)" },
            VoiceInputToggleKey::ControlLeft => "Control (Left)",
            VoiceInputToggleKey::ControlRight => "Control (Right)",
            VoiceInputToggleKey::SuperLeft => if which == 0 {
                "Command (Left)"
            } else if which == 1 {
                "Windows (Left)"
            } else {
                "Super (Left)"
            },
            VoiceInputToggleKey::SuperRight => if which == 0 {
                "Command (Right)"
            } else if which == 1 {
                "Windows (Right)"
            } else {
                "Super (Right)"
            },
            VoiceInputToggleKey::ShiftLeft => "Shift (Left)",
            VoiceInputToggleKey::ShiftRight => "Shift (Right)",
        };
        proof {
            assert(s@ =~= spec_voice_key_display_name(*self, *os));
        }
        s
    }

    /// The key code of the key, if it has one.
    pub fn to_key_code(&self) -> (k: Option<KeyCode>)
        ensures
            k == match *self {
                VoiceInputToggleKey::NoKey => None,
                VoiceInputToggleKey::Fn => Some(KeyCode::Fn),
                VoiceInputToggleKey::AltLeft => Some(KeyCode::AltLeft),
                VoiceInputToggleKey::AltRight => Some(KeyCode::AltRight),
                VoiceInputToggleKey::ControlLeft => Some(KeyCode::ControlLeft),
                VoiceInputToggleKey::ControlRight => Some(KeyCode::ControlRight),
                VoiceInputToggleKey::SuperLeft => Some(KeyCode::SuperLeft),
                VoiceInputToggleKey::SuperRight => Some(KeyCode::SuperRight),
                VoiceInputToggleKey::ShiftLeft => Some(KeyCode::ShiftLeft),
                VoiceInputToggleKey::ShiftRight => Some(KeyCode::ShiftRight),
            },
    {
        match self {
            VoiceInputToggleKey::NoKey => None,
            VoiceInputToggleKey::Fn => Some(KeyCode::Fn),
            VoiceInputToggleKey::AltLeft => Some(KeyCode::AltLeft),
            VoiceInputToggleKey::AltRight => Some(KeyCode::AltRight),
            VoiceInputToggleKey::ControlLeft => Some(KeyCode::ControlLeft),
            VoiceInputToggleKey::ControlRight => Some(KeyCode::ControlRight),
            VoiceInputToggleKey::SuperLeft => Some(KeyCode::SuperLeft),
            VoiceInputToggleKey::SuperRight => Some(KeyCode::SuperRight),
            VoiceInputToggleKey::ShiftLeft => Some(KeyCode::ShiftLeft),
            VoiceInputToggleKey::ShiftRight => Some(KeyCode::ShiftRight),
        }
    }

    /// The keystroke the key stands for: `fn` for `Fn`, the bare modifier for the others.
    pub fn keystroke(&self) -> (k: Option<Keystroke>)
        ensures
            k is None <==> spec_voice_keystroke(*self) is None,
            k matches Some(ks) ==> spec_voice_keystroke(*self) == Some((ks.key@, ks.alt, ks.ctrl, ks.cmd, ks.shift)),
    {
        let blank = Keystroke { key: String::new(), alt: false, ctrl: false, cmd: false, shift: false };
        match self {
            VoiceInputToggleKey::NoKey => None,
            VoiceInputToggleKey::Fn => {
                let ks = Keystroke { key: String::from_str("fn"), ..blank };
                proof { reveal_strlit("fn"); }
                Some(ks)
            },
            VoiceInputToggleKey::AltLeft | VoiceInputToggleKey::AltRight => Some(Keystroke { alt: true, ..blank }),
            VoiceInputToggleKey::ControlLeft | VoiceInputToggleKey::ControlRight => Some(Keystroke { ctrl: true, ..blank }),
            VoiceInputToggleKey::SuperLeft | VoiceInputToggleKey::SuperRight => Some(Keystroke { cmd: true, ..blank }),
            VoiceInputToggleKey::ShiftLeft | VoiceInputToggleKey::ShiftRight => Some(Keystroke { shift: true, ..blank }),
        }
    }

    /// The tooltip of the voice input button; `displayed_keystroke` is how the
    /// key's keystroke is rendered for the user.
    pub fn tooltip_message(&self, displayed_keystroke: &str) -> (s: String)
        ensures
            s@ == spec_voice_tooltip(*self, displayed_keystroke@),
    {
        proof {
            reveal_strlit("Voice input");
            reveal_strlit("Voice input (hold ");
            reveal_strlit(" key)");
            reveal_strlit("Left");
            reveal_strlit("Right");
            reveal_strlit(" ");
        }
        match self.keystroke() {
            Some(_) => {
                let mut s = String::from_str("Voice input (hold ");
                match self {
                    VoiceInputToggleKey::AltLeft | VoiceInputToggleKey::ControlLeft
                    | VoiceInputToggleKey::SuperLeft | VoiceInputToggleKey::ShiftLeft => {
                        s.append("Left");
                        s.append(" ");
                    },
                    VoiceInputToggleKey::AltRight | VoiceInputToggleKey::ControlRight
                    | VoiceInputToggleKey::SuperRight | VoiceInputToggleKey::ShiftRight => {
                        s.append("Right");
                        s.append(" ");
                    },
                    _ => {},
                }
                s.append(displayed_keystroke);
                s.append(" key)");
                proof {
                    assert(s@ =~= spec_voice_tooltip(*self, displayed_keystroke@));
                }
                s
            },
            None => String::from_str("Voice input"),
        }
    }

    /// Whether no toggle key is set.
    pub fn is_none(&self) -> (b: bool)
        ensures
            b == (*self == VoiceInputToggleKey::NoKey),
    {
        match self {
            VoiceInputToggleKey::NoKey => true,
            _ => false,
        }
    }
}

/// The kind of session a new tab opens with.
#[derive(Default, Debug, PartialEq, Eq, Copy, Clone)]
pub enum DefaultSessionMode {
    #[default]
    Terminal,
    Agent,
    CloudAgent,
    TabConfig,
    DockerSandbox,
}

impl DefaultSessionMode {
    pub fn display_name(&self) -> (s: &'static str)
        ensures
            s@ == match *self {
                DefaultSessionMode::Terminal => "Terminal"@,
                DefaultSessionMode::Agent => "Agent"@,
                DefaultSessionMode::CloudAgent => "Cloud Oz"@,
                DefaultSessionMode::TabConfig => "Tab Config"@,
                DefaultSessionMode::DockerSandbox => "Local Docker Sandbox"@,
            },
    {
        match self {
            DefaultSessionMode::Terminal => "Terminal",
            DefaultSessionMode::Agent => "Agent",
            DefaultSessionMode::CloudAgent => "Cloud Oz",
            DefaultSessionMode::TabConfig => "Tab Config",
            DefaultSessionMode::DockerSandbox => "Local Docker Sandbox",
        }
    }
}

/// How the agent's thinking is shown.
#[derive(Default, Debug, PartialEq, Eq, Copy, Clone)]
pub enum ThinkingDisplayMode {
    #[default]
    ShowAndCollapse,
    AlwaysShow,
    NeverShow,
}

impl ThinkingDisplayMode {
    pub fn display_name(&self) -> (s: &'static str)
        ensures
            s@ == match *self {
                ThinkingDisplayMode::ShowAndCollapse => "Show & collapse"@,
                ThinkingDisplayMode::AlwaysShow => "Always show"@,
                ThinkingDisplayMode::NeverShow => "Never show"@,
            },
    {
        match self {
            ThinkingDisplayMode::ShowAndCollapse => "Show & collapse",
            ThinkingDisplayMode::AlwaysShow => "Always show",
            ThinkingDisplayMode::NeverShow => "Never show",
        }
    }

    pub fn command_palette_description(&self) -> (s: &'static str)
        ensures
            s@ == match *self {
                ThinkingDisplayMode::ShowAndCollapse => "Set agent thinking display: show & collapse"@,
                ThinkingDisplayMode::AlwaysShow => "Set agent thinking display: always show"@,
                ThinkingDisplayMode::NeverShow => "Set agent thinking display: never show"@,
            },
    {
        match self {
            ThinkingDisplayMode::ShowAndCollapse => "Set agent thinking display: show & collapse",
            ThinkingDisplayMode::AlwaysShow => "Set agent thinking display: always show",
            ThinkingDisplayMode::NeverShow => "Set agent thinking display: never show",
        }
    }

    /// Thinking is rendered unless it is never shown.
    pub fn should_render(&self) -> (b: bool)
        ensures
            b == (*self != ThinkingDisplayMode::NeverShow),
    {
        match self {
            ThinkingDisplayMode::NeverShow => false,
            _ => true,
        }
    }

    /// Thinking stays expanded only when it is always shown.
    pub fn should_keep_expanded(&self) -> (b: bool)
        ensures
            b == (*self == ThinkingDisplayMode::AlwaysShow),
    {
        match self {
            ThinkingDisplayMode::AlwaysShow => true,
            _ => false,
        }
    }
}

/// Whether a banner was dismissed.
#[derive(Debug, Clone, PartialEq, Eq, Default)]
pub struct BannerState {
    pub dismissed: bool,
}

/// Whether the agent may read files without asking.
#[derive(Debug, Clone, Copy, Default, PartialEq, Eq)]
pub enum AgentModeCodingPermissionsType {
    #[default]
    AlwaysAskBeforeReading,
    AlwaysAllowReading,
    AllowReadingSpecificFiles,
}

/// The error `regex::Regex::new` reports for a pattern it cannot compile.
#[verifier::external_type_specification]
#[verifier::external_body]
pub struct ExRegexError(regex::Error);

/// Whether `regex::Regex::new` compiles the pattern (with the crate's default
/// options and size limits).
pub uninterp spec fn regex_compiles(pattern: Seq<char>) -> bool;

/// Whether the regex compiled from `pattern` matches somewhere in `haystack`.
pub uninterp spec fn regex_is_match(pattern: Seq<char>, haystack: Seq<char>) -> bool;

/// Compiles `pattern` with `regex::Regex::new` and keeps only whether it
/// succeeded. Claimed: it succeeds exactly when `regex_compiles(pattern)`.
#[verifier::external_body]
fn regex_check(pattern: &str) -> (r: Result<(), regex::Error>)
    ensures
        r is Ok <==> regex_compiles(pattern@),
{
    regex::Regex::new(pattern).map(|_| ())
}

/// Runs `regex::Regex::is_match` of the regex compiled from `pattern` on
/// `haystack`. Claimed: the answer is `regex_is_match(pattern, haystack)`.
#[verifier::external_body]
fn regex_matches(pattern: &str, haystack: &str) -> (b: bool)
    requires
        regex_compiles(pattern@),
    ensures
        b == regex_is_match(pattern@, haystack@),
{
    regex::Regex::new(pattern).map_or(false, |re| re.is_match(haystack))
}

/// The pattern anchored at both ends: `^`, the pattern, `$`.
pub open spec fn anchored(pattern: Seq<char>) -> Seq<char> {
    seq!['^'] + pattern + seq!['$']
}

/// A rule that a command must match as a whole to be allowed (or denied).
pub struct AgentModeCommandExecutionPredicate {
    anchored_pattern: String,
    pattern: String,
}

impl AgentModeCommandExecutionPredicate {
    #[verifier::type_invariant]
    spec fn well_formed(self) -> bool {
        &&& self.anchored_pattern@ == anchored(self.pattern@)
        &&& regex_compiles(self.anchored_pattern@)
    }

    /// The pattern as the user wrote it, without anchors.
    pub closed spec fn pattern(&self) -> Seq<char> {
        self.pattern@
    }

    /// Compiles the user's pattern anchored at both ends; fails with the regex
    /// error exactly when the anchored pattern does not compile.
    pub fn new_regex(regex: &str) -> (r: Result<Self, regex::Error>)
        ensures
            r is Ok <==> regex_compiles(anchored(regex@)),
            r matches Ok(p) ==> p.pattern() == regex@,
    {
        let mut a = String::new();
        string_push(&mut a, '^');
        a.append(regex);
        string_push(&mut a, '$');
        proof {
            assert(a@ =~= anchored(regex@));
        }
        match regex_check(a.as_str()) {
            Ok(()) => Ok(AgentModeCommandExecutionPredicate { anchored_pattern: a, pattern: String::from_str(regex) }),
            Err(e) => Err(e),
        }
    }

    /// Whether the whole command matches the pattern.
    pub fn matches(&self, cmd: &str) -> (b: bool)
        ensures
            b == regex_is_match(anchored(self.pattern()), cmd@),
    {
        proof { use_type_invariant(self); }
        regex_matches(self.anchored_pattern.as_str(), cmd)
    }

    /// Two predicates are equal when their patterns are.
    pub fn eq(&self, other: &Self) -> (b: bool)
        ensures
            b == (self.pattern() == other.pattern()),
    {
        str_eq(self.pattern.as_str(), other.pattern.as_str())
    }

    /// The pattern as the user wrote it.
    pub fn to_string(&self) -> (s: String)
        ensures
            s@ == self.pattern(),
    {
        self.pattern.clone()
    }
}

/// Whether two strings name the same path (`Path == Path`, which compares
/// path components by the rules of the platform the library is built for).
pub uninterp spec fn paths_equal(a: Seq<char>, b: Seq<char>) -> bool;

/// Compares two paths with `std::path::Path`'s equality. Claimed: the answer is
/// `paths_equal(a, b)`, and the same text always names the same path.
#[verifier::external_body]
fn path_eq(a: &str, b: &str) -> (r: bool)
    ensures
        r == paths_equal(a@, b@),
        a@ == b@ ==> r,
{
    std::path::Path::new(a) == std::path::Path::new(b)
}

/// The index of the first config loaded from `path`, if any.
pub open spec fn first_config_from(configs: Seq<TabConfig>, path: Seq<char>) -> Option<int> {
    if exists|i: int| 0 <= i < configs.len() && #[trigger] config_from(configs[i], path) {
        Some(choose|i: int| 0 <= i < configs.len() && #[trigger] config_from(configs[i], path)
            && forall|j: int| 0 <= j < i ==> !config_from(configs[j], path))
    } else {
        None
    }
}

/// Whether a config was loaded from `path`.
pub open spec fn config_from(c: TabConfig, path: Seq<char>) -> bool {
    c.source_path matches Some(p) && paths_equal(p@, path)
}

/// The AI settings group's values that the logic reads.
pub struct AISettings {
    pub default_session_mode_internal: DefaultSessionMode,
    pub default_tab_config_path: String,
    pub voice_input_toggle_key: VoiceInputToggleKey,
    pub thinking_display_mode: ThinkingDisplayMode,
    pub agent_mode_coding_permissions: AgentModeCodingPermissionsType,
}

impl AISettings {
    /// The settings at their defaults.
    pub fn new() -> (s: Self)
        ensures
            s.default_session_mode_internal == DefaultSessionMode::Terminal,
            s.default_tab_config_path@ == Seq::<char>::empty(),
            s.voice_input_toggle_key == VoiceInputToggleKey::NoKey,
            s.thinking_display_mode == ThinkingDisplayMode::ShowAndCollapse,
            s.agent_mode_coding_permissions == AgentModeCodingPermissionsType::AlwaysAskBeforeReading,
    {
        AISettings {
            default_session_mode_internal: DefaultSessionMode::Terminal,
            default_tab_config_path: String::new(),
            voice_input_toggle_key: VoiceInputToggleKey::NoKey,
            thinking_display_mode: ThinkingDisplayMode::ShowAndCollapse,
            agent_mode_coding_permissions: AgentModeCodingPermissionsType::AlwaysAskBeforeReading,
        }
    }

    /// The mode new sessions open in: a stored tab config or Docker sandbox
    /// mode is kept, every other mode falls back to the terminal.
    pub fn default_session_mode(&self) -> (m: DefaultSessionMode)
        ensures
            m == match self.default_session_mode_internal {
                DefaultSessionMode::TabConfig => DefaultSessionMode::TabConfig,
                DefaultSessionMode::DockerSandbox => DefaultSessionMode::DockerSandbox,
                _ => DefaultSessionMode::Terminal,
            },
    {
        match self.default_session_mode_internal {
            DefaultSessionMode::TabConfig => DefaultSessionMode::TabConfig,
            DefaultSessionMode::DockerSandbox => DefaultSessionMode::DockerSandbox,
            _ => DefaultSessionMode::Terminal,
        }
    }

    pub fn default_tab_config_path(&self) -> (s: &str)
        ensures
            s@ == self.default_tab_config_path@,
    {
        self.default_tab_config_path.as_str()
    }

    /// The first of `tab_configs` loaded from the default tab config path; none
    /// when that path is empty.
    pub fn resolved_default_tab_config(&self, tab_configs: &Vec<TabConfig>) -> (r: Option<TabConfig>)
        ensures
            self.default_tab_config_path@.len() == 0 ==> r is None,
            self.default_tab_config_path@.len() != 0 ==> match first_config_from(tab_configs@, self.default_tab_config_path@) {
                Some(i) => r == Some(tab_configs@[i]),
                None => r is None,
            },
    {
        let path = self.default_tab_config_path.as_str();
        if path.is_empty() {
            return None;
        }
        let mut i: usize = 0;
        while i < tab_configs.len()
            invariant
                i <= tab_configs@.len(),
                path@ == self.default_tab_config_path@,
                path@.len() != 0,
                forall|j: int| 0 <= j < i ==> !#[trigger] config_from(tab_configs@[j], path@),
            decreases tab_configs@.len() - i,
        {
            let found = match &tab_configs[i].source_path {
                Some(p) => path_eq(p.as_str(), path),
                None => false,
            };
            if found {
                proof {
                    assert(config_from(tab_configs@[i as int], path@));
                    assert(exists|i: int| 0 <= i < tab_configs@.len() && #[trigger] config_from(tab_configs@[i], path@));
                    assert(exists|k: int| 0 <= k < tab_configs@.len() && #[trigger] config_from(tab_configs@[k], path@)
                        && forall|j: int| 0 <= j < k ==> !config_from(tab_configs@[j], path@)) by {
                        assert(0 <= i < tab_configs@.len() && config_from(tab_configs@[i as int], path@)
                            && forall|j: int| 0 <= j < i ==> !config_from(tab_configs@[j], path@));
                    }
                    let k = first_config_from(tab_configs@, path@)->0;
                    if k < i {
                        assert(!config_from(tab_configs@[k], path@));
                    }
                    if k > i {
                        assert(!config_from(tab_configs@[i as int], path@));
                    }
                    assert(k == i);
                }
                return Some(tab_configs[i].clone());
            }
            i = i + 1;
        }
        proof {
            assert(!exists|i: int| 0 <= i < tab_configs@.len() && #[trigger] config_from(tab_configs@[i], path@));
        }
        None
    }

    pub fn is_ai_disabled_due_to_remote_session_org_policy(&self) -> (b: bool) ensures !b, { false }
    pub fn is_any_ai_enabled(&self) -> (b: bool) ensures !b, { false }
    pub fn is_active_ai_enabled(&self) -> (b: bool) ensures !b, { false }
    pub fn is_prompt_suggestions_enabled(&self) -> (b: bool) ensures !b, { false }
    pub fn is_rule_suggestions_enabled(&self) -> (b: bool) ensures !b, { false }
    pub fn is_code_suggestions_enabled(&self) -> (b: bool) ensures !b, { false }
    pub fn is_natural_language_autosuggestions_enabled(&self) -> (b: bool) ensures !b, { false }
    pub fn is_shared_block_title_generation_enabled(&self) -> (b: bool) ensures !b, { false }
    pub fn is_git_operations_autogen_enabled(&self) -> (b: bool) ensures !b, { false }
    pub fn is_intelligent_autosuggestions_enabled(&self) -> (b: bool) ensures !b, { false }
    pub fn is_voice_input_enabled(&self) -> (b: bool) ensures !b, { false }
    pub fn is_ai_autodetection_enabled(&self) -> (b: bool) ensures !b, { false }
    pub fn is_nld_in_terminal_enabled(&self) -> (b: bool) ensures !b, { false }
    pub fn is_memory_enabled(&self) -> (b: bool) ensures !b, { false }
    pub fn is_warp_drive_context_enabled(&self) -> (b: bool) ensures !b, { false }
    pub fn is_file_based_mcp_enabled(&self) -> (b: bool) ensures !b, { false }
    pub fn is_orchestration_enabled(&self) -> (b: bool) ensures !b, { false }
    pub fn should_display_quota_reset_banner(&self) -> (b: bool) ensures !b, { false }
    pub fn is_command_denylist_editable(&self) -> (b: bool) ensures !b, { false }
    pub fn is_command_allowlist_editable(&self) -> (b: bool) ensures !b, { false }
    pub fn is_directory_allowlist_editable(&self) -> (b: bool) ensures !b, { false }
    pub fn is_execute_commands_permissions_editable(&self) -> (b: bool) ensures !b, { false }
    pub fn is_write_to_pty_permissions_editable(&self) -> (b: bool) ensures !b, { false }
    pub fn is_computer_use_permissions_editable(&self) -> (b: bool) ensures !b, { false }
    pub fn is_read_files_permissions_editable(&self) -> (b: bool) ensures !b, { false }
    pub fn is_code_diffs_permissions_editable(&self) -> (b: bool) ensures !b, { false }
    pub fn is_ask_user_question_permissions_editable(&self) -> (b: bool) ensures !b, { false }
    pub fn is_mcp_permission_editable(&self) -> (b: bool) ensures !b, { false }
    pub fn show_code_suggestion_speedbump(&self) -> (b: bool) ensures !b, { false }

    /// First-time voice setup picks no key in this build.
    pub fn maybe_setup_first_time_voice(&mut self) -> (k: Option<VoiceInputToggleKey>)
        ensures
            k is None,
    {
        None
    }

    /// Plugin install chips count as dismissed in this build.
    pub fn is_plugin_install_chip_dismissed(&self, key: &str) -> (b: bool)
        ensures
            b,
    {
        true
    }

    /// No plugin update chip was dismissed at any version.
    pub fn plugin_update_chip_dismissed_version(&self, key: &str) -> (s: &'static str)
        ensures
            s@ == Seq::<char>::empty(),
    {
        proof { reveal_strlit(""); }
        ""
    }

    /// Nothing is shown about quotas in this build, so nothing changes.
    pub fn mark_quota_banner_as_dismissed(&mut self)
        ensures
            *final(self) == *old(self),
    {
    }

    /// Quotas are not tracked in this build, so nothing changes.
    pub fn update_quota_info(&mut self, request_limit_info: &RequestLimitInfo)
        ensures
            *final(self) == *old(self),
    {
    }

    /// The coding agent toolbar's commands are not kept in this build.
    pub fn add_cli_agent_footer_enabled_command(&mut self, command: &str)
        ensures
            *final(self) == *old(self),
    {
    }

    /// The coding agent toolbar's commands are not kept in this build.
    pub fn remove_cli_agent_footer_enabled_command(&mut self, command: &str)
        ensures
            *final(self) == *old(self),
    {
    }

    /// Commands are not matched to agents in this build.
    pub fn set_cli_agent_for_command(&mut self, pattern: &str, agent: Option<CLIAgent>)
        ensures
            *final(self) == *old(self),
    {
    }

    /// Plugin install chips already count as dismissed.
    pub fn dismiss_plugin_install_chip(&mut self, key: &str)
        ensures
            *final(self) == *old(self),
    {
    }

    /// Dismissed plugin update chips are not remembered in this build.
    pub fn dismiss_plugin_update_chip(&mut self, key: &str, version: String)
        ensures
            *final(self) == *old(self),
    {
    }
}

/// What the server said of the limits on AI requests.
#[derive(Clone, Debug, Default, PartialEq, Eq)]
pub struct RequestLimitInfo {
    pub limit: u64,
    pub num_requests_used_since_refresh: u64,
}

/// One billing cycle: when it ends, whether its quota was exceeded, and the
/// state of its banner.
#[derive(Clone, Debug, PartialEq)]
pub struct CycleInfo {
    pub end_date: crate::server::ServerTimestamp,
    pub was_quota_exceeded: bool,
    pub banner_state: BannerState,
}

/// The billing cycles seen so far.
#[derive(Clone, Debug, Default, PartialEq)]
pub struct AIRequestQuotaInfo {
    pub cycle_history: Vec<CycleInfo>,
}

/// Matches commands to the coding agents whose toolbar they show.
pub struct CompiledCommandsForCodingAgentToolbar;

impl CompiledCommandsForCodingAgentToolbar {
    /// No command is matched to an agent in this build.
    pub fn matched_agent(command: &str) -> (a: Option<CLIAgent>)
        ensures
            a is None,
    {
        None
    }
}

} // verus!
