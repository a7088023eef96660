//! Tab configs: pickers, the new-worktree modal, the session config modal and
//! the telemetry events of the tab config flows.
use vstd::prelude::*;
use crate::ids::CLIAgent;

verus! {

/// A saved tab config, identified by the file it was loaded from.
#[derive(Debug, PartialEq, Eq)]
pub struct TabConfig {
    pub name: String,
    pub source_path: Option<String>,
}

impl Clone for TabConfig {
    fn clone(&self) -> (r: Self)
        ensures
            r == *self,
    {
        TabConfig {
            name: self.name.clone(),
            source_path: match &self.source_path {
                Some(p) => Some(p.clone()),
                None => None,
            },
        }
    }
}

/// The kind of session a tab config starts.
#[derive(Debug, PartialEq, Eq)]
pub enum SessionType {
    Terminal,
    Oz,
    CliAgent(CLIAgent),
}

impl Clone for SessionType {
    fn clone(&self) -> (c: Self)
        ensures
            c == *self,
    {
        match self {
            SessionType::Terminal => SessionType::Terminal,
            SessionType::Oz => SessionType::Oz,
            SessionType::CliAgent(a) => SessionType::CliAgent(a.clone()),
        }
    }
}

/// What the session config modal was completed with.
#[derive(Debug, Clone)]
pub struct SessionConfigSelection {
    pub session_type: SessionType,
    pub directory: String,
    pub enable_worktree: bool,
    pub autogenerate_worktree_branch_name: bool,
}

/// What the user does in the session config modal.
#[derive(Debug)]
pub enum SessionConfigModalAction {
    SelectSessionType(usize),
    OpenDirectoryPicker,
    DirectorySelected(Result<String, String>),
    Submit,
    Dismiss,
}

impl Clone for SessionConfigModalAction {
    fn clone(&self) -> (c: Self)
        ensures
            c == *self,
    {
        match self {
            SessionConfigModalAction::SelectSessionType(i) => SessionConfigModalAction::SelectSessionType(*i),
            SessionConfigModalAction::OpenDirectoryPicker => SessionConfigModalAction::OpenDirectoryPicker,
            SessionConfigModalAction::DirectorySelected(Ok(p)) => SessionConfigModalAction::DirectorySelected(Ok(p.clone())),
            SessionConfigModalAction::DirectorySelected(Err(e)) => SessionConfigModalAction::DirectorySelected(Err(e.clone())),
            SessionConfigModalAction::Submit => SessionConfigModalAction::Submit,
            SessionConfigModalAction::Dismiss => SessionConfigModalAction::Dismiss,
        }
    }
}

/// What the session config modal tells its observers.
pub enum SessionConfigModalEvent {
    Completed(SessionConfigSelection),
    Dismissed,
}

/// What handling an action of the modal leads to.
pub enum SessionConfigModalEffect {
    Nothing,
    Emit(SessionConfigModalEvent),
    OpenDirectoryPicker,
}

/// `dirs::home_dir`: the user's home directory, if one is known, as text
/// (`to_string_lossy`: a path that is not valid UTF-8 has its invalid bytes
/// replaced). It depends on the environment, so nothing is stated of it.
#[verifier::external_body]
fn home_dir() -> (h: Option<String>) {
    match dirs::home_dir() {
        Some(p) => Some(p.to_string_lossy().to_string()),
        None => None,
    }
}

/// The modal that creates a first tab config: a session type and a directory.
pub struct SessionConfigModal {
    pub session_types: Vec<SessionType>,
    pub selected_session_type_index: usize,
    pub selected_directory: String,
    pub show_session_type_row: bool,
}

impl SessionConfigModal {
    /// The modal with the first session type chosen and the home directory
    /// (or the root when there is none) selected.
    pub fn new(session_types: Vec<SessionType>) -> (m: Self)
        ensures
            m.session_types@ == session_types@,
            m.selected_session_type_index == 0,
            m.show_session_type_row,
    {
        let home = home_dir();
        SessionConfigModal::with_home(session_types, home)
    }

    /// The modal with the first session type chosen and `home` (or the root
    /// when there is none) selected.
    pub fn with_home(session_types: Vec<SessionType>, home: Option<String>) -> (m: Self)
        ensures
            m.session_types@ == session_types@,
            m.selected_session_type_index == 0,
            m.show_session_type_row,
            m.selected_directory@ == match home {
                Some(h) => h@,
                None => "/"@,
            },
    {
        let selected_directory = match home {
            Some(h) => h,
            None => String::from_str("/"),
        };
        SessionConfigModal {
            session_types,
            selected_session_type_index: 0,
            selected_directory,
            show_session_type_row: true,
        }
    }

    /// Shows or hides the session type row with the session types to offer,
    /// choosing the first.
    pub fn configure(&mut self, show_oz: bool, session_types: Vec<SessionType>)
        ensures
            final(self).show_session_type_row == show_oz,
            final(self).session_types@ == session_types@,
            final(self).selected_session_type_index == 0,
            final(self).selected_directory == old(self).selected_directory,
    {
        self.show_session_type_row = show_oz;
        self.session_types = session_types;
        self.selected_session_type_index = 0;
    }

    fn selected_session_type(&self) -> (t: SessionType)
        requires
            self.selected_session_type_index < self.session_types@.len(),
        ensures
            t == self.session_types@[self.selected_session_type_index as int],
    {
        self.session_types[self.selected_session_type_index].clone()
    }

    /// The selection: the chosen session type and directory, without a worktree.
    fn submit(&self) -> (e: SessionConfigModalEvent)
        requires
            self.selected_session_type_index < self.session_types@.len(),
        ensures
            e matches SessionConfigModalEvent::Completed(sel)
                && sel.session_type == self.session_types@[self.selected_session_type_index as int]
                && sel.directory == self.selected_directory
                && !sel.enable_worktree
                && !sel.autogenerate_worktree_branch_name,
    {
        SessionConfigModalEvent::Completed(SessionConfigSelection {
            session_type: self.selected_session_type(),
            directory: self.selected_directory.clone(),
            enable_worktree: false,
            autogenerate_worktree_branch_name: false,
        })
    }

    /// Handles an action: choosing a session type or a directory updates the
    /// modal (a failed pick changes nothing), submitting completes it with the
    /// selection, dismissing dismisses it.
    pub fn handle_action(&mut self, action: &SessionConfigModalAction) -> (effect: SessionConfigModalEffect)
        requires
            *action is Submit ==> old(self).selected_session_type_index < old(self).session_types@.len(),
        ensures
            match *action {
                SessionConfigModalAction::SelectSessionType(i) => {
                    &&& *final(self) == (SessionConfigModal { selected_session_type_index: i, ..*old(self) })
                    &&& effect is Nothing
                },
                SessionConfigModalAction::OpenDirectoryPicker => effect is OpenDirectoryPicker
                    && *final(self) == *old(self),
                SessionConfigModalAction::DirectorySelected(Ok(path)) =>
                    *final(self) == (SessionConfigModal { selected_directory: path, ..*old(self) })
                    && effect is Nothing,
                SessionConfigModalAction::DirectorySelected(Err(_)) => *final(self) == *old(self)
                    && effect is Nothing,
                SessionConfigModalAction::Submit => effect matches SessionConfigModalEffect::Emit(
                    SessionConfigModalEvent::Completed(sel),
                ) && sel.session_type == old(self).session_types@[old(self).selected_session_type_index as int]
                    && sel.directory == old(self).selected_directory
                    && !sel.enable_worktree
                    && !sel.autogenerate_worktree_branch_name
                    && *final(self) == *old(self),
                SessionConfigModalAction::Dismiss => effect matches SessionConfigModalEffect::Emit(e) && e is Dismissed
                    && *final(self) == *old(self),
            },
    {
        match action {
            SessionConfigModalAction::SelectSessionType(index) => {
                self.selected_session_type_index = *index;
                SessionConfigModalEffect::Nothing
            },
            SessionConfigModalAction::OpenDirectoryPicker => SessionConfigModalEffect::OpenDirectoryPicker,
            SessionConfigModalAction::DirectorySelected(result) => {
                match result {
                    Ok(path) => {
                        self.selected_directory = path.clone();
                    },
                    Err(_) => {},
                }
                SessionConfigModalEffect::Nothing
            },
            SessionConfigModalAction::Submit => SessionConfigModalEffect::Emit(self.submit()),
            SessionConfigModalAction::Dismiss => SessionConfigModalEffect::Emit(SessionConfigModalEvent::Dismissed),
        }
    }
}

/// What the user does in the repository picker.
#[derive(Debug, Clone, PartialEq)]
pub enum RepoPickerAction {
    Select(String),
    AddNewRepo,
}

/// What the repository picker tells its observers.
pub enum RepoPickerEvent {
    Selected(String),
    RequestAddRepo,
}

/// Picks the repository a worktree config starts in.
pub struct RepoPicker {
    pub selected: Option<String>,
    pub dropdown_label: Option<String>,
    pub expanded: bool,
}

impl RepoPicker {
    /// A picker that offers and selects the default, when there is one.
    pub fn new(default_value: Option<String>) -> (p: Self)
        ensures
            p.selected == default_value,
            p.dropdown_label == default_value,
            !p.expanded,
    {
        let label = match &default_value {
            Some(d) => Some(d.clone()),
            None => None,
        };
        RepoPicker { selected: default_value, dropdown_label: label, expanded: false }
    }

    /// Offers and selects the repository at the path.
    pub fn refresh_and_select(&mut self, path: String)
        ensures
            final(self).selected == Some(path),
            final(self).dropdown_label == Some(path),
            final(self).expanded == old(self).expanded,
    {
        self.dropdown_label = Some(path.clone());
        self.selected = Some(path);
    }

    /// Opens or closes the dropdown, and says whether it is now open.
    pub fn toggle_dropdown(&mut self) -> (open: bool)
        ensures
            final(self).expanded == !old(self).expanded,
            open == final(self).expanded,
            final(self).selected == old(self).selected,
            final(self).dropdown_label == old(self).dropdown_label,
    {
        self.expanded = !self.expanded;
        self.expanded
    }

    /// The repository picked: the one selected, else the dropdown's.
    pub fn selected_value(&self) -> (v: Option<String>)
        ensures
            v == match self.selected {
                Some(s) => Some(s),
                None => self.dropdown_label,
            },
    {
        match &self.selected {
            Some(s) => Some(s.clone()),
            None => match &self.dropdown_label {
                Some(l) => Some(l.clone()),
                None => None,
            },
        }
    }

    /// Selecting a repository makes it the selection and says so; asking for
    /// a new one is passed on.
    pub fn handle_action(&mut self, action: &RepoPickerAction) -> (e: RepoPickerEvent)
        ensures
            match *action {
                RepoPickerAction::Select(v) => final(self).selected == Some(v) && e == RepoPickerEvent::Selected(v),
                RepoPickerAction::AddNewRepo => final(self).selected == old(self).selected && e is RequestAddRepo,
            },
            final(self).dropdown_label == old(self).dropdown_label,
            final(self).expanded == old(self).expanded,
    {
        match action {
            RepoPickerAction::Select(value) => {
                self.selected = Some(value.clone());
                RepoPickerEvent::Selected(value.clone())
            },
            RepoPickerAction::AddNewRepo => RepoPickerEvent::RequestAddRepo,
        }
    }
}

/// Picks the branch a worktree is made from.
pub struct BranchPicker {
    pub selected: Option<String>,
    pub dropdown_label: Option<String>,
    pub expanded: bool,
}

impl BranchPicker {
    /// A picker that offers and selects the default, when there is one.
    pub fn new(cwd: Option<String>, default_value: Option<String>) -> (p: Self)
        ensures
            p.selected == default_value,
            p.dropdown_label == default_value,
            !p.expanded,
    {
        let label = match &default_value {
            Some(d) => Some(d.clone()),
            None => None,
        };
        BranchPicker { selected: default_value, dropdown_label: label, expanded: false }
    }

    /// Fetching branches does nothing in this build.
    pub fn refetch_branches(&mut self, new_cwd: String)
        ensures
            final(self).selected == old(self).selected,
            final(self).dropdown_label == old(self).dropdown_label,
            final(self).expanded == old(self).expanded,
    {
    }

    /// Opens or closes the dropdown, and says whether it is now open.
    pub fn toggle_dropdown(&mut self) -> (open: bool)
        ensures
            final(self).expanded == !old(self).expanded,
            open == final(self).expanded,
            final(self).selected == old(self).selected,
            final(self).dropdown_label == old(self).dropdown_label,
    {
        self.expanded = !self.expanded;
        self.expanded
    }

    /// The branch picked: the dropdown's, else the one selected.
    pub fn selected_value(&self) -> (v: Option<String>)
        ensures
            v == match self.dropdown_label {
                Some(l) => Some(l),
                None => self.selected,
            },
    {
        match &self.dropdown_label {
            Some(l) => Some(l.clone()),
            None => match &self.selected {
                Some(s) => Some(s.clone()),
                None => None,
            },
        }
    }

    pub fn is_loading(&self) -> (b: bool)
        ensures
            !b,
    {
        false
    }

    /// Choosing a branch makes it the selection and passes it on.
    pub fn handle_action(&mut self, action: &String) -> (e: String)
        ensures
            final(self).selected == Some(*action),
            e == *action,
            final(self).dropdown_label == old(self).dropdown_label,
            final(self).expanded == old(self).expanded,
    {
        self.selected = Some(action.clone());
        action.clone()
    }
}

/// The modal that creates a worktree; empty in this build.
pub struct NewWorktreeModal;

/// What the new-worktree modal tells its observers.
pub enum NewWorktreeModalEvent {
    Close,
    Submit { repo: String, branch: String, worktree_branch_name: Option<String> },
    PickNewRepo,
}

/// What the user does in the new-worktree modal.
#[derive(Clone, Copy, Debug)]
pub enum NewWorktreeModalAction {
    Cancel,
    Open,
    ToggleAutogenerate,
    Escape,
}

impl NewWorktreeModal {
    pub fn new() -> (m: Self) {
        NewWorktreeModal
    }

    pub fn on_open(&mut self, cwd: Option<String>) {
    }

    pub fn on_close(&mut self) {
    }

    pub fn on_new_repo_selected(&mut self, path: String) {
    }

    /// Cancelling or escaping closes the modal; nothing else does anything.
    pub fn handle_action(&mut self, action: &NewWorktreeModalAction) -> (e: Option<NewWorktreeModalEvent>)
        ensures
            (*action is Cancel || *action is Escape) ==> (e matches Some(ev) && ev is Close),
            !(*action is Cancel || *action is Escape) ==> e is None,
    {
        match action {
            NewWorktreeModalAction::Cancel | NewWorktreeModalAction::Escape => Some(NewWorktreeModalEvent::Close),
            _ => None,
        }
    }
}

/// How an existing tab config was opened.
#[derive(Clone, Copy, Debug, PartialEq, Eq)]
pub enum ExistingTabConfigOpenMode {
    Direct,
    ParamsModal,
}

/// Where a new worktree config was opened from.
#[derive(Clone, Copy, Debug, PartialEq, Eq)]
pub enum NewWorktreeConfigOpenSource {
    Submenu,
    NewWorktreeModal,
}

/// How the worktree's branch was named.
#[derive(Clone, Copy, Debug, PartialEq, Eq)]
pub enum WorktreeBranchNamingMode {
    Auto,
    Manual,
}

/// The session type chosen in the guided modal, as telemetry records it.
#[derive(Clone, Copy, Debug, PartialEq, Eq)]
pub enum GuidedModalSessionType {
    Terminal,
    Oz,
    CliAgent,
}

impl<'a> From<&'a SessionType> for GuidedModalSessionType {
    fn from(value: &'a SessionType) -> (t: Self) {
        match value {
            SessionType::Terminal => GuidedModalSessionType::Terminal,
            SessionType::Oz => GuidedModalSessionType::Oz,
            SessionType::CliAgent(_) => GuidedModalSessionType::CliAgent,
        }
    }
}

impl<'a> vstd::std_specs::convert::FromSpecImpl<&'a SessionType> for GuidedModalSessionType {
    open spec fn obeys_from_spec() -> bool {
        true
    }

    open spec fn from_spec(v: &'a SessionType) -> GuidedModalSessionType {
        match *v {
            SessionType::Terminal => GuidedModalSessionType::Terminal,
            SessionType::Oz => GuidedModalSessionType::Oz,
            SessionType::CliAgent(_) => GuidedModalSessionType::CliAgent,
        }
    }
}

/// The events of the tab config flows.
#[derive(Debug)]
pub enum TabConfigsTelemetryEvent {
    MenuCreateNewTabConfigClicked,
    ExistingConfigOpened { open_mode: ExistingTabConfigOpenMode, is_worktree_config: bool },
    NewWorktreeConfigOpened { source: NewWorktreeConfigOpenSource, naming_mode: WorktreeBranchNamingMode },
    GuidedModalOpened,
    GuidedModalSubmitted {
        session_type: GuidedModalSessionType,
        enable_worktree: bool,
        autogenerate_worktree_branch_name: bool,
    },
}

/// The kinds of tab config events, without their data.
#[derive(Clone, Copy, Debug, PartialEq, Eq)]
pub enum TabConfigsTelemetryEventDiscriminants {
    MenuCreateNewTabConfigClicked,
    ExistingConfigOpened,
    NewWorktreeConfigOpened,
    GuidedModalOpened,
    GuidedModalSubmitted,
}

/// When an event may be sent.
#[derive(Clone, Copy, Debug, PartialEq, Eq)]
pub enum EnablementState {
    Always,
}

/// A value of a telemetry payload.
#[derive(Clone, Debug, PartialEq, Eq)]
pub enum TelemetryValue {
    Text(String),
    Bool(bool),
}

/// A value's name as the payload writes it (`snake_case`).
pub fn open_mode_name(m: ExistingTabConfigOpenMode) -> (s: &'static str)
    ensures
        s@ == match m {
            ExistingTabConfigOpenMode::Direct => "direct"@,
            ExistingTabConfigOpenMode::ParamsModal => "params_modal"@,
        },
{
    match m {
        ExistingTabConfigOpenMode::Direct => "direct",
        ExistingTabConfigOpenMode::ParamsModal => "params_modal",
    }
}

/// A value's name as the payload writes it (`snake_case`).
pub fn open_source_name(s: NewWorktreeConfigOpenSource) -> (n: &'static str)
    ensures
        n@ == match s {
            NewWorktreeConfigOpenSource::Submenu => "submenu"@,
            NewWorktreeConfigOpenSource::NewWorktreeModal => "new_worktree_modal"@,
        },
{
    match s {
        NewWorktreeConfigOpenSource::Submenu => "submenu",
        NewWorktreeConfigOpenSource::NewWorktreeModal => "new_worktree_modal",
    }
}

/// A value's name as the payload writes it (`snake_case`).
pub fn naming_mode_name(m: WorktreeBranchNamingMode) -> (n: &'static str)
    ensures
        n@ == match m {
            WorktreeBranchNamingMode::Auto => "auto"@,
            WorktreeBranchNamingMode::Manual => "manual"@,
        },
{
    match m {
        WorktreeBranchNamingMode::Auto => "auto",
        WorktreeBranchNamingMode::Manual => "manual",
    }
}

/// A value's name as the payload writes it (`snake_case`).
pub fn session_type_name(t: GuidedModalSessionType) -> (n: &'static str)
    ensures
        n@ == match t {
            GuidedModalSessionType::Terminal => "terminal"@,
            GuidedModalSessionType::Oz => "oz"@,
            GuidedModalSessionType::CliAgent => "cli_agent"@,
        },
{
    match t {
        GuidedModalSessionType::Terminal => "terminal",
        GuidedModalSessionType::Oz => "oz",
        GuidedModalSessionType::CliAgent => "cli_agent",
    }
}

fn text_value(s: &str) -> (v: TelemetryValue)
    ensures
        v matches TelemetryValue::Text(t) && t@ == s@,
{
    TelemetryValue::Text(String::from_str(s))
}

impl TabConfigsTelemetryEvent {
    /// The kind of the event.
    pub fn discriminant(&self) -> (d: TabConfigsTelemetryEventDiscriminants)
        ensures
            d == match *self {
                TabConfigsTelemetryEvent::MenuCreateNewTabConfigClicked => TabConfigsTelemetryEventDiscriminants::MenuCreateNewTabConfigClicked,
                TabConfigsTelemetryEvent::ExistingConfigOpened { .. } => TabConfigsTelemetryEventDiscriminants::ExistingConfigOpened,
                TabConfigsTelemetryEvent::NewWorktreeConfigOpened { .. } => TabConfigsTelemetryEventDiscriminants::NewWorktreeConfigOpened,
                TabConfigsTelemetryEvent::GuidedModalOpened => TabConfigsTelemetryEventDiscriminants::GuidedModalOpened,
                TabConfigsTelemetryEvent::GuidedModalSubmitted { .. } => TabConfigsTelemetryEventDiscriminants::GuidedModalSubmitted,
            },
    {
        match self {
            TabConfigsTelemetryEvent::MenuCreateNewTabConfigClicked => TabConfigsTelemetryEventDiscriminants::MenuCreateNewTabConfigClicked,
            TabConfigsTelemetryEvent::ExistingConfigOpened { .. } => TabConfigsTelemetryEventDiscriminants::ExistingConfigOpened,
            TabConfigsTelemetryEvent::NewWorktreeConfigOpened { .. } => TabConfigsTelemetryEventDiscriminants::NewWorktreeConfigOpened,
            TabConfigsTelemetryEvent::GuidedModalOpened => TabConfigsTelemetryEventDiscriminants::GuidedModalOpened,
            TabConfigsTelemetryEvent::GuidedModalSubmitted { .. } => TabConfigsTelemetryEventDiscriminants::GuidedModalSubmitted,
        }
    }

    /// The name events carry in this build, where telemetry is disabled.
    pub fn name(&self) -> (n: &'static str)
        ensures
            n@ == "TelemetryDisabled"@,
    {
        "TelemetryDisabled"
    }

    /// The event's payload: none for the events without data, else each field
    /// by name, the choices in `snake_case`.
    pub fn payload(&self) -> (p: Option<Vec<(String, TelemetryValue)>>)
        ensures
            match *self {
                TabConfigsTelemetryEvent::MenuCreateNewTabConfigClicked | TabConfigsTelemetryEvent::GuidedModalOpened => p is None,
                TabConfigsTelemetryEvent::ExistingConfigOpened { open_mode, is_worktree_config } => p matches Some(v)
                    && v@.len() == 2
                    && v@[0].0@ == "open_mode"@ && (v@[0].1 matches TelemetryValue::Text(t) && t@ == match open_mode {
                        ExistingTabConfigOpenMode::Direct => "direct"@,
                        ExistingTabConfigOpenMode::ParamsModal => "params_modal"@,
                    })
                    && v@[1].0@ == "is_worktree_config"@ && v@[1].1 == TelemetryValue::Bool(is_worktree_config),
                TabConfigsTelemetryEvent::NewWorktreeConfigOpened { source, naming_mode } => p matches Some(v)
                    && v@.len() == 2
                    && v@[0].0@ == "source"@ && (v@[0].1 matches TelemetryValue::Text(t) && t@ == match source {
                        NewWorktreeConfigOpenSource::Submenu => "submenu"@,
                        NewWorktreeConfigOpenSource::NewWorktreeModal => "new_worktree_modal"@,
                    })
                    && v@[1].0@ == "naming_mode"@ && (v@[1].1 matches TelemetryValue::Text(t) && t@ == match naming_mode {
                        WorktreeBranchNamingMode::Auto => "auto"@,
                        WorktreeBranchNamingMode::Manual => "manual"@,
                    }),
                TabConfigsTelemetryEvent::GuidedModalSubmitted { session_type, enable_worktree, autogenerate_worktree_branch_name } => p matches Some(v)
                    && v@.len() == 3
                    && v@[0].0@ == "session_type"@ && (v@[0].1 matches TelemetryValue::Text(t) && t@ == match session_type {
                        GuidedModalSessionType::Terminal => "terminal"@,
                        GuidedModalSessionType::Oz => "oz"@,
                        GuidedModalSessionType::CliAgent => "cli_agent"@,
                    })
                    && v@[1].0@ == "enable_worktree"@ && v@[1].1 == TelemetryValue::Bool(enable_worktree)
                    && v@[2].0@ == "autogenerate_worktree_branch_name"@ && v@[2].1 == TelemetryValue::Bool(autogenerate_worktree_branch_name),
            },
    {
        match self {
            TabConfigsTelemetryEvent::MenuCreateNewTabConfigClicked | TabConfigsTelemetryEvent::GuidedModalOpened => None,
            TabConfigsTelemetryEvent::ExistingConfigOpened { open_mode, is_worktree_config } => {
                let mut v: Vec<(String, TelemetryValue)> = Vec::new();
                v.push((String::from_str("open_mode"), text_value(open_mode_name(*open_mode))));
                v.push((String::from_str("is_worktree_config"), TelemetryValue::Bool(*is_worktree_config)));
                Some(v)
            },
            TabConfigsTelemetryEvent::NewWorktreeConfigOpened { source, naming_mode } => {
                let mut v: Vec<(String, TelemetryValue)> = Vec::new();
                v.push((String::from_str("source"), text_value(open_source_name(*source))));
                v.push((String::from_str("naming_mode"), text_value(naming_mode_name(*naming_mode))));
                Some(v)
            },
            TabConfigsTelemetryEvent::GuidedModalSubmitted { session_type, enable_worktree, autogenerate_worktree_branch_name } => {
                let mut v: Vec<(String, TelemetryValue)> = Vec::new();
                v.push((String::from_str("session_type"), text_value(session_type_name(*session_type))));
                v.push((String::from_str("enable_worktree"), TelemetryValue::Bool(*enable_worktree)));
                v.push((String::from_str("autogenerate_worktree_branch_name"), TelemetryValue::Bool(*autogenerate_worktree_branch_name)));
                Some(v)
            },
        }
    }

    /// The description events carry in this build: none.
    pub fn description(&self) -> (d: &'static str)
        ensures
            d@.len() == 0,
    {
        proof {
            reveal_strlit("");
        }
        ""
    }

    /// Every tab config event may always be sent.
    pub fn enablement_state(&self) -> (e: EnablementState)
        ensures
            e == EnablementState::Always,
    {
        self.discriminant().enablement_state()
    }

    /// No tab config event holds user content.
    pub fn contains_ugc(&self) -> (b: bool)
        ensures
            !b,
    {
        match self {
            TabConfigsTelemetryEvent::MenuCreateNewTabConfigClicked => false,
            TabConfigsTelemetryEvent::ExistingConfigOpened { .. } => false,
            TabConfigsTelemetryEvent::NewWorktreeConfigOpened { .. } => false,
            TabConfigsTelemetryEvent::GuidedModalOpened => false,
            TabConfigsTelemetryEvent::GuidedModalSubmitted { .. } => false,
        }
    }

    /// The kinds of events this build describes: none.
    pub fn event_descs() -> (d: Vec<TabConfigsTelemetryEventDiscriminants>)
        ensures
            d@.len() == 0,
    {
        Vec::new()
    }
}

impl TabConfigsTelemetryEventDiscriminants {
    /// The event's name where telemetry is enabled.
    pub fn name(&self) -> (n: &'static str)
        ensures
            n@ == match *self {
                TabConfigsTelemetryEventDiscriminants::MenuCreateNewTabConfigClicked => "TabConfigs.MenuCreateNewTabConfigClicked"@,
                TabConfigsTelemetryEventDiscriminants::ExistingConfigOpened => "TabConfigs.ExistingConfigOpened"@,
                TabConfigsTelemetryEventDiscriminants::NewWorktreeConfigOpened => "TabConfigs.NewWorktreeConfigOpened"@,
                TabConfigsTelemetryEventDiscriminants::GuidedModalOpened => "TabConfigs.GuidedModalOpened"@,
                TabConfigsTelemetryEventDiscriminants::GuidedModalSubmitted => "TabConfigs.GuidedModalSubmitted"@,
            },
    {
        match self {
            TabConfigsTelemetryEventDiscriminants::MenuCreateNewTabConfigClicked => "TabConfigs.MenuCreateNewTabConfigClicked",
            TabConfigsTelemetryEventDiscriminants::ExistingConfigOpened => "TabConfigs.ExistingConfigOpened",
            TabConfigsTelemetryEventDiscriminants::NewWorktreeConfigOpened => "TabConfigs.NewWorktreeConfigOpened",
            TabConfigsTelemetryEventDiscriminants::GuidedModalOpened => "TabConfigs.GuidedModalOpened",
            TabConfigsTelemetryEventDiscriminants::GuidedModalSubmitted => "TabConfigs.GuidedModalSubmitted",
        }
    }

    /// The event's description where telemetry is enabled.
    pub fn description(&self) -> (d: &'static str)
        ensures
            d@ == match *self {
                TabConfigsTelemetryEventDiscriminants::MenuCreateNewTabConfigClicked => "User clicked the New tab config entry from the tab configs menu"@,
                TabConfigsTelemetryEventDiscriminants::ExistingConfigOpened => "User opened an existing saved tab config"@,
                TabConfigsTelemetryEventDiscriminants::NewWorktreeConfigOpened => "User opened a new worktree config from the submenu or new worktree modal"@,
                TabConfigsTelemetryEventDiscriminants::GuidedModalOpened => "User opened the guided Create a tab config modal"@,
                TabConfigsTelemetryEventDiscriminants::GuidedModalSubmitted => "User submitted the guided Create a tab config modal"@,
            },
    {
        match self {
            TabConfigsTelemetryEventDiscriminants::MenuCreateNewTabConfigClicked => "User clicked the New tab config entry from the tab configs menu",
            TabConfigsTelemetryEventDiscriminants::ExistingConfigOpened => "User opened an existing saved tab config",
            TabConfigsTelemetryEventDiscriminants::NewWorktreeConfigOpened => "User opened a new worktree config from the submenu or new worktree modal",
            TabConfigsTelemetryEventDiscriminants::GuidedModalOpened => "User opened the guided Create a tab config modal",
            TabConfigsTelemetryEventDiscriminants::GuidedModalSubmitted => "User submitted the guided Create a tab config modal",
        }
    }

    /// Every kind of tab config event may always be sent.
    pub fn enablement_state(&self) -> (e: EnablementState)
        ensures
            e == EnablementState::Always,
    {
        match self {
            TabConfigsTelemetryEventDiscriminants::MenuCreateNewTabConfigClicked
            | TabConfigsTelemetryEventDiscriminants::ExistingConfigOpened
            | TabConfigsTelemetryEventDiscriminants::NewWorktreeConfigOpened
            | TabConfigsTelemetryEventDiscriminants::GuidedModalOpened
            | TabConfigsTelemetryEventDiscriminants::GuidedModalSubmitted => EnablementState::Always,
        }
    }
}

} // verus!
