//! Terminal views of this build: project and environment setup, the profile
//! and model selector, inline menus, agent toasts, coding agent sessions and
//! their plugins, and the banners and modals around credits.
use vstd::prelude::*;
use crate::ids::{AIConversationId, CLIAgent, ClientProfileId, EntityId, LLMId, LSPServerType, ServerId, SyncId, ToastFlavor, WindowId};
use crate::settings_pages::SettingsSection;

verus! {

/// A step of project setup.
#[derive(Clone, Copy, Debug, PartialEq, Eq)]
pub enum InitStepKind {
    Welcome,
    CodebaseContext,
    LanguageServers,
    ProjectScopedRules,
    CreateEnvironment,
}

impl InitStepKind {
    /// The step's position in the setup, from zero.
    pub fn step_number(&self) -> (n: u8)
        ensures
            n == match *self {
                InitStepKind::Welcome => 0u8,
                InitStepKind::CodebaseContext => 1u8,
                InitStepKind::LanguageServers => 2u8,
                InitStepKind::ProjectScopedRules => 3u8,
                InitStepKind::CreateEnvironment => 4u8,
            },
    {
        match self {
            InitStepKind::Welcome => 0,
            InitStepKind::CodebaseContext => 1,
            InitStepKind::LanguageServers => 2,
            InitStepKind::ProjectScopedRules => 3,
            InitStepKind::CreateEnvironment => 4,
        }
    }
}

pub enum CodebaseIndexingResult {
    Accepted,
    Skipped,
}

pub enum LanguageServersResult {
    Accepted { enabled_servers: Vec<LSPServerType>, servers_to_install: Vec<LSPServerType> },
    Skipped,
}

pub enum CreateEnvironmentResult {
    Created,
    Skipped,
}

pub enum ProjectScopedRulesResult {
    LinkedFromExisting(String),
    GenerateNew { button_disabled: bool },
    AlreadyExists { button_disabled: bool },
    Skipped,
}

/// What a setup step ended with.
pub enum InitActionResult {
    Welcome,
    CodebaseContext(CodebaseIndexingResult),
    ProjectScopedRules(ProjectScopedRulesResult),
    LanguageServers(LanguageServersResult),
    CreateEnvironment(CreateEnvironmentResult),
}

#[derive(Debug, Clone)]
pub enum InitProjectBlockAction {
    Noop,
}

/// What the project setup tells its observers.
#[derive(Debug, Clone, PartialEq, Eq)]
pub enum InitProjectModelEvent {
    InsertStep(InitStepKind),
    StepCompleted(InitStepKind),
    Cancelled,
    InitCompleted,
    GenerateProjectRules,
    RegenerateProjectRules,
    ViewCodebaseContextStatus,
    LanguageServerInstalledAndEnabled,
    CreateEnvironment,
    EnvironmentCreated,
}

/// The setup of a project; in this build every project counts as set up.
pub struct InitProjectModel {
    pub is_cancelled: bool,
    pub root_path: String,
    pub path_env_var: Option<String>,
}

/// A call that may change a project setup.
#[derive(Debug, Clone, Copy, PartialEq, Eq)]
pub enum InitProjectOp {
    Start,
    MarkStepCompleted,
    MarkStepRunning,
    DisableRegenerateButton,
    Cancel,
}

/// The setup after one call: cancelling sets the flag, nothing else changes it.
pub open spec fn init_project_step(m: InitProjectModel, op: InitProjectOp) -> InitProjectModel {
    match op {
        InitProjectOp::Cancel => InitProjectModel { is_cancelled: true, ..m },
        _ => m,
    }
}

/// The setup after the calls, in order.
pub open spec fn init_project_run(m: InitProjectModel, ops: Seq<InitProjectOp>) -> InitProjectModel
    decreases ops.len(),
{
    if ops.len() == 0 {
        m
    } else {
        init_project_step(init_project_run(m, ops.drop_last()), ops.last())
    }
}

impl InitProjectModel {
    pub fn new(pwd_path: String, path_env_var: Option<String>) -> (m: Self)
        ensures
            !m.is_cancelled,
            m.root_path == pwd_path,
            m.path_env_var == path_env_var,
    {
        InitProjectModel { is_cancelled: false, root_path: pwd_path, path_env_var }
    }

    /// Starting the setup completes it at once.
    pub fn start(&mut self) -> (e: InitProjectModelEvent)
        ensures
            e == InitProjectModelEvent::InitCompleted,
            *final(self) == *old(self),
            *final(self) == init_project_step(*old(self), InitProjectOp::Start),
    {
        InitProjectModelEvent::InitCompleted
    }

    pub fn should_have_available_steps(path: &str) -> (b: bool)
        ensures
            !b,
    {
        false
    }

    pub fn is_cancelled(&self) -> (b: bool)
        ensures
            b == self.is_cancelled,
    {
        self.is_cancelled
    }

    pub fn is_already_setup(&self) -> (b: bool)
        ensures
            b,
    {
        true
    }

    pub fn is_completed(&self) -> (b: bool)
        ensures
            b,
    {
        true
    }

    pub fn is_active(&self) -> (b: bool)
        ensures
            !b,
    {
        false
    }

    pub fn root_path(&self) -> (p: &str)
        ensures
            p@ == self.root_path@,
    {
        self.root_path.as_str()
    }

    pub fn path_env_var(&self) -> (v: Option<&String>)
        ensures
            match self.path_env_var {
                Some(s) => v == Some(&s),
                None => v is None,
            },
    {
        match &self.path_env_var {
            Some(s) => Some(s),
            None => None,
        }
    }

    /// A completed step completes the whole setup.
    pub fn mark_step_completed(&mut self, kind: InitStepKind, result: InitActionResult) -> (events: Vec<InitProjectModelEvent>)
        ensures
            events@ == seq![InitProjectModelEvent::StepCompleted(kind), InitProjectModelEvent::InitCompleted],
            *final(self) == *old(self),
            *final(self) == init_project_step(*old(self), InitProjectOp::MarkStepCompleted),
    {
        let mut events: Vec<InitProjectModelEvent> = Vec::new();
        events.push(InitProjectModelEvent::StepCompleted(kind));
        events.push(InitProjectModelEvent::InitCompleted);
        events
    }

    pub fn mark_step_running(&mut self, kind: InitStepKind)
        ensures
            *final(self) == *old(self),
            *final(self) == init_project_step(*old(self), InitProjectOp::MarkStepRunning),
    {
    }

    pub fn disable_regenerate_button(&mut self)
        ensures
            *final(self) == *old(self),
            *final(self) == init_project_step(*old(self), InitProjectOp::DisableRegenerateButton),
    {
    }

    /// Cancels the setup, and says so.
    pub fn cancel(&mut self) -> (e: InitProjectModelEvent)
        ensures
            *final(self) == (InitProjectModel { is_cancelled: true, ..*old(self) }),
            *final(self) == init_project_step(*old(self), InitProjectOp::Cancel),
            e == InitProjectModelEvent::Cancelled,
    {
        self.is_cancelled = true;
        InitProjectModelEvent::Cancelled
    }
}

/// The block of one setup step; empty in this build.
pub struct InitStepBlock;

impl InitStepBlock {
    pub fn new(step_kind: InitStepKind) -> (b: Self) {
        InitStepBlock
    }

    pub fn try_steal_focus(&self) {
    }
}

/// Where an environment's repositories come from.
#[derive(Debug, Clone, Copy, PartialEq, Eq)]
pub enum EnvironmentSetupMode {
    RemoteGitHub,
    LocalRepositories,
}

#[derive(Debug, Clone)]
pub enum EnvironmentSetupModeSelectorAction {
    Noop,
}

#[derive(Debug)]
pub enum EnvironmentSetupModeSelectorEvent {
    Selected(EnvironmentSetupMode),
    Dismissed,
}

/// Chooses where an environment's repositories come from; empty in this build.
pub struct EnvironmentSetupModeSelector;

impl EnvironmentSetupModeSelector {
    pub fn new() -> (s: Self) {
        EnvironmentSetupModeSelector
    }
}

#[derive(Debug, Clone)]
pub enum InitEnvironmentBlockAction {
    StartSetup,
    Skip,
}

#[derive(Debug)]
pub enum InitEnvironmentBlockEvent {
    StartSetup(Vec<String>, bool),
}

/// The block that sets up an environment; always done in this build.
pub struct InitEnvironmentBlock;

impl InitEnvironmentBlock {
    pub fn new(label: String, repos: Vec<String>, use_current_dir: bool) -> (b: Self) {
        InitEnvironmentBlock
    }

    pub fn try_steal_focus(&self) {
    }

    pub fn completed(&self) -> (b: bool)
        ensures
            b,
    {
        true
    }

    pub fn handle_ctrl_c(&mut self) {
    }

    /// Actions change nothing in this build.
    pub fn handle_action(&mut self, action: &InitEnvironmentBlockAction) -> (e: Option<InitEnvironmentBlockEvent>)
        ensures
            e is None,
    {
        None
    }
}

/// How a block is being made Warp-aware.
#[derive(Clone, Debug, PartialEq, Eq)]
pub struct WarpificationMode(pub String);

/// The toolbar that offers an agent for a running command; empty in this build.
pub struct UseAgentToolbar;

impl UseAgentToolbar {
    pub fn new(terminal_view_id: EntityId) -> (t: Self) {
        UseAgentToolbar
    }

    pub fn notify_and_notify_children(&mut self) {
    }

    pub fn set_warpify_mode(&mut self, mode: WarpificationMode) {
    }

    pub fn clear_warpify_mode(&mut self) {
    }

    pub fn warpify_mode(&self) -> (m: Option<WarpificationMode>)
        ensures
            m is None,
    {
        None
    }

    pub fn has_cli_agent(&self) -> (b: bool)
        ensures
            !b,
    {
        false
    }
}

/// Why the agent view could not be entered.
#[derive(Debug, Clone, Copy, PartialEq, Eq)]
pub enum EnterAgentViewError {
    Unavailable,
}

/// The id of the message that asks to press enter again to send.
pub const ENTER_AGAIN_TO_SEND_MESSAGE_ID: &'static str = "entry_message";

/// The decisions a terminal view takes about agents in this build.
pub struct TerminalView;

impl TerminalView {
    pub fn has_active_cli_agent_input_session(&self) -> (b: bool)
        ensures
            !b,
    {
        false
    }

    pub fn should_render_use_agent_footer(&self) -> (b: bool)
        ensures
            !b,
    {
        false
    }

    pub fn detect_cli_agent_from_model(&self) -> (d: Option<(CLIAgent, Option<String>)>)
        ensures
            d is None,
    {
        None
    }

    /// Entering the agent view does nothing in this build.
    pub fn enter_agent_view(&mut self, initial_prompt: Option<String>, conversation_id: Option<AIConversationId>) {
    }

    /// Entering the agent view does nothing in this build.
    pub fn enter_agent_view_for_new_conversation(&mut self, initial_prompt: Option<String>) {
    }

    /// Entering the agent view does nothing in this build.
    pub fn enter_agent_view_for_conversation(&mut self, initial_prompt: Option<String>, conversation_id: AIConversationId) {
    }

    /// The agent view is not available in this build.
    pub fn try_enter_agent_view(&mut self, initial_prompt: Option<String>, conversation_id: Option<AIConversationId>)
        -> (r: Result<AIConversationId, EnterAgentViewError>)
        ensures
            r == Err::<AIConversationId, EnterAgentViewError>(EnterAgentViewError::Unavailable),
    {
        Err(EnterAgentViewError::Unavailable)
    }
}

/// What the profile and model selector tells its observers.
pub enum ProfileModelSelectorEvent {
    OpenSettings(SettingsSection),
    MenuVisibilityChanged { open: bool },
    ToggleInlineModelSelector,
}

/// What the user does in the profile and model selector.
#[derive(Debug, Clone, PartialEq, Eq)]
pub enum ProfileModelSelectorAction {
    SelectProfile(ClientProfileId),
    SelectModel(LLMId),
    SelectAutoModel,
    SelectReasoningModel(String),
    ManageProfiles,
    ToggleProfileMenu,
    ToggleModelMenu,
}

impl ProfileModelSelectorAction {
    /// The model the action selects, if it selects one.
    pub fn selected_model_id(&self) -> (m: Option<LLMId>)
        ensures
            m == match *self {
                ProfileModelSelectorAction::SelectModel(id) => Some(id),
                _ => None,
            },
    {
        match self {
            ProfileModelSelectorAction::SelectModel(id) => Some(id.clone()),
            _ => None,
        }
    }
}

/// Which menus (profile, model) are open after an action: a toggle flips its
/// menu, managing profiles leaves both, any selection closes both.
pub open spec fn menus_after(profile_open: bool, model_open: bool, action: ProfileModelSelectorAction) -> (bool, bool) {
    match action {
        ProfileModelSelectorAction::ToggleProfileMenu => (!profile_open, model_open),
        ProfileModelSelectorAction::ToggleModelMenu => (profile_open, !model_open),
        ProfileModelSelectorAction::ManageProfiles => (profile_open, model_open),
        _ => (false, false),
    }
}

/// The text `format!("{:?}", s)` gives for a string slice: the text quoted,
/// with std's `Debug` escapes.
pub uninterp spec fn str_debug_text(s: Seq<char>) -> Seq<char>;

/// `<str as Debug>::fmt` through `format!("{:?}", s)`. Claimed: the text is
/// `str_debug_text(s)`; which characters are escaped, and how, the name leaves
/// to std.
#[verifier::external_body]
fn str_debug(s: &str) -> (d: String)
    ensures
        d@ == str_debug_text(s@),
{
    format!("{:?}", s)
}

/// The text `{:?}` gives for a model id: the derived `Debug` of a tuple struct,
/// its name and its field's `Debug` text in parentheses.
pub open spec fn llm_id_debug_text(id: Seq<char>) -> Seq<char> {
    "LLMId("@ + str_debug_text(id) + ")"@
}

/// `format!("{:?}", id)` on a model id.
fn llm_id_debug(id: &LLMId) -> (s: String)
    ensures
        s@ == llm_id_debug_text(id.0@),
{
    let mut s = String::from_str("LLMId(");
    let inner = str_debug(id.0.as_str());
    s.append(inner.as_str());
    s.append(")");
    proof {
        reveal_strlit("LLMId(");
        reveal_strlit(")");
    }
    s
}

/// The position id of a model's menu item, given the model id's debug text.
pub fn model_item_position_id(debug_text: &str) -> (s: String)
    ensures
        s@ == "profile_model_selector_model_item_"@ + debug_text@,
{
    let mut s = String::from_str("profile_model_selector_model_item_");
    s.append(debug_text);
    s
}

/// Whether each menu of the selector is open, and whether each event was said.
pub struct ProfileModelSelector {
    pub is_profile_menu_open: bool,
    pub is_model_menu_open: bool,
    pub terminal_view_id: EntityId,
}

impl ProfileModelSelector {
    /// Both menus closed.
    pub fn new(terminal_view_id: EntityId) -> (s: Self)
        ensures
            !s.is_profile_menu_open,
            !s.is_model_menu_open,
            s.terminal_view_id == terminal_view_id,
    {
        ProfileModelSelector { is_profile_menu_open: false, is_model_menu_open: false, terminal_view_id }
    }

    /// Whether either menu is open.
    pub fn is_open(&self) -> (b: bool)
        ensures
            b == (self.is_profile_menu_open || self.is_model_menu_open),
    {
        self.is_profile_menu_open || self.is_model_menu_open
    }

    /// Opens or closes the profile menu; when that changes it, says whether
    /// any menu is now open.
    pub fn set_profile_menu_visibility(&mut self, is_open: bool) -> (e: Option<ProfileModelSelectorEvent>)
        ensures
            final(self).is_profile_menu_open == is_open,
            final(self).is_model_menu_open == old(self).is_model_menu_open,
            final(self).terminal_view_id == old(self).terminal_view_id,
            old(self).is_profile_menu_open != is_open ==> (e matches Some(ProfileModelSelectorEvent::MenuVisibilityChanged { open })
                && open == (is_open || old(self).is_model_menu_open)),
            old(self).is_profile_menu_open == is_open ==> e is None,
    {
        if self.is_profile_menu_open != is_open {
            self.is_profile_menu_open = is_open;
            Some(ProfileModelSelectorEvent::MenuVisibilityChanged { open: self.is_open() })
        } else {
            None
        }
    }

    /// Opens or closes the model menu; when that changes it, says whether any
    /// menu is now open.
    pub fn set_model_menu_visibility(&mut self, is_open: bool) -> (e: Option<ProfileModelSelectorEvent>)
        ensures
            final(self).is_model_menu_open == is_open,
            final(self).is_profile_menu_open == old(self).is_profile_menu_open,
            final(self).terminal_view_id == old(self).terminal_view_id,
            old(self).is_model_menu_open != is_open ==> (e matches Some(ProfileModelSelectorEvent::MenuVisibilityChanged { open })
                && open == (is_open || old(self).is_profile_menu_open)),
            old(self).is_model_menu_open == is_open ==> e is None,
    {
        if self.is_model_menu_open != is_open {
            self.is_model_menu_open = is_open;
            Some(ProfileModelSelectorEvent::MenuVisibilityChanged { open: self.is_open() })
        } else {
            None
        }
    }

    /// The position id of a model's menu item.
    pub fn model_menu_item_position_id(&self, llm_id: &LLMId) -> (s: String)
        ensures
            s@ == "profile_model_selector_model_item_"@ + llm_id_debug_text(llm_id.0@),
    {
        let text = llm_id_debug(llm_id);
        model_item_position_id(text.as_str())
    }

    pub fn set_blurred(&mut self, is_blurred: bool)
        ensures
            *final(self) == *old(self),
    {
    }

    pub fn set_render_compact(&mut self, render_compact: bool)
        ensures
            *final(self) == *old(self),
    {
    }

    /// Toggling a menu flips it (saying so); managing profiles opens the
    /// profile settings; selecting anything closes both menus (saying so for
    /// each menu that was open).
    pub fn handle_action(&mut self, action: &ProfileModelSelectorAction) -> (events: Vec<ProfileModelSelectorEvent>)
        ensures
            final(self).terminal_view_id == old(self).terminal_view_id,
            (final(self).is_profile_menu_open, final(self).is_model_menu_open)
                == menus_after(old(self).is_profile_menu_open, old(self).is_model_menu_open, *action),
            match *action {
                ProfileModelSelectorAction::ToggleProfileMenu => {
                    &&& final(self).is_profile_menu_open == !old(self).is_profile_menu_open
                    &&& final(self).is_model_menu_open == old(self).is_model_menu_open
                    &&& events@.len() == 1
                    &&& events@[0] matches ProfileModelSelectorEvent::MenuVisibilityChanged { open }
                        && open == (final(self).is_profile_menu_open || final(self).is_model_menu_open)
                },
                ProfileModelSelectorAction::ToggleModelMenu => {
                    &&& final(self).is_model_menu_open == !old(self).is_model_menu_open
                    &&& final(self).is_profile_menu_open == old(self).is_profile_menu_open
                    &&& events@.len() == 1
                    &&& events@[0] matches ProfileModelSelectorEvent::MenuVisibilityChanged { open }
                        && open == (final(self).is_profile_menu_open || final(self).is_model_menu_open)
                },
                ProfileModelSelectorAction::ManageProfiles => {
                    &&& *final(self) == *old(self)
                    &&& events@.len() == 1
                    &&& events@[0] matches ProfileModelSelectorEvent::OpenSettings(s) && s == SettingsSection::AgentProfiles
                },
                _ => {
                    &&& !final(self).is_profile_menu_open
                    &&& !final(self).is_model_menu_open
                    &&& events@.len() == (if old(self).is_profile_menu_open { 1int } else { 0 })
                        + (if old(self).is_model_menu_open { 1int } else { 0 })
                    &&& forall|i: int| 0 <= i < events@.len() ==> (#[trigger] events@[i] matches ProfileModelSelectorEvent::MenuVisibilityChanged { open }
                        && open == (i == 0 && old(self).is_profile_menu_open && old(self).is_model_menu_open))
                },
            },
    {
        let mut events: Vec<ProfileModelSelectorEvent> = Vec::new();
        match action {
            ProfileModelSelectorAction::ToggleProfileMenu => {
                let open = !self.is_profile_menu_open;
                match self.set_profile_menu_visibility(open) {
                    Some(e) => events.push(e),
                    None => {},
                }
            },
            ProfileModelSelectorAction::ToggleModelMenu => {
                let open = !self.is_model_menu_open;
                match self.set_model_menu_visibility(open) {
                    Some(e) => events.push(e),
                    None => {},
                }
            },
            ProfileModelSelectorAction::ManageProfiles => {
                events.push(ProfileModelSelectorEvent::OpenSettings(SettingsSection::AgentProfiles));
            },
            _ => {
                match self.set_profile_menu_visibility(false) {
                    Some(e) => events.push(e),
                    None => {},
                }
                match self.set_model_menu_visibility(false) {
                    Some(e) => events.push(e),
                    None => {},
                }
            },
        }
        events
    }
}

/// What a pane tells the pane group.
#[derive(Debug, Clone, Copy, PartialEq, Eq)]
pub enum PaneEvent {
    Close,
}

/// A handle to a pane's focus.
#[derive(Debug, Clone, Copy, PartialEq, Eq)]
pub struct PaneFocusHandle(pub u64);

/// The title of the network log pane.
pub const NETWORK_LOG_HEADER_TEXT: &'static str = "Network log";

#[derive(Debug, Clone, PartialEq, Eq)]
pub enum NetworkLogViewEvent {
    Pane(PaneEvent),
}

/// The network log pane; it logs nothing in this build.
pub struct NetworkLogView {
    pub focus_handle: Option<PaneFocusHandle>,
}

impl NetworkLogView {
    pub fn new() -> (v: Self)
        ensures
            v.focus_handle is None,
    {
        NetworkLogView { focus_handle: None }
    }

    pub fn focus(&mut self)
        ensures
            final(self).focus_handle == old(self).focus_handle,
    {
    }

    pub fn reload_snapshot(&self) {
    }

    pub fn set_focus_handle(&mut self, focus_handle: PaneFocusHandle)
        ensures
            final(self).focus_handle == Some(focus_handle),
    {
        self.focus_handle = Some(focus_handle);
    }

    /// Closing the view closes its pane.
    pub fn close(&mut self) -> (e: NetworkLogViewEvent)
        ensures
            e == NetworkLogViewEvent::Pane(PaneEvent::Close),
            final(self).focus_handle == old(self).focus_handle,
    {
        NetworkLogViewEvent::Pane(PaneEvent::Close)
    }

    /// The pane header's title.
    pub fn header_title(&self) -> (t: String)
        ensures
            t@ == NETWORK_LOG_HEADER_TEXT@,
    {
        String::from_str(NETWORK_LOG_HEADER_TEXT)
    }
}

/// A toast's identifier as `uuid::Uuid` gives it.
#[verifier::external_type_specification]
#[verifier::external_body]
pub struct ExUuid(uuid::Uuid);

/// An icon shown on a toast.
#[derive(Clone, Debug, PartialEq, Eq)]
pub struct Icon(pub String);

/// A toast about an agent, and where it leads to.
#[derive(Clone)]
pub struct AgentToast {
    pub window_id: WindowId,
    pub tab_index: usize,
    pub terminal_view_id: EntityId,
}

impl AgentToast {
    pub fn new(task_name: String, icon: Icon, window_id: WindowId, tab_index: usize, terminal_view_id: EntityId) -> (t: Self)
        ensures
            t.window_id == window_id,
            t.tab_index == tab_index,
            t.terminal_view_id == terminal_view_id,
    {
        AgentToast { window_id, tab_index, terminal_view_id }
    }
}

#[derive(Debug)]
pub enum AgentToastAction {
    ClickDismissButton(uuid::Uuid),
    CancelDismissalTimeout(uuid::Uuid),
    StartDismissalTimeout(uuid::Uuid),
    ClickToastBody(uuid::Uuid),
}

/// The toasts of agents; this build shows none and remembers only where the
/// latest one leads.
pub struct AgentToastStack {
    pub latest_toast_navigation_data: Option<(WindowId, usize, EntityId)>,
}

impl AgentToastStack {
    pub fn new(timeout_millis: u64) -> (s: Self)
        ensures
            s.latest_toast_navigation_data is None,
    {
        AgentToastStack { latest_toast_navigation_data: None }
    }

    /// Remembers where the toast leads.
    pub fn add_toast(&mut self, toast: AgentToast)
        ensures
            final(self).latest_toast_navigation_data == Some((toast.window_id, toast.tab_index, toast.terminal_view_id)),
    {
        self.latest_toast_navigation_data = Some((toast.window_id, toast.tab_index, toast.terminal_view_id));
    }

    pub fn dismiss_toast_by_uuid(&mut self, uuid: &uuid::Uuid)
        ensures
            final(self).latest_toast_navigation_data == old(self).latest_toast_navigation_data,
    {
    }

    pub fn cancel_dismissal_timeout(&mut self, uuid: &uuid::Uuid)
        ensures
            final(self).latest_toast_navigation_data == old(self).latest_toast_navigation_data,
    {
    }

    pub fn start_dismissal_timeout(&mut self, uuid: uuid::Uuid)
        ensures
            final(self).latest_toast_navigation_data == old(self).latest_toast_navigation_data,
    {
    }

    pub fn latest_toast_uuid(&self) -> (u: Option<uuid::Uuid>)
        ensures
            u is None,
    {
        None
    }

    pub fn get_latest_toast_navigation_data(&self) -> (d: Option<(WindowId, usize, EntityId)>)
        ensures
            d == self.latest_toast_navigation_data,
    {
        self.latest_toast_navigation_data
    }

    pub fn handle_action(&mut self, action: &AgentToastAction)
        ensures
            final(self).latest_toast_navigation_data == old(self).latest_toast_navigation_data,
    {
    }
}

/// The tab of the inline model selector.
#[derive(Debug, Clone, Copy, PartialEq, Eq)]
pub enum InlineModelSelectorTab {
    BaseAgent,
    FullTerminalUse,
}

#[derive(Debug, Clone)]
pub enum InlineModelSelectorEvent {
    SelectedModel { id: LLMId, selected_tab: InlineModelSelectorTab, set_as_default: bool },
    Dismissed,
}

/// The inline model selector; it lists no model in this build.
pub struct InlineModelSelectorView {
    pub active_tab: InlineModelSelectorTab,
    pub filter_results_by_input: bool,
    pub terminal_view_id: EntityId,
}

impl InlineModelSelectorView {
    /// The base agent tab, filtering by the input.
    pub fn new(terminal_view_id: EntityId) -> (v: Self)
        ensures
            v.active_tab == InlineModelSelectorTab::BaseAgent,
            v.filter_results_by_input,
            v.terminal_view_id == terminal_view_id,
    {
        InlineModelSelectorView { active_tab: InlineModelSelectorTab::BaseAgent, filter_results_by_input: true, terminal_view_id }
    }

    pub fn set_filter_results_by_input(&mut self, value: bool)
        ensures
            final(self).filter_results_by_input == value,
            final(self).active_tab == old(self).active_tab,
    {
        self.filter_results_by_input = value;
    }

    pub fn filter_results_by_input(&self) -> (b: bool)
        ensures
            b == self.filter_results_by_input,
    {
        self.filter_results_by_input
    }

    pub fn set_active_tab(&mut self, tab: InlineModelSelectorTab)
        ensures
            final(self).active_tab == tab,
            final(self).filter_results_by_input == old(self).filter_results_by_input,
    {
        self.active_tab = tab;
    }

    pub fn select_up(&mut self) {
    }

    pub fn select_down(&mut self) {
    }

    /// There is no other tab to move to.
    pub fn select_next_tab(&mut self) -> (moved: bool)
        ensures
            !moved,
            final(self).active_tab == old(self).active_tab,
    {
        false
    }

    /// With nothing to accept, the selector is dismissed.
    pub fn accept_selected_item(&mut self, set_as_default: bool) -> (e: InlineModelSelectorEvent)
        ensures
            e is Dismissed,
    {
        InlineModelSelectorEvent::Dismissed
    }
}

#[derive(Debug, Clone)]
pub enum InlineProfileSelectorEvent {
    SelectedProfile { profile_id: ClientProfileId },
    ManageProfiles,
    Dismissed,
}

/// The inline profile selector; it lists no profile in this build.
pub struct InlineProfileSelectorView {
    pub terminal_view_id: EntityId,
}

impl InlineProfileSelectorView {
    pub fn new(terminal_view_id: EntityId) -> (v: Self)
        ensures
            v.terminal_view_id == terminal_view_id,
    {
        InlineProfileSelectorView { terminal_view_id }
    }

    pub fn select_up(&mut self) {
    }

    pub fn select_down(&mut self) {
    }

    /// With nothing to accept, the selector is dismissed.
    pub fn accept_selected_item(&mut self) -> (e: InlineProfileSelectorEvent)
        ensures
            e is Dismissed,
    {
        InlineProfileSelectorEvent::Dismissed
    }
}

#[derive(Debug, Clone)]
pub enum InlineConversationMenuEvent {
    Dismissed,
}

/// The inline conversation menu; it lists nothing in this build.
pub struct InlineConversationMenuView;

impl InlineConversationMenuView {
    pub fn new() -> (v: Self) {
        InlineConversationMenuView
    }

    pub fn select_next_tab(&self) -> (moved: bool)
        ensures
            !moved,
    {
        false
    }

    pub fn select_up(&self) {
    }

    pub fn select_down(&self) {
    }

    pub fn accept_selected_item(&self) {
    }
}

/// A result of a query, with the action it leads to.
#[derive(Clone, Debug)]
pub struct QueryResult<A> {
    pub action: A,
}

/// Accepting a model in the inline model menu.
#[derive(Clone, Debug)]
pub struct AcceptModel {
    pub id: LLMId,
}

/// The models offered in the inline model menu: none in this build.
pub struct ModelSelectorDataSource {
    pub terminal_view_id: EntityId,
}

impl ModelSelectorDataSource {
    pub fn new(terminal_view_id: EntityId) -> (d: Self)
        ensures
            d.terminal_view_id == terminal_view_id,
    {
        ModelSelectorDataSource { terminal_view_id }
    }

    pub fn run_query(&self, query: &str) -> (r: Result<Vec<QueryResult<AcceptModel>>, String>)
        ensures
            r matches Ok(v) && v@.len() == 0,
    {
        Ok(Vec::new())
    }
}

/// An item of the inline profile menu.
#[derive(Clone, Debug)]
pub enum SelectProfileMenuItem {
    Profile { profile_id: ClientProfileId },
    ManageProfiles,
}

/// The profiles offered in the inline profile menu: none in this build.
pub struct ProfileSelectorDataSource {
    pub terminal_view_id: EntityId,
}

impl ProfileSelectorDataSource {
    pub fn new(terminal_view_id: EntityId) -> (d: Self)
        ensures
            d.terminal_view_id == terminal_view_id,
    {
        ProfileSelectorDataSource { terminal_view_id }
    }

    pub fn run_query(&self, query: &str) -> (r: Result<Vec<QueryResult<SelectProfileMenuItem>>, String>)
        ensures
            r matches Ok(v) && v@.len() == 0,
    {
        Ok(Vec::new())
    }
}

/// An item of the command palette that opens a conversation.
#[derive(Clone, Debug)]
pub struct CommandPaletteItemAction {
    pub conversation_id: AIConversationId,
}

/// The conversations the command palette offers: none in this build.
#[derive(Default)]
pub struct DataSource;

impl DataSource {
    pub fn new() -> (d: Self) {
        DataSource
    }

    pub fn historical() -> (d: Self) {
        DataSource
    }

    pub fn query_result(conversation_id: &AIConversationId) -> (r: Option<QueryResult<CommandPaletteItemAction>>)
        ensures
            r is None,
    {
        None
    }

    pub fn top_n(&self, limit: usize) -> (r: Vec<QueryResult<CommandPaletteItemAction>>)
        ensures
            r@.len() == 0,
    {
        Vec::new()
    }

    pub fn run_query(&self, query: &str) -> (r: Result<Vec<QueryResult<CommandPaletteItemAction>>, String>)
        ensures
            r matches Ok(v) && v@.len() == 0,
    {
        Ok(Vec::new())
    }
}

/// What picking an item of the embedding search does.
#[derive(Clone, Debug)]
pub enum EmbeddingSearchItemAction {
    AcceptWorkflow(SyncId),
}

/// The scheme and host of the notifications coding agents send.
pub const CLI_AGENT_NOTIFICATION_SENTINEL: &'static str = "warp://cli-agent";

/// The kind of an event a coding agent reports.
#[derive(Debug, Clone, PartialEq, Eq)]
pub enum CLIAgentEventType {
    SessionStart,
    PromptSubmit,
    ToolComplete,
    Stop,
    PermissionRequest,
    PermissionReplied,
    QuestionAsked,
    IdlePrompt,
    Unknown(String),
}

/// What an event of a coding agent carries.
#[derive(Debug, Clone, Default)]
pub struct CLIAgentEventPayload {
    pub query: Option<String>,
    pub response: Option<String>,
    pub transcript_path: Option<String>,
    pub summary: Option<String>,
    pub tool_name: Option<String>,
    pub tool_input_preview: Option<String>,
    pub plugin_version: Option<String>,
}

/// An event a coding agent reported.
#[derive(Debug, Clone)]
pub struct CLIAgentEvent {
    pub v: u32,
    pub agent: CLIAgent,
    pub event: CLIAgentEventType,
    pub session_id: Option<String>,
    pub cwd: Option<String>,
    pub project: Option<String>,
    pub payload: CLIAgentEventPayload,
}

/// The version of the coding agent event protocol this build speaks.
pub fn current_protocol_version() -> (v: u32)
    ensures
        v == 0,
{
    0
}

/// Reading an event out of a notification: this build reads none.
pub fn parse_event(title: Option<&str>, body: &str) -> (e: Option<CLIAgentEvent>)
    ensures
        e is None,
{
    None
}

/// Whether the agent reports a rich status: none does in this build.
pub fn agent_supports_rich_status(agent: &CLIAgent) -> (b: bool)
    ensures
        !b,
{
    false
}

/// Whether sessions of the agent are followed: none are in this build.
pub fn is_agent_supported(agent: &CLIAgent) -> (b: bool)
    ensures
        !b,
{
    false
}

/// Follows the events of a coding agent session; it follows nothing in this build.
pub struct CLIAgentSessionListener;

impl CLIAgentSessionListener {
    pub fn new(terminal_view_id: EntityId, agent: CLIAgent) -> (l: Self) {
        CLIAgentSessionListener
    }
}

/// Whether a plugin modal installs or updates.
#[derive(Debug, Clone, Copy, PartialEq, Eq)]
pub enum PluginModalKind {
    Install,
    Update,
}

/// One step of installing a plugin by hand.
pub struct PluginInstructionStep {
    pub description: &'static str,
    pub command: &'static str,
    pub executable: bool,
    pub link: Option<&'static str>,
}

/// How to install or update a plugin by hand.
pub struct PluginInstructions {
    pub title: &'static str,
    pub subtitle: &'static str,
    pub steps: &'static [PluginInstructionStep],
    pub post_install_notes: &'static [&'static str],
}

/// Why a plugin could not be installed: the message to show and the log.
pub struct PluginInstallError {
    pub message: String,
    pub log: String,
}

/// A system error as text.
pub struct IoErrorText(pub String);

impl PluginInstallError {
    /// An error from a system error: its text is both the message and the log.
    pub fn from_io_error(err: IoErrorText) -> (e: Self)
        ensures
            e.message == err.0,
            e.log == err.0,
    {
        let msg = err.0;
        PluginInstallError { message: msg.clone(), log: msg }
    }

    /// The text shown for the error: its message.
    pub fn to_display_string(&self) -> (s: String)
        ensures
            s == self.message,
    {
        self.message.clone()
    }
}

/// Installs and updates the plugin a coding agent needs.
pub trait CliAgentPluginManager {
    fn minimum_plugin_version(&self) -> &'static str;

    fn can_auto_install(&self) -> bool;

    fn is_installed(&self) -> bool;

    fn needs_update(&self) -> bool;

    fn install(&self) -> Result<(), PluginInstallError>;

    fn update(&self) -> Result<(), PluginInstallError>;

    fn install_success_message(&self) -> &'static str;

    fn update_success_message(&self) -> &'static str;

    fn supports_update(&self) -> bool;

    fn install_platform_plugin(&self) -> Result<(), PluginInstallError>;
}

/// The plugin manager of an agent: none in this build.
pub fn plugin_manager_for(agent: CLIAgent) -> (m: Option<Box<dyn CliAgentPluginManager>>)
    ensures
        m is None,
{
    None
}

/// The plugin manager of an agent for a shell: none in this build.
pub fn plugin_manager_for_with_shell(
    agent: CLIAgent,
    shell_path: Option<String>,
    shell_type: Option<String>,
    path_env_var: Option<String>,
) -> (m: Option<Box<dyn CliAgentPluginManager>>)
    ensures
        m is None,
{
    None
}

#[derive(Clone, Debug)]
pub enum PluginInstructionsBlockAction {
    Close,
    CopyCommand(usize),
}

pub enum PluginInstructionsBlockEvent {
    Close,
}

/// The block that shows how to install a plugin; empty in this build.
pub struct PluginInstructionsBlock;

impl PluginInstructionsBlock {
    pub fn new(agent: CLIAgent, custom_command_prefix: Option<String>, is_remote_session: bool) -> (b: Self) {
        PluginInstructionsBlock
    }

    /// Closing the block says so; copying a command does nothing in this build.
    pub fn handle_action(&mut self, action: &PluginInstructionsBlockAction) -> (e: Option<PluginInstructionsBlockEvent>)
        ensures
            *action is Close ==> (e matches Some(ev) && ev is Close),
            *action is CopyCommand ==> e is None,
    {
        match action {
            PluginInstructionsBlockAction::Close => Some(PluginInstructionsBlockEvent::Close),
            PluginInstructionsBlockAction::CopyCommand(_) => None,
        }
    }
}

/// The banner that sells credits; empty in this build.
pub struct BuyCreditsBanner;

#[derive(Clone, Debug)]
pub enum BuyCreditsBannerEvent {
    OpenBillingAndUsage,
    RefocusInput,
    OpenAutoReloadModal { purchased_credits: i32 },
    ShowAutoReloadError { error_message: &'static str },
}

/// What the user does in the credits banner.
#[derive(Clone, Debug)]
pub enum Action {
    SelectDenomination(usize),
    Close,
    PurchaseAddonCredits { team_uid: ServerId },
    ManageBilling,
    ToggleAutoReload,
}

impl BuyCreditsBanner {
    pub fn new() -> (b: Self) {
        BuyCreditsBanner
    }

    pub fn is_denomination_dropdown_open(&self) -> (b: bool)
        ensures
            !b,
    {
        false
    }

    pub fn handle_action(&mut self, action: &Action) -> (e: Option<BuyCreditsBannerEvent>)
        ensures
            e is None,
    {
        None
    }
}

/// The modal that turns on the automatic reload of credits; empty in this build.
pub struct EnableAutoReloadModal;

#[derive(Clone, Debug)]
pub enum EnableAutoReloadModalEvent {
    Close,
    ShowToast { message: String, flavor: ToastFlavor },
}

impl EnableAutoReloadModal {
    pub fn new() -> (m: Self) {
        EnableAutoReloadModal
    }

    pub fn set_selected_denomination_by_credits(&mut self, credits: i32) {
    }
}

/// The id of an inline banner.
#[derive(Clone, Copy, Debug, PartialEq, Eq)]
pub struct InlineBannerId(pub u64);

#[derive(Clone, Copy, Debug)]
pub enum AnonymousUserLoginBannerAction {
    SignUp,
    Close,
}

/// The banner that asks an anonymous user to sign up for AI.
pub struct AnonymousUserAISignUpBannerState {
    pub id: InlineBannerId,
}

impl AnonymousUserAISignUpBannerState {
    pub fn new(id: InlineBannerId) -> (s: Self)
        ensures
            s.id == id,
    {
        AnonymousUserAISignUpBannerState { id }
    }
}

/// Toggling the same menu twice leaves both menus as they were, and a second
/// selection after a selection changes nothing.
pub proof fn law_toggle_twice_restores_menus(profile_open: bool, model_open: bool, action: ProfileModelSelectorAction)
    ensures
        (action is ToggleProfileMenu || action is ToggleModelMenu) ==> {
            let once = menus_after(profile_open, model_open, action);
            menus_after(once.0, once.1, action) == (profile_open, model_open)
        },
        (action is SelectProfile || action is SelectModel || action is SelectAutoModel || action is SelectReasoningModel) ==> {
            let once = menus_after(profile_open, model_open, action);
            &&& once == (false, false)
            &&& menus_after(once.0, once.1, action) == once
        },
{
}

/// Whatever calls follow, a project setup is cancelled exactly when it was
/// cancelled before or one of the calls cancels it, and its root path and
/// PATH value never change.
pub proof fn law_cancelled_exactly_when_cancel_called(m: InitProjectModel, ops: Seq<InitProjectOp>)
    ensures
        init_project_run(m, ops).is_cancelled
            == (m.is_cancelled || exists|i: int| 0 <= i < ops.len() && #[trigger] ops[i] == InitProjectOp::Cancel),
        init_project_run(m, ops).root_path == m.root_path,
        init_project_run(m, ops).path_env_var == m.path_env_var,
    decreases ops.len(),
{
    if ops.len() > 0 {
        let prefix = ops.drop_last();
        law_cancelled_exactly_when_cancel_called(m, prefix);
        if exists|i: int| 0 <= i < prefix.len() && #[trigger] prefix[i] == InitProjectOp::Cancel {
            let i = choose|i: int| 0 <= i < prefix.len() && #[trigger] prefix[i] == InitProjectOp::Cancel;
            assert(ops[i] == InitProjectOp::Cancel);
        }
        if ops.last() == InitProjectOp::Cancel {
            assert(ops[ops.len() - 1] == InitProjectOp::Cancel);
        }
        if exists|i: int| 0 <= i < ops.len() && #[trigger] ops[i] == InitProjectOp::Cancel {
            let i = choose|i: int| 0 <= i < ops.len() && #[trigger] ops[i] == InitProjectOp::Cancel;
            if i < ops.len() - 1 {
                assert(prefix[i] == InitProjectOp::Cancel);
            }
        }
    }
}

} // verus!
