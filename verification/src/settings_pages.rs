//! Settings pages of this build: sections and subpages, page views, the teams
//! page's actions and the environment form.
use vstd::prelude::*;
use crate::ids::{ClientProfileId, MembershipRole, ServerId, SyncId, ToastFlavor, UserUid};
use crate::text::{lemma_filter_push, trim, trim_seq};

verus! {

/// A section of the settings view.
#[derive(Clone, Copy, PartialEq, Eq, Debug)]
pub enum SettingsSection {
    AI,
    WarpAgent,
    AgentProfiles,
    Knowledge,
    ThirdPartyCLIAgents,
    Code,
    CodeIndexing,
    EditorAndCodeReview,
    BillingAndUsage,
    CloudEnvironments,
    MCPServers,
    OzCloudAPIKeys,
    Teams,
}

/// How many of a page's widgets matched a search filter.
#[derive(Clone, Copy, PartialEq, Eq, Debug)]
pub enum MatchData {
    Uncounted(bool),
    Counted(usize),
}

/// A subpage of the AI settings page.
#[derive(Clone, Copy, PartialEq, Eq)]
pub enum AISubpage {
    WarpAgent,
    Profiles,
    Knowledge,
    ThirdPartyCLIAgents,
}

impl AISubpage {
    /// The AI subpage a settings section opens, if it is one.
    pub fn from_section(section: SettingsSection) -> (r: Option<Self>)
        ensures
            r == match section {
                SettingsSection::WarpAgent => Some(AISubpage::WarpAgent),
                SettingsSection::AgentProfiles => Some(AISubpage::Profiles),
                SettingsSection::Knowledge => Some(AISubpage::Knowledge),
                SettingsSection::ThirdPartyCLIAgents => Some(AISubpage::ThirdPartyCLIAgents),
                _ => None,
            },
    {
        match section {
            SettingsSection::WarpAgent => Some(Self::WarpAgent),
            SettingsSection::AgentProfiles => Some(Self::Profiles),
            SettingsSection::Knowledge => Some(Self::Knowledge),
            SettingsSection::ThirdPartyCLIAgents => Some(Self::ThirdPartyCLIAgents),
            _ => None,
        }
    }
}

/// The widget id of the CLI agent settings; empty in this build.
pub fn cli_agent_settings_widget_id() -> (s: &'static str)
    ensures
        s@ == Seq::<char>::empty(),
{
    proof { reveal_strlit(""); }
    ""
}

/// Actions of the AI settings page.
#[derive(Clone)]
pub enum AISettingsPageAction {
    Noop,
}

/// Events of the AI settings page.
#[derive(Clone, PartialEq, Eq)]
pub enum AISettingsPageEvent {
    FocusModal,
    OpenAIFactCollection,
    OpenMCPServerCollection,
    OpenExecutionProfileEditor(ClientProfileId),
    SignupAnonymousUser,
}

/// The AI settings page; empty in this build.
pub struct AISettingsPageView;

impl AISettingsPageView {
    pub fn new() -> (v: Self) {
        AISettingsPageView
    }

    /// Switching subpages does nothing in this build.
    pub fn set_active_subpage(&mut self, subpage: Option<AISubpage>) {
    }

    pub fn section() -> (s: SettingsSection)
        ensures
            s == SettingsSection::AI,
    {
        SettingsSection::AI
    }

    pub fn should_render(&self) -> (b: bool)
        ensures
            !b,
    {
        false
    }

    pub fn update_filter(&mut self, query: &str) -> (m: MatchData)
        ensures
            m == MatchData::Uncounted(false),
    {
        MatchData::Uncounted(false)
    }
}

/// The billing and usage page; empty in this build.
pub struct BillingAndUsagePageView;

impl BillingAndUsagePageView {
    pub fn new() -> (v: Self) {
        BillingAndUsagePageView
    }

    pub fn section() -> (s: SettingsSection)
        ensures
            s == SettingsSection::BillingAndUsage,
    {
        SettingsSection::BillingAndUsage
    }

    pub fn should_render(&self) -> (b: bool)
        ensures
            !b,
    {
        false
    }
}

/// Events of the billing and usage page.
#[derive(Debug, Clone)]
pub enum BillingAndUsagePageEvent {
    SignupAnonymousUser,
    ShowToast { message: String, flavor: ToastFlavor },
    ShowModal,
    HideModal,
}

/// A subpage of the code settings page.
#[derive(Clone, Copy, PartialEq, Eq)]
pub enum CodeSubpage {
    Indexing,
    EditorAndCodeReview,
}

impl CodeSubpage {
    /// The code subpage a settings section opens, if it is one.
    pub fn from_section(section: SettingsSection) -> (r: Option<Self>)
        ensures
            r == match section {
                SettingsSection::CodeIndexing => Some(CodeSubpage::Indexing),
                SettingsSection::EditorAndCodeReview => Some(CodeSubpage::EditorAndCodeReview),
                _ => None,
            },
    {
        match section {
            SettingsSection::CodeIndexing => Some(Self::Indexing),
            SettingsSection::EditorAndCodeReview => Some(Self::EditorAndCodeReview),
            _ => None,
        }
    }
}

/// Events of the code settings page.
#[derive(Clone, PartialEq, Eq)]
pub enum CodeSettingsPageEvent {
    SignupAnonymousUser,
    OpenLspLogs { log_path: String },
    OpenProjectRules { rule_paths: Vec<String> },
}

/// The code settings page; empty in this build.
pub struct CodeSettingsPageView;

impl CodeSettingsPageView {
    pub fn new() -> (v: Self) {
        CodeSettingsPageView
    }

    pub fn set_active_subpage(&mut self, subpage: Option<CodeSubpage>) {
    }

    pub fn section() -> (s: SettingsSection)
        ensures
            s == SettingsSection::Code,
    {
        SettingsSection::Code
    }
}

/// The page the environments settings show.
#[derive(Debug, Default, Clone, PartialEq)]
pub enum EnvironmentsPage {
    #[default]
    List,
    Edit { env_id: SyncId },
    Create,
}

/// Actions of the environments page.
#[derive(Debug, Clone)]
pub enum EnvironmentsPageAction {
    Noop,
}

/// The environments settings page: which page it shows, and its pane's focus.
pub struct EnvironmentsPageView {
    pub current_page: EnvironmentsPage,
    pub focus_handle: Option<crate::terminal_views::PaneFocusHandle>,
}

impl EnvironmentsPageView {
    /// The list of environments, not focused.
    pub fn new() -> (v: Self)
        ensures
            v.current_page == EnvironmentsPage::List,
            v.focus_handle is None,
    {
        EnvironmentsPageView { current_page: EnvironmentsPage::List, focus_handle: None }
    }

    /// Shows the page.
    pub fn update_page(&mut self, page: EnvironmentsPage)
        ensures
            final(self).current_page == page,
            final(self).focus_handle == old(self).focus_handle,
    {
        self.current_page = page;
    }

    pub fn current_page(&self) -> (p: &EnvironmentsPage)
        ensures
            *p == self.current_page,
    {
        &self.current_page
    }

    /// There is no setup mode selector in this build.
    pub fn environment_setup_mode_selector_handle(&self) -> (h: Option<&crate::terminal_views::EnvironmentSetupModeSelector>)
        ensures
            h is None,
    {
        None
    }

    /// There is no agent-assisted environment form in this build.
    pub fn agent_assisted_environment_modal_handle(&self) -> (h: Option<&UpdateEnvironmentForm>)
        ensures
            h is None,
    {
        None
    }

    pub fn set_github_auth_redirect_target(&mut self, target: GithubAuthRedirectTarget)
        ensures
            final(self).current_page == old(self).current_page,
            final(self).focus_handle == old(self).focus_handle,
    {
    }

    pub fn focus(&mut self)
        ensures
            final(self).current_page == old(self).current_page,
            final(self).focus_handle == old(self).focus_handle,
    {
    }

    pub fn set_focus_handle(&mut self, focus_handle: crate::terminal_views::PaneFocusHandle)
        ensures
            final(self).focus_handle == Some(focus_handle),
            final(self).current_page == old(self).current_page,
    {
        self.focus_handle = Some(focus_handle);
    }

    pub fn section() -> (s: SettingsSection)
        ensures
            s == SettingsSection::CloudEnvironments,
    {
        SettingsSection::CloudEnvironments
    }

    pub fn should_render(&self) -> (b: bool)
        ensures
            !b,
    {
        false
    }

    pub fn update_filter(&mut self, query: &str) -> (m: MatchData)
        ensures
            m == MatchData::Uncounted(false),
            final(self).current_page == old(self).current_page,
    {
        MatchData::Uncounted(false)
    }

    /// The pane header's title.
    pub fn header_title(&self) -> (t: String)
        ensures
            t@ == "Environments"@,
    {
        String::from_str("Environments")
    }
}

/// How an MCP server install started.
#[derive(Copy, Clone, PartialEq, Eq)]
pub enum InstallOrigin {
    InApp,
    Deeplink,
}

/// The page the MCP server settings show. This build has no server cards, so an
/// edit page never names one.
#[derive(Default, Copy, Clone, PartialEq, Eq)]
pub enum MCPServersSettingsPage {
    #[default]
    List,
    Edit,
}

/// Events of the MCP server settings page.
#[derive(Clone, PartialEq, Eq)]
pub enum MCPServersSettingsPageEvent {
    ShowModal,
    HideModal,
}

/// The MCP server settings page; empty in this build.
pub struct MCPServersSettingsPageView;

impl MCPServersSettingsPageView {
    pub fn new() -> (v: Self) {
        MCPServersSettingsPageView
    }

    pub fn update_page(&mut self, page: MCPServersSettingsPage) {
    }

    pub fn autoinstall_from_gallery(&mut self, title: &str) {
    }

    /// The install modal is never shown in this build.
    pub fn should_show_install_modal(origin: InstallOrigin, already_installed: bool, is_shared: bool) -> (b: bool)
        ensures
            !b,
    {
        false
    }

    pub fn section() -> (s: SettingsSection)
        ensures
            s == SettingsSection::MCPServers,
    {
        SettingsSection::MCPServers
    }
}

/// Events of the platform page.
#[derive(Clone, Copy)]
pub enum PlatformPageViewEvent {
    ShowCreateApiKeyModal,
    HideCreateApiKeyModal,
}

/// Actions of the platform page.
#[derive(Clone, Debug, PartialEq)]
pub enum PlatformPageAction {
    ShowCreateApiKeyModal,
    HyperlinkClick(String),
}

/// The platform (API keys) page; empty in this build.
pub struct PlatformPageView;

impl PlatformPageView {
    pub fn new() -> (v: Self) {
        PlatformPageView
    }

    pub fn section() -> (s: SettingsSection)
        ensures
            s == SettingsSection::OzCloudAPIKeys,
    {
        SettingsSection::OzCloudAPIKeys
    }
}

/// How team invites are sent.
#[derive(Clone, PartialEq, Eq, Debug, Default, Copy)]
pub enum TeamsInviteOption {
    #[default]
    Link,
    Email,
}

impl TeamsInviteOption {
    /// `Link` or `Email`.
    pub fn to_string(&self) -> (s: String)
        ensures
            s@ == match *self {
                TeamsInviteOption::Link => "Link"@,
                TeamsInviteOption::Email => "Email"@,
            },
    {
        match self {
            TeamsInviteOption::Link => String::from_str("Link"),
            TeamsInviteOption::Email => String::from_str("Email"),
        }
    }
}

/// Actions of the teams page.
#[derive(Debug, Clone)]
pub enum TeamsPageAction {
    LeaveTeam,
    ShowLeaveTeamConfirmationDialog,
    ShowDeleteTeamConfirmationDialog,
    CopyLink(String),
    CreateTeam,
    ChangeInviteViewOption(TeamsInviteOption),
    DeletePendingEmailInvitation { team_uid: ServerId, invitee_email: String },
    RemoveUserFromTeam { user_uid: UserUid, team_uid: ServerId },
    ToggleIsInviteLinkEnabled { team_uid: ServerId, current_state: bool },
    ResetInviteLinks { team_uid: ServerId },
    AddDomainRestrictions { team_uid: ServerId },
    DeleteDomainRestriction { domain_uid: ServerId, team_uid: ServerId },
    SendEmailInvites { team_uid: ServerId },
    OpenWarpDrive,
    GenerateUpgradeLink { team_uid: ServerId },
    GenerateStripeBillingPortalLink { team_uid: ServerId },
    OpenAdminPanel { team_uid: ServerId },
    ContactSupport,
    ToggleTeamDiscoverabilityBeforeCreation,
    ToggleTeamDiscoverability { team_uid: ServerId, current_state: bool },
    JoinTeamWithTeamDiscovery { team_uid: ServerId },
    ShowTransferOwnershipModal { new_owner_email: String, new_owner_uid: UserUid, team_uid: ServerId },
    OpenMemberActionsMenu { index: usize },
    CloseMemberActionsMenu,
    SetTeamMemberRole { team_uid: ServerId, user_uid: UserUid, role: MembershipRole },
}

impl TeamsPageAction {
    /// No action is blocked for anonymous users in this build.
    pub fn blocked_for_anonymous_user(&self) -> (b: bool)
        ensures
            !b,
    {
        false
    }
}

/// Events of the teams page.
#[derive(Clone)]
pub enum TeamsPageViewEvent {
    TeamsChanged,
    OpenWarpDrive,
    ShowToast { message: String, flavor: ToastFlavor },
}

/// Arguments of opening the teams settings.
#[derive(Debug, Clone, Eq, PartialEq)]
pub struct OpenTeamsSettingsModalArgs {
    pub invite_email: Option<String>,
}

/// The teams page; empty in this build.
pub struct TeamsPageView;

impl TeamsPageView {
    pub fn new() -> (v: Self) {
        TeamsPageView
    }

    pub fn open_team_members(&mut self, email: Option<&String>) {
    }

    pub fn section() -> (s: SettingsSection)
        ensures
            s == SettingsSection::Teams,
    {
        SettingsSection::Teams
    }
}

/// A GitHub repository, by owner and name.
#[derive(Debug, PartialEq, Eq)]
pub struct GithubRepo {
    pub owner: String,
    pub repo: String,
}

impl Clone for GithubRepo {
    fn clone(&self) -> (r: Self)
        ensures
            r == *self,
    {
        GithubRepo { owner: self.owner.clone(), repo: self.repo.clone() }
    }
}

/// A cloud environment that ambient agents run in.
#[derive(Debug)]
pub struct AmbientAgentEnvironment {
    pub name: String,
    pub description: Option<String>,
    pub github_repos: Vec<GithubRepo>,
    pub docker_image: String,
    pub setup_commands: Vec<String>,
}

/// The values typed into the environment form.
#[derive(Debug, Default)]
pub struct EnvironmentFormValues {
    pub name: String,
    pub description: String,
    pub selected_repos: Vec<GithubRepo>,
    pub docker_image: String,
    pub setup_commands: Vec<String>,
}

/// The setup commands kept from a form: each trimmed, the empty ones dropped.
pub open spec fn spec_kept_setup_commands(commands: Seq<Seq<char>>) -> Seq<Seq<char>> {
    commands.map_values(|c: Seq<char>| trim_seq(c)).filter(|c: Seq<char>| c.len() > 0)
}

/// Clones a list of repositories.
fn clone_repos(repos: &Vec<GithubRepo>) -> (r: Vec<GithubRepo>)
    ensures
        r@ == repos@,
{
    let mut r: Vec<GithubRepo> = Vec::new();
    let mut i: usize = 0;
    while i < repos.len()
        invariant
            i <= repos@.len(),
            r@ == repos@.subrange(0, i as int),
        decreases repos@.len() - i,
    {
        r.push(repos[i].clone());
        proof {
            assert(repos@.subrange(0, i as int).push(repos@[i as int]) =~= repos@.subrange(0, i + 1));
        }
        i = i + 1;
    }
    proof {
        assert(repos@.subrange(0, repos@.len() as int) =~= repos@);
    }
    r
}

impl EnvironmentFormValues {
    /// The environment the form describes: name, description and image trimmed,
    /// an empty description dropped, setup commands trimmed and the empty ones
    /// dropped, repositories as selected.
    pub fn to_ambient_agent_environment(&self) -> (e: AmbientAgentEnvironment)
        ensures
            e.name@ == trim_seq(self.name@),
            trim_seq(self.description@).len() == 0 ==> e.description is None,
            trim_seq(self.description@).len() != 0 ==> (e.description matches Some(d) && d@ == trim_seq(self.description@)),
            e.github_repos@ == self.selected_repos@,
            e.docker_image@ == trim_seq(self.docker_image@),
            e.setup_commands@.map_values(|c: String| c@)
                == spec_kept_setup_commands(self.setup_commands@.map_values(|c: String| c@)),
    {
        let name = trim(self.name.as_str());
        let d = trim(self.description.as_str());
        let description = if d.as_str().is_empty() { None } else { Some(d) };
        let docker_image = trim(self.docker_image.as_str());
        let ghost all = self.setup_commands@.map_values(|c: String| c@);
        let mut kept: Vec<String> = Vec::new();
        let mut i: usize = 0;
        while i < self.setup_commands.len()
            invariant
                i <= self.setup_commands@.len(),
                all == self.setup_commands@.map_values(|c: String| c@),
                kept@.map_values(|c: String| c@) == spec_kept_setup_commands(all.subrange(0, i as int)),
            decreases self.setup_commands@.len() - i,
        {
            let t = trim(self.setup_commands[i].as_str());
            proof {
                let pre = all.subrange(0, i as int);
                let next = all.subrange(0, i + 1);
                assert(next =~= pre.push(all[i as int]));
                assert(next.map_values(|c: Seq<char>| trim_seq(c)) =~= pre.map_values(|c: Seq<char>| trim_seq(c)).push(trim_seq(all[i as int])));
                lemma_filter_push(pre.map_values(|c: Seq<char>| trim_seq(c)), |c: Seq<char>| c.len() > 0, trim_seq(all[i as int]));
            }
            if !t.as_str().is_empty() {
                let ghost before = kept@;
                kept.push(t);
                proof {
                    assert(kept@.map_values(|c: String| c@) =~= before.map_values(|c: String| c@).push(trim_seq(all[i as int])));
                }
            }
            i = i + 1;
        }
        proof {
            assert(all.subrange(0, all.len() as int) =~= all);
        }
        AmbientAgentEnvironment {
            name,
            description,
            github_repos: clone_repos(&self.selected_repos),
            docker_image,
            setup_commands: kept,
        }
    }

    /// The form never counts as valid in this build.
    pub fn is_valid(&self) -> (b: bool)
        ensures
            !b,
    {
        false
    }
}

/// How the environment form opens.
#[derive(Debug)]
pub enum EnvironmentFormInitArgs {
    Create,
    Edit { env_id: SyncId, initial_values: Box<EnvironmentFormValues> },
}

/// Whether the form creates or edits an environment.
#[derive(Clone, Debug, PartialEq)]
pub enum EnvironmentFormMode {
    Create,
    Edit { env_id: SyncId },
}

/// Where GitHub sign-in sends the user back to.
#[derive(Clone, Copy, Debug, PartialEq, Eq)]
pub enum GithubAuthRedirectTarget {
    SettingsEnvironments,
    FocusCloudMode,
}

/// Events of the environment form.
#[derive(Debug)]
pub enum UpdateEnvironmentFormEvent {
    Created { environment: AmbientAgentEnvironment, share_with_team: bool },
    Updated { env_id: SyncId, environment: AmbientAgentEnvironment },
    DeleteRequested { env_id: SyncId },
    Cancelled,
}

/// Actions of the environment form.
#[derive(Debug, Clone)]
pub enum UpdateEnvironmentFormAction {
    Noop,
}

/// Where the GitHub sign-in started.
#[derive(Clone, Copy, Debug, Default, PartialEq, Eq)]
pub enum AuthSource {
    #[default]
    Settings,
    CloudSetup,
}

/// The mode a form opens in for the given arguments.
pub open spec fn spec_form_mode(args: EnvironmentFormInitArgs) -> EnvironmentFormMode {
    match args {
        EnvironmentFormInitArgs::Create => EnvironmentFormMode::Create,
        EnvironmentFormInitArgs::Edit { env_id, .. } => EnvironmentFormMode::Edit { env_id },
    }
}

/// The environment form: what it does and where GitHub sign-in returns to.
pub struct UpdateEnvironmentForm {
    pub github_auth_redirect_target: GithubAuthRedirectTarget,
    pub mode: EnvironmentFormMode,
}

impl UpdateEnvironmentForm {
    /// A form in the mode the arguments ask for, returning to the environments settings.
    pub fn new(init_args: EnvironmentFormInitArgs) -> (f: Self)
        ensures
            f.mode == spec_form_mode(init_args),
            f.github_auth_redirect_target == GithubAuthRedirectTarget::SettingsEnvironments,
    {
        let mode = match init_args {
            EnvironmentFormInitArgs::Create => EnvironmentFormMode::Create,
            EnvironmentFormInitArgs::Edit { env_id, .. } => EnvironmentFormMode::Edit { env_id },
        };
        UpdateEnvironmentForm { github_auth_redirect_target: GithubAuthRedirectTarget::SettingsEnvironments, mode }
    }

    /// Switches the form to the mode the arguments ask for.
    pub fn set_mode(&mut self, init_args: EnvironmentFormInitArgs)
        ensures
            final(self).mode == spec_form_mode(init_args),
            final(self).github_auth_redirect_target == old(self).github_auth_redirect_target,
    {
        self.mode = match init_args {
            EnvironmentFormInitArgs::Create => EnvironmentFormMode::Create,
            EnvironmentFormInitArgs::Edit { env_id, .. } => EnvironmentFormMode::Edit { env_id },
        };
    }

    pub fn set_github_auth_redirect_target(&mut self, target: GithubAuthRedirectTarget)
        ensures
            final(self).github_auth_redirect_target == target,
            final(self).mode == old(self).mode,
    {
        self.github_auth_redirect_target = target;
    }

    pub fn set_show_header(&mut self, show_header: bool)
        ensures
            *final(self) == *old(self),
    {
    }

    pub fn set_should_handle_escape_from_editor(&mut self, should_handle_escape: bool)
        ensures
            *final(self) == *old(self),
    {
    }

    pub fn set_auth_source(&mut self, source: AuthSource)
        ensures
            *final(self) == *old(self),
    {
    }

    pub fn fetch_github_repos(&mut self)
        ensures
            *final(self) == *old(self),
    {
    }

    pub fn start_github_auth(&mut self)
        ensures
            *final(self) == *old(self),
    {
    }
}

} // verus!
