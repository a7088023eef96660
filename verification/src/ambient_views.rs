//! The small views around a cloud agent pane: host, harness and model
//! selectors, the first-time setup view and the setup command blocks.
use vstd::prelude::*;
use crate::ambient_agent::Harness;
use crate::ids::{BlockId, LLMId};

verus! {

/// Where a cloud agent runs: on Warp's workers or on a self-hosted one.
#[derive(Debug, PartialEq, Eq)]
pub enum Host {
    Warp,
    SelfHosted { slug: String },
}

impl Clone for Host {
    fn clone(&self) -> (h: Self)
        ensures
            h == *self,
    {
        match self {
            Host::Warp => Host::Warp,
            Host::SelfHosted { slug } => Host::SelfHosted { slug: slug.clone() },
        }
    }
}

impl Host {
    /// The worker host a run is sent to: "warp", or the self-hosted slug.
    pub fn worker_host_value(&self) -> (v: Option<String>)
        ensures
            match *self {
                Host::Warp => v matches Some(s) && s@ == "warp"@,
                Host::SelfHosted { slug } => v == Some(slug),
            },
    {
        match self {
            Host::Warp => Some(String::from_str("warp")),
            Host::SelfHosted { slug } => Some(slug.clone()),
        }
    }
}

#[derive(Clone, Debug, PartialEq, Eq)]
pub enum HostSelectorAction {
    ToggleMenu,
    SelectHost(Host),
}

pub enum HostSelectorEvent {
    MenuVisibilityChanged { open: bool },
    HostSelected,
}

/// The host chosen for a run, and the default one if the user has one.
pub struct HostSelector {
    pub selected: Host,
    pub default_host: Option<Host>,
}

/// A call that may change the host selector.
#[derive(Clone, Debug, PartialEq, Eq)]
pub enum HostSelectorOp {
    SetDefaultHost(String),
    OpenMenu,
    Action(HostSelectorAction),
}

/// The selector after one call: setting the default host selects it and makes
/// it the default; selecting a host changes only the selection.
pub open spec fn host_selector_step(s: HostSelector, op: HostSelectorOp) -> HostSelector {
    match op {
        HostSelectorOp::SetDefaultHost(slug) => HostSelector {
            selected: Host::SelfHosted { slug },
            default_host: Some(Host::SelfHosted { slug }),
        },
        HostSelectorOp::OpenMenu => s,
        HostSelectorOp::Action(HostSelectorAction::ToggleMenu) => s,
        HostSelectorOp::Action(HostSelectorAction::SelectHost(h)) => HostSelector { selected: h, ..s },
    }
}

/// The selector after the calls, in order.
pub open spec fn host_selector_run(s: HostSelector, ops: Seq<HostSelectorOp>) -> HostSelector
    decreases ops.len(),
{
    if ops.len() == 0 {
        s
    } else {
        host_selector_step(host_selector_run(s, ops.drop_last()), ops.last())
    }
}

impl HostSelector {
    /// Warp's workers, with no default host.
    pub fn new() -> (s: Self)
        ensures
            s.selected == Host::Warp,
            s.default_host is None,
    {
        HostSelector { selected: Host::Warp, default_host: None }
    }

    pub fn is_menu_open(&self) -> (b: bool)
        ensures
            !b,
    {
        false
    }

    pub fn has_default_host(&self) -> (b: bool)
        ensures
            b == self.default_host is Some,
    {
        self.default_host.is_some()
    }

    pub fn selected(&self) -> (h: &Host)
        ensures
            *h == self.selected,
    {
        &self.selected
    }

    /// Makes the self-hosted worker the default and selects it.
    pub fn set_default_host(&mut self, slug: String)
        ensures
            final(self).selected == (Host::SelfHosted { slug }),
            final(self).default_host == Some(Host::SelfHosted { slug }),
            *final(self) == host_selector_step(*old(self), HostSelectorOp::SetDefaultHost(slug)),
    {
        let host = Host::SelfHosted { slug };
        self.selected = host.clone();
        self.default_host = Some(host);
    }

    pub fn open_menu(&mut self)
        ensures
            *final(self) == *old(self),
            *final(self) == host_selector_step(*old(self), HostSelectorOp::OpenMenu),
    {
    }

    /// Selecting a host makes it the selected one and says so; toggling the
    /// menu does nothing in this build.
    pub fn handle_action(&mut self, action: &HostSelectorAction) -> (e: Option<HostSelectorEvent>)
        ensures
            match *action {
                HostSelectorAction::ToggleMenu => *final(self) == *old(self) && e is None,
                HostSelectorAction::SelectHost(h) => final(self).selected == h
                    && final(self).default_host == old(self).default_host
                    && (e matches Some(ev) && ev is HostSelected),
            },
            *final(self) == host_selector_step(*old(self), HostSelectorOp::Action(*action)),
    {
        match action {
            HostSelectorAction::ToggleMenu => None,
            HostSelectorAction::SelectHost(host) => {
                self.selected = host.clone();
                Some(HostSelectorEvent::HostSelected)
            },
        }
    }
}

/// A theme for header buttons drawn without a background or border.
#[derive(Clone, Copy)]
pub struct NakedHeaderButtonTheme;

#[derive(Clone, Debug, PartialEq)]
pub enum HarnessSelectorAction {
    ToggleMenu,
    SelectHarness(Harness),
}

pub enum HarnessSelectorEvent {
    MenuVisibilityChanged { open: bool },
}

/// The harness menu; in this build it never opens.
pub struct HarnessSelector;

impl HarnessSelector {
    pub fn new() -> (s: Self) {
        HarnessSelector
    }

    pub fn is_menu_open(&self) -> (b: bool)
        ensures
            !b,
    {
        false
    }

    pub fn open_menu(&mut self) {
    }

    /// Actions change nothing in this build.
    pub fn handle_action(&mut self, action: &HarnessSelectorAction) -> (e: Option<HarnessSelectorEvent>)
        ensures
            e is None,
    {
        None
    }
}

#[derive(Clone, Debug, PartialEq, Eq)]
pub enum ModelSelectorAction {
    ToggleMenu,
    SelectModel(LLMId),
}

pub enum ModelSelectorEvent {
    MenuVisibilityChanged { open: bool },
}

/// The model menu of a cloud agent pane; in this build it never opens.
pub struct ModelSelector;

impl ModelSelector {
    pub fn new() -> (s: Self) {
        ModelSelector
    }

    pub fn is_menu_open(&self) -> (b: bool)
        ensures
            !b,
    {
        false
    }

    pub fn open_menu(&mut self) {
    }

    /// Actions change nothing in this build.
    pub fn handle_action(&mut self, action: &ModelSelectorAction) -> (e: Option<ModelSelectorEvent>)
        ensures
            e is None,
    {
        None
    }
}

#[derive(Debug, Clone, Copy, PartialEq, Eq)]
pub enum FirstTimeCloudAgentSetupViewEvent {
    Cancelled,
    EnvironmentCreated,
}

#[derive(Debug, Clone, Copy, PartialEq, Eq)]
pub enum FirstTimeCloudAgentSetupAction {
    Noop,
}

/// The first-time setup of cloud agents; empty in this build.
pub struct FirstTimeCloudAgentSetupView;

impl FirstTimeCloudAgentSetupView {
    pub fn new() -> (v: Self) {
        FirstTimeCloudAgentSetupView
    }

    pub fn reset_form(&mut self) {
    }

    pub fn handle_action(&mut self, action: &FirstTimeCloudAgentSetupAction) {
    }
}

/// Whether the terminal leaves the agent view on a first-time setup event:
/// only when the setup was cancelled.
pub fn exits_agent_view_on(event: &FirstTimeCloudAgentSetupViewEvent) -> (b: bool)
    ensures
        b == (*event is Cancelled),
{
    match event {
        FirstTimeCloudAgentSetupViewEvent::Cancelled => true,
        FirstTimeCloudAgentSetupViewEvent::EnvironmentCreated => false,
    }
}

/// The block that opens a cloud agent; empty in this build.
pub struct AmbientAgentEntryBlock;

#[derive(Debug, Clone, Copy, PartialEq, Eq)]
pub enum AmbientAgentEntryBlockAction {
    OpenAmbientAgent,
}

impl AmbientAgentEntryBlock {
    pub fn new() -> (b: Self) {
        AmbientAgentEntryBlock
    }

    pub fn handle_action(&mut self, action: &AmbientAgentEntryBlockAction) {
    }
}

/// The block of a setup command; empty in this build.
pub struct CloudModeSetupCommandBlock;

#[derive(Debug, Clone)]
pub enum CloudModeSetupCommandBlockEvent {
    ToggleBlockVisibility(BlockId),
}

#[derive(Debug, Clone, Copy, PartialEq, Eq)]
pub enum CloudModeSetupCommandBlockAction {
    ToggleBlockVisibility,
}

impl CloudModeSetupCommandBlock {
    pub fn new() -> (b: Self) {
        CloudModeSetupCommandBlock
    }

    pub fn handle_action(&mut self, action: &CloudModeSetupCommandBlockAction) {
    }
}

/// The text row above a group of setup commands; empty in this build.
pub struct CloudModeSetupTextBlock;

#[derive(Debug, Clone, Copy, PartialEq, Eq)]
pub enum CloudModeSetupTextBlockAction {
    ToggleSetupCommandVisibility,
}

impl CloudModeSetupTextBlock {
    pub fn new() -> (b: Self) {
        CloudModeSetupTextBlock
    }

    pub fn handle_action(&mut self, action: &CloudModeSetupTextBlockAction) {
    }
}

/// Whatever calls follow, the selector has a default host exactly when it had
/// one before or one of the calls set it; a selection never sets or clears it.
pub proof fn law_default_host_only_from_set_default_host(s: HostSelector, ops: Seq<HostSelectorOp>)
    ensures
        (host_selector_run(s, ops).default_host is Some)
            == (s.default_host is Some || exists|i: int| 0 <= i < ops.len() && #[trigger] ops[i] is SetDefaultHost),
    decreases ops.len(),
{
    if ops.len() > 0 {
        let prefix = ops.drop_last();
        law_default_host_only_from_set_default_host(s, prefix);
        if exists|i: int| 0 <= i < prefix.len() && #[trigger] prefix[i] is SetDefaultHost {
            let i = choose|i: int| 0 <= i < prefix.len() && #[trigger] prefix[i] is SetDefaultHost;
            assert(ops[i] is SetDefaultHost);
        }
        if ops.last() is SetDefaultHost {
            assert(ops[ops.len() - 1] is SetDefaultHost);
        }
        if exists|i: int| 0 <= i < ops.len() && #[trigger] ops[i] is SetDefaultHost {
            let i = choose|i: int| 0 <= i < ops.len() && #[trigger] ops[i] is SetDefaultHost;
            if i < ops.len() - 1 {
                assert(prefix[i] is SetDefaultHost);
            }
        }
    }
}

} // verus!
