//! Cloud ("ambient") agent views: the setup command groups, the host and
//! harness selectors, and the view model that follows a cloud agent run,
//! which this build always ends in the disabled state.
use vstd::prelude::*;
use std::collections::HashMap;
use crate::ids::{
    AIConversationId, AmbientAgentTaskId, AttachmentInput, CLIAgent, EntityId, InitialSnapshotToken,
    SessionId, SyncId, TouchedWorkspace,
};
use crate::text::str_eq;

verus! {

broadcast use vstd::std_specs::hash::group_hash_axioms;

/// The id of a group of setup commands; ids are handed out in increasing order.
#[derive(Debug, Clone, Copy, PartialEq, Eq, Structural, Hash)]
pub struct SetupCommandGroupId(pub u64);

impl SetupCommandGroupId {
    fn initial() -> (g: Self)
        ensures
            g.0 == 0,
    {
        SetupCommandGroupId(0)
    }
}

/// The setup command groups as plain values: whether a command ran in the
/// current group, the current group, the next id to hand out, which groups
/// are expanded (a group not listed is), and the group still running.
pub struct SetupCommandStateView {
    pub did_execute: bool,
    pub current: u64,
    pub next: u64,
    pub expanded: Map<u64, bool>,
    pub running: Option<u64>,
}

/// Which setup command groups exist, which is running and which are expanded.
#[derive(Debug)]
pub struct SetupCommandState {
    did_execute_a_setup_command: bool,
    current_group_id: SetupCommandGroupId,
    next_group_id: u64,
    expanded_groups: HashMap<u64, bool>,
    running_group_id: Option<SetupCommandGroupId>,
}

impl View for SetupCommandState {
    type V = SetupCommandStateView;

    closed spec fn view(&self) -> SetupCommandStateView {
        SetupCommandStateView {
            did_execute: self.did_execute_a_setup_command,
            current: self.current_group_id.0,
            next: self.next_group_id,
            expanded: self.expanded_groups@,
            running: match self.running_group_id {
                Some(g) => Some(g.0),
                None => None,
            },
        }
    }
}

/// Whether a group is shown expanded: as set, and expanded when never set.
pub open spec fn spec_should_expand(v: SetupCommandStateView, group: u64) -> bool {
    if v.expanded.contains_key(group) {
        v.expanded[group]
    } else {
        true
    }
}

/// A call that may change the setup command groups.
#[derive(Debug, Clone, Copy, PartialEq, Eq)]
pub enum SetupCommandOp {
    SetDidExecute(bool),
    SetShouldExpand(u64, bool),
    StartNewGroup,
    FinishGroup(u64),
}

/// The groups after one call, as each call's contract states it.
pub open spec fn setup_step(v: SetupCommandStateView, op: SetupCommandOp) -> SetupCommandStateView {
    match op {
        SetupCommandOp::SetDidExecute(value) => SetupCommandStateView { did_execute: value, ..v },
        SetupCommandOp::SetShouldExpand(group, value) => SetupCommandStateView { expanded: v.expanded.insert(group, value), ..v },
        SetupCommandOp::StartNewGroup => SetupCommandStateView {
            did_execute: false,
            current: v.next,
            next: (v.next + 1) as u64,
            expanded: v.expanded.insert(v.next, true),
            running: Some(v.next),
        },
        SetupCommandOp::FinishGroup(group) => SetupCommandStateView {
            running: if v.running == Some(group) { None } else { v.running },
            ..v
        },
    }
}

/// The groups after the calls, in order.
pub open spec fn setup_run(v: SetupCommandStateView, ops: Seq<SetupCommandOp>) -> SetupCommandStateView
    decreases ops.len(),
{
    if ops.len() == 0 {
        v
    } else {
        setup_step(setup_run(v, ops.drop_last()), ops.last())
    }
}

impl SetupCommandState {
    /// The current group was handed out before the next id, and only it can be running.
    #[verifier::type_invariant]
    closed spec fn well_formed(self) -> bool {
        &&& self.current_group_id.0 < self.next_group_id
        &&& (self.running_group_id matches Some(g) ==> g == self.current_group_id)
    }

    /// The current group, which was handed out before the next id.
    pub fn current_group_id(&self) -> (g: SetupCommandGroupId)
        ensures
            g.0 == self@.current,
            self@.current < self@.next,
    {
        proof {
            use_type_invariant(self);
        }
        self.current_group_id
    }

    pub fn did_execute_a_setup_command(&self) -> (b: bool)
        ensures
            b == self@.did_execute,
    {
        self.did_execute_a_setup_command
    }

    pub fn set_did_execute_a_setup_command(&mut self, value: bool)
        ensures
            final(self)@ == (SetupCommandStateView { did_execute: value, ..old(self)@ }),
            final(self)@ == setup_step(old(self)@, SetupCommandOp::SetDidExecute(value)),
    {
        proof {
            use_type_invariant(&*self);
        }
        self.did_execute_a_setup_command = value;
    }

    /// Whether the group is shown expanded; a group never set is.
    pub fn should_expand(&self, group_id: SetupCommandGroupId) -> (b: bool)
        ensures
            b == spec_should_expand(self@, group_id.0),
    {
        match self.expanded_groups.get(&group_id.0) {
            Some(v) => *v,
            None => true,
        }
    }

    pub fn set_should_expand(&mut self, group_id: SetupCommandGroupId, value: bool)
        ensures
            final(self)@ == (SetupCommandStateView { expanded: old(self)@.expanded.insert(group_id.0, value), ..old(self)@ }),
            final(self)@ == setup_step(old(self)@, SetupCommandOp::SetShouldExpand(group_id.0, value)),
    {
        proof {
            use_type_invariant(&*self);
        }
        let mut groups: HashMap<u64, bool> = HashMap::new();
        std::mem::swap(&mut groups, &mut self.expanded_groups);
        groups.insert(group_id.0, value);
        self.expanded_groups = groups;
    }

    pub fn is_running(&self, group_id: SetupCommandGroupId) -> (b: bool)
        ensures
            b == (self@.running == Some(group_id.0)),
    {
        match self.running_group_id {
            Some(g) => g.0 == group_id.0,
            None => false,
        }
    }

    /// Whether another group can get a new id.
    pub fn can_start_new_group(&self) -> (b: bool)
        ensures
            b == (self@.next < u64::MAX),
    {
        self.next_group_id < u64::MAX
    }

    /// Starts a new group with the next id: it becomes current, running and
    /// expanded, and no command has run in it yet.
    pub fn start_new_group(&mut self) -> (g: SetupCommandGroupId)
        requires
            old(self)@.next < u64::MAX,
        ensures
            g.0 == old(self)@.next,
            final(self)@ == (SetupCommandStateView {
                did_execute: false,
                current: g.0,
                next: (old(self)@.next + 1) as u64,
                expanded: old(self)@.expanded.insert(g.0, true),
                running: Some(g.0),
            }),
            final(self)@ == setup_step(old(self)@, SetupCommandOp::StartNewGroup),
    {
        proof {
            use_type_invariant(&*self);
        }
        self.running_group_id = None;
        let group_id = SetupCommandGroupId(self.next_group_id);
        self.next_group_id = self.next_group_id + 1;
        self.current_group_id = group_id;
        self.did_execute_a_setup_command = false;
        let mut groups: HashMap<u64, bool> = HashMap::new();
        std::mem::swap(&mut groups, &mut self.expanded_groups);
        groups.insert(group_id.0, true);
        self.expanded_groups = groups;
        self.running_group_id = Some(group_id);
        group_id
    }

    /// Marks the group finished if it is the one running.
    pub fn finish_group(&mut self, group_id: SetupCommandGroupId)
        ensures
            final(self)@ == (SetupCommandStateView {
                running: if old(self)@.running == Some(group_id.0) { None } else { old(self)@.running },
                ..old(self)@
            }),
            final(self)@ == setup_step(old(self)@, SetupCommandOp::FinishGroup(group_id.0)),
    {
        proof {
            use_type_invariant(&*self);
        }
        let running = match self.running_group_id {
            Some(g) => g.0 == group_id.0,
            None => false,
        };
        if running {
            self.running_group_id = None;
        }
    }
}

/// The first state: group 0, running and expanded, with no command run yet.
pub open spec fn default_setup_view() -> SetupCommandStateView {
    SetupCommandStateView {
        did_execute: false,
        current: 0,
        next: 1,
        expanded: Map::<u64, bool>::empty().insert(0, true),
        running: Some(0u64),
    }
}

impl Default for SetupCommandState {
    /// The first group, running and expanded, with no command run yet.
    fn default() -> (s: Self)
        ensures
            s@ == default_setup_view(),
    {
        let current_group_id = SetupCommandGroupId::initial();
        let mut expanded_groups: HashMap<u64, bool> = HashMap::new();
        expanded_groups.insert(current_group_id.0, true);
        SetupCommandState {
            did_execute_a_setup_command: false,
            current_group_id,
            next_group_id: 1,
            expanded_groups,
            running_group_id: Some(current_group_id),
        }
    }
}

impl Clone for SetupCommandState {
    fn clone(&self) -> (c: Self)
        ensures
            c@ == self@,
    {
        proof {
            use_type_invariant(self);
        }
        SetupCommandState {
            did_execute_a_setup_command: self.did_execute_a_setup_command,
            current_group_id: self.current_group_id,
            next_group_id: self.next_group_id,
            expanded_groups: self.expanded_groups.clone(),
            running_group_id: self.running_group_id,
        }
    }
}

/// A point in time as `instant::Instant` measures it.
#[verifier::external_type_specification]
#[verifier::external_body]
pub struct ExInstant(instant::Instant);

/// `instant::Instant::now`: the current instant. It depends on the clock, so
/// nothing is stated of it.
#[verifier::external_body]
fn instant_now() -> (t: instant::Instant) {
    instant::Instant::now()
}

/// When a cloud agent run was spawned, claimed, started its harness and stopped.
#[derive(Debug, Clone, Copy)]
pub struct AgentProgress {
    pub spawned_at: instant::Instant,
    pub claimed_at: Option<instant::Instant>,
    pub harness_started_at: Option<instant::Instant>,
    pub stopped_at: Option<instant::Instant>,
}

/// A run that stopped the moment it was spawned, never claimed or started.
pub open spec fn is_stopped_at_spawn(p: AgentProgress) -> bool {
    &&& p.stopped_at == Some(p.spawned_at)
    &&& p.claimed_at is None
    &&& p.harness_started_at is None
}

impl AgentProgress {
    fn new_stopped() -> (p: Self)
        ensures
            is_stopped_at_spawn(p),
    {
        let now = instant_now();
        AgentProgress { spawned_at: now, claimed_at: None, harness_started_at: None, stopped_at: Some(now) }
    }
}

/// Whether a session starts a run or follows up on one.
#[derive(Debug, Clone, Copy, PartialEq, Eq)]
pub enum SessionStartupKind {
    InitialRun,
    Followup,
}

/// Whether a handoff to the cloud is being submitted.
#[derive(Debug, Clone, Copy, PartialEq, Eq, Structural)]
pub enum HandoffSubmissionState {
    Idle,
    Starting,
}

impl Default for HandoffSubmissionState {
    fn default() -> (s: Self)
        ensures
            s == HandoffSubmissionState::Idle,
    {
        HandoffSubmissionState::Idle
    }
}

/// Where the upload of the workspace snapshot for a handoff stands.
#[derive(Debug, Clone, PartialEq, Eq)]
pub enum SnapshotUploadStatus {
    Pending,
    SkippedEmptyWorkspace,
    Uploaded(InitialSnapshotToken),
    Failed(String),
}

impl Default for SnapshotUploadStatus {
    fn default() -> (s: Self)
        ensures
            s == SnapshotUploadStatus::Pending,
    {
        SnapshotUploadStatus::Pending
    }
}

impl SnapshotUploadStatus {
    /// The upload is done with: uploaded, or skipped for an empty workspace.
    fn is_settled(&self) -> (b: bool)
        ensures
            b == (*self is Uploaded || *self is SkippedEmptyWorkspace),
    {
        match self {
            SnapshotUploadStatus::Uploaded(_) | SnapshotUploadStatus::SkippedEmptyWorkspace => true,
            _ => false,
        }
    }
}

/// A local conversation waiting to be handed off to a cloud agent.
#[derive(Debug, Clone)]
pub struct PendingHandoff {
    pub forked_conversation_id: String,
    pub touched_workspace: Option<TouchedWorkspace>,
    pub snapshot_upload: SnapshotUploadStatus,
    pub submission_state: HandoffSubmissionState,
}

/// Where a cloud agent run stands.
#[derive(Debug, Clone)]
pub enum Status {
    Setup,
    Composing,
    WaitingForSession { progress: AgentProgress, kind: SessionStartupKind },
    AgentRunning,
    Failed { progress: AgentProgress, error_message: String },
    NeedsGithubAuth { progress: AgentProgress, error_message: String, auth_url: String },
    Cancelled { progress: AgentProgress },
}

/// The agent harness that runs a cloud agent: Oz, or a coding agent of the terminal.
#[derive(Debug, PartialEq, Eq)]
pub enum Harness {
    Oz,
    ThirdParty(CLIAgent),
}

impl Default for Harness {
    fn default() -> (h: Self)
        ensures
            h == Harness::Oz,
    {
        Harness::Oz
    }
}

impl Clone for Harness {
    fn clone(&self) -> (h: Self)
        ensures
            h == *self,
    {
        match self {
            Harness::Oz => Harness::Oz,
            Harness::ThirdParty(a) => Harness::ThirdParty(a.clone()),
        }
    }
}

/// Whether two harnesses are the same: both Oz, or the same terminal agent.
pub open spec fn same_harness(a: Harness, b: Harness) -> bool {
    match (a, b) {
        (Harness::Oz, Harness::Oz) => true,
        (Harness::ThirdParty(x), Harness::ThirdParty(y)) => x.0@ == y.0@,
        _ => false,
    }
}

/// Whether two harnesses are the same.
pub fn harness_eq(a: &Harness, b: &Harness) -> (r: bool)
    ensures
        r == same_harness(*a, *b),
{
    match (a, b) {
        (Harness::Oz, Harness::Oz) => true,
        (Harness::ThirdParty(x), Harness::ThirdParty(y)) => str_eq(x.0.as_str(), y.0.as_str()),
        _ => false,
    }
}

impl CLIAgent {
    /// The terminal coding agent a harness runs, if it is not Oz.
    pub fn from_harness(harness: Harness) -> (a: Option<CLIAgent>)
        ensures
            a == match harness {
                Harness::Oz => None,
                Harness::ThirdParty(x) => Some(x),
            },
    {
        match harness {
            Harness::Oz => None,
            Harness::ThirdParty(x) => Some(x),
        }
    }
}

/// How a request asks the agent to treat the prompt.
#[derive(Debug, Clone, Copy, PartialEq, Eq)]
pub enum UserQueryMode {
    Normal,
}

/// The configuration a cloud agent is spawned with.
#[derive(Debug, Clone, PartialEq, Eq)]
pub struct AgentConfigSnapshot {
    pub environment_id: Option<String>,
    pub worker_host: Option<String>,
}

/// A request to spawn a cloud agent.
#[derive(Debug, Clone)]
pub struct SpawnAgentRequest {
    pub prompt: String,
    pub mode: UserQueryMode,
    pub config: Option<AgentConfigSnapshot>,
    pub title: Option<String>,
    pub attachments: Vec<AttachmentInput>,
    pub conversation_id: Option<String>,
    pub initial_snapshot_token: Option<InitialSnapshotToken>,
}

/// What the view model tells its observers.
#[derive(Debug, Clone)]
pub enum AmbientAgentViewModelEvent {
    EnteredSetupState,
    EnteredComposingState,
    DispatchedAgent,
    FollowupDispatched,
    ProgressUpdated,
    SessionReady { session_id: SessionId },
    FollowupSessionReady { session_id: SessionId },
    EnvironmentSelected,
    Failed { error_message: String },
    ShowCloudAgentCapacityModal,
    ShowAICreditModal,
    NeedsGithubAuth,
    Cancelled,
    HarnessSelected,
    HostSelected,
    HarnessCommandStarted,
    PendingHandoffChanged,
    HandoffSnapshotUploadFailed { error_message: String },
    UpdatedSetupCommandVisibility,
}

/// The message every cloud agent run fails with in this build.
pub open spec fn oss_disabled_message() -> Seq<char> {
    "Cloud agents are disabled in OSS builds"@
}

fn oss_disabled_message_string() -> (s: String)
    ensures
        s@ == oss_disabled_message(),
{
    String::from_str("Cloud agents are disabled in OSS builds")
}

/// Whether the status shows the progress of a run: waiting for its session,
/// failed, waiting for GitHub authorization, or cancelled.
pub open spec fn shows_progress(s: Status) -> bool {
    s is WaitingForSession || s is Failed || s is NeedsGithubAuth || s is Cancelled
}

/// The status every run ends in: failed at once with the disabled message.
pub open spec fn is_disabled_failure(s: Status) -> bool {
    s matches Status::Failed { progress, error_message }
        && is_stopped_at_spawn(progress) && error_message@ == oss_disabled_message()
}

/// The state of a cloud agent pane: what the user composes, which environment,
/// harness and host it runs with, and where its run stands.
pub struct AmbientAgentViewModel {
    pub status: Status,
    pub request: Option<SpawnAgentRequest>,
    pub terminal_view_id: EntityId,
    pub environment_id: Option<SyncId>,
    pub setup_commands_state: SetupCommandState,
    pub task_id: Option<AmbientAgentTaskId>,
    pub conversation_id: Option<AIConversationId>,
    pub harness: Harness,
    pub worker_host: Option<String>,
    pub harness_command_started: bool,
    pub active_execution_session_id: Option<SessionId>,
    pub last_ended_execution_session_id: Option<SessionId>,
    pub pending_followup_prompt: Option<String>,
    pub pending_handoff: Option<PendingHandoff>,
}

impl AmbientAgentViewModel {
    /// The harness a run would use: Oz for a handoff, else the one chosen.
    pub open spec fn spec_selected_harness(self) -> Harness {
        if self.pending_handoff is Some { Harness::Oz } else { self.harness }
    }

    /// A pane that composes a new prompt, with nothing chosen yet.
    pub fn new(terminal_view_id: EntityId) -> (m: Self)
        ensures
            m.status is Composing,
            m.request is None,
            m.terminal_view_id == terminal_view_id,
            m.environment_id is None,
            m.setup_commands_state@ == (SetupCommandStateView {
                did_execute: false,
                current: 0,
                next: 1,
                expanded: Map::<u64, bool>::empty().insert(0, true),
                running: Some(0u64),
            }),
            m.task_id is None,
            m.conversation_id is None,
            m.harness == Harness::Oz,
            m.worker_host is None,
            !m.harness_command_started,
            m.active_execution_session_id is None,
            m.last_ended_execution_session_id is None,
            m.pending_followup_prompt is None,
            m.pending_handoff is None,
    {
        AmbientAgentViewModel {
            status: Status::Composing,
            request: None,
            terminal_view_id,
            environment_id: None,
            setup_commands_state: SetupCommandState::default(),
            task_id: None,
            conversation_id: None,
            harness: Harness::default(),
            worker_host: None,
            harness_command_started: false,
            active_execution_session_id: None,
            last_ended_execution_session_id: None,
            pending_followup_prompt: None,
            pending_handoff: None,
        }
    }

    pub fn request(&self) -> (r: Option<&SpawnAgentRequest>)
        ensures
            match r {
                Some(x) => self.request == Some(*x),
                None => self.request is None,
            },
    {
        match &self.request {
            Some(x) => Some(x),
            None => None,
        }
    }

    pub fn setup_command_state(&self) -> (s: &SetupCommandState)
        ensures
            *s == self.setup_commands_state,
    {
        &self.setup_commands_state
    }

    /// The setup command groups, to change in place.
    pub fn setup_command_state_mut(&mut self) -> (s: &mut SetupCommandState)
        ensures
            *s == old(self).setup_commands_state,
            *final(self) == (AmbientAgentViewModel { setup_commands_state: *final(s), ..*old(self) }),
    {
        &mut self.setup_commands_state
    }

    /// Starts a new group of setup commands; the harness command has not started in it.
    pub fn start_new_setup_command_group(&mut self) -> (e: AmbientAgentViewModelEvent)
        requires
            old(self).setup_commands_state@.next < u64::MAX,
        ensures
            final(self).setup_commands_state@ == (SetupCommandStateView {
                did_execute: false,
                current: old(self).setup_commands_state@.next,
                next: (old(self).setup_commands_state@.next + 1) as u64,
                expanded: old(self).setup_commands_state@.expanded.insert(old(self).setup_commands_state@.next, true),
                running: Some(old(self).setup_commands_state@.next),
            }),
            *final(self) == (AmbientAgentViewModel {
                setup_commands_state: final(self).setup_commands_state,
                harness_command_started: false,
                ..*old(self)
            }),
            e is UpdatedSetupCommandVisibility,
    {
        self.setup_commands_state.start_new_group();
        self.harness_command_started = false;
        AmbientAgentViewModelEvent::UpdatedSetupCommandVisibility
    }

    /// Finishes the group if it is the one running, and says so.
    pub fn finish_setup_command_group(&mut self, group_id: SetupCommandGroupId) -> (e: Option<AmbientAgentViewModelEvent>)
        ensures
            old(self).setup_commands_state@.running == Some(group_id.0) ==> {
                &&& final(self).setup_commands_state@ == (SetupCommandStateView { running: None, ..old(self).setup_commands_state@ })
                &&& e matches Some(ev) && ev is UpdatedSetupCommandVisibility
            },
            old(self).setup_commands_state@.running != Some(group_id.0) ==> {
                &&& final(self).setup_commands_state@ == old(self).setup_commands_state@
                &&& e is None
            },
            *final(self) == (AmbientAgentViewModel { setup_commands_state: final(self).setup_commands_state, ..*old(self) }),
    {
        if self.setup_commands_state.is_running(group_id) {
            self.setup_commands_state.finish_group(group_id);
            Some(AmbientAgentViewModelEvent::UpdatedSetupCommandVisibility)
        } else {
            None
        }
    }

    /// Shows or hides a group, and says so when that changes anything.
    pub fn set_setup_command_group_visibility(&mut self, group_id: SetupCommandGroupId, is_visible: bool)
        -> (e: Option<AmbientAgentViewModelEvent>)
        ensures
            spec_should_expand(old(self).setup_commands_state@, group_id.0) != is_visible ==> {
                &&& final(self).setup_commands_state@ == (SetupCommandStateView {
                    expanded: old(self).setup_commands_state@.expanded.insert(group_id.0, is_visible),
                    ..old(self).setup_commands_state@
                })
                &&& e matches Some(ev) && ev is UpdatedSetupCommandVisibility
            },
            spec_should_expand(old(self).setup_commands_state@, group_id.0) == is_visible ==> {
                &&& final(self).setup_commands_state@ == old(self).setup_commands_state@
                &&& e is None
            },
            *final(self) == (AmbientAgentViewModel { setup_commands_state: final(self).setup_commands_state, ..*old(self) }),
    {
        if is_visible != self.setup_commands_state.should_expand(group_id) {
            self.setup_commands_state.set_should_expand(group_id, is_visible);
            Some(AmbientAgentViewModelEvent::UpdatedSetupCommandVisibility)
        } else {
            None
        }
    }

    /// Shows or hides the current group.
    pub fn set_setup_command_visibility(&mut self, is_visible: bool) -> (e: Option<AmbientAgentViewModelEvent>)
        ensures
            ({
                let g = old(self).setup_commands_state@.current;
                &&& spec_should_expand(old(self).setup_commands_state@, g) != is_visible ==> {
                    &&& final(self).setup_commands_state@ == (SetupCommandStateView {
                        expanded: old(self).setup_commands_state@.expanded.insert(g, is_visible),
                        ..old(self).setup_commands_state@
                    })
                    &&& e matches Some(ev) && ev is UpdatedSetupCommandVisibility
                }
                &&& spec_should_expand(old(self).setup_commands_state@, g) == is_visible ==> {
                    &&& final(self).setup_commands_state@ == old(self).setup_commands_state@
                    &&& e is None
                }
            }),
            *final(self) == (AmbientAgentViewModel { setup_commands_state: final(self).setup_commands_state, ..*old(self) }),
    {
        let group_id = self.setup_commands_state.current_group_id();
        self.set_setup_command_group_visibility(group_id, is_visible)
    }

    /// The progress of the run, where the status has one.
    pub fn agent_progress(&self) -> (p: Option<&AgentProgress>)
        ensures
            match self.status {
                Status::WaitingForSession { progress, .. } => p == Some(&progress),
                Status::Failed { progress, .. } => p == Some(&progress),
                Status::NeedsGithubAuth { progress, .. } => p == Some(&progress),
                Status::Cancelled { progress } => p == Some(&progress),
                _ => p is None,
            },
    {
        match &self.status {
            Status::WaitingForSession { progress, .. } => Some(progress),
            Status::Failed { progress, .. } => Some(progress),
            Status::NeedsGithubAuth { progress, .. } => Some(progress),
            Status::Cancelled { progress } => Some(progress),
            _ => None,
        }
    }

    pub fn selected_environment_id(&self) -> (e: Option<&SyncId>)
        ensures
            match e {
                Some(x) => self.environment_id == Some(*x),
                None => self.environment_id is None,
            },
    {
        match &self.environment_id {
            Some(x) => Some(x),
            None => None,
        }
    }

    /// The harness a run would use: Oz for a handoff, else the one chosen.
    pub fn selected_harness(&self) -> (h: Harness)
        ensures
            h == self.spec_selected_harness(),
    {
        if self.is_local_to_cloud_handoff() {
            Harness::Oz
        } else {
            self.harness.clone()
        }
    }

    /// Chooses the harness (Oz during a handoff), and says so when it changes.
    pub fn set_harness(&mut self, harness: Harness) -> (e: Option<AmbientAgentViewModelEvent>)
        ensures
            ({
                let h = if old(self).pending_handoff is Some { Harness::Oz } else { harness };
                &&& !same_harness(h, old(self).harness) ==> {
                    &&& *final(self) == (AmbientAgentViewModel { harness: h, ..*old(self) })
                    &&& e matches Some(ev) && ev is HarnessSelected
                }
                &&& same_harness(h, old(self).harness) ==> *final(self) == *old(self) && e is None
            }),
    {
        let harness = if self.is_local_to_cloud_handoff() {
            Harness::Oz
        } else {
            harness
        };
        if !harness_eq(&self.harness, &harness) {
            self.harness = harness;
            Some(AmbientAgentViewModelEvent::HarnessSelected)
        } else {
            None
        }
    }

    pub fn set_worker_host(&mut self, worker_host: Option<String>)
        ensures
            *final(self) == (AmbientAgentViewModel { worker_host, ..*old(self) }),
    {
        self.worker_host = worker_host;
    }

    /// Whether the run uses a coding agent of the terminal rather than Oz.
    pub fn is_third_party_harness(&self) -> (b: bool)
        ensures
            b == !(self.spec_selected_harness() is Oz),
    {
        let h = self.selected_harness();
        !harness_eq(&h, &Harness::Oz)
    }

    pub fn selected_third_party_cli_agent(&self) -> (a: Option<CLIAgent>)
        ensures
            a == match self.spec_selected_harness() {
                Harness::Oz => None,
                Harness::ThirdParty(x) => Some(x),
            },
    {
        CLIAgent::from_harness(self.selected_harness())
    }

    /// Whether a local conversation is being handed off to the cloud.
    pub fn is_local_to_cloud_handoff(&self) -> (b: bool)
        ensures
            b == self.pending_handoff is Some,
    {
        self.pending_handoff.is_some()
    }

    /// Whether the handoff can be submitted: its workspace is known, its
    /// snapshot settled, and it is not being submitted already.
    pub fn is_handoff_ready_to_submit(&self) -> (b: bool)
        ensures
            b == (self.pending_handoff matches Some(h)
                && h.touched_workspace is Some
                && (h.snapshot_upload is Uploaded || h.snapshot_upload is SkippedEmptyWorkspace)
                && h.submission_state == HandoffSubmissionState::Idle),
    {
        match &self.pending_handoff {
            None => false,
            Some(handoff) => {
                handoff.touched_workspace.is_some()
                    && handoff.snapshot_upload.is_settled()
                    && match handoff.submission_state {
                        HandoffSubmissionState::Idle => true,
                        HandoffSubmissionState::Starting => false,
                    }
            },
        }
    }

    /// Sets or clears the handoff: says when the harness changes with it, and
    /// always that the handoff changed.
    pub fn set_pending_handoff(&mut self, pending: Option<PendingHandoff>) -> (events: Vec<AmbientAgentViewModelEvent>)
        ensures
            *final(self) == (AmbientAgentViewModel { pending_handoff: pending, ..*old(self) }),
            !same_harness(final(self).spec_selected_harness(), old(self).spec_selected_harness()) ==> {
                &&& events@.len() == 2
                &&& events@[0] is HarnessSelected
                &&& events@[1] is PendingHandoffChanged
            },
            same_harness(final(self).spec_selected_harness(), old(self).spec_selected_harness()) ==> {
                &&& events@.len() == 1
                &&& events@[0] is PendingHandoffChanged
            },
    {
        let previous_harness = self.selected_harness();
        self.pending_handoff = pending;
        let mut events: Vec<AmbientAgentViewModelEvent> = Vec::new();
        let current = self.selected_harness();
        if !harness_eq(&current, &previous_harness) {
            events.push(AmbientAgentViewModelEvent::HarnessSelected);
        }
        events.push(AmbientAgentViewModelEvent::PendingHandoffChanged);
        events
    }

    /// Records the handoff's workspace, if a handoff is pending.
    pub fn set_pending_handoff_workspace(&mut self, workspace: TouchedWorkspace) -> (e: Option<AmbientAgentViewModelEvent>)
        ensures
            match old(self).pending_handoff {
                Some(h) => {
                    &&& *final(self) == (AmbientAgentViewModel {
                        pending_handoff: Some(PendingHandoff { touched_workspace: Some(workspace), ..h }),
                        ..*old(self)
                    })
                    &&& e matches Some(ev) && ev is PendingHandoffChanged
                },
                None => *final(self) == *old(self) && e is None,
            },
    {
        match self.pending_handoff.take() {
            Some(mut handoff) => {
                handoff.touched_workspace = Some(workspace);
                self.pending_handoff = Some(handoff);
                Some(AmbientAgentViewModelEvent::PendingHandoffChanged)
            },
            None => None,
        }
    }

    /// Records where the handoff's snapshot upload stands, if a handoff is pending.
    pub fn set_pending_handoff_snapshot_upload(&mut self, snapshot_upload: SnapshotUploadStatus)
        -> (e: Option<AmbientAgentViewModelEvent>)
        ensures
            match old(self).pending_handoff {
                Some(h) => {
                    &&& *final(self) == (AmbientAgentViewModel {
                        pending_handoff: Some(PendingHandoff { snapshot_upload, ..h }),
                        ..*old(self)
                    })
                    &&& e matches Some(ev) && ev is PendingHandoffChanged
                },
                None => *final(self) == *old(self) && e is None,
            },
    {
        match self.pending_handoff.take() {
            Some(mut handoff) => {
                handoff.snapshot_upload = snapshot_upload;
                self.pending_handoff = Some(handoff);
                Some(AmbientAgentViewModelEvent::PendingHandoffChanged)
            },
            None => None,
        }
    }

    /// Records that the snapshot upload failed, and reports the failure.
    pub fn record_handoff_snapshot_upload_failed(&mut self, error_message: String) -> (events: Vec<AmbientAgentViewModelEvent>)
        ensures
            match old(self).pending_handoff {
                Some(h) => {
                    &&& *final(self) == (AmbientAgentViewModel {
                        pending_handoff: Some(PendingHandoff { snapshot_upload: SnapshotUploadStatus::Failed(error_message), ..h }),
                        ..*old(self)
                    })
                    &&& events@.len() == 2
                    &&& events@[0] is PendingHandoffChanged
                    &&& events@[1] matches AmbientAgentViewModelEvent::HandoffSnapshotUploadFailed { error_message: m } && m == error_message
                },
                None => {
                    &&& *final(self) == *old(self)
                    &&& events@.len() == 1
                    &&& events@[0] matches AmbientAgentViewModelEvent::HandoffSnapshotUploadFailed { error_message: m } && m == error_message
                },
            },
    {
        let mut events: Vec<AmbientAgentViewModelEvent> = Vec::new();
        match self.set_pending_handoff_snapshot_upload(SnapshotUploadStatus::Failed(error_message.clone())) {
            Some(e) => events.push(e),
            None => {},
        }
        events.push(AmbientAgentViewModelEvent::HandoffSnapshotUploadFailed { error_message });
        events
    }

    pub fn harness_command_started(&self) -> (b: bool)
        ensures
            b == self.harness_command_started,
    {
        self.harness_command_started
    }

    /// Marks the harness command started, and says so the first time.
    pub fn mark_harness_command_started(&mut self) -> (e: Option<AmbientAgentViewModelEvent>)
        ensures
            *final(self) == (AmbientAgentViewModel { harness_command_started: true, ..*old(self) }),
            !old(self).harness_command_started ==> (e matches Some(ev) && ev is HarnessCommandStarted),
            old(self).harness_command_started ==> e is None,
    {
        if !self.harness_command_started {
            self.harness_command_started = true;
            Some(AmbientAgentViewModelEvent::HarnessCommandStarted)
        } else {
            None
        }
    }

    pub fn set_environment_id(&mut self, environment_id: Option<SyncId>) -> (e: AmbientAgentViewModelEvent)
        ensures
            *final(self) == (AmbientAgentViewModel { environment_id, ..*old(self) }),
            e is EnvironmentSelected,
    {
        self.environment_id = environment_id;
        AmbientAgentViewModelEvent::EnvironmentSelected
    }

    pub fn is_ambient_agent(&self) -> (b: bool)
        ensures
            b,
    {
        true
    }

    pub fn task_id(&self) -> (t: Option<AmbientAgentTaskId>)
        ensures
            t == self.task_id,
    {
        match &self.task_id {
            Some(t) => Some(t.clone()),
            None => None,
        }
    }

    pub fn is_in_setup(&self) -> (b: bool)
        ensures
            b == self.status is Setup,
    {
        match self.status {
            Status::Setup => true,
            _ => false,
        }
    }

    pub fn is_configuring_ambient_agent(&self) -> (b: bool)
        ensures
            b == self.status is Composing,
    {
        match self.status {
            Status::Composing => true,
            _ => false,
        }
    }

    pub fn is_waiting_for_session(&self) -> (b: bool)
        ensures
            b == self.status is WaitingForSession,
    {
        match self.status {
            Status::WaitingForSession { .. } => true,
            _ => false,
        }
    }

    pub fn is_failed(&self) -> (b: bool)
        ensures
            b == self.status is Failed,
    {
        match self.status {
            Status::Failed { .. } => true,
            _ => false,
        }
    }

    pub fn is_cancelled(&self) -> (b: bool)
        ensures
            b == self.status is Cancelled,
    {
        match self.status {
            Status::Cancelled { .. } => true,
            _ => false,
        }
    }

    pub fn is_needs_github_auth(&self) -> (b: bool)
        ensures
            b == self.status is NeedsGithubAuth,
    {
        match self.status {
            Status::NeedsGithubAuth { .. } => true,
            _ => false,
        }
    }

    pub fn is_agent_running(&self) -> (b: bool)
        ensures
            b == self.status is AgentRunning,
    {
        match self.status {
            Status::AgentRunning => true,
            _ => false,
        }
    }

    /// Whether the status footer shows: while a run waits, failed, needs
    /// GitHub authorization or was cancelled.
    pub fn should_show_status_footer(&self) -> (b: bool)
        ensures
            b == shows_progress(self.status),
    {
        self.is_waiting_for_session() || self.is_failed() || self.is_needs_github_auth() || self.is_cancelled()
    }

    /// The failure's message, when the run failed.
    pub fn error_message(&self) -> (m: Option<&str>)
        ensures
            match self.status {
                Status::Failed { error_message, .. } => m matches Some(s) && s@ == error_message@,
                _ => m is None,
            },
    {
        match &self.status {
            Status::Failed { error_message, .. } => Some(error_message.as_str()),
            _ => None,
        }
    }

    pub fn github_auth_url(&self) -> (u: Option<&str>)
        ensures
            u is None,
    {
        None
    }

    pub fn github_auth_error_message(&self) -> (m: Option<&str>)
        ensures
            m is None,
    {
        None
    }

    pub fn enter_setup(&mut self) -> (e: AmbientAgentViewModelEvent)
        ensures
            *final(self) == (AmbientAgentViewModel { status: Status::Setup, ..*old(self) }),
            e is EnteredSetupState,
    {
        self.status = Status::Setup;
        AmbientAgentViewModelEvent::EnteredSetupState
    }

    pub fn enter_composing_from_setup(&mut self) -> (e: AmbientAgentViewModelEvent)
        ensures
            *final(self) == (AmbientAgentViewModel { status: Status::Composing, ..*old(self) }),
            e is EnteredComposingState,
    {
        self.status = Status::Composing;
        AmbientAgentViewModelEvent::EnteredComposingState
    }

    /// Opens an existing run: it is recorded, and fails as every run does in this build.
    pub fn enter_viewing_existing_session(&mut self, task_id: AmbientAgentTaskId) -> (e: AmbientAgentViewModelEvent)
        ensures
            *final(self) == (AmbientAgentViewModel { status: final(self).status, task_id: Some(task_id), ..*old(self) }),
            is_disabled_failure(final(self).status),
            e matches AmbientAgentViewModelEvent::Failed { error_message } && error_message@ == oss_disabled_message(),
    {
        self.task_id = Some(task_id);
        self.status = Status::Failed { progress: AgentProgress::new_stopped(), error_message: oss_disabled_message_string() };
        AmbientAgentViewModelEvent::Failed { error_message: oss_disabled_message_string() }
    }

    /// Attaches the session of a follow-up: it becomes the active one and the agent runs.
    pub fn attach_followup_session(&mut self, session_id: SessionId) -> (e: AmbientAgentViewModelEvent)
        ensures
            *final(self) == (AmbientAgentViewModel {
                status: Status::AgentRunning,
                pending_followup_prompt: None,
                active_execution_session_id: Some(session_id),
                last_ended_execution_session_id: None,
                ..*old(self)
            }),
            e == (AmbientAgentViewModelEvent::FollowupSessionReady { session_id }),
    {
        self.pending_followup_prompt = None;
        self.active_execution_session_id = Some(session_id.clone());
        self.last_ended_execution_session_id = None;
        self.status = Status::AgentRunning;
        AmbientAgentViewModelEvent::FollowupSessionReady { session_id }
    }

    /// Records that a session's execution ended: it is no longer the active one.
    pub fn record_ambient_execution_ended(&mut self, session_id: SessionId)
        ensures
            *final(self) == (AmbientAgentViewModel {
                active_execution_session_id: if old(self).active_execution_session_id matches Some(a) && a.0@ == session_id.0@ {
                    None
                } else {
                    old(self).active_execution_session_id
                },
                last_ended_execution_session_id: Some(session_id),
                ..*old(self)
            }),
    {
        let is_active = match &self.active_execution_session_id {
            Some(active) => str_eq(active.0.as_str(), session_id.0.as_str()),
            None => false,
        };
        if is_active {
            self.active_execution_session_id = None;
        }
        self.last_ended_execution_session_id = Some(session_id);
    }

    /// Fails the run as this build does, dropping any follow-up prompt.
    fn fail_disabled(&mut self) -> (e: AmbientAgentViewModelEvent)
        ensures
            *final(self) == (AmbientAgentViewModel { status: final(self).status, pending_followup_prompt: None, ..*old(self) }),
            is_disabled_failure(final(self).status),
            e matches AmbientAgentViewModelEvent::Failed { error_message } && error_message@ == oss_disabled_message(),
    {
        self.status = Status::Failed { progress: AgentProgress::new_stopped(), error_message: oss_disabled_message_string() };
        self.pending_followup_prompt = None;
        AmbientAgentViewModelEvent::Failed { error_message: oss_disabled_message_string() }
    }

    /// Submits a follow-up prompt; the run fails as every run does in this build.
    pub fn submit_cloud_followup(&mut self, prompt: String) -> (e: AmbientAgentViewModelEvent)
        ensures
            *final(self) == (AmbientAgentViewModel { status: final(self).status, pending_followup_prompt: None, ..*old(self) }),
            is_disabled_failure(final(self).status),
            e matches AmbientAgentViewModelEvent::Failed { error_message } && error_message@ == oss_disabled_message(),
    {
        self.pending_followup_prompt = Some(prompt);
        self.fail_disabled()
    }

    pub fn status(&self) -> (s: &Status)
        ensures
            *s == self.status,
    {
        &self.status
    }

    pub fn pending_followup_prompt(&self) -> (p: Option<&str>)
        ensures
            match self.pending_followup_prompt {
                Some(s) => p matches Some(q) && q@ == s@,
                None => p is None,
            },
    {
        match &self.pending_followup_prompt {
            Some(s) => Some(s.as_str()),
            None => None,
        }
    }

    /// Whether a follow-up's progress shows: one is pending and the status shows progress.
    pub fn should_show_followup_progress(&self) -> (b: bool)
        ensures
            b == (self.pending_followup_prompt is Some && shows_progress(self.status)),
    {
        self.pending_followup_prompt.is_some() && match self.status {
            Status::WaitingForSession { .. } | Status::Failed { .. } | Status::NeedsGithubAuth { .. } | Status::Cancelled { .. } => true,
            _ => false,
        }
    }

    /// Clears the run so that a new prompt can be composed; the harness, host,
    /// request and handoff stay.
    pub fn reset_for_new_cloud_prompt(&mut self)
        ensures
            final(self).setup_commands_state@ == (SetupCommandStateView {
                did_execute: false,
                current: 0,
                next: 1,
                expanded: Map::<u64, bool>::empty().insert(0, true),
                running: Some(0u64),
            }),
            *final(self) == (AmbientAgentViewModel {
                status: Status::Composing,
                environment_id: None,
                task_id: None,
                conversation_id: None,
                harness_command_started: false,
                active_execution_session_id: None,
                last_ended_execution_session_id: None,
                pending_followup_prompt: None,
                setup_commands_state: final(self).setup_commands_state,
                ..*old(self)
            }),
    {
        self.status = Status::Composing;
        self.environment_id = None;
        self.task_id = None;
        self.conversation_id = None;
        self.harness_command_started = false;
        self.active_execution_session_id = None;
        self.last_ended_execution_session_id = None;
        self.pending_followup_prompt = None;
        self.setup_commands_state = SetupCommandState::default();
    }

    pub fn set_conversation_id(&mut self, id: Option<AIConversationId>)
        ensures
            *final(self) == (AmbientAgentViewModel { conversation_id: id, ..*old(self) }),
    {
        self.conversation_id = id;
    }

    /// The configuration a run is spawned with: the chosen environment and host.
    pub fn build_default_spawn_config(&self) -> (c: AgentConfigSnapshot)
        ensures
            c.environment_id == match self.environment_id {
                Some(id) => Some(id.0),
                None => None::<String>,
            },
            c.worker_host == self.worker_host,
    {
        AgentConfigSnapshot {
            environment_id: match &self.environment_id {
                Some(id) => Some(id.0.clone()),
                None => None,
            },
            worker_host: match &self.worker_host {
                Some(h) => Some(h.clone()),
                None => None,
            },
        }
    }

    /// The request for a new run of the prompt with its attachments.
    fn new_spawn_request(&self, prompt: String, attachments: Vec<AttachmentInput>) -> (r: SpawnAgentRequest)
        ensures
            r.prompt == prompt,
            r.mode == UserQueryMode::Normal,
            r.config matches Some(c) && c.environment_id == match self.environment_id {
                Some(id) => Some(id.0),
                None => None::<String>,
            } && c.worker_host == self.worker_host,
            r.title is None,
            r.attachments == attachments,
            r.conversation_id is None,
            r.initial_snapshot_token is None,
    {
        SpawnAgentRequest {
            prompt,
            mode: UserQueryMode::Normal,
            config: Some(self.build_default_spawn_config()),
            title: None,
            attachments,
            conversation_id: None,
            initial_snapshot_token: None,
        }
    }

    /// Spawns a run of the prompt: the request is kept, and the run fails as
    /// every run does in this build.
    pub fn spawn_agent(&mut self, prompt: String, attachments: Vec<AttachmentInput>) -> (e: AmbientAgentViewModelEvent)
        ensures
            final(self).request matches Some(r) && r.prompt == prompt && r.attachments == attachments
                && r.conversation_id is None
                && (r.config matches Some(c) && c.worker_host == old(self).worker_host),
            *final(self) == (AmbientAgentViewModel {
                status: final(self).status,
                request: final(self).request,
                pending_followup_prompt: None,
                ..*old(self)
            }),
            is_disabled_failure(final(self).status),
            e matches AmbientAgentViewModelEvent::Failed { error_message } && error_message@ == oss_disabled_message(),
    {
        let request = self.new_spawn_request(prompt, attachments);
        self.spawn_agent_with_request(request)
    }

    /// Spawns a run of the request: it is kept, and the run fails as every run
    /// does in this build.
    pub fn spawn_agent_with_request(&mut self, request: SpawnAgentRequest) -> (e: AmbientAgentViewModelEvent)
        ensures
            *final(self) == (AmbientAgentViewModel {
                status: final(self).status,
                request: Some(request),
                pending_followup_prompt: None,
                ..*old(self)
            }),
            is_disabled_failure(final(self).status),
            e matches AmbientAgentViewModelEvent::Failed { error_message } && error_message@ == oss_disabled_message(),
    {
        self.request = Some(request);
        self.fail_disabled()
    }

    /// Submits the handoff: the request continues the forked conversation and
    /// the handoff is marked starting; the run fails as every run does in this build.
    pub fn submit_handoff(&mut self, prompt: String, attachments: Vec<AttachmentInput>) -> (e: AmbientAgentViewModelEvent)
        ensures
            final(self).request matches Some(r) && r.prompt == prompt && r.attachments == attachments
                && r.conversation_id == match old(self).pending_handoff {
                    Some(h) => Some(h.forked_conversation_id),
                    None => None::<String>,
                },
            final(self).pending_handoff == match old(self).pending_handoff {
                Some(h) => Some(PendingHandoff { submission_state: HandoffSubmissionState::Starting, ..h }),
                None => None,
            },
            *final(self) == (AmbientAgentViewModel {
                status: final(self).status,
                request: final(self).request,
                pending_followup_prompt: None,
                pending_handoff: final(self).pending_handoff,
                ..*old(self)
            }),
            is_disabled_failure(final(self).status),
            e matches AmbientAgentViewModelEvent::Failed { error_message } && error_message@ == oss_disabled_message(),
    {
        let mut request = self.new_spawn_request(prompt, attachments);
        match self.pending_handoff.take() {
            Some(mut handoff) => {
                handoff.submission_state = HandoffSubmissionState::Starting;
                request.conversation_id = Some(handoff.forked_conversation_id.clone());
                self.pending_handoff = Some(handoff);
            },
            None => {},
        }
        self.spawn_agent_with_request(request)
    }

    /// Cancels the run, dropping any follow-up prompt.
    pub fn cancel_task(&mut self) -> (e: AmbientAgentViewModelEvent)
        ensures
            *final(self) == (AmbientAgentViewModel { status: final(self).status, pending_followup_prompt: None, ..*old(self) }),
            final(self).status matches Status::Cancelled { progress } && is_stopped_at_spawn(progress),
            e is Cancelled,
    {
        self.status = Status::Cancelled { progress: AgentProgress::new_stopped() };
        self.pending_followup_prompt = None;
        AmbientAgentViewModelEvent::Cancelled
    }
}

/// Setting a group's visibility is what `should_expand` then reads for it,
/// and leaves every other group as it was.
pub proof fn law_visibility_is_read_back(v: SetupCommandStateView, group: u64, value: bool, other: u64)
    ensures
        spec_should_expand(SetupCommandStateView { expanded: v.expanded.insert(group, value), ..v }, group) == value,
        other != group ==> spec_should_expand(SetupCommandStateView { expanded: v.expanded.insert(group, value), ..v }, other)
            == spec_should_expand(v, other),
{
}

/// A new group gets an id above every id handed out before, and is current,
/// running and expanded.
pub proof fn law_new_group_is_fresh(v: SetupCommandStateView, issued: u64)
    requires
        v.next < u64::MAX,
        issued < v.next,
    ensures
        ({
            let w = SetupCommandStateView {
                did_execute: false,
                current: v.next,
                next: (v.next + 1) as u64,
                expanded: v.expanded.insert(v.next, true),
                running: Some(v.next),
            };
            &&& w.current > issued
            &&& w.current < w.next
            &&& w.running == Some(w.current)
            &&& spec_should_expand(w, w.current)
        }),
{
}

/// Finishing the running group leaves no group running; finishing another
/// group changes nothing.
pub proof fn law_finish_stops_running(v: SetupCommandStateView, group: u64)
    ensures
        ({
            let w = SetupCommandStateView { running: if v.running == Some(group) { None } else { v.running }, ..v };
            &&& w.running != Some(group)
            &&& v.running != Some(group) ==> w == v
        }),
{
}

/// While a handoff is pending the selected harness is Oz, whatever was chosen.
pub proof fn law_handoff_runs_on_oz(m: AmbientAgentViewModel)
    requires
        m.pending_handoff is Some,
    ensures
        m.spec_selected_harness() == Harness::Oz,
{
}

/// Every run fails with the disabled message, and its status then shows in
/// the footer.
pub proof fn law_disabled_failure_shows(s: Status)
    requires
        is_disabled_failure(s),
    ensures
        shows_progress(s),
        s is Failed,
{
}

/// Whether every call in `ops` that starts a group finds an id left to hand
/// out, as `start_new_group` requires of each call.
pub open spec fn starts_have_ids(v: SetupCommandStateView, ops: Seq<SetupCommandOp>) -> bool {
    forall|k: int| 0 <= k < ops.len() && #[trigger] ops[k] == SetupCommandOp::StartNewGroup
        ==> setup_run(v, ops.take(k)).next < u64::MAX
}

/// Along any calls that a program can make, the current group stays below the
/// next id.
pub proof fn lemma_setup_run_ids(v: SetupCommandStateView, ops: Seq<SetupCommandOp>, k: int)
    requires
        v.current < v.next,
        starts_have_ids(v, ops),
        0 <= k <= ops.len(),
    ensures
        setup_run(v, ops.take(k)).current < setup_run(v, ops.take(k)).next,
    decreases k,
{
    if k > 0 {
        lemma_setup_run_ids(v, ops, k - 1);
        assert(ops.take(k).drop_last() =~= ops.take(k - 1));
        assert(ops.take(k).last() == ops[k - 1]);
    }
}

/// The next id never falls along the calls that a program can make.
pub proof fn lemma_setup_run_next_grows(v: SetupCommandStateView, ops: Seq<SetupCommandOp>, i: int, j: int)
    requires
        starts_have_ids(v, ops),
        0 <= i <= j <= ops.len(),
    ensures
        setup_run(v, ops.take(i)).next <= setup_run(v, ops.take(j)).next,
    decreases j - i,
{
    if i < j {
        lemma_setup_run_next_grows(v, ops, i, j - 1);
        assert(ops.take(j).drop_last() =~= ops.take(j - 1));
        assert(ops.take(j).last() == ops[j - 1]);
    }
}

/// A group started by any call in a history of calls gets an id that was never
/// the current group before it: not at the start, nor after any earlier call.
/// It holds of every state a program holds (whose current group lies below the
/// next id, as `current_group_id` ensures) and every history it can make.
pub proof fn law_new_group_never_current_before(v: SetupCommandStateView, ops: Seq<SetupCommandOp>, i: int, j: int)
    requires
        v.current < v.next,
        starts_have_ids(v, ops),
        0 <= i <= j < ops.len(),
        ops[j] == SetupCommandOp::StartNewGroup,
    ensures
        setup_run(v, ops.take(i)).current != setup_run(v, ops.take(j + 1)).current,
        setup_run(v, ops.take(j + 1)).current == setup_run(v, ops.take(j)).next,
{
    lemma_setup_run_ids(v, ops, i);
    lemma_setup_run_next_grows(v, ops, i, j);
    assert(ops.take(j + 1).drop_last() =~= ops.take(j));
    assert(ops.take(j + 1).last() == ops[j]);
}

/// From the first state (`SetupCommandState::default`), every group a history
/// starts gets an id that no earlier point of the history had as current.
pub proof fn law_new_group_never_current_from_default(ops: Seq<SetupCommandOp>, i: int, j: int)
    requires
        starts_have_ids(default_setup_view(), ops),
        0 <= i <= j < ops.len(),
        ops[j] == SetupCommandOp::StartNewGroup,
    ensures
        setup_run(default_setup_view(), ops.take(i)).current != setup_run(default_setup_view(), ops.take(j + 1)).current,
{
    law_new_group_never_current_before(default_setup_view(), ops, i, j);
}

/// Whether a call leaves the did-execute flag alone.
pub open spec fn keeps_did_execute(op: SetupCommandOp) -> bool {
    op is SetShouldExpand || op is FinishGroup
}

/// The did-execute flag reads back the value last set, however many group
/// visibility changes and group finishes follow.
pub proof fn law_did_execute_reads_back(v: SetupCommandStateView, value: bool, rest: Seq<SetupCommandOp>)
    requires
        forall|i: int| 0 <= i < rest.len() ==> keeps_did_execute(#[trigger] rest[i]),
    ensures
        setup_run(setup_step(v, SetupCommandOp::SetDidExecute(value)), rest).did_execute == value,
    decreases rest.len(),
{
    if rest.len() > 0 {
        let prefix = rest.drop_last();
        assert forall|i: int| 0 <= i < prefix.len() implies keeps_did_execute(#[trigger] prefix[i]) by {
            assert(prefix[i] == rest[i]);
        }
        law_did_execute_reads_back(v, value, prefix);
        assert(keeps_did_execute(rest[rest.len() - 1]));
    }
}

} // verus!
