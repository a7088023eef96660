use warp_oss_shims::ambient_agent::{
    AmbientAgentViewModel, AmbientAgentViewModelEvent, Harness, HandoffSubmissionState, PendingHandoff,
    SetupCommandGroupId, SetupCommandState, SnapshotUploadStatus, Status,
};
use warp_oss_shims::ambient_views::{exits_agent_view_on, FirstTimeCloudAgentSetupViewEvent, Host, HostSelector, HostSelectorAction, HostSelectorEvent};
use warp_oss_shims::ids::{AttachmentInput, CLIAgent, EntityId, SessionId, SyncId, TouchedWorkspace};

const DISABLED: &str = "Cloud agents are disabled in OSS builds";

#[test]
fn setup_groups_start_expanded_and_running() {
    let s = SetupCommandState::default();
    let g0 = s.current_group_id();
    assert_eq!(g0, SetupCommandGroupId(0));
    assert!(s.should_expand(g0));
    assert!(s.is_running(g0));
    assert!(!s.did_execute_a_setup_command());
    assert!(s.should_expand(SetupCommandGroupId(17)));
}

#[test]
fn new_groups_are_fresh_and_finish_stops_running() {
    let mut s = SetupCommandState::default();
    s.set_did_execute_a_setup_command(true);
    let g1 = s.start_new_group();
    let g2 = s.start_new_group();
    assert_eq!(g1, SetupCommandGroupId(1));
    assert_eq!(g2, SetupCommandGroupId(2));
    assert!(!s.did_execute_a_setup_command());
    assert!(s.is_running(g2));
    assert!(!s.is_running(g1));
    s.finish_group(g1);
    assert!(s.is_running(g2));
    s.finish_group(g2);
    assert!(!s.is_running(g2));
}

#[test]
fn did_execute_flag_reads_back_last_set() {
    let mut s = SetupCommandState::default();
    assert!(!s.did_execute_a_setup_command());
    s.set_did_execute_a_setup_command(true);
    let g = s.current_group_id();
    s.set_should_expand(g, false);
    s.finish_group(g);
    assert!(s.did_execute_a_setup_command());
    s.set_did_execute_a_setup_command(false);
    assert!(!s.did_execute_a_setup_command());
}

#[test]
fn visibility_is_read_back() {
    let mut s = SetupCommandState::default();
    let g = s.current_group_id();
    s.set_should_expand(g, false);
    assert!(!s.should_expand(g));
    s.set_should_expand(g, true);
    assert!(s.should_expand(g));
    let c = s.clone();
    assert!(c.should_expand(g));
}

#[test]
fn view_model_starts_composing() {
    let m = AmbientAgentViewModel::new(EntityId(3));
    assert!(m.is_configuring_ambient_agent());
    assert!(!m.should_show_status_footer());
    assert!(m.request().is_none());
    assert_eq!(m.selected_harness(), Harness::Oz);
    assert!(!m.is_third_party_harness());
    assert!(m.is_ambient_agent());
    assert_eq!(m.error_message(), None);
}

#[test]
fn every_spawn_fails_disabled() {
    let mut m = AmbientAgentViewModel::new(EntityId(1));
    m.set_worker_host(Some("warp".to_string()));
    m.set_environment_id(Some(SyncId("env".to_string())));
    let e = m.spawn_agent("fix it".to_string(), vec![AttachmentInput("a".to_string())]);
    assert!(matches!(e, AmbientAgentViewModelEvent::Failed { ref error_message } if error_message == DISABLED));
    assert!(m.is_failed());
    assert_eq!(m.error_message(), Some(DISABLED));
    assert!(m.should_show_status_footer());
    let req = m.request().unwrap();
    assert_eq!(req.prompt, "fix it");
    let cfg = req.config.as_ref().unwrap();
    assert_eq!(cfg.environment_id.as_deref(), Some("env"));
    assert_eq!(cfg.worker_host.as_deref(), Some("warp"));
    let p = m.agent_progress().unwrap();
    assert_eq!(p.stopped_at, Some(p.spawned_at));
}

#[test]
fn followup_prompt_is_dropped_when_disabled() {
    let mut m = AmbientAgentViewModel::new(EntityId(1));
    m.submit_cloud_followup("more".to_string());
    assert_eq!(m.pending_followup_prompt(), None);
    assert!(!m.should_show_followup_progress());
}

#[test]
fn cancel_and_reset() {
    let mut m = AmbientAgentViewModel::new(EntityId(1));
    assert!(matches!(m.cancel_task(), AmbientAgentViewModelEvent::Cancelled));
    assert!(m.is_cancelled());
    m.reset_for_new_cloud_prompt();
    assert!(m.is_configuring_ambient_agent());
    assert!(m.task_id().is_none());
}

#[test]
fn followup_session_runs_and_ends() {
    let mut m = AmbientAgentViewModel::new(EntityId(1));
    let s = SessionId("s1".to_string());
    m.attach_followup_session(s.clone());
    assert!(m.is_agent_running());
    assert_eq!(m.active_execution_session_id, Some(s.clone()));
    m.record_ambient_execution_ended(SessionId("other".to_string()));
    assert_eq!(m.active_execution_session_id, Some(s.clone()));
    m.record_ambient_execution_ended(s.clone());
    assert_eq!(m.active_execution_session_id, None);
    assert_eq!(m.last_ended_execution_session_id, Some(s));
}

#[test]
fn handoff_forces_oz_and_submits_forked_conversation() {
    let mut m = AmbientAgentViewModel::new(EntityId(1));
    let aider = Harness::ThirdParty(CLIAgent("aider".to_string()));
    assert!(m.set_harness(aider.clone()).is_some());
    assert!(m.set_harness(aider.clone()).is_none());
    assert!(m.is_third_party_harness());
    let events = m.set_pending_handoff(Some(PendingHandoff {
        forked_conversation_id: "conv".to_string(),
        touched_workspace: None,
        snapshot_upload: SnapshotUploadStatus::Pending,
        submission_state: HandoffSubmissionState::Idle,
    }));
    assert_eq!(events.len(), 2);
    assert_eq!(m.selected_harness(), Harness::Oz);
    assert!(!m.is_handoff_ready_to_submit());
    m.set_pending_handoff_workspace(TouchedWorkspace("ws".to_string()));
    assert!(!m.is_handoff_ready_to_submit());
    m.set_pending_handoff_snapshot_upload(SnapshotUploadStatus::SkippedEmptyWorkspace);
    assert!(m.is_handoff_ready_to_submit());
    m.submit_handoff("go".to_string(), vec![]);
    assert_eq!(m.request().unwrap().conversation_id.as_deref(), Some("conv"));
    assert!(!m.is_handoff_ready_to_submit());
    let events = m.record_handoff_snapshot_upload_failed("boom".to_string());
    assert_eq!(events.len(), 2);
    assert!(matches!(&events[1], AmbientAgentViewModelEvent::HandoffSnapshotUploadFailed { error_message } if error_message == "boom"));
}

#[test]
fn setup_command_visibility_events() {
    let mut m = AmbientAgentViewModel::new(EntityId(1));
    assert!(m.set_setup_command_visibility(true).is_none());
    assert!(m.set_setup_command_visibility(false).is_some());
    assert!(matches!(m.start_new_setup_command_group(), AmbientAgentViewModelEvent::UpdatedSetupCommandVisibility));
    let g = m.setup_command_state().current_group_id();
    assert!(m.finish_setup_command_group(g).is_some());
    assert!(m.finish_setup_command_group(g).is_none());
    assert!(m.mark_harness_command_started().is_some());
    assert!(m.mark_harness_command_started().is_none());
}

#[test]
fn viewing_existing_session_fails_disabled() {
    let mut m = AmbientAgentViewModel::new(EntityId(1));
    m.enter_setup();
    assert!(m.is_in_setup());
    m.enter_viewing_existing_session(warp_oss_shims::ids::AmbientAgentTaskId("t".to_string()));
    assert!(matches!(m.status(), Status::Failed { .. }));
    assert_eq!(m.task_id().unwrap().0, "t");
}

#[test]
fn host_selector_and_worker_host() {
    let mut h = HostSelector::new();
    assert_eq!(h.selected().worker_host_value(), Some("warp".to_string()));
    h.set_default_host("mine".to_string());
    assert!(h.has_default_host());
    assert_eq!(h.selected().worker_host_value(), Some("mine".to_string()));
    let e = h.handle_action(&HostSelectorAction::SelectHost(Host::Warp));
    assert!(matches!(e, Some(HostSelectorEvent::HostSelected)));
    assert_eq!(*h.selected(), Host::Warp);
    assert!(h.handle_action(&HostSelectorAction::ToggleMenu).is_none());
    assert!(h.has_default_host());
    let mut fresh = HostSelector::new();
    fresh.handle_action(&HostSelectorAction::SelectHost(Host::SelfHosted { slug: "x".to_string() }));
    fresh.open_menu();
    assert!(!fresh.has_default_host());
    assert!(exits_agent_view_on(&FirstTimeCloudAgentSetupViewEvent::Cancelled));
    assert!(!exits_agent_view_on(&FirstTimeCloudAgentSetupViewEvent::EnvironmentCreated));
}
