use warp_oss_shims::editor::{
    format_image_markdown, mermaid_asset_source, resolve_asset_source_relative_to_directory, AssetSource, EditOrigin,
    InitialBufferState, LineCount,
};
use warp_oss_shims::ids::{CLIAgent, ClientProfileId, EntityId, LLMId};
use warp_oss_shims::settings_pages::SettingsSection;
use warp_oss_shims::tab_configs::{
    BranchPicker, GuidedModalSessionType, NewWorktreeModal, NewWorktreeModalAction, NewWorktreeModalEvent, RepoPicker,
    RepoPickerAction, RepoPickerEvent, SessionConfigModal, SessionConfigModalAction, SessionConfigModalEffect,
    SessionConfigModalEvent, SessionType, TabConfigsTelemetryEvent, TabConfigsTelemetryEventDiscriminants, TelemetryValue,
    WorktreeBranchNamingMode, NewWorktreeConfigOpenSource,
};
use warp_oss_shims::terminal_views::{
    InitProjectModel, InitProjectModelEvent, InitStepKind, InitActionResult, ProfileModelSelector,
    ProfileModelSelectorAction, ProfileModelSelectorEvent, model_item_position_id,
};
use warp_oss_shims::watcher::BulkFilesystemWatcherEvent;

#[test]
fn line_count_arithmetic() {
    let a = LineCount::from(7);
    let b = LineCount(3);
    assert_eq!((a + b).as_usize(), 10);
    assert_eq!((a - b).as_usize(), 4);
    assert_eq!(b.saturating_sub(&a), LineCount(0));
    assert_eq!(a.saturating_sub(&b), LineCount(4));
    assert_eq!(LineCount((1usize << 32) + 5).as_u32(), 5);
}

#[test]
fn image_markdown_escapes_titles() {
    assert_eq!(format_image_markdown("alt", "a.png", None), "![alt](a.png)");
    assert_eq!(format_image_markdown("alt", "a.png", Some("")), "![alt](a.png)");
    assert_eq!(format_image_markdown("alt", "a.png", Some("say \"hi\" \\o/")), "![alt](a.png \"say \\\"hi\\\" \\\\o/\")");
}

#[test]
fn editor_bits() {
    assert!(EditOrigin::UserTyped.from_user());
    assert!(EditOrigin::UserInitiated.from_user());
    assert!(!EditOrigin::RemoteEdit.from_user());
    assert_eq!(InitialBufferState::plain_text("x").text, "x");
    assert_eq!(mermaid_asset_source("graph"), AssetSource::Raw { id: "graph".to_string() });
    assert_eq!(
        resolve_asset_source_relative_to_directory("img.png", None),
        AssetSource::LocalFile { path: "img.png".to_string() }
    );
    match resolve_asset_source_relative_to_directory("img.png", Some("/home/u")) {
        AssetSource::LocalFile { path } => assert_eq!(path, "/home/u/img.png"),
        other => panic!("unexpected {:?}", other),
    }
}

#[test]
fn session_config_modal_flow() {
    let mut m = SessionConfigModal::new(vec![SessionType::Terminal, SessionType::Oz]);
    assert!(matches!(m.handle_action(&SessionConfigModalAction::SelectSessionType(1)), SessionConfigModalEffect::Nothing));
    m.handle_action(&SessionConfigModalAction::DirectorySelected(Ok("/work".to_string())));
    m.handle_action(&SessionConfigModalAction::DirectorySelected(Err("cancelled".to_string())));
    match m.handle_action(&SessionConfigModalAction::Submit) {
        SessionConfigModalEffect::Emit(SessionConfigModalEvent::Completed(sel)) => {
            assert_eq!(sel.session_type, SessionType::Oz);
            assert_eq!(sel.directory, "/work");
            assert!(!sel.enable_worktree);
        }
        _ => panic!("expected completion"),
    }
    assert_eq!(m.selected_directory, "/work");
    assert_eq!(m.selected_session_type_index, 1);
    assert_eq!(m.session_types.len(), 2);
    assert!(matches!(m.handle_action(&SessionConfigModalAction::OpenDirectoryPicker), SessionConfigModalEffect::OpenDirectoryPicker));
    assert!(matches!(m.handle_action(&SessionConfigModalAction::Dismiss), SessionConfigModalEffect::Emit(SessionConfigModalEvent::Dismissed)));
}

#[test]
fn session_modal_starts_at_home_or_root() {
    let m = SessionConfigModal::with_home(vec![SessionType::Terminal], Some("/home/me".to_string()));
    assert_eq!(m.selected_directory, "/home/me");
    assert_eq!(m.selected_session_type_index, 0);
    assert!(m.show_session_type_row);
    let r = SessionConfigModal::with_home(vec![SessionType::Terminal], None);
    assert_eq!(r.selected_directory, "/");
}

#[test]
fn pickers() {
    let mut r = RepoPicker::new(None);
    assert_eq!(r.selected_value(), None);
    assert!(matches!(r.handle_action(&RepoPickerAction::Select("/r".to_string())), RepoPickerEvent::Selected(ref v) if v == "/r"));
    assert_eq!(r.selected_value(), Some("/r".to_string()));
    assert!(r.toggle_dropdown());
    assert!(!r.toggle_dropdown());
    let mut b = BranchPicker::new(None, Some("main".to_string()));
    assert_eq!(b.handle_action(&"dev".to_string()), "dev");
    assert_eq!(b.selected_value(), Some("main".to_string()));
    let mut b2 = BranchPicker::new(None, None);
    b2.handle_action(&"dev".to_string());
    assert_eq!(b2.selected_value(), Some("dev".to_string()));
    let mut w = NewWorktreeModal::new();
    assert!(matches!(w.handle_action(&NewWorktreeModalAction::Escape), Some(NewWorktreeModalEvent::Close)));
    assert!(w.handle_action(&NewWorktreeModalAction::Open).is_none());
}

#[test]
fn telemetry_events() {
    let e = TabConfigsTelemetryEvent::NewWorktreeConfigOpened {
        source: NewWorktreeConfigOpenSource::NewWorktreeModal,
        naming_mode: WorktreeBranchNamingMode::Auto,
    };
    assert_eq!(e.name(), "TelemetryDisabled");
    assert!(!e.contains_ugc());
    assert_eq!(
        e.payload().unwrap(),
        vec![
            ("source".to_string(), TelemetryValue::Text("new_worktree_modal".to_string())),
            ("naming_mode".to_string(), TelemetryValue::Text("auto".to_string())),
        ]
    );
    assert_eq!(e.discriminant().name(), "TabConfigs.NewWorktreeConfigOpened");
    assert!(TabConfigsTelemetryEvent::GuidedModalOpened.payload().is_none());
    let submitted = TabConfigsTelemetryEvent::GuidedModalSubmitted {
        session_type: GuidedModalSessionType::CliAgent,
        enable_worktree: true,
        autogenerate_worktree_branch_name: false,
    };
    assert_eq!(
        submitted.payload().unwrap(),
        vec![
            ("session_type".to_string(), TelemetryValue::Text("cli_agent".to_string())),
            ("enable_worktree".to_string(), TelemetryValue::Bool(true)),
            ("autogenerate_worktree_branch_name".to_string(), TelemetryValue::Bool(false)),
        ]
    );
    assert_eq!(TabConfigsTelemetryEventDiscriminants::GuidedModalOpened.description(), "User opened the guided Create a tab config modal");
    assert_eq!(GuidedModalSessionType::from(&SessionType::CliAgent(CLIAgent("aider".to_string()))), GuidedModalSessionType::CliAgent);
}

#[test]
fn profile_model_selector_menus() {
    let mut s = ProfileModelSelector::new(EntityId(1));
    let ev = s.handle_action(&ProfileModelSelectorAction::ToggleProfileMenu);
    assert!(matches!(ev.as_slice(), [ProfileModelSelectorEvent::MenuVisibilityChanged { open: true }]));
    s.handle_action(&ProfileModelSelectorAction::ToggleModelMenu);
    assert!(s.is_open());
    let ev = s.handle_action(&ProfileModelSelectorAction::SelectModel(LLMId("m".to_string())));
    assert_eq!(ev.len(), 2);
    assert!(matches!(ev[0], ProfileModelSelectorEvent::MenuVisibilityChanged { open: true }));
    assert!(matches!(ev[1], ProfileModelSelectorEvent::MenuVisibilityChanged { open: false }));
    assert!(!s.is_open());
    assert!(s.handle_action(&ProfileModelSelectorAction::SelectAutoModel).is_empty());
    let ev = s.handle_action(&ProfileModelSelectorAction::ManageProfiles);
    assert!(matches!(ev[0], ProfileModelSelectorEvent::OpenSettings(SettingsSection::AgentProfiles)));
    assert_eq!(ProfileModelSelectorAction::SelectModel(LLMId("m".to_string())).selected_model_id(), Some(LLMId("m".to_string())));
    assert_eq!(ProfileModelSelectorAction::SelectProfile(ClientProfileId("p".to_string())).selected_model_id(), None);
    let id = s.model_menu_item_position_id(&LLMId("model-a".to_string()));
    assert!(id.starts_with("profile_model_selector_model_item_"));
    assert_ne!(id, "profile_model_selector_model_item_");
    assert_eq!(id, "profile_model_selector_model_item_LLMId(\"model-a\")");
    let quoted = LLMId("a\"b'c\n".to_string());
    assert_eq!(
        s.model_menu_item_position_id(&quoted),
        format!("profile_model_selector_model_item_{:?}", quoted)
    );
    assert_eq!(model_item_position_id("x"), "profile_model_selector_model_item_x");
}

#[test]
fn profile_menu_toggled_twice_is_restored() {
    let mut s = ProfileModelSelector::new(EntityId(2));
    s.handle_action(&ProfileModelSelectorAction::ToggleModelMenu);
    s.handle_action(&ProfileModelSelectorAction::ToggleProfileMenu);
    let ev = s.handle_action(&ProfileModelSelectorAction::ToggleProfileMenu);
    assert!(matches!(ev.as_slice(), [ProfileModelSelectorEvent::MenuVisibilityChanged { open: true }]));
    assert!(!s.is_profile_menu_open);
    assert!(s.is_model_menu_open);
    s.handle_action(&ProfileModelSelectorAction::SelectAutoModel);
    assert!(s.handle_action(&ProfileModelSelectorAction::SelectAutoModel).is_empty());
    assert!(!s.is_open());
}

#[test]
fn init_project_steps() {
    let mut m = InitProjectModel::new("/p".to_string(), Some("/bin".to_string()));
    assert_eq!(m.start(), InitProjectModelEvent::InitCompleted);
    m.mark_step_running(InitStepKind::LanguageServers);
    m.disable_regenerate_button();
    assert_eq!(m.path_env_var(), Some(&"/bin".to_string()));
    let ev = m.mark_step_completed(InitStepKind::LanguageServers, InitActionResult::Welcome);
    assert_eq!(ev, vec![InitProjectModelEvent::StepCompleted(InitStepKind::LanguageServers), InitProjectModelEvent::InitCompleted]);
    assert_eq!(InitStepKind::CreateEnvironment.step_number(), 4);
    assert!(!m.is_cancelled());
    assert_eq!(m.cancel(), InitProjectModelEvent::Cancelled);
    assert!(m.is_cancelled());
    assert_eq!(m.root_path(), "/p");
    m.start();
    assert!(m.is_cancelled());
    assert_eq!(m.path_env_var(), Some(&"/bin".to_string()));
}

#[test]
fn watcher_sets() {
    let e = BulkFilesystemWatcherEvent {
        added: vec!["a".to_string(), "b".to_string()],
        modified: vec!["b".to_string(), "c".to_string()],
        deleted: vec![],
        moved: vec![],
    };
    assert_eq!(e.added_or_updated_iter(), vec!["a", "b", "b", "c"]);
    let mut s = e.added_or_updated_set();
    s.sort();
    assert_eq!(s, vec!["a", "b", "c"]);
}
