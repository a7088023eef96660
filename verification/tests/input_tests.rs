use warp_oss_shims::ai_settings::{
    AISettings, AgentModeCommandExecutionPredicate, OperatingSystem, VoiceInputToggleKey,
};
use warp_oss_shims::search::{
    floor_char_boundary, is_valid_search_query, safe_truncate, AIContextMenu, AIContextMenuAction, AIContextMenuEvent,
};
use warp_oss_shims::slash_commands::{
    all_commands, strip_command_prefix, unavailable_command, Registry, SlashCommandId,
};
use warp_oss_shims::tab_configs::TabConfig;

#[test]
fn search_query_rules() {
    assert!(is_valid_search_query(false, "", "hello world"));
    assert!(!is_valid_search_query(false, "", "two\nlines"));
    assert!(!is_valid_search_query(false, "", "double  space"));
    assert!(is_valid_search_query(true, "ab", "ab c"));
    assert!(!is_valid_search_query(true, "ab", "ab c d"));
    assert!(is_valid_search_query(true, "abcdef", "ab"));
}

#[test]
fn floor_boundary_and_truncate() {
    let s = "aé"; // bytes: a, c3, a9
    assert_eq!(floor_char_boundary(s, 0), 0);
    assert_eq!(floor_char_boundary(s, 2), 1);
    assert_eq!(floor_char_boundary(s, 3), 3);
    assert_eq!(floor_char_boundary(s, 10), 3);
    let mut t = String::from("aéb");
    safe_truncate(&mut t, 2);
    assert_eq!(t, "a");
    let mut u = t.clone();
    safe_truncate(&mut u, 2);
    assert_eq!(u, t);
    let mut w = String::from("short");
    safe_truncate(&mut w, 100);
    assert_eq!(w, "short");
}

#[test]
fn context_menu_reports_query_length() {
    let mut m = AIContextMenu::new();
    m.update_search_query("héllo".to_string());
    match m.close() {
        AIContextMenuEvent::Close { query_length, item_count } => {
            assert_eq!(query_length, 6);
            assert_eq!(item_count, Some(0));
        }
        _ => panic!("expected close"),
    }
    m.reset_menu_state();
    assert!(matches!(m.handle_action(&AIContextMenuAction::Close), Some(AIContextMenuEvent::Close { query_length: 0, .. })));
    assert!(m.handle_action(&AIContextMenuAction::Next).is_none());
    assert!(!m.should_render());
}

#[test]
fn strip_prefix_cases() {
    assert_eq!(strip_command_prefix("/rename-tab my tab", "/rename-tab"), Some("my tab".to_string()));
    assert_eq!(strip_command_prefix("/rename-tab", "/rename-tab"), None);
    assert_eq!(strip_command_prefix("/rename-tabx", "/rename-tab"), None);
    assert_eq!(strip_command_prefix("anything", ""), None);
    assert_eq!(strip_command_prefix(" rest", ""), Some("rest".to_string()));
    assert_eq!(strip_command_prefix("/a ", "/a"), Some(String::new()));
}

#[test]
fn commands_of_this_build() {
    let colors = vec!["Red".to_string(), "Blue".to_string()];
    let v = all_commands(true, true, true, &colors);
    assert_eq!(v.len(), 5);
    assert_eq!(v[1].name, "/rename-tab");
    assert_eq!(all_commands(false, true, false, &colors).len(), 3);
    assert_eq!(unavailable_command().name, "");
}

#[test]
fn registry_finds_commands() {
    let colors = vec!["Red".to_string()];
    let r = Registry::new(false, false, false, &colors);
    assert_eq!(r.all_commands().len(), 3);
    let id = *r.get_command_id_with_name("/rename-tab").unwrap();
    assert_eq!(r.get_command(&id).unwrap().name, "/rename-tab");
    assert_eq!(r.get_command_with_name("/rename-tab").unwrap().name, "/rename-tab");
    assert!(r.get_command_with_name("/nope").is_none());
    let by_id = r.all_commands_by_id();
    assert_eq!(by_id.len(), 3);
    let fixed = Registry::from_commands_with_ids(
        vec![unavailable_command(), all_commands(false, false, false, &colors)[0].clone()],
        vec![SlashCommandId(7), SlashCommandId(7)],
    );
    assert_eq!(fixed.all_commands_by_id().len(), 1);
    assert_eq!(fixed.get_command(&SlashCommandId(7)).unwrap().name, all_commands(false, false, false, &colors)[0].name);
}

#[test]
fn command_predicates_match_whole_commands() {
    let p = AgentModeCommandExecutionPredicate::new_regex("ls( -la)?").unwrap();
    assert!(p.matches("ls"));
    assert!(p.matches("ls -la"));
    assert!(!p.matches("ls -la /"));
    assert_eq!(p.to_string(), "ls( -la)?");
    assert!(AgentModeCommandExecutionPredicate::new_regex("(").is_err());
}

#[test]
fn voice_keys() {
    assert_eq!(VoiceInputToggleKey::AltLeft.display_name(&OperatingSystem::Mac), "Option (Left)");
    assert_eq!(VoiceInputToggleKey::AltLeft.display_name(&OperatingSystem::Windows), "Alt (Left)");
    let mac = VoiceInputToggleKey::all_possible_values(&OperatingSystem::Mac);
    let win = VoiceInputToggleKey::all_possible_values(&OperatingSystem::Windows);
    assert_eq!(mac.len(), win.len() + 1);
    assert_eq!(VoiceInputToggleKey::ShiftRight.tooltip_message("⇧"), "Voice input (hold Right ⇧ key)");
    assert!(VoiceInputToggleKey::NoKey.is_none());
}

#[test]
fn default_tab_config_resolution() {
    let mut s = AISettings::new();
    let configs = vec![
        TabConfig { name: "a".to_string(), source_path: Some("/x".to_string()) },
        TabConfig { name: "b".to_string(), source_path: Some("/y".to_string()) },
    ];
    assert_eq!(s.resolved_default_tab_config(&configs), None);
    s.default_tab_config_path = "/y".to_string();
    assert_eq!(s.resolved_default_tab_config(&configs).unwrap().name, "b");
    s.default_tab_config_path = "/x/".to_string();
    assert_eq!(s.resolved_default_tab_config(&configs).unwrap().name, "a");
    assert!(!s.is_any_ai_enabled());
    assert!(s.is_plugin_install_chip_dismissed("k"));
}
