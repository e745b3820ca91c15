use comet::tabs::{arrange_tabs, Tab, TabState};
use comet::tray::{tray_action, CustomTrayScript, TrayAction, TrayConfig, TrayError};
use comet::workspace::{workspace_id, Workspace, WorkspaceError, WorkspaceState};

fn ws(id: &str, name: &str) -> Workspace {
    Workspace { id: id.to_string(), name: name.to_string(), path: format!("/w/{}", id) }
}

fn ids(state: &WorkspaceState) -> Vec<String> {
    state.workspaces.iter().map(|w| w.id.clone()).collect()
}

#[test]
fn workspace_id_from_name() {
    assert_eq!(workspace_id("My Space"), "my-space");
    assert_eq!(workspace_id("A  B"), "a--b");
}

#[test]
fn initial_workspace_state() {
    let s = WorkspaceState::initial("/w/default".to_string());
    assert_eq!(s.active_workspace.as_deref(), Some("default"));
    assert_eq!(s.workspaces.len(), 1);
    assert_eq!(s.workspaces[0].name, "Default");
    assert_eq!(s.workspaces[0].path, "/w/default");
}

#[test]
fn create_workspace_rejects_duplicate_id() {
    let mut s = WorkspaceState::initial("/w/default".to_string());
    let w = s.create_workspace("My Space", "/w/my-space".to_string()).unwrap();
    assert_eq!(w.id, "my-space");
    assert_eq!(w.name, "My Space");
    assert_eq!(ids(&s), vec!["default", "my-space"]);
    let e = s.create_workspace("my space", "/w/x".to_string()).unwrap_err();
    assert_eq!(e, WorkspaceError::AlreadyExists("my space".to_string()));
    assert_eq!(e.message(), "Workspace with name 'my space' already exists");
    assert_eq!(s.workspaces.len(), 2);
}

#[test]
fn delete_workspace_rules() {
    let mut s = WorkspaceState::initial("/w/default".to_string());
    assert_eq!(s.delete_workspace("default"), Err(WorkspaceError::LastWorkspace));
    assert_eq!(WorkspaceError::LastWorkspace.message(), "Cannot delete the last workspace");
    s.workspaces.push(ws("b", "B"));
    assert_eq!(s.delete_workspace("default"), Err(WorkspaceError::ActiveWorkspace));
    assert_eq!(WorkspaceError::ActiveWorkspace.message(), "Cannot delete the active workspace");
    assert_eq!(s.delete_workspace("b"), Ok(()));
    assert_eq!(ids(&s), vec!["default"]);
}

#[test]
fn delete_unknown_workspace_changes_nothing() {
    let mut s = WorkspaceState { active_workspace: None, workspaces: vec![ws("a", "A"), ws("b", "B")] };
    assert_eq!(s.delete_workspace("zzz"), Ok(()));
    assert_eq!(ids(&s), vec!["a", "b"]);
}

#[test]
fn set_active_workspace_requires_existing() {
    let mut s = WorkspaceState { active_workspace: None, workspaces: vec![ws("a", "A"), ws("b", "B")] };
    assert_eq!(s.set_active_workspace("b"), Ok(()));
    assert_eq!(s.active_workspace.as_deref(), Some("b"));
    let e = s.set_active_workspace("c").unwrap_err();
    assert_eq!(e.message(), "Workspace 'c' not found");
    assert_eq!(s.active_workspace.as_deref(), Some("b"));
}

#[test]
fn rename_workspace_rules() {
    let mut s = WorkspaceState { active_workspace: None, workspaces: vec![ws("a", "Alpha"), ws("b", "Beta")] };
    assert_eq!(s.rename_workspace("a", "BETA"), Err(WorkspaceError::AlreadyExists("BETA".to_string())));
    assert_eq!(s.rename_workspace("b", "beta"), Ok(()));
    assert_eq!(s.workspaces[1].name, "beta");
    assert_eq!(s.rename_workspace("z", "Zeta"), Err(WorkspaceError::NotFound("z".to_string())));
    assert_eq!(s.rename_workspace("a", "Gamma"), Ok(()));
    assert_eq!(s.workspaces[0].name, "Gamma");
    assert_eq!(s.workspaces[0].id, "a");
}

fn script(id: &str, order: usize) -> CustomTrayScript {
    CustomTrayScript { id: id.to_string(), name: format!("n{}", id), content: format!("c{}", id), order }
}

fn orders(c: &TrayConfig) -> Vec<(String, usize)> {
    c.custom_scripts.iter().map(|s| (s.id.clone(), s.order)).collect()
}

#[test]
fn tray_default_config() {
    let c = TrayConfig::default_config();
    assert!(c.enabled && c.show_scripts && c.show_last_script);
    assert!(c.custom_scripts.is_empty());
    assert_eq!(c.next_order(), 1);
}

#[test]
fn tray_add_places_after_largest_order() {
    let mut c = TrayConfig::default_config();
    c.custom_scripts.push(script("a", 4));
    c.custom_scripts.push(script("b", 2));
    assert_eq!(c.next_order(), 5);
    c.add_custom_script("c".to_string(), "C".to_string(), "print(3)".to_string());
    assert_eq!(orders(&c), vec![("a".to_string(), 4), ("b".to_string(), 2), ("c".to_string(), 5)]);
}

#[test]
fn tray_new_script_gets_random_id() {
    let mut c = TrayConfig::default_config();
    let id1 = c.add_new_custom_script("X".to_string(), "x".to_string());
    let id2 = c.add_new_custom_script("Y".to_string(), "y".to_string());
    assert_eq!(id1.len(), 32);
    assert!(id1.chars().all(|ch| ch.is_ascii_hexdigit()));
    assert_ne!(id1, id2);
    assert_eq!(c.custom_scripts[0].id, id1);
    assert_eq!(c.custom_scripts[1].order, 2);
}

#[test]
fn tray_update_and_remove() {
    let mut c = TrayConfig::default_config();
    c.custom_scripts.push(script("a", 1));
    c.custom_scripts.push(script("b", 2));
    assert_eq!(c.update_custom_script("b", Some("Bee".to_string()), None, Some(9)), Ok(()));
    assert_eq!(c.custom_scripts[1].name, "Bee");
    assert_eq!(c.custom_scripts[1].content, "cb");
    assert_eq!(c.custom_scripts[1].order, 9);
    let e = c.update_custom_script("z", None, None, None).unwrap_err();
    assert_eq!(e.message(), "Script with ID z not found");
    assert_eq!(c.remove_custom_script("a"), Ok(()));
    assert_eq!(orders(&c), vec![("b".to_string(), 9)]);
    assert_eq!(c.remove_custom_script("a"), Err(TrayError::NotFound("a".to_string())));
}

#[test]
fn tray_reorder() {
    let mut c = TrayConfig::default_config();
    c.custom_scripts.push(script("a", 1));
    c.custom_scripts.push(script("b", 2));
    c.custom_scripts.push(script("c", 3));
    assert_eq!(c.reorder_custom_scripts(&["c".to_string(), "a".to_string()]), Ok(()));
    assert_eq!(orders(&c), vec![("a".to_string(), 1), ("b".to_string(), 2), ("c".to_string(), 0)]);
    let r = c.reorder_custom_scripts(&["b".to_string(), "q".to_string(), "r".to_string()]);
    assert_eq!(r, Err(TrayError::NotFound("q".to_string())));
    assert_eq!(orders(&c), vec![("a".to_string(), 1), ("b".to_string(), 2), ("c".to_string(), 0)]);
}

#[test]
fn tray_click_actions() {
    assert_eq!(tray_action("header_window"), TrayAction::Ignore);
    assert_eq!(tray_action("open"), TrayAction::ShowWindow);
    assert_eq!(tray_action("hide"), TrayAction::HideWindow);
    assert_eq!(tray_action("execute_dex"), TrayAction::ExecuteScript("dex".to_string()));
    assert_eq!(tray_action("custom_42"), TrayAction::ExecuteCustom("42".to_string()));
    assert_eq!(tray_action("last_script"), TrayAction::ExecuteLastScript);
    assert_eq!(tray_action("quit"), TrayAction::Quit);
    assert_eq!(tray_action("other"), TrayAction::Ignore);
}

fn tab(id: &str) -> Tab {
    Tab::from_file(id.to_string(), format!("-- {}", id))
}

fn tab_ids(tabs: &[Tab]) -> Vec<String> {
    tabs.iter().map(|t| t.id.clone()).collect()
}

#[test]
fn tabs_follow_saved_order() {
    let tabs = vec![tab("a.lua"), tab("b.lua"), tab("c.lua"), tab("d.lua")];
    let state = TabState {
        active_tab: None,
        tab_order: vec!["c.lua".to_string(), "a.lua".to_string(), "c.lua".to_string()],
    };
    let r = arrange_tabs(tabs, Some(&state));
    assert_eq!(tab_ids(&r), vec!["c.lua", "a.lua", "b.lua", "d.lua"]);
    assert_eq!(r[0].language, "lua");
}

#[test]
fn tabs_without_state_keep_order_and_default_when_empty() {
    let r = arrange_tabs(vec![tab("b.lua"), tab("a.lua")], None);
    assert_eq!(tab_ids(&r), vec!["b.lua", "a.lua"]);
    let r = arrange_tabs(Vec::new(), None);
    assert_eq!(tab_ids(&r), vec!["untitled.lua"]);
    assert_eq!(r[0].content, "-- New File\n");
    let s = TabState::default_state();
    assert_eq!(s.active_tab.as_deref(), Some("untitled.lua"));
    assert_eq!(s.tab_order, vec!["untitled.lua".to_string()]);
}
