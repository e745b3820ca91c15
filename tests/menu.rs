use comet::menu::{sort_by_order, tray_menu, MenuEntry};
use comet::tray::{CustomTrayScript, TrayConfig};

fn script(id: &str, name: &str, order: usize) -> CustomTrayScript {
    CustomTrayScript { id: id.to_string(), name: name.to_string(), content: String::new(), order }
}

fn item(id: &str, label: &str) -> MenuEntry {
    MenuEntry::Item { id: id.to_string(), label: label.to_string(), enabled: true }
}

fn header(id: &str, title: &str) -> MenuEntry {
    MenuEntry::Item { id: format!("header_{}", id), label: format!("• {} •", title), enabled: false }
}

#[test]
fn custom_scripts_sorted_stably_by_order() {
    let scripts = vec![script("a", "A", 3), script("b", "B", 1), script("c", "C", 3), script("d", "D", 0)];
    let sorted = sort_by_order(&scripts);
    let ids: Vec<&str> = sorted.iter().map(|s| s.id.as_str()).collect();
    assert_eq!(ids, vec!["d", "b", "a", "c"]);
}

#[test]
fn disabled_tray_has_no_menu() {
    let mut c = TrayConfig::default_config();
    c.enabled = false;
    assert!(tray_menu(&c, None).is_empty());
}

#[test]
fn full_tray_menu() {
    let mut c = TrayConfig::default_config();
    c.custom_scripts.push(script("x", "Second", 2));
    c.custom_scripts.push(script("y", "First", 1));
    let catalog = vec![("iy".to_string(), "Infinite Yield".to_string())];
    let menu = tray_menu(&c, Some(&catalog));
    assert_eq!(
        menu,
        vec![
            header("window", "Window Controls"),
            item("open", "Show Window"),
            item("hide", "Hide Window"),
            MenuEntry::Separator,
            header("custom", "Custom Scripts"),
            item("custom_y", "Execute First"),
            item("custom_x", "Execute Second"),
            MenuEntry::Separator,
            header("scripts", "Scripts"),
            item("execute_iy", "Execute Infinite Yield"),
            item("last_script", "Execute Last Script"),
            MenuEntry::Separator,
            header("app", "App Controls"),
            item("quit", "Quit App"),
        ]
    );
}

#[test]
fn tray_menu_without_catalog() {
    let mut c = TrayConfig::default_config();
    c.show_last_script = false;
    let menu = tray_menu(&c, None);
    assert_eq!(menu.len(), 9);
    assert_eq!(
        menu[5],
        MenuEntry::Item { id: "failed_fetch".to_string(), label: "Failed to fetch scripts".to_string(), enabled: false }
    );
    c.show_scripts = false;
    assert_eq!(tray_menu(&c, None).len(), 6);
}
