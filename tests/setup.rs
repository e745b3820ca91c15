use comet::setup::{installer_script, needs_admin_removal, uninstall_paths};

#[test]
fn uninstall_paths_for_official_app() {
    let paths = uninstall_paths("/Users/me", "Comet");
    assert_eq!(
        paths,
        vec![
            "/Users/me/Hydrogen",
            "/Users/me/.hydrogen",
            "/Applications/Roblox.app",
            "/Users/me/Library/Application Support/Roblox",
            "/Users/me/Library/Caches/com.roblox.RobloxStudio",
            "/Users/me/Library/Caches/com.roblox.Roblox",
            "/Users/me/Library/Logs/Roblox",
            "/Users/me/Library/Preferences/com.roblox.Roblox.plist",
            "/Users/me/Library/Preferences/com.roblox.RobloxStudio.plist",
            "/Applications/Hydrogen.app",
        ]
    );
}

#[test]
fn uninstall_paths_for_other_app() {
    let paths = uninstall_paths("/home/u", "Ronix");
    assert_eq!(paths[0], "/home/u/Ronix");
    assert_eq!(paths[1], "/home/u/.ronix");
    assert_eq!(paths[9], "/Applications/Ronix.app");
}

#[test]
fn admin_needed_only_under_applications() {
    assert!(needs_admin_removal("/Applications/Roblox.app"));
    assert!(!needs_admin_removal("/Users/me/Hydrogen"));
}

#[test]
fn installer_script_embeds_url() {
    let s = installer_script("https://example.test/install");
    assert!(s.starts_with("#!/bin/bash\nset -e\n\ncurl -fsSL https://example.test/install > /tmp/install.sh\n"));
    assert!(s.ends_with("rm -f \"$0\"\nexit 0"));
}
