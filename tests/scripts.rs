use comet::scripts::{ensure_valid_extension, get_app_info, get_auto_execute_dir_name, get_dylib_path, is_valid_script_file, sanitize_filename};

#[test]
fn extension_added_only_when_missing() {
    assert_eq!(ensure_valid_extension("hello"), "hello.lua");
    assert_eq!(ensure_valid_extension("hello.lua"), "hello.lua");
    assert_eq!(ensure_valid_extension("hello.luau"), "hello.luau");
    assert_eq!(ensure_valid_extension("notes.txt"), "notes.txt");
    assert_eq!(ensure_valid_extension("x.js"), "x.js.lua");
    assert_eq!(ensure_valid_extension(""), ".lua");
}

#[test]
fn script_files_are_visible_with_known_extension() {
    assert!(is_valid_script_file("a.lua"));
    assert!(is_valid_script_file("a.txt"));
    assert!(!is_valid_script_file(".hidden.lua"));
    assert!(!is_valid_script_file(".DS_Store"));
    assert!(!is_valid_script_file("image.png"));
}

#[test]
fn tab_titles_are_sanitized() {
    assert_eq!(sanitize_filename("my tab!"), "my_tab_.lua");
    assert_eq!(sanitize_filename("script.lua"), "script.lua");
    assert_eq!(sanitize_filename("a/b\\c"), "a_b_c.lua");
    assert_eq!(sanitize_filename("x-y_z.1"), "x-y_z.1.lua");
    assert_eq!(sanitize_filename("é"), "é.lua");
}

#[test]
fn executor_directory_by_app_name() {
    assert_eq!(get_auto_execute_dir_name("Comet"), "Hydrogen");
    assert_eq!(get_auto_execute_dir_name("HYDROGEN"), "Hydrogen");
    assert_eq!(get_auto_execute_dir_name("Ronix"), "Ronix");
}

#[test]
fn app_info_by_app_name() {
    let (name, url) = get_app_info("comet");
    assert_eq!(name, "Hydrogen");
    assert_eq!(url, "https://www.hydrogen.lat/install");
    let (name, url) = get_app_info("Other");
    assert_eq!(name, "Ronix");
    assert_eq!(url, "https://www.ronixmac.lol/install");
}

#[test]
fn dylib_path_in_bundle() {
    assert_eq!(get_dylib_path("Hydrogen"), "/Applications/Hydrogen.app/Contents/MacOS/Hydrogen.dylib");
}
