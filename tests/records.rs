use comet::config::{BrandConfig, CometConfig, DisconnectConfig, NotificationConfig};
use comet::execute::ExecuteError;
use comet::flags::{parse_client_flags, FlagCache};
use comet::history::{cap_large_history, is_large_history, save_execution_record, ExecutionRecord};
use comet::key::{calculate_days_remaining, decode_jwt_payload, hardware_uuid, pad_base64, KeyStatus};
use comet::logs::{log_line_to_emit, next_read_offset, should_notify_disconnect, Logger};
use comet::permissions::{expand_path, PathPermissionStatus, PermissionsCheckResult};
use comet::profiles::{get_fast_flags_path, ActiveProfileManager, FastFlagsProfileManager};
use comet::search::{to_decimal, RScriptSearchParams, ScriptSearchParams};

fn rec(id: &str) -> ExecutionRecord {
    ExecutionRecord { id: id.to_string(), timestamp: 1, content: String::new(), success: true, error: None }
}

fn pairs(v: &[(&str, &str)]) -> Vec<(String, String)> {
    v.iter().map(|(a, b)| (a.to_string(), b.to_string())).collect()
}

#[test]
fn history_newest_first_and_capped() {
    let h = save_execution_record(vec![rec("a"), rec("b")], rec("c"), 2);
    assert_eq!(h.iter().map(|r| r.id.as_str()).collect::<Vec<_>>(), vec!["c", "a"]);
    let h = save_execution_record(Vec::new(), rec("x"), 5);
    assert_eq!(h.len(), 1);
    let h = save_execution_record(vec![rec("a")], rec("x"), 0);
    assert!(h.is_empty());
    assert!(is_large_history(5_000_001));
    assert!(!is_large_history(5_000_000));
    let big: Vec<ExecutionRecord> = (0..1200).map(|i| rec(&i.to_string())).collect();
    let capped = cap_large_history(big);
    assert_eq!(capped.len(), 1000);
    assert_eq!(capped[999].id, "999");
}

#[test]
fn base64_padding() {
    assert_eq!(pad_base64("ab-_c"), "ab+/c===");
    assert_eq!(pad_base64("abcd"), "abcd");
    assert_eq!(pad_base64("abcdef"), "abcdef==");
    assert_eq!(pad_base64(""), "");
}

#[test]
fn days_remaining() {
    assert_eq!(calculate_days_remaining(100, 200), 0);
    assert_eq!(calculate_days_remaining(200, 200), 0);
    assert_eq!(calculate_days_remaining(86400 * 3 + 5, 0), 3);
    assert_eq!(calculate_days_remaining(86399, 0), 0);
}

#[test]
fn key_status_records() {
    let s = KeyStatus::from_expiry(86400 * 2 + 10, 10);
    assert!(s.success && s.key_found && s.valid);
    assert_eq!(s.days_remaining, Some(2));
    assert_eq!(s.expires_at, Some(86400 * 2 + 10));
    let s = KeyStatus::from_expiry(100, 50);
    assert!(!s.valid);
    assert_eq!(s.days_remaining, Some(0));
    let f = KeyStatus::failure(7, true, "boom".to_string());
    assert!(!f.success && !f.valid && f.key_found);
    assert_eq!(f.error.as_deref(), Some("boom"));
}

#[test]
fn jwt_payload_decoding() {
    assert_eq!(decode_jwt_payload("x.eyJhIjoxfQ.y").unwrap(), b"{\"a\":1}".to_vec());
    assert_eq!(decode_jwt_payload("h.eyJtIjoiPz8_In0.s").unwrap(), b"{\"m\":\"??\x3f\"}".to_vec());
    assert_eq!(decode_jwt_payload("a.b").unwrap_err(), "Invalid JWT format");
    assert_eq!(decode_jwt_payload("a.b.c.d").unwrap_err(), "Invalid JWT format");
    assert!(decode_jwt_payload("a.!!!!.c").unwrap_err().starts_with("Failed to decode base64: "));
}

#[test]
fn client_flags_are_parsed_per_line() {
    let text = "[C++] FFlagA\n[Lua] FIntB  \nnoise [C++]x\n[C++]   FFlagA\r\n[Java] FNot\n[Lua]\nFSplit";
    let names = parse_client_flags(text);
    assert_eq!(names, vec!["FFlagA".to_string(), "FIntB".to_string()]);
    assert!(parse_client_flags("").is_empty());
}

#[test]
fn flags_validated_against_cache() {
    let flags = vec!["A".to_string(), "B".to_string(), "C".to_string()];
    let empty = FlagCache::empty();
    assert!(empty.validate_flags(&flags).is_empty());
    let mut cache = FlagCache::empty();
    cache.refresh(Some(vec!["A".to_string()]), None);
    assert_eq!(cache.validate_flags(&flags), vec!["B".to_string(), "C".to_string()]);
    cache.refresh(None, Some(vec!["C".to_string()]));
    assert_eq!(cache.validate_flags(&flags), vec!["B".to_string()]);
    assert_eq!(cache.mac, Some(vec!["A".to_string()]));
}

#[test]
fn disconnect_notice_cooldown() {
    let line = "2024 [FLog::Network] Connection lost to server";
    assert!(should_notify_disconnect(100, 0, line));
    assert!(!should_notify_disconnect(100, 97, line));
    assert!(should_notify_disconnect(100, 95, line));
    assert!(should_notify_disconnect(100, 200, line));
    assert!(!should_notify_disconnect(100, 0, "all good"));
}

#[test]
fn log_lines_are_trimmed() {
    assert_eq!(log_line_to_emit("  hello \n"), Some("hello".to_string()));
    assert_eq!(log_line_to_emit(" \t\n"), None);
    assert_eq!(log_line_to_emit(""), None);
}

#[test]
fn log_rotation_counts() {
    let l = Logger::new("/logs".to_string(), "/logs/comet.log".to_string());
    assert!(!l.needs_rotation(10 * 1024 * 1024 - 1));
    assert!(l.needs_rotation(10 * 1024 * 1024));
    assert_eq!(l.files_to_remove(9), 0);
    assert_eq!(l.files_to_remove(10), 1);
    assert_eq!(l.files_to_remove(13), 4);
}

#[test]
fn permissions_summary_and_home_expansion() {
    let ok = PermissionsCheckResult::from_statuses(vec![
        PathPermissionStatus { path: "~/a".to_string(), has_permission: true },
        PathPermissionStatus { path: "~/b".to_string(), has_permission: true },
    ]);
    assert!(ok.all_permitted);
    let bad = PermissionsCheckResult::from_statuses(vec![
        PathPermissionStatus { path: "~/a".to_string(), has_permission: true },
        PathPermissionStatus { path: "~/b".to_string(), has_permission: false },
    ]);
    assert!(!bad.all_permitted);
    assert!(PermissionsCheckResult::from_statuses(Vec::new()).all_permitted);
    assert_eq!(expand_path("~/Hydrogen", "/Users/me"), "/Users/me/Hydrogen");
    assert_eq!(expand_path("/abs", "/Users/me"), "/abs");
}

#[test]
fn config_brand_lookup() {
    let c = CometConfig {
        notifications: NotificationConfig {
            title: "Comet".to_string(),
            disconnect: DisconnectConfig { body: "Disconnected".to_string() },
        },
        brands: vec![(
            "comet".to_string(),
            BrandConfig { product_name: "Comet".to_string(), icon_path: "icon.png".to_string() },
        )],
    };
    assert_eq!(c.brand(&"comet".to_string()).unwrap().product_name, "Comet");
    assert!(c.brand(&"other".to_string()).is_none());
}

#[test]
fn execute_error_messages() {
    assert_eq!(ExecuteError::ConnectionError("x".to_string()).message(), "Failed to connect to server: x");
    assert_eq!(ExecuteError::ExecutionError("y".to_string()).message(), "Failed to execute script: y");
}

#[test]
fn decimal_numbers() {
    assert_eq!(to_decimal(0), "0");
    assert_eq!(to_decimal(7), "7");
    assert_eq!(to_decimal(1203), "1203");
    assert_eq!(to_decimal(u64::MAX), "18446744073709551615");
}

#[test]
fn script_search_query() {
    let p = ScriptSearchParams {
        q: "aim".to_string(),
        page: Some(2),
        max: None,
        mode: Some("free".to_string()),
        patched: Some(0),
        key: None,
        universal: Some(1),
        verified: None,
        sort_by: Some("views".to_string()),
        order: None,
        strict: Some(false),
    };
    assert_eq!(
        p.query_pairs(),
        pairs(&[("q", "aim"), ("page", "2"), ("mode", "free"), ("patched", "0"), ("universal", "1"), ("sortBy", "views"), ("strict", "false")])
    );
    let r = RScriptSearchParams { page: Some(10), order_by: None, sort: Some("desc".to_string()), q: Some("fly".to_string()) };
    assert_eq!(r.query_pairs(), pairs(&[("page", "10"), ("sort", "desc"), ("q", "fly")]));
}

#[test]
fn profile_paths() {
    let a = ActiveProfileManager::new("/data");
    assert_eq!(a.state_file, "/data/active_profile.json");
    let m = FastFlagsProfileManager::new("/p".to_string());
    assert_eq!(m.profile_path("fast"), "/p/fast.json");
    assert_eq!(m.active_profile_file(), "/p/active_profile.json");
    assert!(FastFlagsProfileManager::is_profile_file("x.json"));
    assert!(!FastFlagsProfileManager::is_profile_file("active_profile.json"));
    assert!(!FastFlagsProfileManager::is_profile_file("x.txt"));
    assert_eq!(get_fast_flags_path(), "/Applications/Roblox.app/Contents/MacOS/ClientSettings/ClientAppSettings.json");
}

#[test]
fn hardware_uuid_from_profiler_output() {
    let out = "Hardware:\n\n    Hardware Overview:\n      Model Name: MacBook\n      Hardware UUID: 1234-ABCD \r\n      Other UUID: x\n";
    assert_eq!(hardware_uuid(out), Ok("1234-ABCD".to_string()));
    assert_eq!(hardware_uuid("Hardware UUID without colon\nHardware UUID: last"), Ok("last".to_string()));
    assert_eq!(hardware_uuid("nothing here"), Err("Could not find Hardware UUID".to_string()));
    assert_eq!(hardware_uuid(""), Err("Could not find Hardware UUID".to_string()));
}

#[test]
fn log_tail_resume_offset() {
    assert_eq!(next_read_offset(10, 25), Some(10));
    assert_eq!(next_read_offset(10, 10), None);
    assert_eq!(next_read_offset(10, 4), Some(0));
    assert_eq!(next_read_offset(10, 0), None);
    assert_eq!(next_read_offset(0, 0), None);
}
