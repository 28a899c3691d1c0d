use file_transfer::api::{
    actuator_health_url, create_folder_request, delete_request, download_request,
    health_check_url, login_request, rename_request, upload_request,
};
use file_transfer::client::{
    initial_config_outcome, login_outcome, main_window_action, needs_folder_check,
    needs_server_check, startup_route, tray_action, update_config_outcome, MainWindowAction,
    Route, TrayAction, TrayEvent,
};
use file_transfer::ignore::IgnoreList;
use file_transfer::json::json_object_text;
use file_transfer::paths::{same_path, PathKey};
use file_transfer::synchronizer::{
    decide_event, local_sync_action, remote_sync_action, stop, websocket_request,
    websocket_url_text, Change, ChangeType, EventDecision, LocalSync, NodeType, RemoteSync,
    SyncSession, TreeAction, WatchEventKind,
};
use file_transfer::text::{decimal_string, replace_all_exec, trim_end_slashes};
use file_transfer::transfers::TransferRegistry;
use file_transfer::types::{Config, LoginResponse, Transfer, TransferState, TransferType};

fn key(parts: &[&str]) -> PathKey {
    PathKey { components: parts.iter().map(|p| p.to_string()).collect() }
}

fn transfer(kind: TransferType, state: TransferState, progress: u32, path: &str) -> Transfer {
    Transfer { transfer_type: kind, state, progress, path: path.to_string() }
}

fn configured_config() -> Config {
    Config {
        username: Some("ana".to_string()),
        password: Some("secret".to_string()),
        server_url: "http://localhost:3000".to_string(),
        folder_path: "/home/ana/sync".to_string(),
        token: None,
        refresh_token: None,
        is_configured: true,
    }
}

#[test]
fn config_default_values() {
    let c = Config::default();
    assert_eq!(c.username, None);
    assert_eq!(c.password, None);
    assert_eq!(c.server_url, "http://localhost:3000");
    assert_eq!(c.folder_path, "D:\\python\\codes\\fiverr\\testfolder\\f1");
    assert_eq!(c.token, None);
    assert_eq!(c.refresh_token, None);
    assert!(!c.is_configured);
}

#[test]
fn login_response_holds_tokens() {
    let r = LoginResponse { token: "t".to_string(), refresh_token: "r".to_string() };
    assert_eq!(r.token, "t");
    assert_eq!(r.refresh_token, "r");
}

#[test]
fn transfer_clone_keeps_fields() {
    let t = transfer(TransferType::Download, TransferState::Active, 42, "/a/b");
    let c = t.clone();
    assert_eq!(c.transfer_type, TransferType::Download);
    assert_eq!(c.state, TransferState::Active);
    assert_eq!(c.progress, 42);
    assert_eq!(c.path, "/a/b");
}

#[test]
fn registry_replaces_record_of_same_path() {
    let mut r = TransferRegistry::new();
    r.insert(key(&["docs", "a.txt"]), transfer(TransferType::Upload, TransferState::Active, 0, "docs/a.txt"));
    r.insert(key(&["docs", "b.txt"]), transfer(TransferType::Upload, TransferState::Completed, 100, "docs/b.txt"));
    r.insert(key(&["docs", "a.txt"]), transfer(TransferType::Upload, TransferState::Completed, 100, "docs/a.txt"));
    let done = r.get_completed_transfers();
    assert_eq!(done.len(), 2);
    assert_eq!(done[0].path, "docs/a.txt");
    assert_eq!(done[1].path, "docs/b.txt");
}

#[test]
fn registry_lists_only_completed() {
    let mut r = TransferRegistry::new();
    assert!(r.get_completed_transfers().is_empty());
    r.insert(key(&["x"]), transfer(TransferType::Download, TransferState::Active, 30, "x"));
    assert!(r.get_completed_transfers().is_empty());
    r.insert(key(&["x"]), transfer(TransferType::Download, TransferState::Completed, 100, "x"));
    let done = r.get_completed_transfers();
    assert_eq!(done.len(), 1);
    assert_eq!(done[0].progress, 100);
    assert_eq!(done[0].transfer_type, TransferType::Download);
    r.insert(key(&["x"]), transfer(TransferType::Upload, TransferState::Active, 0, "x"));
    assert!(r.get_completed_transfers().is_empty());
}

#[test]
fn path_keys_compare_by_components() {
    assert!(same_path(&key(&["/", "home", "f"]), &key(&["/", "home", "f"])));
    assert!(!same_path(&key(&["/", "home", "f"]), &key(&["/", "home"])));
    assert!(!same_path(&key(&["/", "home", "f"]), &key(&["/", "home", "g"])));
    let k = key(&["a", "b"]);
    assert!(same_path(&k.duplicate(), &k));
}

#[test]
fn ignore_list_insert_remove() {
    let mut l = IgnoreList::new();
    assert!(!l.contains(&key(&["r", "f"])));
    l.insert(key(&["r", "f"]));
    l.insert(key(&["r", "f"]));
    assert!(l.contains(&key(&["r", "f"])));
    assert!(!l.contains(&key(&["r", "g"])));
    l.remove(&key(&["r", "f"]));
    assert!(!l.contains(&key(&["r", "f"])));
    l.remove(&key(&["r", "f"]));
    assert!(!l.contains(&key(&["r", "f"])));
}

#[test]
fn ignore_list_contains_any() {
    let mut l = IgnoreList::new();
    l.insert(key(&["r", "f"]));
    assert!(l.contains_any(&vec![key(&["r", "g"]), key(&["r", "f"])]));
    assert!(!l.contains_any(&vec![key(&["r", "g"])]));
    assert!(!l.contains_any(&vec![]));
}

#[test]
fn events_on_ignored_paths_are_ignored() {
    let mut l = IgnoreList::new();
    l.insert(key(&["r", "f"]));
    let d = decide_event(WatchEventKind::CreateAny, &vec![key(&["r", "f"])], &l);
    assert_eq!(d, EventDecision::Ignored);
    let d = decide_event(WatchEventKind::Other, &vec![key(&["r", "x"]), key(&["r", "f"])], &l);
    assert_eq!(d, EventDecision::Ignored);
}

#[test]
fn event_kinds_map_to_tree_actions() {
    let l = IgnoreList::new();
    let p = vec![key(&["r", "f"])];
    assert_eq!(decide_event(WatchEventKind::CreateAny, &p, &l), EventDecision::Apply(TreeAction::AddNode));
    assert_eq!(decide_event(WatchEventKind::RemoveAny, &p, &l), EventDecision::Apply(TreeAction::DeleteNode));
    assert_eq!(decide_event(WatchEventKind::RenameFrom, &p, &l), EventDecision::Apply(TreeAction::DeleteNode));
    assert_eq!(decide_event(WatchEventKind::RenameTo, &p, &l), EventDecision::Apply(TreeAction::AddNodeIfReadable));
    assert_eq!(decide_event(WatchEventKind::ModifyAny, &p, &l), EventDecision::Apply(TreeAction::AddNodeIfReadable));
    assert_eq!(decide_event(WatchEventKind::Other, &p, &l), EventDecision::Apply(TreeAction::Nothing));
}

fn change(change_type: ChangeType, node_type: NodeType, path: &str) -> Change {
    Change { change_type, node_type, path: path.to_string() }
}

#[test]
fn local_changes_become_requests() {
    match local_sync_action(change(ChangeType::Added, NodeType::File, "a.txt")) {
        LocalSync::Upload { path } => assert_eq!(path, "a.txt"),
        _ => panic!("expected upload"),
    }
    match local_sync_action(change(ChangeType::Added, NodeType::Folder, "d")) {
        LocalSync::CreateFolder { path } => assert_eq!(path, "d"),
        _ => panic!("expected folder creation"),
    }
    match local_sync_action(change(ChangeType::Deleted, NodeType::Folder, "d")) {
        LocalSync::Delete { path } => assert_eq!(path, "d"),
        _ => panic!("expected deletion"),
    }
    match local_sync_action(change(ChangeType::Renamed { from: "old".to_string() }, NodeType::File, "new")) {
        LocalSync::Rename { from, to } => {
            assert_eq!(from, "old");
            assert_eq!(to, "new");
        }
        _ => panic!("expected rename"),
    }
    match local_sync_action(change(ChangeType::Modified, NodeType::File, "m")) {
        LocalSync::Upload { path } => assert_eq!(path, "m"),
        _ => panic!("expected upload"),
    }
}

#[test]
fn remote_changes_become_disk_actions() {
    match remote_sync_action(change(ChangeType::Added, NodeType::File, "a.txt")) {
        RemoteSync::Download { path } => assert_eq!(path, "a.txt"),
        _ => panic!("expected download"),
    }
    match remote_sync_action(change(ChangeType::Added, NodeType::Folder, "d")) {
        RemoteSync::CreateDir { path } => assert_eq!(path, "d"),
        _ => panic!("expected directory creation"),
    }
    match remote_sync_action(change(ChangeType::Deleted, NodeType::File, "f")) {
        RemoteSync::RemoveFile { path } => assert_eq!(path, "f"),
        _ => panic!("expected file removal"),
    }
    match remote_sync_action(change(ChangeType::Deleted, NodeType::Folder, "d")) {
        RemoteSync::RemoveDir { path } => assert_eq!(path, "d"),
        _ => panic!("expected directory removal"),
    }
    match remote_sync_action(change(ChangeType::Renamed { from: "old".to_string() }, NodeType::Folder, "new")) {
        RemoteSync::Rename { from, to } => {
            assert_eq!(from, "old");
            assert_eq!(to, "new");
        }
        _ => panic!("expected rename"),
    }
    match remote_sync_action(change(ChangeType::Modified, NodeType::File, "m")) {
        RemoteSync::Download { path } => assert_eq!(path, "m"),
        _ => panic!("expected download"),
    }
}

#[test]
fn replace_all_matches_std_replace() {
    let cases = [
        ("http://a/http://b", "http://", "ws://"),
        ("aaaa", "aa", "b"),
        ("xyz", "q", "r"),
        ("", "ab", "c"),
        ("ñandú://ñ", "ñ", "n"),
    ];
    for (s, from, to) in cases {
        assert_eq!(replace_all_exec(s, from, to), s.replace(from, to));
    }
}

#[test]
fn trailing_slashes_are_trimmed() {
    assert_eq!(trim_end_slashes("http://host///"), "http://host");
    assert_eq!(trim_end_slashes("http://host"), "http://host");
    assert_eq!(trim_end_slashes("///"), "");
    assert_eq!(trim_end_slashes(""), "");
    assert_eq!(trim_end_slashes("a/b/"), "a/b");
}

#[test]
fn decimal_text_of_numbers() {
    for n in [0u64, 7, 10, 12345, u64::MAX] {
        assert_eq!(decimal_string(n), n.to_string());
    }
}

#[test]
fn json_objects_are_compact() {
    assert_eq!(json_object_text(&vec![]), "{}");
    assert_eq!(json_object_text(&vec![("a", "b")]), r#"{"a":"b"}"#);
    assert_eq!(
        json_object_text(&vec![("k", "q\"uote\\ \n\u{1}é")]),
        "{\"k\":\"q\\\"uote\\\\ \\n\\u0001é\"}"
    );
}

#[test]
fn request_bodies_match_the_protocol() {
    let r = rename_request("http://s", "a/b.txt", "a/c.txt", "id-1");
    assert_eq!(r.url, "http://s/rename");
    assert_eq!(r.body, r#"{"destination":"a/c.txt","path":"a/b.txt","socket_id":"id-1"}"#);
    let r = create_folder_request("http://s", "dir", "id-1");
    assert_eq!(r.url, "http://s/createFolder");
    assert_eq!(r.body, r#"{"destination":"dir","socket_id":"id-1"}"#);
    let r = delete_request("http://s", "dir/x", "id-1");
    assert_eq!(r.url, "http://s/delete");
    assert_eq!(r.body, r#"{"path":"dir/x","socket_id":"id-1"}"#);
    let r = download_request("http://s", "dir/x");
    assert_eq!(r.url, "http://s/download");
    assert_eq!(r.body, r#"{"path":"dir/x"}"#);
    let r = login_request("http://s", "ana", "p\"w");
    assert_eq!(r.url, "http://s/users/auth/login");
    assert_eq!(r.body, r#"{"password":"p\"w","username":"ana"}"#);
    assert_eq!(health_check_url("http://s"), "http://s/health/check");
    assert_eq!(actuator_health_url("http://s"), "http://s/actuator/health");
}

#[test]
fn upload_headers_encode_destination_and_size() {
    let r = upload_request("http://s", "dir/mi archivo ñ.txt", "id-1", 2048);
    assert_eq!(r.url, "http://s/upload");
    let h: Vec<(&str, &str)> = r.headers.iter().map(|(k, v)| (k.as_str(), v.as_str())).collect();
    assert_eq!(
        h,
        vec![
            ("Content-Type", "application/octet-stream"),
            ("Socket-ID", "id-1"),
            ("Destination", "dir%2Fmi%20archivo%20%C3%B1.txt"),
            ("Content-Length", "2048"),
        ]
    );
    let r = upload_request("http://s", "A-z_0.~", "id", 0);
    assert_eq!(r.headers[2].1, "A-z_0.~");
    assert_eq!(r.headers[3].1, "0");
}

#[test]
fn websocket_addresses() {
    assert_eq!(websocket_url_text("http://localhost:3000"), "ws://localhost:3000");
    assert_eq!(websocket_url_text("https://example.com/x"), "wss://example.com/x");
    assert_eq!(websocket_url_text("ftp://h"), "ftp://h");
    let h = websocket_request("http://localhost:3000", "id-7").unwrap();
    assert_eq!(h.url, "ws://localhost:3000");
    assert_eq!(h.headers, vec![("socket_id".to_string(), "id-7".to_string())]);
    let h = websocket_request("https://sync.example.com:8443", "s").unwrap();
    assert_eq!(h.url, "wss://sync.example.com:8443");
    assert_eq!(h.headers, vec![("socket_id".to_string(), "s".to_string())]);
    assert!(websocket_request("http://local host", "id").is_none());
}

#[test]
fn socket_ids_are_uuid_v4_text() {
    let s = SyncSession::new();
    let id: Vec<char> = s.socket_id.chars().collect();
    assert_eq!(id.len(), 36);
    for (i, c) in id.iter().enumerate() {
        if i == 8 || i == 13 || i == 18 || i == 23 {
            assert_eq!(*c, '-');
        } else {
            assert!(c.is_ascii_hexdigit() && !c.is_ascii_uppercase());
        }
    }
    assert_eq!(id[14], '4');
    assert!(matches!(id[19], '8' | '9' | 'a' | 'b'));
    assert_ne!(SyncSession::new().socket_id, s.socket_id);
}

#[test]
fn stop_empties_the_watcher_slot() {
    let mut slot: Option<String> = Some("watcher".to_string());
    stop(&mut slot);
    assert!(slot.is_none());
    stop(&mut slot);
    assert!(slot.is_none());
}

#[test]
fn routes_follow_configuration() {
    let mut c = Config::default();
    assert_eq!(startup_route(&c), Route::InitialConfiguration);
    assert_eq!(main_window_action(&c, true), MainWindowAction::OpenInitialConfiguration);
    c.is_configured = true;
    assert_eq!(startup_route(&c), Route::Login);
    c.username = Some("ana".to_string());
    assert_eq!(startup_route(&c), Route::Login);
    assert_eq!(main_window_action(&c, false), MainWindowAction::OpenLogin);
    c.password = Some("pw".to_string());
    assert_eq!(startup_route(&c), Route::Main);
    assert_eq!(main_window_action(&c, true), MainWindowAction::FocusExisting);
    assert_eq!(main_window_action(&c, false), MainWindowAction::CreateMain);
}

#[test]
fn config_update_checks_only_changed_settings() {
    let current = configured_config();
    let same = configured_config();
    assert!(!needs_server_check(&current, &same));
    assert!(!needs_folder_check(&current, &same));
    let out = update_config_outcome(&current, same, false, false);
    assert!(out.is_ok());

    let mut other = configured_config();
    other.server_url = "http://other".to_string();
    other.folder_path = "/elsewhere".to_string();
    assert!(needs_server_check(&current, &other));
    assert!(needs_folder_check(&current, &other));
    let errs = update_config_outcome(&current, other, false, false).unwrap_err();
    assert_eq!(
        errs,
        vec![
            ("server".to_string(), "server not reachable".to_string()),
            ("folder".to_string(), "folder does not exist".to_string())
        ]
    );

    let mut other = configured_config();
    other.folder_path = "/elsewhere".to_string();
    let ok = update_config_outcome(&current, other, false, true).unwrap();
    assert_eq!(ok.folder_path, "/elsewhere");
}

#[test]
fn initial_configuration_outcome() {
    let c = Config::default();
    let ok = initial_config_outcome(c, "/sync".to_string(), "http://s".to_string(), true, true).unwrap();
    assert!(ok.is_configured);
    assert_eq!(ok.server_url, "http://s");
    assert_eq!(ok.folder_path, "/sync");
    let errs = initial_config_outcome(Config::default(), "/sync".to_string(), "http://s".to_string(), true, false).unwrap_err();
    assert_eq!(errs, vec![("folder".to_string(), "folder does not exist".to_string())]);
    let errs = initial_config_outcome(Config::default(), "/sync".to_string(), "http://s".to_string(), false, true).unwrap_err();
    assert_eq!(errs, vec![("server".to_string(), "server not reachable".to_string())]);
}

#[test]
fn login_outcomes() {
    let refused = login_outcome(configured_config(), "u".to_string(), "p".to_string(), false, None, None);
    assert_eq!(refused.unwrap_err(), "Username or password incorrect");
    let ok = login_outcome(
        configured_config(),
        "u".to_string(),
        "p".to_string(),
        true,
        Some("tok".to_string()),
        Some("ref".to_string()),
    )
    .unwrap();
    assert_eq!(ok.username.as_deref(), Some("u"));
    assert_eq!(ok.password.as_deref(), Some("p"));
    assert_eq!(ok.token.as_deref(), Some("tok"));
    assert_eq!(ok.refresh_token.as_deref(), Some("ref"));
    assert_eq!(ok.server_url, "http://localhost:3000");
    assert!(ok.is_configured);
}

#[test]
fn tray_events() {
    assert_eq!(tray_action(&TrayEvent::LeftClick), TrayAction::ShowMain);
    assert_eq!(tray_action(&TrayEvent::MenuItemClick { id: "quit".to_string() }), TrayAction::Quit);
    assert_eq!(tray_action(&TrayEvent::MenuItemClick { id: "show".to_string() }), TrayAction::ShowMain);
    assert_eq!(tray_action(&TrayEvent::MenuItemClick { id: "settings".to_string() }), TrayAction::OpenSettings);
    assert_eq!(tray_action(&TrayEvent::MenuItemClick { id: "other".to_string() }), TrayAction::Nothing);
    assert_eq!(tray_action(&TrayEvent::Other), TrayAction::Nothing);
}
