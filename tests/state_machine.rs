use snapper_tui::app::{
    filter_snapshots, App, Delivery, Effect, Focus, InputKind, Key, KeyCode, Mode, PendingOp, Task,
};
use snapper_tui::cache::SnapshotCache;
use snapper_tui::config_form::parse_config_fields;
use snapper_tui::snapper::{Config, Snapshot};
use snapper_tui::state::State;

fn snap(id: u64, desc: &str) -> Snapshot {
    Snapshot {
        id,
        config: "root".to_string(),
        kind: "single".to_string(),
        cleanup: "number".to_string(),
        user: "root".to_string(),
        date: "2024-01-01".to_string(),
        description: desc.to_string(),
    }
}

fn on_disk() -> Vec<String> {
    vec!["home".to_string(), "root".to_string()]
}

fn key(c: char) -> Key {
    Key { code: KeyCode::Char(c), shift: false, ctrl: false, other: false }
}

fn code(k: KeyCode) -> Key {
    Key { code: k, shift: false, ctrl: false, other: false }
}

fn app_with_snapshots() -> App {
    let mut app = App::new(
        State::default(),
        Ok(vec![Config { name: "root".to_string() }, Config { name: "home".to_string() }]),
        on_disk(),
        1_000,
    );
    let ticket = app.snaps_job.expect("a listing is requested for the selected config");
    app.on_tick(1_000, Delivery::Empty, Delivery::Ready(ticket, Ok(vec![snap(1, "first"), snap(2, "second")])));
    app.take_effects();
    app
}

#[test]
fn new_selects_the_first_config_and_requests_its_listing() {
    let mut app = App::new(State::default(), Ok(vec![Config { name: "root".to_string() }]), on_disk(), 0);
    assert_eq!(app.configs_state.selected, Some(0));
    let effects = app.take_effects();
    assert!(effects.iter().any(|e| matches!(e, Effect::Spawn(j) if matches!(&j.task, Task::ListSnapshots { config } if config == "root"))));
    assert_eq!(app.status, "Loading snapshots for root…");
}

#[test]
fn new_restores_the_last_config() {
    let st = State { use_sudo: true, snaps_fullscreen: false, last_config: Some("home".to_string()), filter: Some("x".to_string()) };
    let app = App::new(st, Ok(vec![Config { name: "root".to_string() }, Config { name: "home".to_string() }]), on_disk(), 0);
    assert_eq!(app.configs_state.selected, Some(1));
    assert_eq!(app.snaps_loading_for.as_deref(), Some("home"));
    assert!(app.use_sudo);
    assert_eq!(app.filter_text, "x");
}

#[test]
fn listing_result_is_cached_and_shown() {
    let app = app_with_snapshots();
    assert_eq!(app.filtered_snaps.len(), 2);
    assert_eq!(app.snaps_state.selected, Some(0));
    let (list, age) = app.snaps_cache.get("root", 2_000).unwrap();
    assert_eq!(list.len(), 2);
    assert_eq!(age, 1_000);
}

#[test]
fn cache_is_fresh_within_ttl_and_stale_after() {
    let mut cache = SnapshotCache::new(3_000);
    cache.put("root", vec![snap(1, "a")], 10_000);
    let (list, age) = cache.get("root", 11_000).unwrap();
    assert_eq!(list.len(), 1);
    assert_eq!(list[0].description, "a");
    assert!(cache.is_fresh(age));
    let (list, age) = cache.get("root", 14_000).unwrap();
    assert_eq!(list.len(), 1);
    assert_eq!(age, 4_000);
    assert!(!cache.is_fresh(age));
    assert!(cache.get("home", 14_000).is_none());
    cache.invalidate_all();
    assert!(cache.get("root", 14_000).is_none());
}

#[test]
fn put_replaces_an_entry() {
    let mut cache = SnapshotCache::new(3_000);
    cache.put("root", vec![snap(1, "a")], 0);
    cache.put("root", vec![snap(2, "b"), snap(3, "c")], 5);
    let (list, age) = cache.get("root", 5).unwrap();
    assert_eq!(list.len(), 2);
    assert_eq!(age, 0);
}

#[test]
fn fresh_cache_serves_a_selection_without_a_request() {
    let mut app = app_with_snapshots();
    app.focus = Focus::Configs;
    app.on_down();
    app.select_next_config();
    app.take_effects();
    let home = app.snaps_job.unwrap();
    app.on_tick(1_500, Delivery::Empty, Delivery::Ready(home, Ok(vec![snap(9, "home snap")])));
    app.select_prev_config();
    assert_eq!(app.snapshots.len(), 2);
    assert!(app.status.starts_with("Cached snapshots for root ("));
    let spawned = app.take_effects().iter().filter(|e| matches!(e, Effect::Spawn(_))).count();
    assert_eq!(spawned, 0);
}

#[test]
fn second_start_replaces_the_tracked_operation() {
    let mut app = app_with_snapshots();
    app.on_enter();
    let first = app.status_job.unwrap();
    assert!(matches!(app.pending, Some(PendingOp::Status { from: 0, to: 1 })));
    app.on_mount();
    assert!(matches!(app.pending, Some(PendingOp::Mount { id: 1 })));
    let second = app.status_job.unwrap();
    assert_ne!(first, second);
    assert!(matches!(app.mode, Mode::Loading));
}

#[test]
fn late_status_result_is_dropped() {
    let mut app = app_with_snapshots();
    app.on_enter();
    let status_ticket = app.status_job.unwrap();
    app.on_mount();
    app.on_tick(2_000, Delivery::Ready(status_ticket, Ok("status text".to_string())), Delivery::Empty);
    assert!(matches!(app.mode, Mode::Loading));
    assert!(matches!(app.pending, Some(PendingOp::Mount { id: 1 })));
    assert_eq!(app.details_text, "");
    let mount_ticket = app.status_job.unwrap();
    app.on_tick(2_100, Delivery::Ready(mount_ticket, Ok("mounted at /mnt\nmore".to_string())), Delivery::Empty);
    assert!(matches!(app.mode, Mode::Normal));
    assert_eq!(app.status, "Mounted #1: mounted at /mnt");
    assert!(app.pending.is_none());
}

#[test]
fn status_result_opens_details() {
    let mut app = app_with_snapshots();
    app.on_down();
    app.on_enter();
    assert!(matches!(app.pending, Some(PendingOp::Status { from: 1, to: 2 })));
    let t = app.status_job.unwrap();
    app.on_tick(3_000, Delivery::Ready(t, Ok("a\nb\nc".to_string())), Delivery::Empty);
    assert!(matches!(app.mode, Mode::Details));
    assert_eq!(app.details_lines, 3);
    assert_eq!(app.details_title, "Status 1..2");
}

#[test]
fn failure_and_disconnection_return_to_normal() {
    let mut app = app_with_snapshots();
    app.on_umount();
    let t = app.status_job.unwrap();
    app.on_tick(3_000, Delivery::Ready(t, Err("boom".to_string())), Delivery::Empty);
    assert!(matches!(app.mode, Mode::Normal));
    assert_eq!(app.status, "Operation failed: boom");
    app.on_umount();
    app.on_tick(3_100, Delivery::Disconnected, Delivery::Empty);
    assert!(matches!(app.mode, Mode::Normal));
    assert_eq!(app.status, "Status failed (disconnected)");
    assert!(app.status_job.is_none());
}

#[test]
fn rollback_success_clears_cache_and_asks_for_refresh() {
    let mut app = app_with_snapshots();
    app.start_rollback_confirm();
    assert!(matches!(app.mode, Mode::ConfirmRollback(1)));
    app.on_key(key('y'));
    assert!(matches!(app.pending, Some(PendingOp::Rollback { id: 1 })));
    app.take_effects();
    let t = app.status_job.unwrap();
    app.on_tick(4_000, Delivery::Ready(t, Ok(String::new())), Delivery::Empty);
    assert_eq!(app.status, "Rollback to #1 completed");
    assert!(app.snaps_cache.get("root", 4_000).is_none());
    assert!(app.take_effects().iter().any(|e| matches!(e, Effect::RefreshConfigs)));
}

#[test]
fn get_config_result_fills_the_form() {
    let mut app = app_with_snapshots();
    app.start_config_edit();
    let t = app.status_job.unwrap();
    app.on_tick(5_000, Delivery::Ready(t, Ok("Key | Value\n──┼──\nSYNC_ACL | yes\nNUMBER_LIMIT=50\n".to_string())), Delivery::Empty);
    assert!(matches!(app.mode, Mode::ConfigForm));
    assert_eq!(app.cfg_fields.len(), 2);
    assert_eq!(app.cfg_field_idx, Some(0));
    app.finish_config_field_edit(1, "10");
    assert!(app.cfg_fields[1].modified);
    assert!(!app.cfg_fields[0].modified);
    app.apply_config_form_changes();
    assert!(matches!(app.pending, Some(PendingOp::SetConfig)));
    let effects = app.take_effects();
    let pairs = effects.iter().find_map(|e| match e {
        Effect::Spawn(j) => match &j.task {
            Task::SetConfig { pairs, .. } => Some(pairs.clone()),
            _ => None,
        },
        _ => None,
    });
    assert_eq!(pairs, Some(vec!["NUMBER_LIMIT=10".to_string()]));
}

#[test]
fn key_value_dump_parses_into_unmodified_fields() {
    let fields = parse_config_fields("SYNC_ACL = yes\nTIMELINE_CREATE=no\n");
    assert_eq!(fields.len(), 2);
    assert_eq!(fields[0].key, "SYNC_ACL");
    assert_eq!(fields[0].value, "yes");
    assert_eq!(fields[1].key, "TIMELINE_CREATE");
    assert_eq!(fields[1].value, "no");
    assert!(fields.iter().all(|f| !f.modified && f.original == f.value));
}

#[test]
fn key_value_heuristics_in_order() {
    let text = "Config: root\nSUBVOLUME: /\nFSTYPE\tbtrfs\nALLOW_USERS    alice bob\nkey | value\nEMPTY_KEY ┃ x\n# comment\n+----+\nNAME: a=b\n=orphan\n";
    let fields = parse_config_fields(text);
    let pairs: Vec<(String, String)> = fields.iter().map(|f| (f.key.clone(), f.value.clone())).collect();
    assert_eq!(
        pairs,
        vec![
            ("SUBVOLUME".to_string(), "/".to_string()),
            ("FSTYPE".to_string(), "btrfs".to_string()),
            ("ALLOW_USERS".to_string(), "alice bob".to_string()),
            ("EMPTY_KEY".to_string(), "x".to_string()),
            ("NAME: a".to_string(), "b".to_string()),
        ]
    );
}

#[test]
fn filtering_twice_equals_filtering_once() {
    let snaps = vec![snap(1, "Before Upgrade"), snap(2, "after"), snap(12, "other")];
    let once = filter_snapshots(&snaps, " UPGRADE ");
    assert_eq!(once.len(), 1);
    let twice = filter_snapshots(&once, " UPGRADE ");
    assert_eq!(twice.len(), 1);
    assert_eq!(twice[0].id, once[0].id);
    let by_id = filter_snapshots(&snaps, "12");
    assert_eq!(by_id.len(), 1);
    assert_eq!(by_id[0].id, 12);
    assert_eq!(filter_snapshots(&snaps, "   ").len(), 3);
}

#[test]
fn insert_then_backspace_restores_the_buffer() {
    let mut app = App::default();
    app.input = "héllo→wörld".to_string();
    app.input_cursor = 4;
    app.input_insert_char('ß');
    assert_eq!(app.input, "héllßo→wörld");
    assert_eq!(app.input_cursor, 5);
    app.input_backspace();
    assert_eq!(app.input, "héllo→wörld");
    assert_eq!(app.input_cursor, 4);
    app.input_move_end();
    assert_eq!(app.input_cursor, 11);
    app.input_move_right();
    assert_eq!(app.input_cursor, 11);
    app.input_move_home();
    app.input_delete();
    assert_eq!(app.input, "éllo→wörld");
}

#[test]
fn confirm_keys_cancel_without_side_effects() {
    let mut app = app_with_snapshots();
    app.start_delete_confirm();
    assert!(matches!(app.mode, Mode::ConfirmDelete(1)));
    app.on_key(key('n'));
    assert!(matches!(app.mode, Mode::Normal));
    assert_eq!(app.status, "Delete cancelled");
    assert!(app.take_effects().is_empty());
}

#[test]
fn input_mode_typing_and_submit() {
    let mut app = app_with_snapshots();
    app.on_key(key('c'));
    assert!(matches!(app.mode, Mode::Input(InputKind::Create)));
    for c in "new".chars() {
        app.on_key(key(c));
    }
    app.on_key(code(KeyCode::Enter));
    assert!(matches!(app.pending, Some(PendingOp::Create)));
    let effects = app.take_effects();
    assert!(effects.iter().any(|e| matches!(e, Effect::RunNow(j) if matches!(&j.task, Task::Create { description, .. } if description == "new"))));
}

#[test]
fn help_and_loading_cancel() {
    let mut app = app_with_snapshots();
    app.on_key(key('?'));
    assert!(matches!(app.mode, Mode::Help));
    app.on_key(key('q'));
    assert!(matches!(app.mode, Mode::Normal));
    app.on_mount();
    app.on_key(code(KeyCode::Esc));
    assert!(matches!(app.mode, Mode::Normal));
    assert!(app.pending.is_none());
    assert_eq!(app.status, "Cancelled");
}

#[test]
fn details_search_moves_and_wraps() {
    let mut app = App::default();
    app.details_text = "alpha\nBeta\ngamma\nbeta two".to_string();
    app.details_lines = 4;
    app.details_scroll = 0;
    app.finish_details_search(" BETA ");
    assert_eq!(app.details_scroll, 1);
    app.find_next();
    assert_eq!(app.details_scroll, 3);
    app.find_next();
    assert_eq!(app.details_scroll, 1);
    app.find_prev();
    assert_eq!(app.details_scroll, 3);
    app.details_scroll = 2;
    app.find_prev();
    assert_eq!(app.details_scroll, 1);
}

#[test]
fn selection_errors_name_what_is_missing() {
    let mut app = App::default();
    app.on_enter();
    assert_eq!(app.status, "Select a config first");
    app.finish_cleanup("   ");
    assert_eq!(app.status, "Enter cleanup algorithm (e.g., number, timeline, empty-pre-post)");
    app.start_rollback_confirm();
    assert_eq!(app.status, "Select a snapshot to rollback");
}

#[test]
fn listing_failure_clears_the_view() {
    let mut app = app_with_snapshots();
    app.focus = Focus::Configs;
    app.on_page_down();
    let t = app.snaps_job.unwrap();
    app.on_tick(9_000, Delivery::Empty, Delivery::Ready(t, Err("no such config".to_string())));
    assert!(app.snapshots.is_empty());
    assert!(app.snaps_state.selected.is_none());
    assert_eq!(app.status, "Failed to list snapshots for home: no such config");
}

#[test]
fn unknown_config_failure_lists_known_configs() {
    let mut app = app_with_snapshots();
    app.focus = Focus::Configs;
    app.select_next_config();
    let t = app.snaps_job.unwrap();
    app.on_tick(9_000, Delivery::Empty, Delivery::Ready(t, Err("Unknown config 'home'".to_string())));
    assert_eq!(
        app.status,
        "Failed to list snapshots for home: Unknown config 'home' | Known configs: home, root"
    );
}

#[test]
fn failed_create_and_delete_name_the_operation() {
    let mut app = app_with_snapshots();
    app.finish_create("x");
    let t = app.status_job.unwrap();
    app.on_tick(9_000, Delivery::Ready(t, Err("denied".to_string())), Delivery::Empty);
    assert_eq!(app.status, "Create failed: denied");
    app.on_delete_confirmed(2);
    assert!(matches!(app.pending, Some(PendingOp::Delete { id: 2 })));
    let t = app.status_job.unwrap();
    app.on_tick(9_100, Delivery::Ready(t, Err("busy".to_string())), Delivery::Empty);
    assert_eq!(app.status, "Delete failed: busy");
    assert!(app.pending.is_none());
}

#[test]
fn cancelling_a_details_search_returns_to_details() {
    let mut app = App::default();
    app.mode = Mode::Details;
    app.on_key(key('/'));
    assert!(matches!(app.mode, Mode::Input(InputKind::DetailsSearch)));
    app.on_key(code(KeyCode::Esc));
    assert!(matches!(app.mode, Mode::Details));
    assert_eq!(app.input, "");
}

#[test]
fn up_and_down_follow_the_focus() {
    let mut app = app_with_snapshots();
    app.focus = Focus::Configs;
    app.on_down();
    assert_eq!(app.configs_state.selected, Some(1));
    app.on_up();
    assert_eq!(app.configs_state.selected, Some(0));
    app.focus = Focus::Snapshots;
    app.on_down();
    assert_eq!(app.snaps_state.selected, Some(1));
}

#[test]
fn disconnected_listing_clears_the_view() {
    let mut app = app_with_snapshots();
    app.focus = Focus::Configs;
    app.on_down();
    app.on_tick(9_000, Delivery::Empty, Delivery::Disconnected);
    assert!(app.snapshots.is_empty());
    assert!(app.filtered_snaps.is_empty());
    assert!(app.snaps_state.selected.is_none());
    assert_eq!(app.status, "Loading snapshots failed (disconnected)");
}

#[test]
fn cache_keeps_one_entry_per_key() {
    let mut cache = SnapshotCache::new(3_000);
    cache.put("root", vec![snap(1, "a")], 0);
    cache.put("home", vec![snap(2, "b")], 0);
    cache.put("root", vec![snap(3, "c")], 1);
    assert_eq!(cache.entries.len(), 2);
    assert_eq!(cache.get("root", 1).unwrap().0[0].id, 3);
    assert_eq!(cache.get("home", 1).unwrap().0[0].id, 2);
}

#[test]
fn fresh_and_stale_status_lines() {
    let mut app = App::new(State::default(), Ok(vec![Config { name: "root".to_string() }]), on_disk(), 0);
    let t = app.snaps_job.unwrap();
    app.on_tick(10_000, Delivery::Empty, Delivery::Ready(t, Ok(vec![snap(1, "a")])));
    app.now = 11_000;
    app.load_snapshots_for_selected();
    assert_eq!(app.status, "Cached snapshots for root (1s old)");
    app.now = 14_000;
    app.load_snapshots_for_selected();
    assert_eq!(app.status, "Refreshing snapshots for root…");
    assert_eq!(app.snapshots.len(), 1);
}

#[test]
fn full_refresh_clears_the_cache_and_checks_the_selection() {
    let mut app = app_with_snapshots();
    assert!(app.snaps_cache.get("root", 1_000).is_some());
    app.refresh_all(Err("boom".to_string()), on_disk());
    assert!(app.snaps_cache.get("root", 1_000).is_none());
    assert_eq!(app.status, "Failed to list configs: boom");
    app.refresh_all(Ok(vec![Config { name: "gone".to_string() }]), on_disk());
    assert_eq!(app.status, "Selected config is invalid; choose another");
    assert!(app.snapshots.is_empty());
}
