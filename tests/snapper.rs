use snapper_tui::snapper::{parse_column_listing, parse_table_listing, Config, Snapper, Snapshot};
use snapper_tui::system::RunOutcome;

#[test]
fn test_config_struct() {
    let c = Config { name: "test".to_string() };
    assert_eq!(c.name, "test");
}

#[test]
fn test_snapshot_struct() {
    let s = Snapshot {
        id: 1,
        config: "c".to_string(),
        kind: "single".to_string(),
        cleanup: "number".to_string(),
        user: "root".to_string(),
        date: "2025-09-25".to_string(),
        description: "desc".to_string(),
    };
    assert_eq!(s.id, 1);
    assert_eq!(s.config, "c");
}

#[test]
fn column_row_with_empty_description_gets_cleanup_placeholder() {
    let snaps = parse_column_listing("5|2024-01-01|root||number|single\n", "root");
    assert_eq!(snaps.len(), 1);
    let s = &snaps[0];
    assert_eq!(s.id, 5);
    assert_eq!(s.date, "2024-01-01");
    assert_eq!(s.user, "root");
    assert_eq!(s.description, "[number]");
    assert_eq!(s.cleanup, "number");
    assert_eq!(s.kind, "single");
    assert_eq!(s.config, "root");
}

#[test]
fn column_listing_skips_headers_rulers_and_bad_ids() {
    let text = " # | Date | User | Description | Cleanup | Type\n\
                ───┼──────┼──────┼─────────────┼─────────┼─────\n\
                ---\n\
                \n\
                abc | x | y | z | w | v\n\
                0 │ 2024-02-02 │ root │ current │ │ single\n\
                7 | 2024-03-03 | alice | | - | pre\n\
                8 | 2024-03-04 | bob | | - | -\n\
                9 | 2024-05-05 | old style\n";
    let snaps = parse_column_listing(text, "home");
    let ids: Vec<u64> = snaps.iter().map(|s| s.id).collect();
    assert_eq!(ids, vec![0, 7, 8, 9]);
    assert_eq!(snaps[0].description, "current");
    assert_eq!(snaps[1].description, "[pre]");
    assert_eq!(snaps[2].description, "(no description)");
    assert_eq!(snaps[3].date, "2024-05-05");
    assert_eq!(snaps[3].description, "old style");
    assert_eq!(snaps[3].kind, "");
}

#[test]
fn every_listed_record_has_a_description() {
    let text = "1|d|u||||\n2|d|u|||\n3|d|\n4|d|u|x|y|z\n+5|d|u||-|-\n18446744073709551616|d|u|x|y|z\n";
    let snaps = parse_column_listing(text, "c");
    assert_eq!(snaps.iter().map(|s| s.id).collect::<Vec<_>>(), vec![1, 2, 3, 4, 5]);
    assert!(snaps.iter().all(|s| !s.description.is_empty()));
    assert_eq!(snaps[0].description, "[|]");
    assert_eq!(snaps[1].description, "(no description)");
    assert_eq!(snaps[2].description, "(no description)");
    assert_eq!(snaps[4].description, "(no description)");
}

#[test]
fn wide_table_rows_are_read() {
    let text = "  # | Type   | Pre # | Date | User | Cleanup | Description | Userdata\n\
                ----+--------+-------+------+------+---------+-------------+---------\n\
                 1  | single |       | d1   | root | number  |             |\n\
                 2  | pre    |       | d2   | root |         | before      |\n\
                 3  | post   | 2     | d3\n";
    let snaps = parse_table_listing(text, "root");
    assert_eq!(snaps.len(), 3);
    assert_eq!(snaps[0].description, "[number]");
    assert_eq!(snaps[0].kind, "single");
    assert_eq!(snaps[1].description, "before");
    assert_eq!(snaps[2].description, "d3");
    assert_eq!(snaps[2].date, "d3");
}

#[test]
fn command_lines_are_built_for_each_request() {
    let m = Snapper::mount("root", 42, false);
    assert_eq!(m.program, "snapper");
    assert_eq!(m.args, vec!["-c", "root", "mount", "42"]);
    let s = Snapper::snapshot_status("home", 3, 10, true);
    assert_eq!(s.program, "sudo");
    assert_eq!(s.args, vec!["-n", "snapper", "-c", "home", "status", "3..10"]);
    let l = Snapper::list_snapshots("root", false);
    assert_eq!(l.args, vec!["-c", "root", "list", "--columns", "number,date,user,description,cleanup,type"]);
    let kv = vec!["A=1".to_string(), "B=2".to_string()];
    let c = Snapper::set_config("root", &kv, false);
    assert_eq!(c.args, vec!["-c", "root", "set-config", "A=1", "B=2"]);
    let e = Snapper::modify("root", 7, "new text", false);
    assert_eq!(e.args, vec!["-c", "root", "modify", "7", "-d", "new text"]);
}

#[test]
fn outputs_and_failures_are_read() {
    let ok = Snapper::read_output(
        "mount",
        "root",
        true,
        false,
        RunOutcome::Exited { success: true, stdout: "/mnt\n".to_string(), stderr: String::new() },
    );
    assert_eq!(ok, Ok("/mnt\n".to_string()));
    let unknown = Snapper::read_output("mount", "nope", false, false, RunOutcome::SpawnFailed("x".to_string()));
    assert_eq!(unknown, Err("Unknown config 'nope' (not found in /etc/snapper/configs)".to_string()));
    let denied = Snapper::read_output(
        "status",
        "root",
        true,
        true,
        RunOutcome::Exited { success: false, stdout: String::new(), stderr: "Permission denied".to_string() },
    );
    assert_eq!(denied, Err("snapper status failed: Permission denied (hint: try running with sudo)".to_string()));
}

#[test]
fn listing_falls_back_to_the_plain_table() {
    let failed = RunOutcome::Exited { success: false, stdout: String::new(), stderr: "bad option".to_string() };
    let plain = RunOutcome::Exited {
        success: true,
        stdout: "4 | single | | d | root | | hello |\n".to_string(),
        stderr: String::new(),
    };
    let r = Snapper::read_listing("root", true, false, failed.clone(), Some(plain)).unwrap();
    assert_eq!(r.len(), 1);
    assert_eq!(r[0].description, "hello");
    let again = RunOutcome::Exited { success: false, stdout: String::new(), stderr: "Unknown config.".to_string() };
    let e = Snapper::read_listing("x", true, false, failed, Some(again)).unwrap_err();
    assert_eq!(e, "snapper list failed: Unknown config. (hint: check your config name; see /etc/snapper/configs)");
}
