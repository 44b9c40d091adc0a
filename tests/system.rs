use snapper_tui::app::Task;
use snapper_tui::snapper::Snapper;
use snapper_tui::system::{run, run_string, RunOutcome};

#[test]
fn test_run_success() {
    let inv = run("echo", vec!["hello".to_string()], false);
    assert_eq!(inv.program, "echo");
    assert_eq!(inv.args, vec!["hello".to_string()]);
}

#[test]
fn test_run_string_success() {
    let out = run_string(
        "echo",
        RunOutcome::Exited { success: true, stdout: "world\n".to_string(), stderr: String::new() },
    );
    assert_eq!(out.unwrap().trim(), "world");
}

#[test]
fn run_elevates_with_sudo() {
    let inv = run("ls", vec!["-l".to_string()], true);
    assert_eq!(inv.program, "sudo");
    assert_eq!(inv.args, vec!["-n", "ls", "-l"]);
}

#[test]
fn run_string_reports_failures() {
    let failed = run_string(
        "ls",
        RunOutcome::Exited { success: false, stdout: String::new(), stderr: "  no such file \n".to_string() },
    );
    assert_eq!(failed, Err("ls failed: no such file".to_string()));
    let missing = run_string("nope", RunOutcome::SpawnFailed("not found".to_string()));
    assert_eq!(missing, Err("Failed to run nope: not found".to_string()));
}

#[test]
fn config_list_names_are_read() {
    let text = "Config | Subvolume\n-------+----------\nroot   | /\n*home* | /home\nName\n\nsrv /srv\n| x\n";
    assert_eq!(Snapper::parse_config_list(text), vec!["root", "home", "srv"]);
    let l = Snapper::list_configs(true);
    assert_eq!(l.program, "sudo");
    assert_eq!(l.args, vec!["-n", "snapper", "list-configs"]);
}

#[test]
fn unknown_config_is_refused_before_running() {
    let task = Task::Mount { config: "nope".to_string(), id: 3 };
    let plan = Snapper::run_plan(&task, false, false);
    assert_eq!(plan.unwrap_err(), "Unknown config 'nope' (not found in /etc/snapper/configs)");
    let plan = Snapper::run_plan(&task, true, true).unwrap();
    assert_eq!(plan.program, "sudo");
    assert_eq!(plan.args, vec!["-n", "snapper", "-c", "nope", "mount", "3"]);
    let create = Task::Create { config: "root".to_string(), description: "d".to_string() };
    assert!(Snapper::run_plan(&create, false, false).is_ok());
}

#[test]
fn task_outputs_are_read_with_their_verb() {
    let umount = Task::Umount { config: "root".to_string(), id: 1 };
    let ok = RunOutcome::Exited { success: true, stdout: "noise".to_string(), stderr: String::new() };
    assert_eq!(Snapper::read_task_output(&umount, ok), Ok(String::new()));
    let status = Task::Status { config: "root".to_string(), from: 1, to: 2 };
    let failed = RunOutcome::Exited { success: false, stdout: String::new(), stderr: "dbus error".to_string() };
    assert_eq!(
        Snapper::read_task_output(&status, failed),
        Err("snapper status failed: dbus error (hint: try running with sudo)".to_string())
    );
    assert!(Snapper::needs_plain_listing(&RunOutcome::Exited { success: false, stdout: String::new(), stderr: String::new() }));
    assert!(!Snapper::needs_plain_listing(&RunOutcome::SpawnFailed("x".to_string())));
}

#[test]
fn config_names_are_sorted_and_unique() {
    let on_disk = vec!["root".to_string(), "home".to_string(), "root".to_string()];
    assert_eq!(Snapper::config_names(&on_disk, &Vec::new()), vec!["home", "root"]);
    let listed = vec![("srv".to_string(), true), ("gone".to_string(), false), ("data".to_string(), true), ("srv".to_string(), true)];
    assert_eq!(Snapper::config_names(&Vec::new(), &listed), vec!["data", "srv"]);
    let accents = vec!["é".to_string(), "z".to_string(), "a".to_string()];
    assert_eq!(Snapper::config_names(&accents, &Vec::new()), vec!["a", "z", "é"]);
}
