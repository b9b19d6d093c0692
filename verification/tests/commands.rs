use tetron_webui::command::{command_outcome, CommandOutput};
use tetron_webui::{messageboard, sync_receiver};

fn args(call: &tetron_webui::command::CliCall) -> Vec<&str> {
    call.args.iter().map(|s| s.as_str()).collect()
}

#[test]
fn sync_receiver_commands() {
    assert_eq!(sync_receiver::status().program, "/usr/local/bin/tetron-sync-receiver");
    assert_eq!(args(&sync_receiver::status()), vec!["--json", "receiver", "status"]);
    assert_eq!(args(&sync_receiver::list_modules()), vec!["--json", "module", "list"]);
    assert_eq!(args(&sync_receiver::add_module("photos", "/srv/p")), vec!["module", "add", "photos", "/srv/p"]);
    assert_eq!(args(&sync_receiver::remove_module("photos")), vec!["module", "remove", "photos"]);
    assert_eq!(args(&sync_receiver::list_allow()), vec!["--json", "allow", "list"]);
    assert_eq!(args(&sync_receiver::add_allow_ip("10.0.0.2")), vec!["allow", "add", "10.0.0.2"]);
    assert_eq!(args(&sync_receiver::add_allow_peer("phone")), vec!["allow", "add-peer", "phone"]);
    assert_eq!(args(&sync_receiver::remove_allow("10.0.0.2")), vec!["allow", "remove", "10.0.0.2"]);
    assert_eq!(args(&sync_receiver::enable()), vec!["receiver", "enable"]);
    assert_eq!(args(&sync_receiver::disable()), vec!["receiver", "disable"]);
    assert_eq!(args(&sync_receiver::set_port(8730)), vec!["receiver", "port", "8730"]);
}

#[test]
fn messageboard_commands() {
    assert_eq!(messageboard::list().program, "/usr/local/bin/tetron-messageboard");
    assert_eq!(args(&messageboard::list()), vec!["list", "--json"]);
    assert_eq!(args(&messageboard::start("home")), vec!["install", "--network", "home"]);
    assert_eq!(args(&messageboard::stop("home")), vec!["uninstall", "--network", "home"]);
    assert_eq!(args(&messageboard::restart_all()), vec!["restart-all"]);
    assert_eq!(messageboard::binary_location(), "/usr/local/bin/tetron-messageboard");
    let _ = messageboard::binary_present();
}

#[test]
fn command_outcomes() {
    let ok = command_outcome("tetron-messageboard", Ok(CommandOutput { success: true, stdout: b"[]".to_vec(), stderr: vec![] }));
    assert_eq!(ok, Ok(b"[]".to_vec()));
    let failed = command_outcome("tetron-messageboard", Ok(CommandOutput { success: false, stdout: vec![], stderr: b"  no such network\n".to_vec() }));
    assert_eq!(failed, Err("no such network".to_string()));
    let spawn = command_outcome("tetron-sync-receiver", Err("No such file or directory (os error 2)".to_string()));
    assert_eq!(spawn, Err("failed to run tetron-sync-receiver: No such file or directory (os error 2)".to_string()));
}
