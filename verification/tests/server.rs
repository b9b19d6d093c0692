use tetron_webui::server::{backup_after_fetch, backup_cache_hit, script_text, serve_backup_ok, CachedScript};
use tetron_webui::service::{
    install_succeeded, install_unreachable, local_address, plist_file, readiness_step, unit_file, WaitStep,
    READY_RETRY_MILLIS, READY_TIMEOUT_MILLIS,
};

#[test]
fn fresh_cache_is_served_and_stale_is_not() {
    assert!(backup_cache_hit(&Some(CachedScript { age_millis: 0, body: "x".to_string() })));
    assert!(backup_cache_hit(&Some(CachedScript { age_millis: 599_999, body: "x".to_string() })));
    assert!(!backup_cache_hit(&Some(CachedScript { age_millis: 600_000, body: "x".to_string() })));
    assert!(!backup_cache_hit(&None));
}

#[test]
fn successful_fetch_is_served_and_cached() {
    let out = backup_after_fetch("https://u/s.sh", Ok("#!/bin/sh\n".to_string()), Some("old".to_string()));
    assert_eq!(out.reply.status, 200);
    assert_eq!(out.reply.content_type, "text/x-shellscript");
    assert_eq!(out.reply.cache_control, "no-cache");
    assert_eq!(out.reply.body, "#!/bin/sh\n");
    assert_eq!(out.store.as_deref(), Some("#!/bin/sh\n"));
}

#[test]
fn failed_fetch_serves_the_stale_copy() {
    let out = backup_after_fetch("https://u/s.sh", Err("boom".to_string()), Some("old".to_string()));
    assert_eq!(out.reply.status, 200);
    assert_eq!(out.reply.body, "old");
    assert_eq!(out.reply.cache_control, "no-cache");
    assert!(out.store.is_none());
}

#[test]
fn failed_fetch_without_cache_is_502_naming_the_url() {
    let out = backup_after_fetch("https://u/s.sh", Err("curl exited with exit status: 22".to_string()), None);
    assert_eq!(out.reply.status, 502);
    assert_eq!(out.reply.content_type, "text/plain");
    assert_eq!(out.reply.cache_control, "no-cache");
    assert_eq!(
        out.reply.body,
        "could not fetch the backup script from https://u/s.sh: curl exited with exit status: 22\n\
         fetch it directly with: curl -fsSL 'https://u/s.sh' -o tetron-backup.sh"
    );
}

#[test]
fn serve_ok_is_a_shell_script() {
    let r = serve_backup_ok("echo".to_string());
    assert_eq!(
        (r.status, r.content_type, r.cache_control, r.body.as_str()),
        (200, "text/x-shellscript", "no-cache", "echo")
    );
}

#[test]
fn service_files_point_at_the_running_binary_and_port() {
    let unit = "[Unit]\nDescription=tetron webui\n\n[Service]\nExecStart=/usr/local/bin/tetron-webui\n\n[Install]\nWantedBy=default.target\n";
    assert_eq!(
        unit_file(unit, "/home/u/bin/tetron-webui", 9000),
        "[Unit]\nDescription=tetron webui\n\n[Service]\nEnvironment=TETRON_WEBUI_PORT=9000\n\
         ExecStart=/home/u/bin/tetron-webui\n\n[Install]\nWantedBy=default.target\n"
    );
    assert!(unit_file(unit, "/x", 7870).contains("Environment=TETRON_WEBUI_PORT=7870\n"));
    let plist = "<plist>\n<dict>\n\t<string>/usr/local/bin/tetron-webui</string>\n\t<string>/tmp/tetron-webui.log</string>\n</dict>\n</plist>\n";
    assert_eq!(
        plist_file(plist, "/Apps/w", "/Users/u/Library/Logs/tetron-webui.log", 9000),
        "<plist>\n<dict>\n\t<string>/Apps/w</string>\n\t<string>/Users/u/Library/Logs/tetron-webui.log</string>\n\
         \t<key>EnvironmentVariables</key>\n\t<dict>\n\t\t<key>TETRON_WEBUI_PORT</key>\n\t\t<string>9000</string>\n\t</dict>\n\
         </dict>\n</plist>\n"
    );
    assert_eq!(local_address(9000), "127.0.0.1:9000");
    assert_eq!(local_address(7870), "127.0.0.1:7870");
}

#[test]
fn fetched_bytes_must_be_utf8() {
    assert_eq!(script_text(b"#!/bin/sh\necho hi\n".to_vec()), Ok("#!/bin/sh\necho hi\n".to_string()));
    assert_eq!(script_text("é".as_bytes().to_vec()), Ok("é".to_string()));
    let err = script_text(vec![0x66, 0xff]).unwrap_err();
    assert!(err.contains("invalid utf-8"), "unexpected error: {err}");
}

#[test]
fn readiness_wait_rounds() {
    assert_eq!(READY_TIMEOUT_MILLIS, 10_000);
    assert_eq!(READY_RETRY_MILLIS, 250);
    assert_eq!(readiness_step(true, 0, READY_TIMEOUT_MILLIS), WaitStep::Ready);
    assert_eq!(readiness_step(true, 20_000, READY_TIMEOUT_MILLIS), WaitStep::Ready);
    assert_eq!(readiness_step(false, 0, READY_TIMEOUT_MILLIS), WaitStep::RetryAfterMillis(250));
    assert_eq!(readiness_step(false, 9_999, READY_TIMEOUT_MILLIS), WaitStep::RetryAfterMillis(250));
    assert_eq!(readiness_step(false, 10_000, READY_TIMEOUT_MILLIS), WaitStep::GiveUp);
}

#[test]
fn install_reports() {
    assert_eq!(
        install_succeeded("127.0.0.1:9000"),
        "tetron-webui service installed and running on http://127.0.0.1:9000"
    );
    assert_eq!(
        install_unreachable("127.0.0.1:7870"),
        "service was installed but tetron-webui never became reachable on http://127.0.0.1:7870.\n\
         Check the service logs (journalctl --user -u tetron-webui on Linux, or the log path in the plist on macOS)."
    );
}
