use tetron_webui::addons::{
    begin_uninstall, AddonUninstall, UninstallPhase,
    addons, backup_script_url, binary_path_for, check_script_download, find, install, install_dir_for,
    list_status, not_installed, path_join, script_download_failed, script_installed, script_removed,
    service_reported_active, status_probes, uninstall, uninstall_service, InstallProbe, ScriptInstall, ScriptPhase,
    DEFAULT_BACKUP_SCRIPT_URL,
};

#[test]
fn registry_order_and_ids() {
    let ids: Vec<&str> = addons().iter().map(|a| a.id).collect();
    assert_eq!(ids, vec!["systray", "backup", "relay", "testsuite"]);
}

#[test]
fn find_known_and_unknown() {
    assert_eq!(find("backup").unwrap().display_name, "Config Backup");
    assert_eq!(find("nope").unwrap_err(), "unknown addon: nope");
}

#[test]
fn backup_url_override() {
    assert_eq!(backup_script_url(None), DEFAULT_BACKUP_SCRIPT_URL);
    assert_eq!(backup_script_url(Some("http://mirror/x.sh".to_string())), "http://mirror/x.sh");
}

#[test]
fn install_decisions() {
    assert_eq!(install("backup").unwrap().id, "backup");
    assert_eq!(
        install("relay").unwrap_err(),
        "Relay is not a locally installable addon -- see https://github.com/ErikAllanKincaid/tetron-relay for setup instructions"
    );
    assert_eq!(
        install("systray").unwrap_err(),
        "Systray installs to /usr/local/bin, which needs root -- this webui can't do that for you. \
         Run this in a terminal: curl -fsSL https://raw.githubusercontent.com/ErikAllanKincaid/tetron/main/contrib/install-tetron-suite.sh \
         | bash -s -- --install-systray"
    );
    assert_eq!(install("x").unwrap_err(), "unknown addon: x");
}

#[test]
fn uninstall_decisions() {
    assert_eq!(uninstall("systray").unwrap().id, "systray");
    assert_eq!(uninstall("backup").unwrap().id, "backup");
    assert!(uninstall("testsuite").unwrap_err().contains("is not a locally installable addon"));
}

#[test]
fn paths_join_like_pathbuf() {
    for (base, rel) in [("/home/u", ".local/bin"), ("/home/u/", ".local/bin"), ("", "x"), ("/usr/local/bin", ""), ("/a", "/b")] {
        let expected = std::path::PathBuf::from(base).join(rel).to_string_lossy().into_owned();
        assert_eq!(path_join(base, rel), expected, "joining {rel:?} onto {base:?}");
    }
}

#[test]
fn install_locations() {
    let systray = find("systray").unwrap();
    let backup = find("backup").unwrap();
    assert_eq!(install_dir_for(&systray, None), Ok("/usr/local/bin".to_string()));
    assert_eq!(binary_path_for(&systray, None), Ok("/usr/local/bin/tetron-systray".to_string()));
    assert_eq!(binary_path_for(&backup, Some("/home/u".to_string())), Ok("/home/u/.local/bin/tetron-backup.sh".to_string()));
    assert_eq!(install_dir_for(&backup, None), Err("could not determine home directory".to_string()));
}

#[test]
fn link_only_addons_are_never_probed_or_installed() {
    let probes = status_probes();
    assert!(matches!(probes[2], InstallProbe::Skip));
    assert!(matches!(probes[3], InstallProbe::Skip));
    assert!(matches!(probes[0], InstallProbe::Service { linux_unit: "tetron-systray", macos_label: "com.tetron.systray" }));
    let rows = list_status(&probes, &vec![true, true, true, true], "u");
    assert!(!rows[2].installed && !rows[3].installed);
    assert!(rows[0].installed);
    assert_eq!(rows[1].script_url.as_deref(), Some("u"));
    assert!(rows[0].script_url.is_none());
}

#[test]
fn service_activity_is_read_from_trimmed_output() {
    assert!(service_reported_active(b"active\n"));
    assert!(!service_reported_active(b"inactive\n"));
    assert!(!service_reported_active(b""));
}

#[test]
fn script_install_and_removal_messages() {
    let backup = find("backup").unwrap();
    let systray = find("systray").unwrap();
    assert_eq!(script_download_failed("u", "e"), "failed to download script from u: e");
    assert_eq!(check_script_download("u", 0).unwrap_err(), "downloaded script from u is empty -- aborting install");
    assert!(check_script_download("u", 1).is_ok());
    assert_eq!(script_installed(backup.display_name, "/d"), "Config Backup installed at /d (no root needed).");
    assert_eq!(not_installed(&systray), "Systray is not installed");
    assert_eq!(script_removed(&backup, "/d", Ok(())), "Config Backup script removed from /d.");
    assert_eq!(
        script_removed(&backup, "/d", Err("denied".to_string())),
        "Config Backup script at /d could not be removed: denied. Delete it manually if you want a full cleanup."
    );
    assert_eq!(uninstall_service(&systray, "/d", Ok(())), "Systray uninstalled.");
    assert_eq!(
        uninstall_service(&systray, "/d", Err("denied".to_string())),
        "Systray service stopped, but its binary at /d could not be removed: denied. Delete it manually if you want a full cleanup."
    );
}

#[test]
fn script_install_steps_in_order() {
    let backup = find("backup").unwrap();
    let mut job = ScriptInstall::start(&backup, "https://u/s.sh".to_string(), "/h/.local/bin/tetron-backup.sh".to_string());
    assert!(matches!(job.phase(), ScriptPhase::Downloading));
    job.advance(Ok(0));
    assert!(matches!(job.phase(), ScriptPhase::Measuring));
    job.advance(Ok(120));
    assert!(matches!(job.phase(), ScriptPhase::MakingDir));
    job.advance(Ok(0));
    assert!(matches!(job.phase(), ScriptPhase::Copying));
    job.advance(Ok(0));
    assert!(matches!(job.phase(), ScriptPhase::MakingExecutable));
    job.advance(Ok(0));
    match job.phase() {
        ScriptPhase::Finished(Ok(m)) => assert_eq!(m, "Config Backup installed at /h/.local/bin/tetron-backup.sh (no root needed)."),
        other => panic!("unexpected phase {other:?}"),
    }
}

#[test]
fn empty_or_failed_download_never_reaches_the_copy() {
    let backup = find("backup").unwrap();
    let mut job = ScriptInstall::start(&backup, "u".to_string(), "/d".to_string());
    job.advance(Ok(0));
    job.advance(Ok(0));
    match job.phase() {
        ScriptPhase::Finished(Err(e)) => assert_eq!(e, "downloaded script from u is empty -- aborting install"),
        other => panic!("unexpected phase {other:?}"),
    }
    let mut job = ScriptInstall::start(&backup, "u".to_string(), "/d".to_string());
    job.advance(Err("command exited with exit status: 22".to_string()));
    match job.phase() {
        ScriptPhase::Finished(Err(e)) => assert_eq!(e, "failed to download script from u: command exited with exit status: 22"),
        other => panic!("unexpected phase {other:?}"),
    }
    let mut job = ScriptInstall::start(&backup, "u".to_string(), "/d".to_string());
    job.advance(Ok(0));
    job.advance(Ok(5));
    job.advance(Ok(0));
    job.advance(Err("read-only".to_string()));
    match job.phase() {
        ScriptPhase::Finished(Err(e)) => assert_eq!(e, "failed to install to /d: read-only"),
        other => panic!("unexpected phase {other:?}"),
    }
}

fn finished(job: &AddonUninstall) -> Option<Result<String, String>> {
    match job.phase() {
        UninstallPhase::Finished(r) => Some(r.clone()),
        _ => None,
    }
}

#[test]
fn uninstall_of_a_missing_script_is_refused() {
    let spec = find("backup").unwrap();
    let mut job = AddonUninstall::start(&spec, "/home/u/.local/bin/tetron-backup.sh".to_string());
    assert!(matches!(job.phase(), UninstallPhase::CheckingFile));
    job.advance(Ok(false));
    assert_eq!(finished(&job), Some(Err("Config Backup is not installed".to_string())));
}

#[test]
fn uninstall_of_a_script_succeeds_whether_or_not_removal_does() {
    let spec = find("backup").unwrap();
    let dest = "/home/u/.local/bin/tetron-backup.sh";
    let mut job = AddonUninstall::start(&spec, dest.to_string());
    job.advance(Ok(true));
    assert!(matches!(job.phase(), UninstallPhase::RemovingScript));
    assert_eq!(job.dest(), dest);
    job.advance(Ok(true));
    assert_eq!(
        finished(&job),
        Some(Ok("Config Backup script removed from /home/u/.local/bin/tetron-backup.sh.".to_string()))
    );

    let mut job = AddonUninstall::start(&spec, dest.to_string());
    job.advance(Ok(true));
    job.advance(Err("Permission denied (os error 13)".to_string()));
    assert_eq!(
        finished(&job),
        Some(Ok("Config Backup script at /home/u/.local/bin/tetron-backup.sh could not be removed: \
                 Permission denied (os error 13). Delete it manually if you want a full cleanup."
            .to_string()))
    );
}

#[test]
fn uninstall_of_a_release_binary_tears_down_before_removing() {
    let spec = find("systray").unwrap();
    let dest = "/usr/local/bin/tetron-systray";

    let mut job = AddonUninstall::start(&spec, dest.to_string());
    job.advance(Ok(true));
    assert!(matches!(job.phase(), UninstallPhase::TearingDown));
    job.advance(Err("command exited with exit status: 1".to_string()));
    assert_eq!(finished(&job), Some(Err("command exited with exit status: 1".to_string())));

    let mut job = AddonUninstall::start(&spec, dest.to_string());
    job.advance(Ok(true));
    job.advance(Ok(true));
    assert!(matches!(job.phase(), UninstallPhase::RemovingBinary));
    job.advance(Ok(true));
    assert_eq!(finished(&job), Some(Ok("Systray uninstalled.".to_string())));

    let mut job = AddonUninstall::start(&spec, dest.to_string());
    job.advance(Ok(true));
    job.advance(Ok(true));
    job.advance(Err("Permission denied (os error 13)".to_string()));
    assert_eq!(
        finished(&job),
        Some(Ok("Systray service stopped, but its binary at /usr/local/bin/tetron-systray could not be removed: \
                 Permission denied (os error 13). Delete it manually if you want a full cleanup."
            .to_string()))
    );
    job.advance(Ok(false));
    assert!(matches!(finished(&job), Some(Ok(_))));
}

#[test]
fn begin_uninstall_paths_and_refusals() {
    match begin_uninstall("systray") {
        Ok(job) => {
            assert_eq!(job.dest(), "/usr/local/bin/tetron-systray");
            assert!(matches!(job.phase(), UninstallPhase::CheckingFile));
        }
        Err(e) => panic!("unexpected refusal: {e}"),
    }
    match begin_uninstall("relay") {
        Err(e) => assert_eq!(
            e,
            "Relay is not a locally installable addon -- see https://github.com/ErikAllanKincaid/tetron-relay for setup instructions"
        ),
        Ok(_) => panic!("relay is not removable here"),
    }
    match begin_uninstall("nope") {
        Err(e) => assert_eq!(e, "unknown addon: nope"),
        Ok(_) => panic!("unknown add-on accepted"),
    }
}
