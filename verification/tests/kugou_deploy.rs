use island_app::error::AppError;
use island_app::kugou_deploy::{
    apply_precheck, backup_path, classify_sites, deploy_message, deploy_step, ensure_applied,
    helper_params, helper_report, is_helper_ok, is_kugou_image, libcef_path, revert, rollback_error,
    sites, status, unquote_path, write_verified, DeployAction, DeployEvent, DeployFailure,
    DeployFlow, DeployOutcome, DeployStage, HelperMode, PatchState, UNLOCK_GRACE_MS,
};

#[test]
fn patch_table_is_sane() {
    let table = sites();
    assert_eq!(table.len(), 9, "补丁表应有九处");
    for (i, site) in table.iter().enumerate() {
        assert_eq!(site.orig.len(), site.data.len(), "第{i}处 orig/data 长度不一致");
        assert_ne!(site.orig, site.data, "第{i}处 orig 与 data 相同，指纹没有区分力");
    }
    let mut offsets: Vec<u64> = table.iter().map(|s| s.offset).collect();
    offsets.sort_unstable();
    offsets.dedup();
    assert_eq!(offsets.len(), table.len(), "补丁偏移不该重复");
}

#[test]
fn classify_covers_all_four_states() {
    let table = sites();
    let orig: Vec<Vec<u8>> = table.iter().map(|s| s.orig.clone()).collect();
    let data: Vec<Vec<u8>> = table.iter().map(|s| s.data.clone()).collect();
    assert_eq!(classify_sites(&table, &orig), PatchState::Pending);
    assert_eq!(classify_sites(&table, &data), PatchState::Patched);
    let mut mixed = orig.clone();
    mixed[0] = table[0].data.clone();
    assert_eq!(classify_sites(&table, &mixed), PatchState::Pending, "打了一部分仍算可打");
    let mut unknown = orig.clone();
    unknown[4] = vec![0xEE; table[4].data.len()];
    assert_eq!(classify_sites(&table, &unknown), PatchState::Unsupported, "陌生字节拒绝盲打");
}

#[test]
fn helper_command_line_and_paths() {
    assert_eq!(
        helper_params(HelperMode::Restore, "C:\\K\\libcef.dll", "C:\\T"),
        "--kugou-patch-helper restore \"C:\\K\\libcef.dll\" \"C:\\T\""
    );
    assert_eq!(HelperMode::from_arg("restore"), HelperMode::Restore);
    assert_eq!(HelperMode::from_arg("whatever"), HelperMode::Patch, "旧命令行没有模式参数时按打补丁");
    assert_eq!(HelperMode::Patch.as_arg(), "patch");
    assert_eq!(unquote_path("  \"C:\\K\\libcef.dll\"  "), "C:\\K\\libcef.dll");
    assert_eq!(unquote_path("\"\""), "");
    assert_eq!(backup_path("C:\\K\\libcef.dll"), "C:\\K\\libcef.dll.topisland.bak");
}

#[test]
fn helper_reports_result_and_exit_code() {
    assert_eq!(helper_report(None), ("timeout".to_string(), 3));
    assert_eq!(helper_report(Some(Ok(()))), ("ok".to_string(), 0));
    assert_eq!(helper_report(Some(Err(AppError::new("error.io: x")))), ("failed: error.io: x".to_string(), 4));
    assert!(is_helper_ok(" ok\n"));
    assert!(!is_helper_ok("failed: x"));
}

#[test]
fn patch_job_prechecks_and_verifies() {
    assert!(matches!(apply_precheck(Ok(PatchState::Pending)), None));
    assert!(matches!(apply_precheck(Ok(PatchState::Patched)), Some(Ok(()))));
    match apply_precheck(Ok(PatchState::Unsupported)) {
        Some(Err(e)) => assert!(e.message.starts_with("error.denied:")),
        other => panic!("unexpected {other:?}"),
    }
    assert!(write_verified(true, &Ok(PatchState::Patched)));
    assert!(!write_verified(false, &Ok(PatchState::Patched)));
    assert!(!write_verified(true, &Ok(PatchState::Pending)));
    assert!(rollback_error(false, "C:\\b").message.ends_with("C:\\b"));
}

#[test]
fn status_and_locating() {
    assert!(status(PatchState::Patched, false, true).needs_restart);
    assert!(is_kugou_image("KuGou.exe") && is_kugou_image("kugou.EXE") && is_kugou_image("KuGou_1.exe"));
    assert!(!is_kugou_image("kgscrsaver.exe"));
    let versions = vec![("a".to_string(), 5i128), ("b".to_string(), 9), ("c".to_string(), 9)];
    assert_eq!(libcef_path(Some("run".into()), Some("reg".into()), &versions).as_deref(), Some("run"));
    assert_eq!(libcef_path(None, Some("reg".into()), &versions).as_deref(), Some("reg"));
    assert_eq!(libcef_path(None, None, &versions).as_deref(), Some("b"), "取最新，同时刻取先列出的");
    assert_eq!(libcef_path(None, None, &Vec::new()), None);
}

fn run(start: (DeployFlow, DeployAction), events: Vec<DeployEvent>) -> (Vec<String>, DeployFlow) {
    let (mut f, mut a) = start;
    let mut log = vec![format!("{a:?}")];
    for ev in events {
        let (g, b) = deploy_step(f, ev);
        f = g;
        a = b;
        log.push(format!("{a:?}"));
    }
    (log, f)
}

#[test]
fn patching_a_running_kugou_restarts_it() {
    let (log, f) = run(
        ensure_applied(),
        vec![
            DeployEvent::Cdp(false),
            DeployEvent::Located(true),
            DeployEvent::Running(true),
            DeployEvent::Classified(Ok(PatchState::Pending)),
            DeployEvent::DirMade(Ok(())),
            DeployEvent::Launched(Ok(())),
            DeployEvent::Stopped(true),
            DeployEvent::Unlocked(Some(true)),
            DeployEvent::Collected(Ok("ok".into())),
            DeployEvent::CleanedUp,
            DeployEvent::Relaunched,
        ],
    );
    assert_eq!(
        log,
        vec![
            "ProbeCdp", "Locate", "ProbeRunning", "Classify", "MakeControlDir", "Launch(Patch)",
            "StopKugou", "WaitUnlocked", "Go", "RemoveControlDir", "RelaunchKugou", "Finish(Done)"
        ]
    );
    assert!(f.was_running && f.checked && f.stage == DeployStage::Finished);
    assert_eq!(
        deploy_message(HelperMode::Patch, true, DeployOutcome::Done).unwrap(),
        "酷狗增强已安装，酷狗已重启。"
    );
}

#[test]
fn patching_without_kugou_running_needs_the_registry() {
    let (log, _) = run(
        ensure_applied(),
        vec![DeployEvent::Cdp(false), DeployEvent::Located(true), DeployEvent::Running(false), DeployEvent::Registry(false)],
    );
    assert_eq!(log.last().map(String::as_str), Some("Finish(Failed(VersionUnknown))"));
    let (log, _) = run(ensure_applied(), vec![DeployEvent::Cdp(true)]);
    assert_eq!(log.last().map(String::as_str), Some("Finish(AlreadyActive)"));
}

#[test]
fn unknown_dll_is_never_patched() {
    let (log, f) = run(
        ensure_applied(),
        vec![
            DeployEvent::Cdp(false),
            DeployEvent::Located(true),
            DeployEvent::Running(true),
            DeployEvent::Classified(Ok(PatchState::Unsupported)),
        ],
    );
    assert_eq!(log.last().map(String::as_str), Some("Finish(Failed(UnsupportedDll))"));
    assert!(!f.checked);
    let msg = deploy_message(HelperMode::Patch, true, DeployOutcome::Failed(DeployFailure::UnsupportedDll));
    assert!(msg.unwrap_err().message.starts_with("error.denied:"));
}

#[test]
fn locked_dll_restarts_kugou_and_fails() {
    let (log, _) = run(
        ensure_applied(),
        vec![
            DeployEvent::Cdp(false),
            DeployEvent::Located(true),
            DeployEvent::Running(true),
            DeployEvent::Classified(Ok(PatchState::Pending)),
            DeployEvent::DirMade(Ok(())),
            DeployEvent::Launched(Ok(())),
            DeployEvent::Stopped(true),
            DeployEvent::Unlocked(Some(false)),
            DeployEvent::Relaunched,
            DeployEvent::CleanedUp,
        ],
    );
    assert_eq!(&log[8..], &["RelaunchKugou", "RemoveControlDir", "Finish(Failed(StillLocked))"]);
}

#[test]
fn unknown_lock_state_waits_a_little() {
    let (log, _) = run(
        ensure_applied(),
        vec![
            DeployEvent::Cdp(false),
            DeployEvent::Located(true),
            DeployEvent::Running(false),
            DeployEvent::Registry(true),
            DeployEvent::Classified(Ok(PatchState::Pending)),
            DeployEvent::DirMade(Ok(())),
            DeployEvent::Launched(Ok(())),
            DeployEvent::Unlocked(None),
            DeployEvent::Paused,
            DeployEvent::Collected(Ok("failed: x".into())),
            DeployEvent::CleanedUp,
        ],
    );
    assert_eq!(log[8], format!("Pause({UNLOCK_GRACE_MS})"));
    assert_eq!(log[9], "Go");
    assert!(log.last().unwrap().starts_with("Finish(Failed(Helper("), "没在跑的酷狗不拉起: {log:?}");
    let msg = deploy_message(HelperMode::Patch, false, DeployOutcome::Failed(DeployFailure::Helper("failed: x".into())));
    assert_eq!(msg.unwrap_err().message, "error.io: 补丁失败（failed: x）");
}

#[test]
fn restoring_needs_a_backup() {
    let (log, _) = run(revert(), vec![DeployEvent::Located(true), DeployEvent::Backup(false)]);
    assert_eq!(log, vec!["Locate", "CheckBackup", "Finish(NothingToRestore)"]);
    let (log, f) = run(
        revert(),
        vec![
            DeployEvent::Located(true),
            DeployEvent::Backup(true),
            DeployEvent::Running(false),
            DeployEvent::DirMade(Ok(())),
            DeployEvent::Launched(Ok(())),
            DeployEvent::Unlocked(Some(true)),
            DeployEvent::Collected(Ok("ok".into())),
            DeployEvent::CleanedUp,
        ],
    );
    assert_eq!(log[4], "Launch(Restore)");
    assert_eq!(log.last().map(String::as_str), Some("Finish(Done)"));
    assert!(!f.was_running);
    assert_eq!(deploy_message(HelperMode::Restore, false, DeployOutcome::Done).unwrap(), "已还原酷狗的 libcef.dll。");
}

#[test]
fn failed_stop_aborts_without_restart() {
    let (log, _) = run(
        revert(),
        vec![
            DeployEvent::Located(true),
            DeployEvent::Backup(true),
            DeployEvent::Running(true),
            DeployEvent::DirMade(Ok(())),
            DeployEvent::Launched(Ok(())),
            DeployEvent::Stopped(false),
            DeployEvent::CleanedUp,
        ],
    );
    assert_eq!(log.last().map(String::as_str), Some("Finish(Failed(NotStopped))"));
    let msg = deploy_message(HelperMode::Restore, true, DeployOutcome::Failed(DeployFailure::NotStopped));
    assert_eq!(msg.unwrap_err().message, "error.io: 酷狗没退出，无法还原 libcef.dll");
}
