use island_app::error::AppError;
use island_app::kugou::{names_kugou, window_display_name, PositionSample};
use island_app::kugou_deploy::{helper_args, patch_helper_plan, HelperMode};
use island_app::music::{
    control, kugou_repair, kugou_revert, run_kugou_patch_helper, sample_in_range, time_in_range, volume_message,
    Control, ControlPlan, MusicAction, TIME_LIMIT,
};
use island_app::resolver::Slot;
use island_app::text::{decimal_text, join3, utf16_text};

fn args(v: &[&str]) -> Vec<String> {
    v.iter().map(|s| s.to_string()).collect()
}

#[test]
fn helper_switch_is_found_with_defaults() {
    assert_eq!(helper_args(&args(&["island.exe"])), None, "没有开关不是 helper");
    assert_eq!(
        helper_args(&args(&["island.exe", "--kugou-patch-helper", "restore", "C:\\a", "C:\\b"])),
        Some(("restore".to_string(), "C:\\a".to_string(), "C:\\b".to_string()))
    );
    assert_eq!(
        helper_args(&args(&["x", "--kugou-patch-helper"])),
        Some(("patch".to_string(), String::new(), String::new())),
        "缺参数时模式默认 patch、路径为空"
    );
}

#[test]
fn helper_without_control_dir_exits_with_two() {
    assert_eq!(patch_helper_plan("patch", "C:\\a", "  \"\"  "), Err(2));
    let (mode, libcef, control) = patch_helper_plan("restore", "\"C:\\a\"", " C:\\b ").expect("plan");
    assert_eq!(mode, HelperMode::Restore);
    assert_eq!((libcef.as_str(), control.as_str()), ("C:\\a", "C:\\b"));
    assert_eq!(run_kugou_patch_helper("patch", "a", ""), Err(2));
}

#[test]
fn repair_and_revert_start_their_flows() {
    let (flow, _) = kugou_repair();
    assert_eq!(flow.mode, HelperMode::Patch);
    let (flow, _) = kugou_revert();
    assert_eq!(flow.mode, HelperMode::Restore);
}

#[test]
fn kugou_window_titles_and_uninstall_names() {
    assert_eq!(window_display_name("周杰伦 - 晴天 - 酷狗音乐").as_deref(), Some("周杰伦 - 晴天"));
    assert_eq!(window_display_name(" - 酷狗音乐"), None, "空名字不算");
    assert_eq!(window_display_name("酷狗音乐"), None);
    assert!(names_kugou("酷狗音乐"));
    assert!(names_kugou("KuGou Music"));
    assert!(!names_kugou("NetEase Cloud Music"));
}

#[test]
fn samples_and_times_out_of_range_are_refused() {
    assert!(time_in_range(0) && time_in_range(TIME_LIMIT) && !time_in_range(TIME_LIMIT + 1));
    let ok = PositionSample { position_ms: 1, at_epoch_ms: 2 };
    assert_eq!(sample_in_range(Some(ok)), Some(ok));
    assert_eq!(sample_in_range(Some(PositionSample { position_ms: i64::MAX, at_epoch_ms: 0 })), None);
    assert_eq!(sample_in_range(None), None);
}

#[test]
fn renderer_commands_become_plans() {
    assert_eq!(control(MusicAction::Play, None), ControlPlan::Route(Control::Play, "已发送播放指令。".into()));
    assert_eq!(control(MusicAction::Prev, Some(3)), ControlPlan::Route(Control::Prev, "已切换到上一首。".into()));
    assert_eq!(control(MusicAction::Volume, None), ControlPlan::Volume(50));
    assert_eq!(control(MusicAction::Volume, Some(250)), ControlPlan::Volume(100));
    assert_eq!(control(MusicAction::Volume, Some(-3)), ControlPlan::Volume(0));
    assert_eq!(volume_message(30, true), "音量已设置为 30%");
    assert_eq!(volume_message(30, false), "无法调整音量。");
}

#[test]
fn abandoned_fetch_can_start_again() {
    let mut s: Slot<i32> = Slot::new();
    assert!(s.begin("k"));
    s.abandon("other");
    assert!(!s.begin("k"));
    s.abandon("k");
    assert!(s.begin("k"));
}

#[test]
fn text_helpers() {
    assert_eq!(decimal_text(-1200), "-1200");
    assert_eq!(decimal_text(i64::MIN), "-9223372036854775808");
    assert_eq!(join3("a", "", "c"), "ac");
    assert_eq!(AppError::new("x").to_text(), "x");
}

#[test]
fn utf16_units_decode_lossily() {
    let units: Vec<u16> = "酷狗 A".encode_utf16().collect();
    assert_eq!(utf16_text(&units), "酷狗 A");
    assert_eq!(utf16_text(&[0x0041, 0xD800, 0x0042]), "A\u{FFFD}B");
    assert_eq!(utf16_text(&[]), "");
}
