use island_app::kugou::{KugouStatus, PositionSample};
use island_app::kugou_deploy::{EnhanceStatus, PatchState};
use island_app::music::{
    active_takes, fallback_target, fallback_track, kugou_enhance_status, kugou_status, needs_skip,
    poll_state, seek, select_source, sync_plan, tracks_progress, Capabilities, ClockRate, Control,
    MusicService, ProgressTracker,
};
use island_app::provider::ProviderState;
use island_app::settings::{DiagnosticsToggles, MusicConfig};

fn sample(position_ms: i64, at_epoch_ms: i64) -> Option<PositionSample> {
    Some(PositionSample { position_ms, at_epoch_ms })
}

fn as_f64(r: ClockRate) -> f64 {
    r.num as f64 / r.den as f64
}

const ONE: ClockRate = ClockRate { num: 1, den: 1 };
const ZERO: ClockRate = ClockRate { num: 0, den: 1 };

#[test]
fn fallback_track_uses_aumid_tail_or_last_30_chars() {
    assert_eq!(fallback_track("cloudmusic.exe"), "SMTC: exe", "带点的 AUMID 取最后一段");
    let long = "a".repeat(40);
    assert_eq!(fallback_track(&long), format!("SMTC: {}", "a".repeat(30)), "无点时取末尾 30 字符");
}

#[test]
fn fallback_track_edge_cases() {
    assert_eq!(fallback_track(""), "SMTC: ");
    assert_eq!(fallback_track("trailing."), "SMTC: ", "点在末尾时最后一段为空");
    assert_eq!(fallback_track("short"), "SMTC: short");
}

#[test]
fn estimate_counts_from_track_change_and_clamps_to_duration() {
    let mut t = ProgressTracker::new();
    assert_eq!(t.observe("a", true, 1_000, None, Some(10_000)).0, 0, "刚落到的曲目从 0 起算");
    assert_eq!(t.observe("a", true, 4_000, None, Some(10_000)).0, 3_000, "按墙钟推进");
    assert_eq!(t.observe("a", true, 99_000, None, Some(10_000)).0, 10_000, "不应超过曲目时长");
    assert_eq!(t.observe("b", true, 99_000, None, Some(10_000)).0, 0, "切歌归零");
}

#[test]
fn estimate_freezes_while_paused_and_resumes_where_it_stopped() {
    let mut t = ProgressTracker::new();
    t.observe("a", true, 0, None, Some(100_000));
    let (pos, _, rate) = t.observe("a", false, 5_000, None, Some(100_000));
    assert_eq!((pos, rate), (5_000, ZERO), "暂停时冻结在当前位置");
    assert_eq!(t.observe("a", false, 60_000, None, Some(100_000)).0, 5_000, "暂停期间不推进");
    let (pos, _, rate) = t.observe("a", true, 60_000, None, Some(100_000));
    assert_eq!((pos, rate), (5_000, ONE), "续播接着走而不是重新计时");
    assert_eq!(t.observe("a", true, 62_000, None, Some(100_000)).0, 7_000);
}

#[test]
fn estimate_ignores_time_going_backwards() {
    let mut t = ProgressTracker::new();
    t.observe("a", true, 10_000, None, Some(100_000));
    let (pos, anchor, _) = t.observe("a", true, 9_000, None, Some(100_000));
    assert_eq!((pos, anchor), (0, 9_000), "时钟回拨时进度不退成负数");
}

#[test]
fn sample_puts_a_song_already_playing_back_in_sync() {
    let mut t = ProgressTracker::new();
    let (pos, _, rate) = t.observe("a", true, 1_000_000, sample(90_000, 990_000), Some(300_000));
    assert_eq!((pos, rate), (100_000, ONE));
}

#[test]
fn sample_from_previous_track_is_not_used_for_the_new_one() {
    let mut t = ProgressTracker::new();
    t.observe("a", true, 0, None, Some(300_000));
    t.observe("b", true, 1_000, None, Some(300_000));
    let (pos, _, _) = t.observe("b", true, 11_000, sample(200_000, 0), Some(300_000));
    assert_eq!(pos, 10_000, "残留采样应被丢弃，进度仍按自己数的 10 秒");
}

#[test]
fn fresh_sample_corrects_a_jump_in_the_player() {
    let mut t = ProgressTracker::new();
    t.observe("a", true, 0, None, Some(300_000));
    let (pos, _, _) = t.observe("a", true, 10_000, sample(120_000, 10_000), Some(300_000));
    assert_eq!(pos, 120_000);
}

#[test]
fn sample_within_tolerance_does_not_jitter_the_position() {
    let mut t = ProgressTracker::new();
    t.observe("a", true, 0, None, Some(300_000));
    let (pos, _, _) = t.observe("a", true, 10_000, sample(9_700, 10_000), Some(300_000));
    assert_eq!(pos, 10_000, "差在容差内应保持自己的外推");
}

#[test]
fn same_sample_is_only_reconciled_once() {
    let mut t = ProgressTracker::new();
    t.observe("a", true, 0, sample(5_000, 0), Some(300_000));
    assert_eq!(t.observe("a", true, 3_000, sample(5_000, 0), Some(300_000)).0, 8_000);
    assert_eq!(t.observe("a", true, 5_000, sample(5_000, 0), Some(300_000)).0, 10_000);
}

#[test]
fn unknown_duration_still_tracks_position() {
    let mut t = ProgressTracker::new();
    assert_eq!(t.observe("a", true, 0, sample(30_000, 0), None).0, 30_000);
    assert_eq!(t.observe("a", true, 5_000, sample(30_000, 0), None).0, 35_000);
}

#[test]
fn learns_the_players_clock_rate_from_two_samples() {
    let mut t = ProgressTracker::new();
    t.observe("a", true, 0, sample(0, 0), Some(600_000));
    let (pos, _, rate) = t.observe("a", true, 30_000, sample(30_360, 30_000), Some(600_000));
    assert!((as_f64(rate) - 1.012).abs() < 0.001, "应学出 1.012 的倍率，实测 {rate:?}");
    assert_eq!(pos, 30_360);
    assert_eq!(t.observe("a", true, 45_000, sample(30_360, 30_000), Some(600_000)).0, 45_540);
}

#[test]
fn rate_learning_rejects_pauses_and_jumps() {
    let mut t = ProgressTracker::new();
    t.observe("a", true, 0, sample(0, 0), Some(600_000));
    let (_, _, rate) = t.observe("a", true, 30_000, sample(6_000, 30_000), Some(600_000));
    assert!((as_f64(rate) - 1.0).abs() < f64::EPSILON, "不合理的倍率保持 1.0，实测 {rate:?}");
    let (_, _, rate) = t.observe("a", true, 31_000, sample(-5_000, 31_000), Some(600_000));
    assert!((as_f64(rate) - 1.0).abs() < f64::EPSILON, "实测 {rate:?}");
}

#[test]
fn rate_resets_when_the_track_changes() {
    let mut t = ProgressTracker::new();
    t.observe("a", true, 0, sample(0, 0), Some(600_000));
    t.observe("a", true, 30_000, sample(30_360, 30_000), Some(600_000));
    assert!(t.rate.num > t.rate.den);
    let (_, _, rate) = t.observe("b", true, 60_000, None, Some(600_000));
    assert!((as_f64(rate) - 1.0).abs() < f64::EPSILON, "新歌先按 1.0 走，等两次采样再学");
}

#[test]
fn implausible_sample_is_ignored() {
    let mut t = ProgressTracker::new();
    t.observe("a", true, 0, None, Some(300_000));
    assert_eq!(t.observe("a", true, 10_000, sample(999_000, 10_000), Some(300_000)).0, 10_000);
}

fn source(app: &str, title: &str, duration_ms: Option<i64>) -> ProviderState {
    ProviderState {
        is_playing: true,
        title: title.to_string(),
        artist: "周杰伦".to_string(),
        album: None,
        source_app_id: app.to_string(),
        song_id: None,
        position_ms: 42,
        anchor_epoch_ms: 7,
        rate: ONE,
        duration_ms,
        seek_supported: true,
        artwork_url: None,
    }
}

#[test]
fn disabled_kugou_sessions_are_skipped() {
    let snaps = vec![None, Some(source("KuGou.exe", "晴天", None)), Some(source("chrome.exe", "x", None))];
    assert_eq!(select_source(&snaps, true), Some(1));
    assert_eq!(select_source(&snaps, false), Some(2), "关掉酷狗接入时它的会话当不存在");
    assert_eq!(select_source(&vec![None, None], true), None);
}

#[test]
fn kugou_session_without_timeline_is_tracked_here() {
    assert!(tracks_progress(&source("KuGou.exe", "晴天", None)));
    assert!(!tracks_progress(&source("KuGou.exe", "晴天", Some(1))));
    assert!(!tracks_progress(&source("cloudmusic.exe", "晴天", None)), "其它源不臆造进度");
}

const CAPS: Capabilities = Capabilities { artwork_bitmap: true, skip: true, fallback: true };

#[test]
fn poll_without_source_is_idle() {
    let mut svc = MusicService::new(2);
    let (state, fetches) = poll_state(&mut svc, None, "", CAPS, false, 1_000, None);
    assert_eq!(state, Default::default());
    assert!(fetches.meta.is_none() && fetches.lyrics.is_none() && fetches.artwork.is_none());
}

#[test]
fn poll_shows_the_source_and_asks_for_resources() {
    let mut svc = MusicService::new(2);
    let src = source("cloudmusic.exe", "晴天", Some(269_000));
    let (state, fetches) = poll_state(&mut svc, Some((0, src)), "smtc", CAPS, true, 1_000, None);
    assert_eq!(svc.active, 0);
    assert_eq!(state.provider, "smtc");
    assert_eq!(state.track.as_deref(), Some("晴天"));
    assert_eq!(state.artist.as_deref(), Some("周杰伦"));
    assert_eq!((state.position_ms, state.anchor_epoch_ms, state.rate), (42, 7, ONE), "有时间轴的源保持原样");
    assert_eq!(fetches.artwork.as_deref(), Some("晴天|周杰伦|cloudmusic.exe"));
    let job = fetches.lyrics.expect("lyrics job");
    assert_eq!(job.key, "晴天|周杰伦|cloudmusic.exe");
    assert!(fetches.meta.is_none(), "非酷狗、无 songId 的源不抓元数据");

    let src = source("cloudmusic.exe", "晴天", Some(269_000));
    let (_, again) = poll_state(&mut svc, Some((0, src)), "smtc", CAPS, true, 2_000, None);
    assert!(again.artwork.is_none() && again.lyrics.is_none(), "同一首歌不重复抓");
}

#[test]
fn poll_falls_back_to_source_id_and_tracks_kugou() {
    let mut svc = MusicService::new(0);
    let src = source("KuGou.exe", "", None);
    let (state, fetches) = poll_state(&mut svc, Some((0, src)), "smtc", CAPS, true, 1_000, None);
    assert_eq!(state.track.as_deref(), Some("SMTC: exe"));
    assert!(fetches.meta.is_none(), "标题没到时不抓元数据");
    assert_eq!(state.position_ms, 0, "酷狗会话自己数进度");
    let src = source("KuGou.exe", "", None);
    let (state, _) = poll_state(&mut svc, Some((0, src)), "smtc", CAPS, true, 4_000, None);
    assert_eq!(state.position_ms, 3_000);
    assert_eq!(state.anchor_epoch_ms, 4_000);
}

#[test]
fn kugou_status_follows_the_enhancement() {
    let st = |patch, running, restart| EnhanceStatus { patch, cdp: false, kugou_running: running, needs_restart: restart };
    assert_eq!(kugou_status(false, true, None, Some("KuGou.exe"), false, true), KugouStatus::NotRunning, "服务没起时按进程与安装判断");
    assert_eq!(kugou_status(true, true, Some(st(PatchState::Pending, true, false)), None, true, true), KugouStatus::Connected);
    assert_eq!(kugou_status(true, false, Some(st(PatchState::Missing, true, false)), None, true, true), KugouStatus::NotRunning);
    assert_eq!(kugou_status(true, false, Some(st(PatchState::Missing, false, false)), None, false, false), KugouStatus::NotDetected);
    assert_eq!(kugou_status(true, false, Some(st(PatchState::Unsupported, true, false)), None, true, true), KugouStatus::NeedsPatch);
    assert_eq!(kugou_status(true, false, Some(st(PatchState::Pending, true, false)), None, true, true), KugouStatus::NeedsPatch);
    assert_eq!(kugou_status(true, false, Some(st(PatchState::Patched, false, false)), None, false, true), KugouStatus::NotRunning);
    assert_eq!(kugou_status(true, false, Some(st(PatchState::Patched, true, true)), None, true, true), KugouStatus::NeedsRestart);
    assert_eq!(kugou_status(true, false, Some(st(PatchState::Patched, true, false)), None, true, true), KugouStatus::Connecting);
    assert_eq!(kugou_status(true, false, None, Some("KuGou.exe"), true, true), KugouStatus::Connected);
    assert_eq!(kugou_status(true, false, None, None, true, true), KugouStatus::NeedsSystemControls);
}

#[test]
fn enhance_status_needs_restart_only_when_patched_running_without_devtools() {
    assert!(kugou_enhance_status(PatchState::Patched, false, true).needs_restart);
    assert!(!kugou_enhance_status(PatchState::Patched, true, true).needs_restart);
    assert!(!kugou_enhance_status(PatchState::Pending, false, true).needs_restart);
    assert!(!kugou_enhance_status(PatchState::Patched, false, false).needs_restart);
}

#[test]
fn controls_route_by_capability() {
    assert_eq!(seek(-5), Control::Seek(0));
    assert_eq!(seek(1234), Control::Seek(1234));
    assert!(needs_skip(Control::Next) && needs_skip(Control::Prev));
    assert!(!needs_skip(Control::Play) && !needs_skip(Control::Seek(1)));
    let no_skip = Capabilities { artwork_bitmap: false, skip: false, fallback: false };
    assert!(!active_takes(Control::Next, no_skip));
    assert!(active_takes(Control::Pause, no_skip));
    let caps = vec![no_skip, no_skip, CAPS];
    assert_eq!(fallback_target(&caps, 0), Some(2));
    assert_eq!(fallback_target(&caps, 2), None, "回退源就是当前源时不重复发");
    assert_eq!(fallback_target(&vec![no_skip], 0), None);
}

#[test]
fn settings_decide_what_runs() {
    let plan = sync_plan(DiagnosticsToggles::default(), MusicConfig::default());
    assert!(plan.poll && plan.kugou_enabled && !plan.kugou_enhance_enabled);
    assert!(!plan.cdp_enabled, "增强默认关闭时 CDP 不连");
    assert!(plan.bridge_wanted);
    let off = DiagnosticsToggles { clipboard_poll: true, music_poll: false, dev_overlay: false };
    let all = MusicConfig { netease_bridge: true, kugou_support: true, kugou_enhance: true };
    let plan = sync_plan(off, all);
    assert!(!plan.cdp_enabled && !plan.bridge_wanted, "子系统关着时都不跑");
    assert!(sync_plan(DiagnosticsToggles::default(), all).cdp_enabled);
}

#[test]
fn observing_named_tracks_keeps_the_rate_in_band() {
    let mut t = ProgressTracker::new();
    for (i, (track, playing, now, smp)) in [
        ("a", true, 1_000, sample(500, 1_000)),
        ("a", true, 2_000, sample(1_520, 2_000)),
        ("a", false, 3_000, None),
        ("b", true, 4_000, sample(0, 4_000)),
        ("b", true, 5_000, sample(2_000, 5_000)),
    ]
    .into_iter()
    .enumerate()
    {
        let (p, a, r) = t.observe(track, playing, now, smp, Some(300_000));
        assert_eq!(a, now, "step {i}");
        assert!(p >= 0 && p <= 300_000, "step {i}");
        if playing {
            assert!(9 * r.den <= 10 * r.num && 10 * r.num <= 11 * r.den, "step {i}: {r:?}");
        } else {
            assert_eq!(r, ClockRate { num: 0, den: 1 }, "step {i}");
        }
    }
}

#[test]
fn losing_the_source_keeps_fetches_in_flight() {
    let mut svc = MusicService::new(2);
    assert!(svc.resolver.lyrics.begin("晴天|周杰伦"));
    assert!(svc.resolver.meta.begin("晴天|周杰伦"));
    let (state, _) = poll_state(&mut svc, None, "", CAPS, false, 1_000, None);
    assert!(state.track.is_none());
    assert_eq!(svc.resolver.lyrics.fetching.as_deref(), Some("晴天|周杰伦"));
    assert_eq!(svc.resolver.meta.fetching.as_deref(), Some("晴天|周杰伦"));
    assert!(svc.resolver.artwork.fetching.is_none());
}
