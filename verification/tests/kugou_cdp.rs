use island_app::json::{parse_json, Json};
use island_app::kugou_cdp::{
    decode_progress_ms, evaluate_reply_text, parse_play_info, pick_page, CdpAction, CdpEvent, CdpPhase, KugouCdpProvider,
    PlayInfo, IDLE_INTERVAL_MS, POLL_INTERVAL_MS, RECONNECT_INTERVAL_MS,
};
use island_app::music::ClockRate;

fn parse(text: &str) -> Json {
    parse_json(text).expect("valid JSON")
}

#[test]
fn progress_ticks_decode_to_milliseconds() {
    assert_eq!(decode_progress_ms("1545777188", 251_293), 154_577);
    assert_eq!(decode_progress_ms("2265529271", 251_293), 226_552);
    assert_eq!(decode_progress_ms("0", 251_293), 0);
    assert_eq!(decode_progress_ms("abc", 251_293), 0, "脏数据当 0");
    assert_eq!(decode_progress_ms("99999999999999", 251_293), 251_293);
}

#[test]
fn play_info_parses_real_response() {
    let raw = r#"{"album_id":"983011","bitrate":"3487000",
        "cover":"http://imge.kugou.com/stdmusic/120/20221110/20221110154602109135.jpg",
        "duration":"251293","filename":"\u6797\u4FCA\u6770 - \u5F53\u4F60",
        "hash":"675fac779350d00c9b02e54bc2edb6a8","play_status":"playing",
        "progress":"2265529271","status":"1","type":"song"}"#;
    let info = parse_play_info(raw).expect("应能解析");
    assert_eq!(info.filename, "林俊杰 - 当你");
    assert_eq!(info.title_artist(), ("当你".into(), "林俊杰".into()));
    assert_eq!(info.play_status, "playing");
    assert!(info.is_playing());
    assert_eq!(info.position_ms, 226_552);
    assert_eq!(info.duration_ms, 251_293);
    assert_eq!(info.hash, "675fac779350d00c9b02e54bc2edb6a8");
    assert!(info.cover_url.starts_with("http://imge.kugou.com/"));
}

#[test]
fn play_info_rejects_ads_and_empty_payloads() {
    assert!(parse_play_info("").is_none());
    assert!(parse_play_info("not json").is_none());
    assert!(parse_play_info(r#"{"status":"1","type":"ad"}"#).is_none());
    assert!(parse_play_info(r#"{"hash":"abc","duration":1000,"progress":0}"#).is_some());
}

#[test]
fn numeric_fields_are_accepted_too() {
    let info = parse_play_info(r#"{"filename":"A - B","hash":"h","duration":1000,"progress":5000000}"#)
        .expect("数字型字段也要能读");
    assert_eq!(info.duration_ms, 1000);
    assert_eq!(info.position_ms, 500);
}

#[test]
fn page_pick_prefers_desktop_popup() {
    let pages = parse(r#"[
        { "type": "page", "url": "https://pc.service.kugou.com/yueku/find/index.html",
          "webSocketDebuggerUrl": "ws://127.0.0.1:12233/devtools/page/FIND" },
        { "type": "page", "url": "https://pc.service.kugou.com/apps/pcwv-desktop-popup/dist/index.html",
          "webSocketDebuggerUrl": "ws://127.0.0.1:12233/devtools/page/POPUP" }
    ]"#);
    assert_eq!(pick_page(&pages).as_deref(), Some("ws://127.0.0.1:12233/devtools/page/POPUP"));

    let only_find = parse(r#"[
        { "type": "page", "url": "find", "webSocketDebuggerUrl": "ws://x/FIND" }
    ]"#);
    assert_eq!(pick_page(&only_find).as_deref(), Some("ws://x/FIND"));
    assert!(pick_page(&Json::Array(Vec::new())).is_none());
}

fn sample_info() -> PlayInfo {
    PlayInfo {
        filename: "周杰伦 - 晴天".into(),
        play_status: "playing".into(),
        position_ms: 12_345,
        duration_ms: 269_000,
        cover_url: "http://imge.kugou.com/x.jpg".into(),
        hash: "abc123".into(),
    }
}

#[test]
fn offline_snapshot_is_not_a_source() {
    let mut p = KugouCdpProvider::new();
    assert!(p.snapshot(0, 1_000_000).is_none(), "没连上时不能当源");
    p.set_enabled(true);
    assert!(p.snapshot(0, 1_000_000).is_none(), "开关开着但没有快照时同样不能当源");
    assert!(!p.is_connected());
    p.store(0, sample_info());
    let s = p.snapshot(0, 1_000_000).expect("有新鲜快照时应作为源");
    assert_eq!(s.title, "晴天");
    assert_eq!(s.artist, "周杰伦");
    assert_eq!(s.song_id.as_deref(), Some("kugou:abc123"));
    assert_eq!(s.position_ms, 12_345);
    assert_eq!(s.duration_ms, Some(269_000));
    assert_eq!(s.rate, ClockRate { num: 1, den: 1 });
    assert_eq!(s.source_app_id, "kugou.exe");
    assert_eq!(s.artwork_url.as_deref(), Some("https://imge.kugou.com/x.jpg"));
    p.set_enabled(false);
    assert!(p.snapshot(0, 1_000_000).is_none());
}

#[test]
fn stale_snapshot_is_not_a_source() {
    let mut p = KugouCdpProvider::new();
    p.set_enabled(true);
    p.store(10_000, sample_info());
    let s = p.snapshot(11_500, 5_000_000).expect("1.5 秒内仍新鲜");
    assert_eq!(s.anchor_epoch_ms, 4_998_500, "锚点是读取那一刻");
    assert!(p.snapshot(12_000, 5_000_000).is_none(), "2 秒以上就过期");
}

#[test]
fn store_reports_changes_only() {
    let mut p = KugouCdpProvider::new();
    assert!(p.store(0, sample_info()), "第一份算变化");
    assert!(!p.store(200, sample_info()), "同样的信息不算变化");
    let mut moved = sample_info();
    moved.position_ms += 200;
    assert!(p.store(400, moved));
    assert!(p.clear());
    assert!(!p.clear());
}

#[test]
fn worker_connects_reads_and_goes_offline() {
    let mut p = KugouCdpProvider::new();
    assert_eq!(p.step(CdpPhase::Waiting, CdpEvent::Woke, 0), (CdpPhase::Waiting, CdpAction::Sleep(IDLE_INTERVAL_MS), 0));
    p.set_enabled(true);
    assert_eq!(p.step(CdpPhase::Waiting, CdpEvent::Woke, 0), (CdpPhase::Offline, CdpAction::Connect, 0));
    assert_eq!(
        p.step(CdpPhase::Offline, CdpEvent::Connected(false), 0),
        (CdpPhase::Offline, CdpAction::Sleep(RECONNECT_INTERVAL_MS), 0)
    );
    assert_eq!(p.step(CdpPhase::Offline, CdpEvent::Connected(true), 0), (CdpPhase::Online, CdpAction::Read, 1));
    assert!(p.is_connected());
    assert_eq!(
        p.step(CdpPhase::Online, CdpEvent::Read(Some(Some(sample_info()))), 100),
        (CdpPhase::Online, CdpAction::Sleep(POLL_INTERVAL_MS), 1)
    );
    assert!(p.snapshot(100, 1_000_000).is_some());
    assert_eq!(
        p.step(CdpPhase::Online, CdpEvent::Read(Some(Some(sample_info()))), 300),
        (CdpPhase::Online, CdpAction::Sleep(POLL_INTERVAL_MS), 0),
        "没变化不刷新"
    );
    assert_eq!(p.step(CdpPhase::Online, CdpEvent::Woke, 500), (CdpPhase::Online, CdpAction::Read, 0));
    assert_eq!(
        p.step(CdpPhase::Online, CdpEvent::Read(Some(None)), 600),
        (CdpPhase::Online, CdpAction::Sleep(POLL_INTERVAL_MS), 1),
        "没在放歌：清掉快照"
    );
    assert_eq!(p.step(CdpPhase::Online, CdpEvent::Read(None), 700), (CdpPhase::Offline, CdpAction::Connect, 1));
    assert!(!p.is_connected());
}

#[test]
fn switching_off_ends_the_session() {
    let mut p = KugouCdpProvider::new();
    p.set_enabled(true);
    p.step(CdpPhase::Offline, CdpEvent::Connected(true), 0);
    p.step(CdpPhase::Online, CdpEvent::Read(Some(Some(sample_info()))), 0);
    p.set_enabled(false);
    assert_eq!(
        p.step(CdpPhase::Online, CdpEvent::Woke, 200),
        (CdpPhase::Offline, CdpAction::Sleep(IDLE_INTERVAL_MS), 1)
    );
    assert!(!p.is_connected());
    p.set_enabled(true);
    assert!(p.snapshot(200, 1_000_000).is_none(), "关掉时快照已清");
}

#[test]
fn connecting_while_switched_off_refreshes_on_connect_and_on_leaving() {
    let mut p = KugouCdpProvider::new();
    p.set_enabled(true);
    assert_eq!(p.step(CdpPhase::Waiting, CdpEvent::Woke, 0), (CdpPhase::Offline, CdpAction::Connect, 0));
    p.set_enabled(false);
    assert_eq!(
        p.step(CdpPhase::Offline, CdpEvent::Connected(true), 0),
        (CdpPhase::Offline, CdpAction::Sleep(IDLE_INTERVAL_MS), 2)
    );
    assert!(!p.is_connected());
}

#[test]
fn evaluate_replies_are_matched_by_id() {
    let msg = |text: &str| parse(text);
    assert_eq!(island_app::kugou_cdp::evaluate_reply(&msg(r#"{"id":2,"result":{"result":{"value":"x"}}}"#), 1), None);
    assert_eq!(
        island_app::kugou_cdp::evaluate_reply(&msg(r#"{"id":1,"result":{"result":{"value":"x"}}}"#), 1),
        Some(Ok("x".to_string()))
    );
    assert_eq!(
        island_app::kugou_cdp::evaluate_reply(&msg(r#"{"id":1,"result":{"exceptionDetails":{}}}"#), 1),
        Some(Err(()))
    );
    assert_eq!(
        island_app::kugou_cdp::evaluate_reply(&msg(r#"{"id":1,"result":{"result":{"value":5}}}"#), 1),
        Some(Ok(String::new())),
        "非字符串的值当空串"
    );
}

#[test]
fn evaluate_reply_text_parses_then_matches() {
    assert_eq!(evaluate_reply_text("not json", 1), None);
    assert_eq!(evaluate_reply_text(r#"{"id":2,"result":{"result":{"value":"x"}}}"#, 1), None);
    assert_eq!(evaluate_reply_text(r#"{"id":1,"result":{"result":{"value":"x"}}}"#, 1), Some(Ok("x".to_string())));
    assert_eq!(evaluate_reply_text(r#"{"id":3,"result":{"exceptionDetails":{"text":"boom"}}}"#, 3), Some(Err(())));
}

#[test]
fn parse_json_gives_the_document() {
    assert!(parse_json("{").is_none());
    assert!(parse_json("").is_none());
    let doc = parse(r#"{"b":[1,2.5,"s",null,true],"a":-7}"#);
    match doc {
        Json::Object(members) => {
            let keys: Vec<&str> = members.iter().map(|(k, _)| k.as_str()).collect();
            assert_eq!(keys, vec!["a", "b"]);
            match &members[0].1 {
                Json::Number(n) => {
                    assert_eq!(n.as_i64, Some(-7));
                    assert_eq!(n.text, "-7");
                }
                other => panic!("unexpected {other:?}"),
            }
            match &members[1].1 {
                Json::Array(items) => {
                    assert_eq!(items.len(), 5);
                    match &items[1] {
                        Json::Number(n) => {
                            assert_eq!(n.as_i64, None);
                            assert_eq!(n.text, "2.5");
                        }
                        other => panic!("unexpected {other:?}"),
                    }
                    assert!(matches!(&items[2], Json::Str(s) if s == "s"));
                    assert!(matches!(&items[3], Json::Null));
                    assert!(matches!(&items[4], Json::Bool(true)));
                }
                other => panic!("unexpected {other:?}"),
            }
        }
        other => panic!("unexpected {other:?}"),
    }
}
