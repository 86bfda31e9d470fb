use std::io::Write;

use island_app::json::{parse_json, Json};
use island_app::kugou::{
    classify, decode_ini, decrypt_krc, display_name_candidates, fetch_detail_by_query, id_of,
    ini_state, int_of, is_kugou_exe, is_source, krc_key_bytes, krc_times_fit, local_lyrics_prefix,
    lrc_download, lrc_search_url, newest_matching, newest_with_hash, parse_krc, parse_lyric_response,
    parse_playing_pos, parse_value, pick_candidate, pick_hit, position_sample, search_url, status,
    strip_word_tags, titles_match, wide_nul_to_string, KugouStatus, PositionSample,
};

fn parse(text: &str) -> Json {
    parse_json(text).expect("valid JSON")
}

const SEARCH_FIXTURE: &str = r#"{
    "status": 1,
    "data": {
        "total": 2,
        "lists": [
            {
                "SongName": "晴天",
                "SingerName": "周杰伦",
                "FileHash": "B3A52A7A958BF0AED0EBFBA2E9A818B7",
                "AlbumName": "叶惠美",
                "Duration": 269,
                "trans_param": {
                    "union_cover": "http://imge.kugou.com/stdmusic/{size}/20230920/20230920142503632013.jpg"
                }
            },
            {
                "SongName": "晴天 (Live)",
                "SingerName": "周杰伦、五月天",
                "FileHash": "EB2CD30DD7258994F008E6DBDCE79024",
                "AlbumName": "演唱会",
                "Duration": 299,
                "trans_param": {}
            }
        ]
    }
}"#;

fn fixture() -> Json {
    parse(SEARCH_FIXTURE)
}

#[test]
fn only_kugou_sources_are_treated_as_kugou() {
    assert!(is_source("KuGou.exe"));
    assert!(is_source("kugou.exe"));
    assert!(is_source("KuGou.KuGouMusic"), "AUMID 形式也要认出来");
    assert!(!is_source("cloudmusic.exe"));
    assert!(!is_source(""));
}

#[test]
fn hit_prefers_exact_artist_then_falls_back_to_first() {
    let hit = pick_hit(&fixture(), "晴天", "周杰伦").expect("应命中");
    assert_eq!(hit.hash, "B3A52A7A958BF0AED0EBFBA2E9A818B7");
    assert_eq!(hit.album, "叶惠美");
    assert_eq!(hit.duration_s, 269);
    assert_eq!(
        hit.cover_url,
        "https://imge.kugou.com/stdmusic/480/20230920/20230920142503632013.jpg",
        "封面模板要换成大图并统一 https"
    );

    let hit = pick_hit(&fixture(), "晴天", "五月天").expect("合唱条目里含五月天，应命中");
    assert_eq!(hit.hash, "EB2CD30DD7258994F008E6DBDCE79024");
    assert!(hit.cover_url.is_empty(), "没有 union_cover 就别编一个封面出来");
}

#[test]
fn irrelevant_results_are_rejected() {
    assert!(pick_hit(&fixture(), "雨天", "").is_none());
    assert!(pick_hit(&fixture(), "稻香", "").is_none());
    assert_eq!(
        pick_hit(&fixture(), "晴天", "").map(|h| h.hash).as_deref(),
        Some("B3A52A7A958BF0AED0EBFBA2E9A818B7")
    );
}

#[test]
fn empty_response_is_not_a_hit() {
    let empty = parse(r#"{ "status": 0, "data": { "lists": [] } }"#);
    assert!(pick_hit(&empty, "晴天", "周杰伦").is_none());
    assert!(pick_hit(&parse("{}"), "晴天", "周杰伦").is_none());
    let no_hash = parse(r#"{ "data": { "lists": [{ "SongName": "晴天" }] } }"#);
    assert!(pick_hit(&no_hash, "晴天", "").is_none());
}

#[test]
fn candidate_prefers_matching_song_over_junk_then_first() {
    let cands = vec![
        parse(r#"{ "song": "完全无关的歌", "id": "1", "accesskey": "A" }"#),
        parse(r#"{ "song": "晴天", "id": "274944371", "accesskey": "B" }"#),
    ];
    let picked = pick_candidate(&cands, "晴天").expect("应挑到候选");
    assert_eq!(cands[picked].get("id").and_then(|v| id_of(v)).as_deref(), Some("274944371"), "应跳过歌名对不上的条目");

    let none_match = vec![parse(r#"{ "song": "完全无关", "id": "3", "accesskey": "C" }"#)];
    let picked = pick_candidate(&none_match, "晴天").expect("都不匹配时退回第一条");
    assert_eq!(none_match[picked].get("id").and_then(|v| id_of(v)).as_deref(), Some("3"));
    assert!(pick_candidate(&Vec::new(), "晴天").is_none());
}

#[test]
fn numeric_and_string_fields_are_both_read() {
    assert_eq!(id_of(&parse(r#""274944371""#)).as_deref(), Some("274944371"));
    assert_eq!(id_of(&parse("274944371")).as_deref(), Some("274944371"));
    assert_eq!(id_of(&parse(r#""""#)), None);
    assert_eq!(id_of(&parse("null")), None);

    assert_eq!(int_of(&parse("269792")), Some(269_792));
    assert_eq!(int_of(&parse(r#""269792""#)), Some(269_792));
    assert_eq!(int_of(&parse(r#""abc""#)), None);
    assert_eq!(int_of(&parse("null")), None);
}

#[test]
fn lyric_response_decodes_base64_lrc() {
    let lrc = "[ti:晴天]\n[00:01.00]第一句\n[00:02.50]第二句";
    let content = island_app::b64::encode(lrc.as_bytes());
    let json = parse(&format!(r#"{{ "status": 200, "content": "{content}" }}"#));
    let data = parse_lyric_response(&json, 269_000).expect("应解出歌词");
    assert_eq!(data.lines.len(), 2, "元数据行不该算歌词行");
    assert_eq!(data.lines[0].time_ms, 1000);
    assert_eq!(data.lines[1].text, "第二句");
    assert_eq!(data.duration_ms, 269_000, "接口没给时长时用调用方传进来的");
}

#[test]
fn lyric_response_rejects_failure_and_empty_payload() {
    assert!(parse_lyric_response(&parse(r#"{ "status": 0 }"#), 1).is_none());
    assert!(parse_lyric_response(&parse(r#"{ "status": 200, "content": "" }"#), 1).is_none());
}

#[test]
fn playing_pos_is_parsed_from_utf16_ini() {
    let text = "[PlaybackState]\r\nLastPlayingSongList=0\r\nLastPlayingSongPos=30354\r\nLastPlayingSongTable=6\r\n";
    assert_eq!(parse_playing_pos(text), Some(30_354));

    let mut bytes = vec![0xFF, 0xFE];
    for unit in text.encode_utf16() {
        bytes.extend_from_slice(&unit.to_le_bytes());
    }
    assert_eq!(parse_playing_pos(&decode_ini(&bytes)), Some(30_354));
    assert_eq!(parse_playing_pos(&decode_ini(text.as_bytes())), Some(30_354), "无 BOM 时按 UTF-8 也要能读");
}

#[test]
fn missing_or_dirty_position_is_not_a_sample() {
    assert_eq!(parse_playing_pos("[PlaybackState]\r\n"), None, "没有该键时当没有采样");
    assert_eq!(parse_playing_pos("LastPlayingSongPos=abc"), None);
    assert_eq!(parse_playing_pos("LastPlayingSongPos="), None);
    assert_eq!(parse_playing_pos("LastPlayingSongPos=-5"), None, "负进度是脏数据");
    assert_eq!(parse_playing_pos("LastPlayingSongPos= 1234 "), Some(1234), "值两端空格要容忍");
    assert_eq!(
        parse_playing_pos("LastPlayingSongPosition=999"),
        None,
        "同为 LastPlayingSong 前缀的别的键不能误认"
    );
}

#[test]
fn ini_values_read_titles_and_paths() {
    let ini = "\u{feff}[PlaybackState]\r\nLastPlayingTitleName=周杰伦 - 手写的从前\r\n\
               [DownloadConfigSection]\r\nDownloadPath=C:\\KuGou\r\nEmpty=\r\n";
    assert_eq!(parse_value(ini, "LastPlayingTitleName").as_deref(), Some("周杰伦 - 手写的从前"));
    assert_eq!(parse_value(ini, "DownloadPath").as_deref(), Some("C:\\KuGou"));
    assert_eq!(parse_value(ini, "Empty"), None, "空值当没有");
    assert_eq!(parse_value(ini, "Missing"), None);
}

#[test]
fn ini_state_gives_a_position_sample() {
    let text = "LastPlayingSongPos=30354\r\nLastPlayingTitleName=A - B\r\nDownloadPath=D:\\K\r\n";
    let st = ini_state(text.as_bytes(), 1_000).expect("state");
    assert_eq!(st.position_ms, Some(30_354));
    assert_eq!(st.playing_title.as_deref(), Some("A - B"));
    assert_eq!(st.download_path.as_deref(), Some("D:\\K"));
    assert_eq!(position_sample(Some(st)), Some(PositionSample { position_ms: 30_354, at_epoch_ms: 1_000 }));
    assert!(ini_state(b"garbage", 1).is_none(), "半写的文件读不出东西就当没有");
    assert_eq!(position_sample(None), None);
}

fn krc_payload(raw: &str) -> Vec<u8> {
    let key = krc_key_bytes();
    let mut payload = Vec::new();
    payload.extend_from_slice(b"krc1");
    let mut enc = flate2::write::ZlibEncoder::new(Vec::new(), flate2::Compression::default());
    enc.write_all(raw.as_bytes()).expect("压缩测试数据");
    let compressed = enc.finish().expect("压缩测试数据");
    payload.extend(compressed.iter().enumerate().map(|(i, b)| b ^ key[i % 16]));
    payload
}

#[test]
fn krc_decrypts_and_parses_word_level_timing() {
    let raw = "[ti:手写的从前]\n[0,5000]<0,500,0>第<500,500,0>一<1000,900,0>句\n\
               [5000,4200]<0,400,0>第<400,600,0>二<1000,800,0>句\n";
    let text = decrypt_krc(&krc_payload(raw)).expect("应能解出 KRC");
    assert!(krc_times_fit(&text));
    let lyrics = parse_krc(&text);
    assert_eq!(lyrics.lines.len(), 2, "元数据行不该算歌词行");
    assert_eq!(lyrics.lines[0].text, "第一句", "逐字标签要去掉并拼回整句");
    assert_eq!(lyrics.lines[0].time_ms, 0);
    assert_eq!(lyrics.lines[1].time_ms, 5_000);
    assert_eq!(lyrics.duration_ms, 9_200, "覆盖时长取末行结束时刻");
}

#[test]
fn krc_decrypt_rejects_junk() {
    assert!(decrypt_krc(b"").is_none());
    assert!(decrypt_krc(b"krc1\x00\x00\x00\x00").is_none(), "不是 zlib 流就当解不开");
}

#[test]
fn word_tags_are_stripped() {
    assert_eq!(strip_word_tags("<0,500,0>第<500,500,0>一"), "第一");
    assert_eq!(strip_word_tags("no tags"), "no tags");
    assert_eq!(strip_word_tags("a<b"), "a", "不闭合的标签吞掉其后的内容");
}

#[test]
fn only_the_same_song_may_use_the_local_cache() {
    assert!(titles_match("周杰伦 - 手写的从前", "手写的从前", "周杰伦"));
    assert!(titles_match("风华音纪、指尖笑 - 夜良人", "夜良人", "风华音纪"));
    assert!(!titles_match("周杰伦 - 手写的从前", "晴天", "周杰伦"));
    assert!(!titles_match("周杰伦 - 手写的从前", "", ""));
}

#[test]
fn local_lyrics_use_the_matching_window_title() {
    let cands = display_name_candidates(
        vec!["桌面歌词 - 别的".to_string(), "周杰伦 - 晴天".to_string()],
        Some("周杰伦 - 晴天".to_string()),
    );
    assert_eq!(cands.len(), 2, "ini 里的标题已在窗口标题里时不重复");
    assert_eq!(local_lyrics_prefix(&cands, "晴天", "周杰伦").as_deref(), Some("周杰伦 - 晴天-"));
    assert!(local_lyrics_prefix(&cands, "七里香", "周杰伦").is_none());
}

#[test]
fn newest_matching_krc_wins() {
    let entries = vec![
        ("周杰伦 - 手写的从前-aaaa-1-00000000.krc".to_string(), 100i128),
        ("周杰伦 - 手写的从前-bbbb-2-00000000.krc".to_string(), 200i128),
        ("周杰伦 - 晴天-cccc-3-00000000.krc".to_string(), 300i128),
    ];
    let picked = newest_matching(&entries, "周杰伦 - 手写的从前-").expect("应挑到文件");
    assert_eq!(entries[picked].0, "周杰伦 - 手写的从前-bbbb-2-00000000.krc");
    assert!(newest_matching(&entries, "不存在的-").is_none());
    assert_eq!(newest_with_hash(&entries, "cccc"), Some(2));
}

#[test]
fn status_covers_all_four_labels() {
    assert_eq!(classify(true, true, true), KugouStatus::Connected);
    assert_eq!(classify(true, false, true), KugouStatus::Connected, "会话在就算进程没扫到也已连接");
    assert_eq!(classify(false, true, true), KugouStatus::NeedsSystemControls);
    assert_eq!(classify(false, false, true), KugouStatus::NotRunning);
    assert_eq!(classify(false, false, false), KugouStatus::NotDetected);
}

#[test]
fn status_reads_the_session_source() {
    assert_eq!(status(Some("KuGou.exe"), false, false), KugouStatus::Connected);
    assert_eq!(status(Some("chrome.exe"), true, true), KugouStatus::NeedsSystemControls);
    assert_eq!(status(None, false, true), KugouStatus::NotRunning);
}

#[test]
fn exe_name_match_is_case_insensitive_and_versioned() {
    assert!(is_kugou_exe("KuGou.exe"));
    assert!(is_kugou_exe("kugou.exe"));
    assert!(is_kugou_exe("KuGou_1.exe"), "升级后的带下划线副本也算");
    assert!(!is_kugou_exe("kgscrsaver.exe"), "酷狗屏保不是播放器");
    assert!(!is_kugou_exe("cloudmusic.exe"));
    assert!(!is_kugou_exe("kugou"), "没有 .exe 后缀的不是进程名");
}

#[test]
fn detail_by_query_completes_album_cover_and_duration() {
    let m = fetch_detail_by_query(&fixture(), "晴天", "周杰伦").expect("detail");
    assert_eq!(m.album, "叶惠美");
    assert_eq!(m.duration_ms, 269_000);
    assert!(m.cover_url.starts_with("https://"));
    assert!(fetch_detail_by_query(&fixture(), "稻香", "").is_none());
}

#[test]
fn search_urls_encode_the_query() {
    let u = search_url("晴天", "周杰伦").expect("url");
    assert!(u.starts_with("https://songsearch.kugou.com/song_search_v2?keyword=%E6%99%B4%E5%A4%A9%20"));
    assert!(search_url("", "周杰伦").is_none(), "空标题不搜");
    let l = lrc_search_url("ab cd", 269);
    assert!(l.contains("duration=269"), "{l}");
    assert!(l.ends_with("hash=ab%20cd"), "{l}");
}

#[test]
fn lrc_download_picks_candidate_and_duration() {
    let cands = parse(r#"{"candidates":[{"song":"晴天","id":12,"accesskey":"K y","duration":269123}]}"#);
    let (url, duration_ms) = lrc_download(&cands, "晴天", 200).expect("download");
    assert!(url.contains("id=12&accesskey=K%20y"), "{url}");
    assert_eq!(duration_ms, 269_123);
    let no_key = parse(r#"{"candidates":[{"song":"晴天","id":12}]}"#);
    assert!(lrc_download(&no_key, "晴天", 200).is_none());
}

#[test]
fn wide_names_stop_at_nul() {
    let w: Vec<u16> = "KuGou.exe".encode_utf16().chain([0u16, 65, 66]).collect();
    assert_eq!(wide_nul_to_string(&w), "KuGou.exe");
}
