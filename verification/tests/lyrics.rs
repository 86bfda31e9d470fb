use island_app::json::{parse_json, Json};
use island_app::lyrics::{
    fetch_163_detail, fetch_lyrics_for, fetch_lyrics_with, lyrics_163, lyrics_by_id_163, lyrics_qq,
    parse_lrc, pick_163, pick_qq, query_matches_song, settle_attempt, sources_for, Attempt,
    LyricLine, LyricsData, Source,
};

fn parse(text: &str) -> Json {
    parse_json(text).expect("valid JSON")
}

fn lyrics(lines: &[(i64, &str)], duration_ms: i64) -> LyricsData {
    LyricsData {
        lines: lines.iter().map(|(t, s)| LyricLine { time_ms: *t, text: s.to_string() }).collect(),
        duration_ms,
    }
}

#[test]
fn parse_lrc_extracts_time_and_text() {
    let lines = parse_lrc("[00:12.34]你好世界");
    assert_eq!(lines.len(), 1, "单行单标签应得一行歌词");
    assert_eq!(lines[0].time_ms, 12340, "12.34 秒应为 12340ms，厘秒位数解释有误");
    assert_eq!(lines[0].text, "你好世界");
}

#[test]
fn parse_lrc_handles_multiple_tags_on_one_line() {
    let lines = parse_lrc("[00:01.00][00:30.50]重复行");
    assert_eq!(lines.len(), 2, "一行多时间标签应展开为多行（对唱/重复句）");
    assert_eq!(lines[1].time_ms, 30500, "第二个标签 30.50 秒应为 30500ms");
    assert!(lines.iter().all(|l| l.text == "重复行"), "展开行应共享同一段文本");
}

#[test]
fn parse_lrc_interprets_fraction_by_digit_count() {
    let lines = parse_lrc("[01:02:345]x");
    assert_eq!(lines[0].time_ms, 62345, "3 位小数按毫秒解释：1:02.345 应为 62345ms");
    let lines = parse_lrc("[00:00.5]x");
    assert_eq!(lines[0].time_ms, 500, "1 位小数按十分之一秒解释：0.5s 应为 500ms");
}

#[test]
fn parse_lrc_skips_metadata_and_empty_text() {
    let lines = parse_lrc("[ti:歌名]\n[ar:歌手]\n[00:01.00]\n[00:02.00]有词");
    assert_eq!(lines.len(), 1, "元数据标签与空文本行不应产生歌词行");
    assert_eq!(lines[0].text, "有词");
}

#[test]
fn parse_lrc_sorts_lines_by_time() {
    let lines = parse_lrc("[00:30.00]后\n[00:01.00]先");
    assert_eq!(lines[0].text, "先", "歌词行应按时间升序，错了当前行匹配会乱");
}

#[test]
fn parse_lrc_keeps_equal_times_in_text_order() {
    let lines = parse_lrc("[00:05.00]甲\n[00:01.00]乙\n[00:05.00]丙");
    let got: Vec<(i64, &str)> = lines.iter().map(|l| (l.time_ms, l.text.as_str())).collect();
    assert_eq!(got, vec![(1000, "乙"), (5000, "甲"), (5000, "丙")]);
}

#[test]
fn parse_lrc_trims_text_and_handles_crlf() {
    let lines = parse_lrc("[00:01.00]  前后有空格  \r\n[00:02.00]第二行\r\n");
    assert_eq!(lines.len(), 2);
    assert_eq!(lines[0].text, "前后有空格");
    assert_eq!(lines[1].text, "第二行");
}

#[test]
fn parse_lrc_rejects_malformed_tags() {
    // 分隔符后没有小数位、分钟超过三位：都不是时间标签，原样算作文本
    let lines = parse_lrc("[00:01.]a\n[1234:00]b\n[00:123]c");
    let texts: Vec<&str> = lines.iter().map(|l| l.text.as_str()).collect();
    assert!(texts.is_empty(), "没有合法时间标签的行不产生歌词行: {texts:?}");
}

#[test]
fn query_matches_song_requires_lexical_overlap() {
    assert!(query_matches_song("晴天 周杰伦", "晴天"), "搜索词包含歌名应判定相关");
    assert!(query_matches_song("晴天(Live)", "晴天 (Live)"), "括号与空白差异不应影响判定");
    assert!(!query_matches_song("晴天", "雨天"), "词面无交集应判定无关，防止错误命中");
}

#[test]
fn query_matches_song_rejects_empty_after_normalizing() {
    assert!(!query_matches_song("", "晴天"));
    assert!(!query_matches_song("（）", "晴天"), "只剩标点时算空");
    assert!(query_matches_song("HELLO", "hello world"), "大小写不影响");
}

#[test]
fn kugou_tracks_ask_kugou_first_then_fall_back() {
    let kugou = sources_for("KuGou.exe");
    assert_eq!(kugou.first(), Some(&Source::Kugou), "酷狗曲目应先用酷狗自己的歌词");
    assert!(kugou.contains(&Source::Netease) && kugou.contains(&Source::Qq), "酷狗找不到仍要退回网易云/QQ");
    assert_eq!(
        sources_for("cloudmusic.exe"),
        &[Source::Netease, Source::Qq],
        "其它播放器不受酷狗影响，顺序保持网易云后 QQ"
    );
}

#[test]
fn empty_title_never_hits_any_source() {
    let search = fetch_lyrics_with("", "周杰伦", &[Source::Kugou]);
    assert!(search.next_fetch().is_none(), "空标题不该发起搜索");
    assert!(search.result().is_none());
}

#[test]
fn search_stops_at_the_first_source_with_lines() {
    let mut s = fetch_lyrics_for("KuGou.exe", "晴天", "周杰伦");
    let f = s.next_fetch().expect("first source");
    assert_eq!(f.source, Source::Kugou);
    assert_eq!((f.title.as_str(), f.artist.as_str()), ("晴天", "周杰伦"));
    s.feed(None);
    assert_eq!(s.next_fetch().map(|f| f.source), Some(Source::Netease));
    s.feed(Some(lyrics(&[(1000, "a")], 0)));
    assert!(s.next_fetch().is_none(), "有歌词行就不再问下一个源");
    let r = s.result().expect("result");
    assert_eq!(r.lines.len(), 1);
}

#[test]
fn duration_only_result_is_a_fallback() {
    let mut s = fetch_lyrics_with("晴天", "", &[Source::Netease, Source::Qq]);
    s.feed(Some(lyrics(&[], 269_000)));
    assert_eq!(s.next_fetch().map(|f| f.source), Some(Source::Qq), "只有时长：记为兜底继续问");
    s.feed(Some(lyrics(&[], 100)));
    assert!(s.next_fetch().is_none());
    let r = s.result().expect("fallback kept");
    assert_eq!(r.duration_ms, 269_000, "兜底取第一个有时长的");
}

#[test]
fn lines_beat_an_earlier_duration_fallback() {
    let mut s = fetch_lyrics_with("晴天", "", &[Source::Netease, Source::Qq]);
    s.feed(Some(lyrics(&[], 269_000)));
    s.feed(Some(lyrics(&[(0, "x")], 5)));
    let r = s.result().expect("lines");
    assert_eq!(r.duration_ms, 5);
    assert_eq!(r.lines.len(), 1);
}

#[test]
fn nothing_found_gives_nothing() {
    let mut s = fetch_lyrics_with("晴天", "", &[Source::Qq]);
    s.feed(Some(lyrics(&[], 0)));
    assert!(s.next_fetch().is_none());
    assert!(s.result().is_none());
}

#[test]
fn first_attempt_settles_or_retries_without_artist() {
    assert!(matches!(settle_attempt(Some(lyrics(&[(0, "x")], 0)), "周杰伦"), Attempt::Done(Some(_))));
    assert!(matches!(settle_attempt(Some(lyrics(&[], 1)), "周杰伦"), Attempt::Done(Some(_))));
    assert!(matches!(settle_attempt(Some(lyrics(&[], 0)), "周杰伦"), Attempt::RetryWithoutArtist));
    assert!(matches!(settle_attempt(None, "周杰伦"), Attempt::RetryWithoutArtist));
    assert!(matches!(settle_attempt(None, ""), Attempt::Done(None)));
}

const SEARCH_163: &str = r#"{"result":{"songs":[
    {"id":1,"name":"晴天","duration":269000,"artists":[{"name":"Someone"}]},
    {"id":2,"name":"晴天","duration":270000,"artists":[{"name":"周杰伦"},{"name":"x"}]}
]}}"#;

#[test]
fn netease_pick_prefers_artist_then_relevant_first() {
    let j = parse(SEARCH_163);
    assert_eq!(pick_163(&j, "晴天", "周杰伦"), Some((2, 270000)));
    assert_eq!(pick_163(&j, "晴天", "周杰倫"), Some((1, 269000)), "歌手对不上时退回首条");
    assert_eq!(pick_163(&j, "雨天", ""), None, "首条歌名无关时不用");
    assert_eq!(pick_163(&parse(r#"{"result":{"songs":[]}}"#), "晴天", ""), None);
    assert_eq!(pick_163(&parse(r#"{"code":200}"#), "晴天", ""), None);
    assert_eq!(pick_163(&parse(r#"{"result":{"songs":[{"name":"晴天"}]}}"#), "晴天", ""), None, "没有 id 不能用");
}

#[test]
fn qq_pick_reads_mid_and_seconds() {
    let j = parse(r#"{"data":{"song":{"list":[
        {"songmid":"A1","songname":"晴天","interval":269,"singer":[{"name":"周杰伦"}]}]}}}"#);
    assert_eq!(pick_qq(&j, "晴天", "周杰伦"), Some(("A1".to_string(), 269_000)));
    assert_eq!(pick_qq(&j, "晴天", "周杰伦 "), Some(("A1".to_string(), 269_000)), "歌手对不上时按首条歌名判断");
    assert_eq!(pick_qq(&j, "七里香", ""), None);
}

#[test]
fn netease_detail_builds_track_meta() {
    let j = parse(r#"{"songs":[{"name":"晴天","duration":269000,
        "artists":[{"name":"周杰伦"},{"id":3},{"name":"五月天"}],
        "album":{"name":"叶惠美","picUrl":"https://p1/x.jpg"}}]}"#);
    let m = fetch_163_detail(&j).expect("detail");
    assert_eq!(m.title, "晴天");
    assert_eq!(m.artist, "周杰伦 / 五月天");
    assert_eq!(m.album, "叶惠美");
    assert_eq!(m.cover_url, "https://p1/x.jpg?param=512y512");
    assert_eq!(m.duration_ms, 269000);
    assert!(fetch_163_detail(&parse(r#"{"songs":[{"album":{}}]}"#)).is_none(), "全空当未命中");
    assert!(fetch_163_detail(&parse(r#"{"songs":[]}"#)).is_none());
}

#[test]
fn netease_lyrics_by_id_need_text_or_duration() {
    let lyric = parse(r#"{"lrc":{"lyric":"[00:01.00]a"}}"#);
    let detail = parse(r#"{"songs":[{"duration":5000}]}"#);
    let d = lyrics_by_id_163(Some(&lyric), Some(&detail)).expect("both");
    assert_eq!((d.lines.len(), d.duration_ms), (1, 5000));
    let d = lyrics_by_id_163(None, Some(&detail)).expect("duration only");
    assert_eq!((d.lines.len(), d.duration_ms), (0, 5000));
    assert!(lyrics_by_id_163(None, None).is_none());
    let d = lyrics_163(&lyric, 7);
    assert_eq!((d.lines.len(), d.duration_ms), (1, 7));
}

#[test]
fn qq_lyrics_decode_base64() {
    let b64 = island_app::b64::encode("[00:02.00]第二句".as_bytes());
    let j = parse(&format!(r#"{{"lyric":"{b64}"}}"#));
    let d = lyrics_qq(&j, 9);
    assert_eq!(d.lines.len(), 1);
    assert_eq!(d.lines[0].time_ms, 2000);
    assert_eq!(d.duration_ms, 9);
    let empty = lyrics_qq(&parse("{}"), 9);
    assert!(empty.lines.is_empty());
}

#[test]
fn whole_search_runs_sources_in_order_until_lines() {
    let answers = |s: Source| match s {
        Source::Kugou => Some(lyrics(&[], 200_000)),
        Source::Netease => Some(lyrics(&[(5, "n")], 0)),
        Source::Qq => Some(lyrics(&[(7, "q")], 0)),
    };
    let mut s = fetch_lyrics_with("晴天", "周杰伦", &[Source::Kugou, Source::Netease, Source::Qq]);
    let mut asked = Vec::new();
    while let Some(f) = s.next_fetch() {
        asked.push(f.source);
        s.feed(answers(f.source));
    }
    assert_eq!(asked, vec![Source::Kugou, Source::Netease], "有歌词行之后的源不再问");
    let r = s.result().expect("lines");
    assert_eq!(r.lines[0].text, "n");
}

#[test]
fn lrc_lines_are_sorted_stable_trimmed_and_non_negative() {
    let out = parse_lrc("[00:02.00]  b  \n[00:01.00]a\n[00:02.00]c\t\n[00:00]  \n[00:01.5][00:00.1]d");
    let got: Vec<(i64, &str)> = out.iter().map(|l| (l.time_ms, l.text.as_str())).collect();
    assert_eq!(got, vec![(100, "d"), (1000, "a"), (1500, "d"), (2000, "b"), (2000, "c")]);
    assert!(out.iter().all(|l| l.time_ms >= 0 && !l.text.is_empty() && l.text.trim() == l.text));
}
