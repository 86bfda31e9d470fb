use island_app::lyrics::{LyricLine, LyricsData, TrackMeta};
use island_app::music::ClockRate;
use island_app::provider::ProviderState;
use island_app::resolver::{
    artwork_of, artwork_retry_delay_ms, is_kugou_song_id, lyrics_route, meta_task_for, sniff_mime,
    Artwork, LyricsJob, LyricsRoute, MetaTask, Resolver, Slot,
};

#[test]
fn sniff_mime_detects_common_image_formats() {
    assert_eq!(sniff_mime(&[0x89, 0x50, 0x4E, 0x47]), "image/png");
    assert_eq!(sniff_mime(&[0xFF, 0xD8, 0xFF]), "image/jpeg");
    assert_eq!(sniff_mime(&[0x47, 0x49, 0x46]), "image/gif");
    assert_eq!(sniff_mime(&[0x42, 0x4D, 0x00]), "image/bmp");
    assert_eq!(sniff_mime(&[0x00, 0x01]), "image/jpeg", "未知格式回退 jpeg");
    assert_eq!(sniff_mime(&[0x89]), "image/jpeg", "太短时同样回退");
}

#[test]
fn slot_get_only_hits_matching_key() {
    let mut s: Slot<i32> = Slot::new();
    s.value = Some(("a".into(), 1));
    assert_eq!(s.get("a"), Some(&1));
    assert_eq!(s.get("b"), None, "键不匹配（已切歌）不得返回旧值");
}

#[test]
fn slot_fetches_once_and_drops_stale_results() {
    let mut s: Slot<i32> = Slot::new();
    s.key = "a".into();
    assert!(s.begin("a"));
    assert!(!s.begin("a"), "同一个键不重复抓");
    s.key = "b".into();
    assert!(!s.finish("a", Some(1)), "切歌后回来的旧结果不写入");
    assert!(s.value.is_none());
    assert!(s.fetching.is_none());
    assert!(s.begin("b"));
    assert!(s.finish("b", Some(2)));
    assert_eq!(s.get("b"), Some(&2));
    assert!(s.begin("b"));
    assert!(!s.finish("b", None));
    assert_eq!(s.key, "", "失败清键，下次观察重试");
    assert_eq!(s.get("b"), Some(&2), "失败不抹掉已有的值");
}

#[test]
fn meta_task_uses_song_id_for_bridge_and_query_for_kugou() {
    let (key, task) = meta_task_for(Some("12345"), "cloudmusic.exe", "晴天", "周杰伦").expect("有平台 songId 就该抓");
    assert_eq!(key, "12345", "songId 直接当缓存键");
    assert_eq!(task, MetaTask::SongId("12345".into()));

    let (key, task) = meta_task_for(None, "KuGou.exe", "晴天", "周杰伦").expect("酷狗曲目该抓");
    assert!(key.starts_with("kugou"), "酷狗曲目的缓存键要独立命名空间: {key}");
    assert_eq!(task, MetaTask::Kugou { title: "晴天".into(), artist: "周杰伦".into() });
}

#[test]
fn meta_task_survives_separators_in_titles() {
    let (_, task) = meta_task_for(None, "KuGou.exe", "A|B", "C、D").expect("该抓");
    assert_eq!(task, MetaTask::Kugou { title: "A|B".into(), artist: "C、D".into() });
}

#[test]
fn other_smtc_sources_get_no_meta_fetch() {
    assert_eq!(
        meta_task_for(None, "chrome.exe", "某网页标题", ""),
        None,
        "浏览器等源的标题只是网页标题，不该拿去搜曲目信息"
    );
    assert_eq!(meta_task_for(None, "kugou.exe", "", ""), None, "标题还没到时不能拿空标题占住键");
}

#[test]
fn kugou_hash_song_ids_get_no_meta_fetch() {
    assert!(is_kugou_song_id("kugou:abc"));
    assert!(!is_kugou_song_id("12345"));
    assert_eq!(meta_task_for(Some("kugou:abc"), "kugou.exe", "晴天", "周杰伦"), None, "CDP 源已带来时长与封面");
}

fn src(title: &str, song_id: Option<&str>) -> ProviderState {
    ProviderState {
        is_playing: true,
        title: title.to_string(),
        artist: String::new(),
        album: None,
        source_app_id: "KuGou.exe".to_string(),
        song_id: song_id.map(str::to_string),
        position_ms: 0,
        anchor_epoch_ms: 0,
        rate: ClockRate { num: 1, den: 1 },
        duration_ms: None,
        seek_supported: false,
        artwork_url: None,
    }
}

#[test]
fn cached_details_fill_only_what_the_source_lacks() {
    let mut r = Resolver::new();
    let (_, f) = r.observe(&src("晴天", None), false, true);
    let (key, task) = f.meta.expect("酷狗曲目抓元数据");
    assert_eq!(task, MetaTask::Kugou { title: "晴天".into(), artist: String::new() });
    assert!(f.artwork.is_none(), "没有位图能力的源不抓位图");
    r.meta.value = Some((
        key,
        TrackMeta {
            title: "别的".into(),
            artist: "周杰伦".into(),
            album: "叶惠美".into(),
            cover_url: "https://c".into(),
            duration_ms: 269_000,
        },
    ));
    let (out, f) = r.observe(&src("晴天", None), false, true);
    assert!(f.meta.is_none(), "键没变不重复抓");
    assert_eq!(out.title, "晴天", "源自己有标题就不覆盖");
    assert_eq!(out.artist, "周杰伦");
    assert_eq!(out.album.as_deref(), Some("叶惠美"));
    assert_eq!(out.artwork_url.as_deref(), Some("https://c"));
    assert_eq!(out.duration_ms, Some(269_000));
}

#[test]
fn lyrics_id_only_for_nonempty_cached_lyrics() {
    let mut r = Resolver::new();
    let (_, f) = r.observe(&src("晴天", Some("kugou:h1")), false, true);
    let job = f.lyrics.expect("lyrics job");
    assert_eq!(job.key, "kugou:h1", "hash 本身就是键");
    r.lyrics.value = Some(("kugou:h1".into(), LyricsData { lines: vec![], duration_ms: 1 }));
    let (out, _) = r.observe(&src("晴天", Some("kugou:h1")), false, true);
    assert!(out.lyrics_id.is_none(), "空歌词不给 id");
    r.lyrics.value = Some((
        "kugou:h1".into(),
        LyricsData { lines: vec![LyricLine { time_ms: 0, text: "a".into() }], duration_ms: 1 },
    ));
    let (out, _) = r.observe(&src("晴天", Some("kugou:h1")), false, true);
    assert_eq!(out.lyrics_id.as_deref(), Some("kugou:h1"));
    assert_eq!(r.lyrics("kugou:h1").map(|d| d.lines.len()), Some(1));
    assert!(r.lyrics("other").is_none());
}

#[test]
fn netease_ids_key_lyrics_in_their_namespace() {
    let mut r = Resolver::new();
    let mut s = src("晴天", Some("186016"));
    s.source_app_id = "cloudmusic.exe".into();
    let (_, f) = r.observe(&s, true, false);
    assert_eq!(f.lyrics.map(|j| j.key).as_deref(), Some("163:186016"));
    assert_eq!(f.meta.map(|m| m.0).as_deref(), Some("186016"));
    assert_eq!(f.artwork.as_deref(), Some("晴天||cloudmusic.exe"));
}

#[test]
fn bitmap_cover_replaces_url_cover() {
    let mut r = Resolver::new();
    let mut s = src("晴天", None);
    s.artwork_url = Some("https://u".into());
    r.artwork.value = Some(("晴天||KuGou.exe".into(), Artwork { hash: "h".into(), data_url: "d".into() }));
    let (out, _) = r.observe(&s, true, true);
    assert_eq!(out.artwork_hash.as_deref(), Some("h"));
    assert!(out.artwork_url.is_none());
    assert_eq!(r.artwork("h"), Some(("h".to_string(), "d".to_string())));
    assert!(r.artwork("other").is_none(), "hash 不匹配说明已切歌");
    r.reset();
    assert!(!r.artwork_wanted("晴天||KuGou.exe"));
}

#[test]
fn lyrics_jobs_route_by_song_id() {
    let job = |sid: Option<&str>, d: Option<i64>| LyricsJob {
        key: String::new(),
        title: "t".into(),
        artist: String::new(),
        song_id: sid.map(str::to_string),
        source_app_id: String::new(),
        duration_ms: d,
    };
    assert_eq!(
        lyrics_route(&job(Some("kugou:abc"), Some(269_999))),
        LyricsRoute::ByHash { hash: "abc".into(), duration_s: 269 }
    );
    assert_eq!(
        lyrics_route(&job(Some("kugou:kugou:abc"), None)),
        LyricsRoute::ByHash { hash: "abc".into(), duration_s: 0 }
    );
    assert_eq!(lyrics_route(&job(Some("kugou:x"), Some(-5))), LyricsRoute::ByHash { hash: "x".into(), duration_s: 0 });
    assert_eq!(lyrics_route(&job(Some("186016"), None)), LyricsRoute::ById("186016".into()));
    assert_eq!(lyrics_route(&job(None, None)), LyricsRoute::ByQuery);
}

#[test]
fn artwork_data_url_and_retry_delays() {
    let a = artwork_of(&[0x89, 0x50, 0x4E], "hash".into());
    assert_eq!(a.hash, "hash");
    assert_eq!(a.data_url, "data:image/png;base64,iVBO");
    assert_eq!(artwork_retry_delay_ms(0), 500);
    assert_eq!(artwork_retry_delay_ms(2), 500);
    assert_eq!(artwork_retry_delay_ms(3), 1000);
}
