//! KuGou integration: source detection, search-result picking, the player's own
//! on-disk state (`KuGou.ini`, `.krc` lyric cache) and the connection status.

use vstd::prelude::*;
use std::io::Read;
use crate::lyrics::{insert_line, lemma_sort_by_time_sorted, lines_view, sort_by_time, time_sorted, LyricLine, lrc_lines, norm_title, parse_lrc, query_matches_song, related, LyricsData, TrackMeta};
use crate::b64::{decode, decoded};
use crate::net::{percent_encode, url_encode};
use vstd::utf8::encode_utf8;
use crate::json::{array_of, field_of, str_of, str_or_empty, Json};
use crate::text::{same_text, find, find_chars_from, lemma_find_facts, lemma_find_from_shift, split_once, split_once_chars, lines, lines_of, slice_chars, utf16_lossy, utf16_lossy_chars, decimal, decimal_chars, utf8_lossy, utf8_lossy_chars, concat_chars, eq_ignore_ascii_case, eq_ignore_ascii_case_chars, split_singers, split_singers_chars, trim, trim_chars, parse_i64, parse_i64_chars, replace, replace_chars, string_of, chars_of, contains_chars, ends_with_chars, has_infix, lowercase, starts_with_chars, to_lowercase_chars};

verus! {

/// One exact progress sample: `position_ms` was the true position at `at_epoch_ms`.
#[derive(Debug, Clone, Copy, PartialEq, Eq)]
pub struct PositionSample {
    pub position_ms: i64,
    pub at_epoch_ms: i64,
}

} // verus!

verus! {

/// The characters `kugou`.
pub open spec fn kugou_word() -> Seq<char> {
    seq!['k', 'u', 'g', 'o', 'u']
}

/// The characters `.exe`.
pub open spec fn exe_suffix() -> Seq<char> {
    seq!['.', 'e', 'x', 'e']
}

fn kugou_chars() -> (r: Vec<char>)
    ensures
        r@ == kugou_word(),
{
    let mut r = Vec::new();
    r.push('k');
    r.push('u');
    r.push('g');
    r.push('o');
    r.push('u');
    proof {
        assert(r@ =~= kugou_word());
    }
    r
}

fn exe_chars() -> (r: Vec<char>)
    ensures
        r@ == exe_suffix(),
{
    let mut r = Vec::new();
    r.push('.');
    r.push('e');
    r.push('x');
    r.push('e');
    proof {
        assert(r@ =~= exe_suffix());
    }
    r
}

/// A media session's source id comes from KuGou: its lowercase form contains `kugou`
/// (`KuGou.exe`, `KuGou.KuGouMusic`, ...).
pub open spec fn spec_is_source(source_app_id: Seq<char>) -> bool {
    has_infix(lowercase(source_app_id), kugou_word())
}

/// Whether an already lowercased source id mentions `kugou`.
pub fn mentions_kugou(lowered: &[char]) -> (r: bool)
    ensures
        r == has_infix(lowered@, kugou_word()),
{
    contains_chars(lowered, &kugou_chars())
}

/// Whether the media session's source id (`SourceAppUserModelId`) belongs to KuGou.
pub fn is_source(source_app_id: &str) -> (r: bool)
    ensures
        r == spec_is_source(source_app_id@),
{
    mentions_kugou(&to_lowercase_chars(&chars_of(source_app_id)))
}

/// A process image name of the KuGou player: lowercase, it starts with `kugou` and
/// ends with `.exe` (`KuGou.exe`, `KuGou_1.exe`).
pub open spec fn spec_is_kugou_exe(file_name: Seq<char>) -> bool {
    let name = lowercase(file_name);
    kugou_word().is_prefix_of(name) && exe_suffix().is_suffix_of(name)
}

/// Whether an already lowercased process name has the KuGou player's shape.
pub fn lowered_is_kugou_exe(name: &[char]) -> (r: bool)
    ensures
        r == (kugou_word().is_prefix_of(name@) && exe_suffix().is_suffix_of(name@)),
{
    starts_with_chars(name, &kugou_chars()) && ends_with_chars(name, &exe_chars())
}

/// Whether a process image name is the KuGou player's.
pub fn is_kugou_exe(file_name: &str) -> (r: bool)
    ensures
        r == spec_is_kugou_exe(file_name@),
{
    lowered_is_kugou_exe(&to_lowercase_chars(&chars_of(file_name)))
}

/// KuGou connection status, each naming the user's next step.
#[derive(Debug, Clone, Copy, PartialEq, Eq)]
pub enum KugouStatus {
    /// No trace of an installation.
    NotDetected,
    /// Installed, process not running.
    NotRunning,
    /// Running, but no media session of it: system media controls are likely off.
    NeedsSystemControls,
    /// The current media session is KuGou's (or the DevTools session is up).
    Connected,
    /// Enhancement: `libcef.dll` not patched yet.
    NeedsPatch,
    /// Enhancement: patched, but KuGou still runs the old DLL and needs a restart.
    NeedsRestart,
    /// Enhancement: patched and running, the DevTools session is connecting.
    Connecting,
}

/// Connected beats running beats installed.
pub fn classify(connected: bool, running: bool, installed: bool) -> (r: KugouStatus)
    ensures
        r == (if connected {
            KugouStatus::Connected
        } else if running {
            KugouStatus::NeedsSystemControls
        } else if installed {
            KugouStatus::NotRunning
        } else {
            KugouStatus::NotDetected
        }),
{
    if connected {
        KugouStatus::Connected
    } else if running {
        KugouStatus::NeedsSystemControls
    } else if installed {
        KugouStatus::NotRunning
    } else {
        KugouStatus::NotDetected
    }
}

/// Status from the current media session's source id (if any), whether a KuGou process
/// runs, and whether an installation was found: a KuGou session means connected.
pub fn status(session_app_id: Option<&str>, running: bool, installed: bool) -> (r: KugouStatus)
    ensures
        r == (if session_app_id matches Some(id) && spec_is_source(id@) {
            KugouStatus::Connected
        } else if running {
            KugouStatus::NeedsSystemControls
        } else if installed {
            KugouStatus::NotRunning
        } else {
            KugouStatus::NotDetected
        }),
{
    let connected = match session_app_id {
        Some(id) => is_source(id),
        None => false,
    };
    classify(connected, running, installed)
}

/// A window or ini display name (`artist - title`) is the given track: the title must
/// be related to it, and a known artist must occur in it (ignoring case).
pub open spec fn spec_titles_match(display: Seq<char>, track_title: Seq<char>, artist: Seq<char>) -> bool {
    &&& track_title.len() > 0
    &&& related(norm_title(track_title), norm_title(display))
    &&& (artist.len() == 0 || has_infix(lowercase(display), lowercase(artist)))
}

/// Whether a display name `artist - title` denotes the track.
pub fn titles_match(display: &str, track_title: &str, artist: &str) -> (r: bool)
    ensures
        r == spec_titles_match(display@, track_title@, artist@),
{
    if track_title.is_empty() || !query_matches_song(track_title, display) {
        return false;
    }
    if artist.is_empty() {
        return true;
    }
    let d = to_lowercase_chars(&chars_of(display));
    let a = to_lowercase_chars(&chars_of(artist));
    contains_chars(&d, &a)
}

} // verus!

verus! {

/// One search result.
#[derive(Debug, Clone, PartialEq, Eq)]
pub struct Hit {
    /// Hash of the audio file, the key for lyric lookups.
    pub hash: String,
    pub title: String,
    pub artist: String,
    /// Seconds, as the search endpoint gives them.
    pub duration_s: i64,
    pub album: String,
    /// Direct cover URL; empty when the result has none.
    pub cover_url: String,
}

/// The abstract value of a [`Hit`].
pub struct HitView {
    pub hash: Seq<char>,
    pub title: Seq<char>,
    pub artist: Seq<char>,
    pub duration_s: i64,
    pub album: Seq<char>,
    pub cover_url: Seq<char>,
}

impl View for Hit {
    type V = HitView;

    open spec fn view(&self) -> HitView {
        HitView {
            hash: self.hash@,
            title: self.title@,
            artist: self.artist@,
            duration_s: self.duration_s,
            album: self.album@,
            cover_url: self.cover_url@,
        }
    }
}

/// A number field: an integer number, or a string that parses as one (the endpoints
/// mix both forms).
pub open spec fn int_field(v: Option<Json>) -> Option<i64> {
    match v {
        Some(Json::Number(n)) => n.as_i64,
        Some(Json::Str(s)) => parse_i64(s@),
        _ => None,
    }
}

/// An identifier field: a non-empty string, or a number's text.
pub open spec fn id_field(v: Option<Json>) -> Option<Seq<char>> {
    match v {
        Some(Json::Str(s)) => if s@.len() > 0 {
            Some(s@)
        } else {
            None
        },
        Some(Json::Number(n)) => Some(n.text@),
        _ => None,
    }
}

/// Reads a number field given as a number or as numeric text.
pub fn int_of(v: &Json) -> (r: Option<i64>)
    ensures
        r == int_field(Some(*v)),
{
    match v {
        Json::Number(n) => n.as_i64,
        Json::Str(s) => parse_i64_chars(&chars_of(s.as_str())),
        _ => None,
    }
}

/// Reads an identifier given as a string or as a number.
pub fn id_of(v: &Json) -> (r: Option<String>)
    ensures
        r matches Some(s) ==> id_field(Some(*v)) == Some(s@),
        r is None ==> id_field(Some(*v)) is None,
{
    match v {
        Json::Str(s) => {
            if s.as_str().is_empty() {
                None
            } else {
                Some(s.clone())
            }
        },
        Json::Number(n) => Some(n.text.clone()),
        _ => None,
    }
}

fn opt_int_of(v: Option<&Json>) -> (r: Option<i64>)
    ensures
        r == int_field(
            match v {
                Some(j) => Some(*j),
                None => None,
            },
        ),
{
    match v {
        Some(j) => int_of(j),
        None => None,
    }
}

/// The text of an optional string field, empty when absent or not a string.
pub fn text_field(v: Option<&Json>) -> (r: String)
    ensures
        r@ == str_or_empty(
            match v {
                Some(j) => Some(*j),
                None => None,
            },
        ),
{
    match v {
        Some(j) => match j.as_str() {
            Some(s) => s.to_owned(),
            None => String::new(),
        },
        None => String::new(),
    }
}

/// The field `key` of `v`, through an optional value.
pub open spec fn at(v: Option<Json>, key: Seq<char>) -> Option<Json> {
    field_of(v, key)
}

/// The cover URL of a search result: its `trans_param.union_cover` template with
/// `http://` made `https://` and `{size}` set to `480`; empty when absent.
pub open spec fn spec_cover_url(item: Json) -> Seq<char> {
    let raw = str_or_empty(at(at(Some(item), "trans_param"@), "union_cover"@));
    if raw.len() == 0 {
        raw
    } else {
        replace(replace(raw, "http://"@, "https://"@), "{size}"@, "480"@)
    }
}

/// The search result an item of `data.lists` describes: `None` without a file hash.
pub open spec fn spec_hit_of(item: Json) -> Option<HitView> {
    let hash = str_or_empty(at(Some(item), "FileHash"@));
    if hash.len() == 0 {
        None
    } else {
        Some(
            HitView {
                hash,
                title: str_or_empty(at(Some(item), "SongName"@)),
                artist: str_or_empty(at(Some(item), "SingerName"@)),
                duration_s: match int_field(at(Some(item), "Duration"@)) {
                    Some(d) => d,
                    None => 0,
                },
                album: str_or_empty(at(Some(item), "AlbumName"@)),
                cover_url: spec_cover_url(item),
            },
        )
    }
}

/// Builds the cover URL of a search result.
pub fn cover_url(item: &Json) -> (r: String)
    ensures
        r@ == spec_cover_url(*item),
{
    let raw = match item.get("trans_param") {
        Some(t) => text_field(t.get("union_cover")),
        None => String::new(),
    };
    let raw_chars = chars_of(raw.as_str());
    if raw_chars.len() == 0 {
        return raw;
    }
    let http = chars_of("http://");
    let https = chars_of("https://");
    let size = chars_of("{size}");
    let big = chars_of("480");
    proof {
        reveal_strlit("http://");
        reveal_strlit("{size}");
    }
    let once = replace_chars(&raw_chars, &http, &https);
    let twice = replace_chars(&once, &size, &big);
    string_of(&twice)
}

/// The search result an item describes; `None` when it has no file hash.
pub fn hit_of(item: &Json) -> (r: Option<Hit>)
    ensures
        r matches Some(h) ==> spec_hit_of(*item) == Some(h@),
        r is None ==> spec_hit_of(*item) is None,
{
    let hash = text_field(item.get("FileHash"));
    if hash.as_str().is_empty() {
        return None;
    }
    let duration_s = match opt_int_of(item.get("Duration")) {
        Some(d) => d,
        None => 0,
    };
    Some(
        Hit {
            hash,
            title: text_field(item.get("SongName")),
            artist: text_field(item.get("SingerName")),
            duration_s,
            album: text_field(item.get("AlbumName")),
            cover_url: cover_url(item),
        },
    )
}

} // verus!

verus! {

/// A singer field names the artist: after trimming, the artist is non-empty and equals
/// (ignoring ASCII case) one trimmed piece of the field split at `、 / & ; , ，`.
pub open spec fn spec_artist_matches(singer_field: Seq<char>, artist: Seq<char>) -> bool {
    trim(artist).len() > 0 && exists|k: int|
        0 <= k < split_singers(singer_field).len() && eq_ignore_ascii_case(
            trim(#[trigger] split_singers(singer_field)[k]),
            trim(artist),
        )
}

/// Whether a singer field (joint entries are `A、B`) names the artist.
pub fn artist_matches(singer_field: &str, artist: &str) -> (r: bool)
    ensures
        r == spec_artist_matches(singer_field@, artist@),
{
    let want = trim_chars(&chars_of(artist));
    if want.len() == 0 {
        return false;
    }
    let pieces = split_singers_chars(&chars_of(singer_field));
    let ghost pv = pieces@.map_values(|p: Vec<char>| p@);
    let mut k: usize = 0;
    while k < pieces.len()
        invariant
            k <= pieces.len(),
            pv == pieces@.map_values(|p: Vec<char>| p@),
            pv == split_singers(singer_field@),
            want@ == trim(artist@),
            want@.len() > 0,
            forall|m: int| 0 <= m < k ==> !eq_ignore_ascii_case(trim(#[trigger] pv[m]), want@),
        decreases pieces.len() - k,
    {
        let t = trim_chars(&pieces[k]);
        if eq_ignore_ascii_case_chars(&t, &want) {
            proof {
                assert(pv[k as int] == pieces@[k as int]@);
                assert(eq_ignore_ascii_case(trim(split_singers(singer_field@)[k as int]), trim(artist@)));
            }
            return true;
        }
        proof {
            assert(pv[k as int] == pieces@[k as int]@);
        }
        k += 1;
    }
    false
}

/// The query a search sends: the title, then a space and the artist when known.
pub open spec fn search_query(title: Seq<char>, artist: Seq<char>) -> Seq<char> {
    if artist.len() == 0 {
        title
    } else {
        title + seq![' '] + artist
    }
}

/// The first item whose singer field names the artist and that is a usable result.
pub open spec fn first_artist_hit(items: Seq<Json>, artist: Seq<char>) -> Option<HitView>
    decreases items.len(),
{
    if items.len() == 0 {
        None
    } else if spec_artist_matches(str_or_empty(at(Some(items[0]), "SingerName"@)), artist)
        && spec_hit_of(items[0]) is Some {
        spec_hit_of(items[0])
    } else {
        first_artist_hit(items.drop_first(), artist)
    }
}

/// The result picked from a search response: with a known artist, the first result by
/// that artist; otherwise the first result, and only if its title is related to the
/// query (better no information than another song's).
pub open spec fn spec_pick_hit(json: Json, title: Seq<char>, artist: Seq<char>) -> Option<HitView> {
    match array_of(at(at(Some(json), "data"@), "lists"@)) {
        None => None,
        Some(items) => {
            let by_artist = if artist.len() > 0 {
                first_artist_hit(items, artist)
            } else {
                None
            };
            if by_artist is Some {
                by_artist
            } else if items.len() == 0 {
                None
            } else {
                match spec_hit_of(items[0]) {
                    None => None,
                    Some(h) => if related(norm_title(search_query(title, artist)), norm_title(h.title)) {
                        Some(h)
                    } else {
                        None
                    },
                }
            }
        },
    }
}

/// The search query text for a title and an optional artist.
pub fn search_query_text(title: &str, artist: &str) -> (r: String)
    ensures
        r@ == search_query(title@, artist@),
{
    if artist.is_empty() {
        title.to_owned()
    } else {
        let mut q = chars_of(title);
        q.push(' ');
        let r = concat_chars(&q, &chars_of(artist));
        string_of(&r)
    }
}

/// Picks the result of a `song_search_v2` response for the track.
pub fn pick_hit(json: &Json, title: &str, artist: &str) -> (r: Option<Hit>)
    ensures
        r matches Some(h) ==> spec_pick_hit(*json, title@, artist@) == Some(h@),
        r is None ==> spec_pick_hit(*json, title@, artist@) is None,
{
    let data = match json.get("data") {
        Some(d) => d,
        None => {
            return None;
        },
    };
    let lists = match data.get("lists") {
        Some(l) => l,
        None => {
            return None;
        },
    };
    let items = match lists.as_array() {
        Some(a) => a,
        None => {
            return None;
        },
    };
    let query = search_query_text(title, artist);
    if !artist.is_empty() {
        let mut i: usize = 0;
        proof {
            assert(items@.skip(0) =~= items@);
        }
        while i < items.len()
            invariant
                i <= items.len(),
                artist@.len() > 0,
                array_of(at(at(Some(*json), "data"@), "lists"@)) == Some(items@),
                first_artist_hit(items@, artist@) == first_artist_hit(items@.skip(i as int), artist@),
            decreases items.len() - i,
        {
            let item = &items[i];
            let ghost rest = items@.skip(i as int);
            proof {
                assert(rest[0] == items@[i as int]);
                assert(rest.drop_first() =~= items@.skip(i + 1));
            }
            let singer = text_field(item.get("SingerName"));
            proof {
                assert(singer@ == str_or_empty(at(Some(*item), "SingerName"@)));
            }
            if artist_matches(singer.as_str(), artist) {
                if let Some(hit) = hit_of(item) {
                    proof {
                        assert(first_artist_hit(rest, artist@) == spec_hit_of(*item));
                    }
                    return Some(hit);
                }
            }
            i += 1;
        }
        proof {
            assert(items@.skip(i as int) =~= Seq::<Json>::empty());
        }
    }
    if items.len() == 0 {
        return None;
    }
    let first = match hit_of(&items[0]) {
        Some(h) => h,
        None => {
            return None;
        },
    };
    if query_matches_song(query.as_str(), first.title.as_str()) {
        Some(first)
    } else {
        None
    }
}

} // verus!

verus! {

/// The first candidate whose `song` is related to the title.
pub open spec fn first_matching_candidate(c: Seq<Json>, title: Seq<char>, from: int) -> Option<int>
    decreases c.len() - from,
{
    if from < 0 || from >= c.len() {
        None
    } else if (str_of(at(Some(c[from]), "song"@)) matches Some(song) && related(
        norm_title(title),
        norm_title(song),
    )) {
        Some(from)
    } else {
        first_matching_candidate(c, title, from + 1)
    }
}

/// The candidate picked among a hash's lyric candidates: the first whose song name is
/// related to the title, else the first one.
pub open spec fn spec_pick_candidate(c: Seq<Json>, title: Seq<char>) -> Option<int> {
    match first_matching_candidate(c, title, 0) {
        Some(i) => Some(i),
        None => if c.len() > 0 {
            Some(0)
        } else {
            None
        },
    }
}

/// Index of the lyric candidate to download.
pub fn pick_candidate(candidates: &Vec<Json>, title: &str) -> (r: Option<usize>)
    ensures
        r matches Some(i) ==> spec_pick_candidate(candidates@, title@) == Some(i as int) && i
            < candidates.len(),
        r is None ==> spec_pick_candidate(candidates@, title@) is None,
{
    let mut i: usize = 0;
    while i < candidates.len()
        invariant
            i <= candidates.len(),
            first_matching_candidate(candidates@, title@, 0) == first_matching_candidate(
                candidates@,
                title@,
                i as int,
            ),
        decreases candidates.len() - i,
    {
        let hit = match candidates[i].get("song") {
            Some(song) => match song.as_str() {
                Some(name) => query_matches_song(title, name),
                None => false,
            },
            None => false,
        };
        if hit {
            return Some(i);
        }
        i += 1;
    }
    if candidates.len() > 0 {
        Some(0)
    } else {
        None
    }
}

/// What the lyric download response gives: with `status` 200 and a non-empty
/// `content`, the LRC that `content` encodes in base64, with the given duration.
pub open spec fn spec_lyric_response(json: Json) -> Option<Seq<(i64, Seq<char>)>> {
    let content = str_or_empty(at(Some(json), "content"@));
    if int_field(at(Some(json), "status"@)) != Some(200i64) || content.len() == 0 {
        None
    } else {
        Some(lrc_lines(utf8_lossy(decoded(content))))
    }
}

/// Lyrics from a `lyrics.kugou.com/download` response (`fmt=lrc`: `content` is the LRC
/// text in base64); `None` for a failed or empty response.
pub fn parse_lyric_response(json: &Json, duration_ms: i64) -> (r: Option<LyricsData>)
    ensures
        r matches Some(d) ==> spec_lyric_response(*json) == Some(d@.lines) && d.duration_ms
            == duration_ms,
        r is None ==> spec_lyric_response(*json) is None,
{
    let status = opt_int_of(json.get("status"));
    let content = text_field(json.get("content"));
    if status != Some(200i64) {
        return None;
    }
    if content.as_str().is_empty() {
        return None;
    }
    let bytes = decode(content.as_str());
    let text = string_of(&utf8_lossy_chars(&bytes));
    let lines = parse_lrc(text.as_str());
    Some(LyricsData { lines, duration_ms })
}

/// The `song_search_v2` URL for a track; `None` for an empty title (nothing to search).
pub open spec fn spec_search_url(title: Seq<char>, artist: Seq<char>) -> Option<Seq<char>> {
    if title.len() == 0 {
        None
    } else {
        Some(
            "https://songsearch.kugou.com/song_search_v2?keyword="@ + percent_encode(
                encode_utf8(search_query(title, artist)),
            )
                + "&page=1&pagesize=10&platform=WebFilter&userid=-1&clientver=2000&iscorrection=1&privilege_filter=0"@,
        )
    }
}

/// The search URL for a track, `None` when the title is empty.
pub fn search_url(title: &str, artist: &str) -> (r: Option<String>)
    ensures
        r matches Some(u) ==> spec_search_url(title@, artist@) == Some(u@),
        r is None ==> spec_search_url(title@, artist@) is None,
{
    if title.is_empty() {
        return None;
    }
    let query = search_query_text(title, artist);
    let head = chars_of("https://songsearch.kugou.com/song_search_v2?keyword=");
    let tail = chars_of(
        "&page=1&pagesize=10&platform=WebFilter&userid=-1&clientver=2000&iscorrection=1&privilege_filter=0",
    );
    let enc = chars_of(url_encode(query.as_str()).as_str());
    let url = concat_chars(&concat_chars(&head, &enc), &tail);
    Some(string_of(&url))
}

/// The track details a search response yields: those of the picked result, with the
/// duration in milliseconds (negative counts as zero); `None` when nothing was picked
/// or the result brings no album, cover or duration (nothing new).
pub open spec fn spec_detail(json: Json, title: Seq<char>, artist: Seq<char>) -> Option<
    (Seq<char>, Seq<char>, Seq<char>, Seq<char>, int),
> {
    match spec_pick_hit(json, title, artist) {
        None => None,
        Some(h) => {
            let duration_ms = if h.duration_s < 0 {
                0
            } else {
                h.duration_s * 1000
            };
            if h.album.len() > 0 || h.cover_url.len() > 0 || duration_ms > 0 {
                Some((h.title, h.artist, h.album, h.cover_url, duration_ms))
            } else {
                None
            }
        },
    }
}

/// Completes album, cover and duration of a track from a `song_search_v2` response.
pub fn fetch_detail_by_query(search_response: &Json, title: &str, artist: &str) -> (r: Option<
    TrackMeta,
>)
    requires
        spec_pick_hit(*search_response, title@, artist@) matches Some(h) ==> h.duration_s
            <= i64::MAX / 1000,
    ensures
        r matches Some(m) ==> spec_detail(*search_response, title@, artist@) == Some(
            (m.title@, m.artist@, m.album@, m.cover_url@, m.duration_ms as int),
        ),
        r is None ==> spec_detail(*search_response, title@, artist@) is None,
{
    let hit = match pick_hit(search_response, title, artist) {
        Some(h) => h,
        None => {
            return None;
        },
    };
    let duration_ms = if hit.duration_s < 0 {
        0
    } else {
        hit.duration_s * 1000
    };
    let meta = TrackMeta {
        title: hit.title,
        artist: hit.artist,
        album: hit.album,
        cover_url: hit.cover_url,
        duration_ms,
    };
    if !meta.album.as_str().is_empty() || !meta.cover_url.as_str().is_empty() || meta.duration_ms
        > 0 {
        Some(meta)
    } else {
        None
    }
}

} // verus!

verus! {

/// The `krcs.kugou.com/search` URL listing the lyric candidates of an audio hash
/// (duration in seconds, negative counts as zero).
pub open spec fn spec_lrc_search_url(hash: Seq<char>, duration_s: i64) -> Seq<char> {
    "https://krcs.kugou.com/search?ver=1&man=yes&client=mobi&keyword=&duration="@ + decimal(
        if duration_s < 0 {
            0
        } else {
            duration_s as int
        },
    ) + "&hash="@ + percent_encode(encode_utf8(hash))
}

/// URL of the lyric candidates for an audio hash.
pub fn lrc_search_url(hash: &str, duration_s: i64) -> (r: String)
    ensures
        r@ == spec_lrc_search_url(hash@, duration_s),
{
    let d = if duration_s < 0 {
        0
    } else {
        duration_s
    };
    let head = chars_of("https://krcs.kugou.com/search?ver=1&man=yes&client=mobi&keyword=&duration=");
    let mid = chars_of("&hash=");
    let enc = chars_of(url_encode(hash).as_str());
    let url = concat_chars(&concat_chars(&concat_chars(&head, &decimal_chars(d)), &mid), &enc);
    string_of(&url)
}

/// The download request for the picked candidate of a `krcs` response: the
/// `lyrics.kugou.com/download` URL (by the candidate's `id` and `accesskey`, LRC format)
/// and the duration to report, the candidate's own when positive, else the search's
/// seconds in milliseconds; `None` without candidates, id or access key.
pub open spec fn spec_lrc_download(json: Json, title: Seq<char>, duration_s: i64) -> Option<
    (Seq<char>, int),
> {
    match array_of(at(Some(json), "candidates"@)) {
        None => None,
        Some(c) => match spec_pick_candidate(c, title) {
            None => None,
            Some(i) => match (id_field(at(Some(c[i]), "id"@)), str_of(at(Some(c[i]), "accesskey"@))) {
                (Some(id), Some(key)) => {
                    let own = int_field(at(Some(c[i]), "duration"@));
                    let duration_ms = match own {
                        Some(d) => if d > 0 {
                            d as int
                        } else if duration_s < 0 {
                            0
                        } else {
                            duration_s * 1000
                        },
                        None => if duration_s < 0 {
                            0
                        } else {
                            duration_s * 1000
                        },
                    };
                    Some(
                        (
                            "https://lyrics.kugou.com/download?ver=1&client=pc&id="@ + id
                                + "&accesskey="@ + percent_encode(encode_utf8(key))
                                + "&fmt=lrc&charset=utf8"@,
                            duration_ms,
                        ),
                    )
                },
                _ => None,
            },
        },
    }
}

/// The lyric download request for a `krcs.kugou.com/search` response.
pub fn lrc_download(candidates_response: &Json, title: &str, duration_s: i64) -> (r: Option<
    (String, i64),
>)
    requires
        duration_s <= i64::MAX / 1000,
    ensures
        r matches Some(p) ==> spec_lrc_download(*candidates_response, title@, duration_s) == Some(
            (p.0@, p.1 as int),
        ),
        r is None ==> spec_lrc_download(*candidates_response, title@, duration_s) is None,
{
    let candidates = match candidates_response.get("candidates") {
        Some(c) => match c.as_array() {
            Some(a) => a,
            None => {
                return None;
            },
        },
        None => {
            return None;
        },
    };
    let i = match pick_candidate(candidates, title) {
        Some(i) => i,
        None => {
            return None;
        },
    };
    let candidate = &candidates[i];
    let id = match candidate.get("id") {
        Some(v) => match id_of(v) {
            Some(s) => s,
            None => {
                return None;
            },
        },
        None => {
            return None;
        },
    };
    let key = match candidate.get("accesskey") {
        Some(v) => match v.as_str() {
            Some(k) => k,
            None => {
                return None;
            },
        },
        None => {
            return None;
        },
    };
    let fallback = if duration_s < 0 {
        0
    } else {
        duration_s * 1000
    };
    let duration_ms = match opt_int_of(candidate.get("duration")) {
        Some(d) => if d > 0 {
            d
        } else {
            fallback
        },
        None => fallback,
    };
    let head = chars_of("https://lyrics.kugou.com/download?ver=1&client=pc&id=");
    let mid = chars_of("&accesskey=");
    let tail = chars_of("&fmt=lrc&charset=utf8");
    let enc = chars_of(url_encode(key).as_str());
    let url = concat_chars(
        &concat_chars(&concat_chars(&concat_chars(&head, &chars_of(id.as_str())), &mid), &enc),
        &tail,
    );
    Some((string_of(&url), duration_ms))
}

} // verus!

verus! {

/// Little-endian 16-bit code units of a byte string (a trailing odd byte is dropped).
pub open spec fn le_units(b: Seq<u8>) -> Seq<u16>
    decreases b.len(),
{
    if b.len() < 2 {
        Seq::<u16>::empty()
    } else {
        seq![(b[0] as int + 256 * (b[1] as int)) as u16] + le_units(b.skip(2))
    }
}

/// The text of `KuGou.ini`: UTF-16LE after a `FF FE` byte order mark, else UTF-8;
/// invalid sequences become U+FFFD.
pub open spec fn spec_decode_ini(bytes: Seq<u8>) -> Seq<char> {
    if bytes.len() >= 2 && bytes[0] == 0xFFu8 && bytes[1] == 0xFEu8 {
        utf16_lossy(le_units(bytes.skip(2)))
    } else {
        utf8_lossy(bytes)
    }
}

/// Decodes the ini file's bytes.
pub fn decode_ini(bytes: &[u8]) -> (r: String)
    ensures
        r@ == spec_decode_ini(bytes@),
{
    if bytes.len() >= 2 && bytes[0] == 0xFF && bytes[1] == 0xFE {
        let mut units: Vec<u16> = Vec::new();
        let mut i: usize = 2;
        proof {
            assert(le_units(bytes@.skip(2)) =~= units@ + le_units(bytes@.skip(2)));
        }
        while 1 < bytes.len() - i
            invariant
                2 <= i <= bytes.len(),
                le_units(bytes@.skip(2)) == units@ + le_units(bytes@.skip(i as int)),
            decreases bytes.len() - i,
        {
            let ghost before = units@;
            let u = (bytes[i] as u16) + 256 * (bytes[i + 1] as u16);
            units.push(u);
            proof {
                let rest = bytes@.skip(i as int);
                assert(rest[0] == bytes@[i as int] && rest[1] == bytes@[i + 1]);
                assert(rest.skip(2) =~= bytes@.skip(i + 2));
                assert(units@ + le_units(bytes@.skip(i + 2)) =~= before + le_units(rest));
            }
            i += 2;
        }
        proof {
            assert(le_units(bytes@.skip(i as int)) =~= Seq::<u16>::empty());
            assert(units@ + Seq::<u16>::empty() =~= units@);
        }
        string_of(&utf16_lossy_chars(&units))
    } else {
        string_of(&utf8_lossy_chars(bytes))
    }
}

/// `l` without leading byte order marks.
pub open spec fn strip_bom(l: Seq<char>) -> Seq<char>
    decreases l.len(),
{
    if l.len() > 0 && l[0] == '\u{feff}' {
        strip_bom(l.drop_first())
    } else {
        l
    }
}

/// The value of the first line (BOM and surrounding white space removed) that starts
/// with `prefix`: the rest of that line.
pub open spec fn first_value(ls: Seq<Seq<char>>, prefix: Seq<char>) -> Option<Seq<char>>
    decreases ls.len(),
{
    if ls.len() == 0 {
        None
    } else {
        let l = trim(strip_bom(ls[0]));
        if prefix.is_prefix_of(l) {
            Some(l.skip(prefix.len() as int))
        } else {
            first_value(ls.drop_first(), prefix)
        }
    }
}

/// `key=value` in the ini text: the trimmed value of the first line for the key;
/// `None` when there is none or it is empty.
pub open spec fn spec_parse_value(ini: Seq<char>, key: Seq<char>) -> Option<Seq<char>> {
    match first_value(lines(ini), key + seq!['=']) {
        Some(v) => if trim(v).len() > 0 {
            Some(trim(v))
        } else {
            None
        },
        None => None,
    }
}

fn strip_bom_chars(l: &[char]) -> (r: Vec<char>)
    ensures
        r@ == strip_bom(l@),
{
    let mut i: usize = 0;
    proof {
        assert(l@.skip(0) =~= l@);
    }
    while i < l.len() && l[i] == '\u{feff}'
        invariant
            i <= l.len(),
            strip_bom(l@) == strip_bom(l@.skip(i as int)),
        decreases l.len() - i,
    {
        proof {
            assert(l@.skip(i as int).drop_first() =~= l@.skip(i + 1));
        }
        i += 1;
    }
    proof {
        assert(l@.skip(0) =~= l@);
    }
    let r = slice_chars(l, i, l.len());
    proof {
        assert(r@ =~= l@.skip(i as int));
    }
    r
}

/// The value of `key` in ini text.
pub fn parse_value(ini: &str, key: &str) -> (r: Option<String>)
    ensures
        r matches Some(v) ==> spec_parse_value(ini@, key@) == Some(v@),
        r is None ==> spec_parse_value(ini@, key@) is None,
{
    let mut prefix = chars_of(key);
    prefix.push('=');
    let ls = lines_of(&chars_of(ini));
    let ghost lv = ls@.map_values(|l: Vec<char>| l@);
    let mut i: usize = 0;
    proof {
        assert(lv.skip(0) =~= lv);
    }
    while i < ls.len()
        invariant
            i <= ls.len(),
            lv == ls@.map_values(|l: Vec<char>| l@),
            lv == lines(ini@),
            prefix@ == key@ + seq!['='],
            first_value(lv, prefix@) == first_value(lv.skip(i as int), prefix@),
        decreases ls.len() - i,
    {
        let l = trim_chars(&strip_bom_chars(&ls[i]));
        proof {
            assert(lv.skip(i as int)[0] == ls@[i as int]@);
            assert(lv.skip(i as int).drop_first() =~= lv.skip(i + 1));
        }
        if starts_with_chars(&l, &prefix) {
            let v = slice_chars(&l, prefix.len(), l.len());
            proof {
                assert(v@ =~= l@.skip(prefix@.len() as int));
            }
            let t = trim_chars(&v);
            if t.len() == 0 {
                return None;
            }
            return Some(string_of(&t));
        }
        i += 1;
    }
    None
}

/// The play position in `KuGou.ini`: `LastPlayingSongPos=<ms>`; not a number or
/// negative means none.
pub open spec fn spec_playing_pos(ini: Seq<char>) -> Option<i64> {
    match spec_parse_value(ini, "LastPlayingSongPos"@) {
        Some(v) => match parse_i64(v) {
            Some(n) => if n >= 0 {
                Some(n)
            } else {
                None
            },
            None => None,
        },
        None => None,
    }
}

/// Reads `LastPlayingSongPos` (milliseconds).
pub fn parse_playing_pos(ini: &str) -> (r: Option<i64>)
    ensures
        r == spec_playing_pos(ini@),
{
    match parse_value(ini, "LastPlayingSongPos") {
        Some(v) => match parse_i64_chars(&chars_of(v.as_str())) {
            Some(n) => if n >= 0 {
                Some(n)
            } else {
                None
            },
            None => None,
        },
        None => None,
    }
}

/// What `KuGou.ini` tells: play position, display name of the playing track
/// (`artist - title`), download directory, and the file's write time (the moment the
/// position was true).
#[derive(Debug, Clone, Default, PartialEq, Eq)]
pub struct IniState {
    pub position_ms: Option<i64>,
    pub playing_title: Option<String>,
    pub download_path: Option<String>,
    pub at_epoch_ms: i64,
}

/// The state read from the ini bytes written at `at_epoch_ms`; `None` when neither the
/// position nor the playing title can be read (the file may be half written).
pub fn ini_state(bytes: &[u8], at_epoch_ms: i64) -> (r: Option<IniState>)
    ensures
        ({
            let text = spec_decode_ini(bytes@);
            match r {
                None => spec_playing_pos(text) is None && spec_parse_value(
                    text,
                    "LastPlayingTitleName"@,
                ) is None,
                Some(s) => {
                    &&& s.position_ms == spec_playing_pos(text)
                    &&& (s.playing_title matches Some(t) ==> spec_parse_value(
                        text,
                        "LastPlayingTitleName"@,
                    ) == Some(t@))
                    &&& (s.playing_title is None ==> spec_parse_value(
                        text,
                        "LastPlayingTitleName"@,
                    ) is None)
                    &&& (s.download_path matches Some(p) ==> spec_parse_value(
                        text,
                        "DownloadPath"@,
                    ) == Some(p@))
                    &&& (s.download_path is None ==> spec_parse_value(text, "DownloadPath"@) is None)
                    &&& s.at_epoch_ms == at_epoch_ms
                    &&& (s.position_ms is Some || s.playing_title is Some)
                },
            }
        }),
{
    let text = decode_ini(bytes);
    let position_ms = parse_playing_pos(text.as_str());
    let playing_title = parse_value(text.as_str(), "LastPlayingTitleName");
    if position_ms.is_none() && playing_title.is_none() {
        return None;
    }
    let download_path = parse_value(text.as_str(), "DownloadPath");
    Some(IniState { position_ms, playing_title, download_path, at_epoch_ms })
}

/// The exact progress sample the ini state holds, if it has a position.
pub fn position_sample(state: Option<IniState>) -> (r: Option<PositionSample>)
    ensures
        r == (match state {
            Some(s) => match s.position_ms {
                Some(p) => Some(PositionSample { position_ms: p, at_epoch_ms: s.at_epoch_ms }),
                None => None,
            },
            None => None,
        }),
{
    match state {
        Some(s) => match s.position_ms {
            Some(p) => Some(PositionSample { position_ms: p, at_epoch_ms: s.at_epoch_ms }),
            None => None,
        },
        None => None,
    }
}

} // verus!

verus! {

/// What inflating a zlib stream that starts `data` gives (`None` when it fails).
pub uninterp spec fn zlib_inflate(data: Seq<u8>) -> Option<Seq<u8>>;

/// Calls `flate2::read::ZlibDecoder` and `read_to_end`: the output is a function of
/// the input bytes alone (trailing bytes after the stream are not read).
#[verifier::external_body]
fn zlib_decode(data: &[u8]) -> (r: Option<Vec<u8>>)
    ensures
        r matches Some(v) ==> zlib_inflate(data@) == Some(v@),
        r is None ==> zlib_inflate(data@) is None,
{
    let mut out = Vec::new();
    match flate2::read::ZlibDecoder::new(data).read_to_end(&mut out) {
        Ok(_) => Some(out),
        Err(_) => None,
    }
}

/// The fixed 16-byte XOR key of `.krc` files.
pub open spec fn krc_key() -> Seq<u8> {
    seq![
        0x40u8, 0x47u8, 0x61u8, 0x77u8, 0x5Eu8, 0x32u8, 0x74u8, 0x47u8, 0x51u8, 0x36u8, 0x31u8,
        0x2Du8, 0xCEu8, 0xD2u8, 0x6Eu8, 0x69u8,
    ]
}

/// The `.krc` XOR key.
pub fn krc_key_bytes() -> (r: Vec<u8>)
    ensures
        r@ == krc_key(),
{
    let r = vec![
        0x40u8, 0x47u8, 0x61u8, 0x77u8, 0x5Eu8, 0x32u8, 0x74u8, 0x47u8, 0x51u8, 0x36u8, 0x31u8,
        0x2Du8, 0xCEu8, 0xD2u8, 0x6Eu8, 0x69u8,
    ];
    proof {
        assert(r@ =~= krc_key());
    }
    r
}

/// The bytes after the 4-byte magic, each XORed with the key byte of its position.
pub open spec fn krc_xored(data: Seq<u8>) -> Seq<u8> {
    Seq::new((data.len() - 4) as nat, |i: int| data[i + 4] ^ krc_key()[i % 16])
}

/// The first start in `[start, end)` where a zlib header byte `0x78` begins a stream
/// that inflates to something non-empty: that output as text.
pub open spec fn first_inflated(x: Seq<u8>, start: int, end: int) -> Option<Seq<char>>
    decreases end - start,
{
    if start >= end {
        None
    } else if x[start] == 0x78u8 && (zlib_inflate(x.skip(start)) matches Some(out) && out.len()
        > 0) {
        Some(utf8_lossy(zlib_inflate(x.skip(start))->0))
    } else {
        first_inflated(x, start + 1, end)
    }
}

/// The text of a `.krc` file: skip the magic, XOR with the key, then inflate the zlib
/// stream found among the first 64 bytes.
pub open spec fn spec_decrypt_krc(data: Seq<u8>) -> Option<Seq<char>> {
    if data.len() < 8 {
        None
    } else {
        let x = krc_xored(data);
        first_inflated(x, 0, if x.len() < 64 {
            x.len() as int
        } else {
            64
        })
    }
}

fn tail_bytes(v: &[u8], start: usize) -> (r: Vec<u8>)
    requires
        start <= v.len(),
    ensures
        r@ == v@.skip(start as int),
{
    let mut r: Vec<u8> = Vec::new();
    let mut i = start;
    while i < v.len()
        invariant
            start <= i <= v.len(),
            r@ == v@.subrange(start as int, i as int),
        decreases v.len() - i,
    {
        r.push(v[i]);
        i += 1;
        proof {
            assert(r@ =~= v@.subrange(start as int, i as int));
        }
    }
    proof {
        assert(r@ =~= v@.skip(start as int));
    }
    r
}

/// Decrypts a `.krc` lyric file; `None` when it is too short or holds no usable zlib
/// stream.
pub fn decrypt_krc(data: &[u8]) -> (r: Option<String>)
    ensures
        r matches Some(t) ==> spec_decrypt_krc(data@) == Some(t@),
        r is None ==> spec_decrypt_krc(data@) is None,
{
    if data.len() < 8 {
        return None;
    }
    let key = krc_key_bytes();
    let mut x: Vec<u8> = Vec::new();
    let mut i: usize = 4;
    while i < data.len()
        invariant
            4 <= i <= data.len(),
            key@ == krc_key(),
            x@.len() == i - 4,
            forall|k: int| 0 <= k < x@.len() ==> x@[k] == data@[k + 4] ^ krc_key()[k % 16],
        decreases data.len() - i,
    {
        let b = data[i] ^ key[(i - 4) % 16];
        x.push(b);
        i += 1;
    }
    proof {
        assert(x@ =~= krc_xored(data@));
    }
    let end = if x.len() < 64 {
        x.len()
    } else {
        64
    };
    let mut start: usize = 0;
    while start < end
        invariant
            start <= end <= x.len(),
            data@.len() >= 8,
            x@ == krc_xored(data@),
            end == (if x@.len() < 64 {
                x@.len() as int
            } else {
                64
            }),
            first_inflated(x@, 0, end as int) == first_inflated(x@, start as int, end as int),
        decreases end - start,
    {
        if x[start] == 0x78 {
            let tail = tail_bytes(&x, start);
            match zlib_decode(&tail) {
                Some(out) => {
                    if out.len() > 0 {
                        proof {
                            assert(zlib_inflate(x@.skip(start as int)) == Some(out@));
                            assert(x@[start as int] == 0x78u8);
                            assert(first_inflated(x@, start as int, end as int) == Some(
                                utf8_lossy(out@),
                            ));
                        }
                        return Some(string_of(&utf8_lossy_chars(&out)));
                    }
                },
                None => {},
            }
        }
        start += 1;
    }
    None
}

} // verus!

verus! {

/// A lyric body without its per-word timing tags `<offset,length,0>` (a tag without
/// closing `>` runs to the end).
pub open spec fn untag(s: Seq<char>) -> Seq<char>
    decreases s.len(),
{
    if s.len() == 0 {
        s
    } else if s[0] == '<' {
        match find(s, seq!['>']) {
            Some(j) => if 0 <= j < s.len() {
                untag(s.skip(j + 1))
            } else {
                Seq::<char>::empty()
            },
            None => Seq::<char>::empty(),
        }
    } else {
        seq![s[0]] + untag(s.drop_first())
    }
}

/// The whole text of a KRC line body: word tags removed, then trimmed.
pub fn strip_word_tags(body: &str) -> (r: String)
    ensures
        r@ == trim(untag(body@)),
{
    let b = chars_of(body);
    let mut close: Vec<char> = Vec::new();
    close.push('>');
    let mut out: Vec<char> = Vec::new();
    let mut i: usize = 0;
    proof {
        assert(b@.skip(0) =~= b@);
        assert(out@ + untag(b@) =~= untag(b@));
    }
    while i < b.len()
        invariant
            i <= b.len(),
            close@ == seq!['>'],
            out@ + untag(b@.skip(i as int)) == untag(b@),
        decreases b.len() - i,
    {
        let ghost rest = b@.skip(i as int);
        if b[i] == '<' {
            proof {
                lemma_find_from_shift(b@, close@, i as int, 0);
                lemma_find_facts(rest, close@);
            }
            match find_chars_from(&b, &close, i) {
                Some(j) => {
                    proof {
                        assert(find(rest, close@) == Some(j - i));
                        assert(rest.skip(j - i + 1) =~= b@.skip(j + 1));
                    }
                    i = j + 1;
                },
                None => {
                    proof {
                        assert(untag(rest) =~= Seq::<char>::empty());
                        assert(b@.skip(b.len() as int) =~= Seq::<char>::empty());
                        assert(out@ + Seq::<char>::empty() =~= out@);
                    }
                    i = b.len();
                },
            }
        } else {
            let ghost before = out@;
            out.push(b[i]);
            proof {
                assert(rest.drop_first() =~= b@.skip(i + 1));
                assert(before + (seq![rest[0]] + untag(rest.drop_first())) =~= out@ + untag(
                    b@.skip(i + 1),
                ));
            }
            i += 1;
        }
    }
    proof {
        assert(b@.skip(i as int) =~= Seq::<char>::empty());
        assert(out@ + Seq::<char>::empty() =~= out@);
    }
    string_of(&trim_chars(&out))
}

/// One KRC line `[start,duration]body`: its start, duration and whole text; `None` for
/// metadata lines (`[ti:...]`), malformed heads and empty text.
pub open spec fn krc_line(raw: Seq<char>) -> Option<(i64, i64, Seq<char>)> {
    let r = strip_bom(raw);
    if r.len() == 0 || r[0] != '[' {
        None
    } else {
        match split_once(r.drop_first(), seq![']']) {
            None => None,
            Some((head, body)) => match split_once(head, seq![',']) {
                None => None,
                Some((a, b)) => match (parse_i64(trim(a)), parse_i64(trim(b))) {
                    (Some(start), Some(dur)) => {
                        let text = trim(untag(body));
                        if text.len() == 0 {
                            None
                        } else {
                            Some((start, dur, text))
                        }
                    },
                    _ => None,
                },
            },
        }
    }
}

/// Lyric lines of the KRC lines, in input order.
pub open spec fn krc_entries(ls: Seq<Seq<char>>) -> Seq<(i64, Seq<char>)>
    decreases ls.len(),
{
    if ls.len() == 0 {
        Seq::<(i64, Seq<char>)>::empty()
    } else {
        match krc_line(ls.last()) {
            Some(l) => krc_entries(ls.drop_last()).push((l.0, l.2)),
            None => krc_entries(ls.drop_last()),
        }
    }
}

/// How far the lyrics reach: the latest end (`start + max(duration, 0)`) of a line,
/// at least 0.
pub open spec fn krc_coverage(ls: Seq<Seq<char>>) -> int
    decreases ls.len(),
{
    if ls.len() == 0 {
        0
    } else {
        let prev = krc_coverage(ls.drop_last());
        match krc_line(ls.last()) {
            Some(l) => {
                let end = l.0 + if l.1 < 0 {
                    0
                } else {
                    l.1 as int
                };
                if end > prev {
                    end
                } else {
                    prev
                }
            },
            None => prev,
        }
    }
}

/// Every line's end fits `i64` (no line's start plus duration overflows).
pub open spec fn krc_times_fit_spec(text: Seq<char>) -> bool {
    forall|k: int|
        0 <= k < lines(text).len() ==> (krc_line(#[trigger] lines(text)[k]) matches Some(l) ==> l.0
            + (if l.1 < 0 {
            0
        } else {
            l.1 as int
        }) <= i64::MAX)
}

fn krc_line_chars(raw: &[char]) -> (r: Option<(i64, i64, String)>)
    ensures
        r matches Some(l) ==> krc_line(raw@) == Some((l.0, l.1, l.2@)),
        r is None ==> krc_line(raw@) is None,
{
    let r = strip_bom_chars(raw);
    if r.len() == 0 || r[0] != '[' {
        return None;
    }
    let rest = slice_chars(&r, 1, r.len());
    proof {
        assert(rest@ =~= r@.drop_first());
    }
    let mut close: Vec<char> = Vec::new();
    close.push(']');
    let mut comma: Vec<char> = Vec::new();
    comma.push(',');
    let (head, body) = match split_once_chars(&rest, &close) {
        Some(p) => p,
        None => {
            return None;
        },
    };
    let (a, b) = match split_once_chars(&head, &comma) {
        Some(p) => p,
        None => {
            return None;
        },
    };
    let start = match parse_i64_chars(&trim_chars(&a)) {
        Some(v) => v,
        None => {
            return None;
        },
    };
    let dur = match parse_i64_chars(&trim_chars(&b)) {
        Some(v) => v,
        None => {
            return None;
        },
    };
    let text = strip_word_tags(string_of(&body).as_str());
    if text.as_str().is_empty() {
        return None;
    }
    Some((start, dur, text))
}

/// Whether every KRC line's end fits `i64`.
pub fn krc_times_fit(text: &str) -> (r: bool)
    ensures
        r == krc_times_fit_spec(text@),
{
    let ls = lines_of(&chars_of(text));
    let ghost lv = ls@.map_values(|l: Vec<char>| l@);
    let mut k: usize = 0;
    while k < ls.len()
        invariant
            k <= ls.len(),
            lv == ls@.map_values(|l: Vec<char>| l@),
            lv == lines(text@),
            forall|m: int|
                0 <= m < k ==> (krc_line(#[trigger] lv[m]) matches Some(l) ==> l.0 + (if l.1 < 0 {
                    0
                } else {
                    l.1 as int
                }) <= i64::MAX),
        decreases ls.len() - k,
    {
        proof {
            assert(lv[k as int] == ls@[k as int]@);
        }
        match krc_line_chars(&ls[k]) {
            Some((start, dur, _)) => {
                let d = if dur < 0 {
                    0
                } else {
                    dur
                };
                if start > i64::MAX - d {
                    return false;
                }
            },
            None => {},
        }
        k += 1;
    }
    true
}

/// Parses decrypted KRC text: one lyric line per `[start,duration]` line with the word
/// tags removed, stably sorted by start; the duration is how far the lines reach.
pub fn parse_krc(text: &str) -> (r: LyricsData)
    requires
        krc_times_fit_spec(text@),
    ensures
        r@.lines == sort_by_time(krc_entries(lines(text@))),
        r.duration_ms == krc_coverage(lines(text@)),
        time_sorted(r@.lines),
{
    let ls = lines_of(&chars_of(text));
    let ghost lv = ls@.map_values(|l: Vec<char>| l@);
    let mut out: Vec<LyricLine> = Vec::new();
    let mut coverage: i64 = 0;
    let mut k: usize = 0;
    proof {
        assert(lv.take(0) =~= Seq::<Seq<char>>::empty());
        assert(lines_view(out@) =~= Seq::<(i64, Seq<char>)>::empty());
    }
    while k < ls.len()
        invariant
            k <= ls.len(),
            lv == ls@.map_values(|l: Vec<char>| l@),
            lv == lines(text@),
            krc_times_fit_spec(text@),
            lines_view(out@) == sort_by_time(krc_entries(lv.take(k as int))),
            coverage == krc_coverage(lv.take(k as int)),
        decreases ls.len() - k,
    {
        proof {
            assert(lv.take(k + 1).drop_last() =~= lv.take(k as int));
            assert(lv.take(k + 1).last() == ls@[k as int]@);
            assert(lv[k as int] == ls@[k as int]@);
        }
        match krc_line_chars(&ls[k]) {
            Some((start, dur, line_text)) => {
                let d = if dur < 0 {
                    0
                } else {
                    dur
                };
                let end = start + d;
                if end > coverage {
                    coverage = end;
                }
                let ghost prev = krc_entries(lv.take(k as int));
                insert_line(&mut out, LyricLine { time_ms: start, text: line_text });
                proof {
                    assert(krc_entries(lv.take(k + 1)) == prev.push((start, line_text@)));
                    assert(prev.push((start, line_text@)).drop_last() =~= prev);
                }
            },
            None => {},
        }
        k += 1;
    }
    proof {
        assert(lv.take(k as int) =~= lv);
        lemma_sort_by_time_sorted(krc_entries(lv));
    }
    LyricsData { lines: out, duration_ms: coverage }
}

} // verus!

verus! {

/// Lyrics from decrypted KRC text; `None` when no lyric line is in it.
pub fn krc_lyrics(text: &str) -> (r: Option<LyricsData>)
    requires
        krc_times_fit_spec(text@),
    ensures
        r matches Some(d) ==> d@.lines == sort_by_time(krc_entries(lines(text@))) && d.duration_ms
            == krc_coverage(lines(text@)) && d@.lines.len() > 0,
        r is None ==> krc_entries(lines(text@)).len() == 0,
{
    let lyrics = parse_krc(text);
    proof {
        lemma_sort_by_time_sorted(krc_entries(lines(text@)));
    }
    if lyrics.lines.len() == 0 {
        None
    } else {
        Some(lyrics)
    }
}

/// Candidate display names of the playing track: the KuGou window titles (suffix
/// already removed), then the ini's `LastPlayingTitleName` unless a window already has
/// it.
pub open spec fn spec_display_candidates(titles: Seq<Seq<char>>, ini_title: Option<Seq<char>>) -> Seq<
    Seq<char>,
> {
    match ini_title {
        Some(t) => if titles.contains(t) {
            titles
        } else {
            titles.push(t)
        },
        None => titles,
    }
}

/// Combines window titles and the ini's playing title into the candidate list.
pub fn display_name_candidates(window_titles: Vec<String>, ini_title: Option<String>) -> (r: Vec<
    String,
>)
    ensures
        r@.map_values(|s: String| s@) == spec_display_candidates(
            window_titles@.map_values(|s: String| s@),
            match ini_title {
                Some(t) => Some(t@),
                None => None,
            },
        ),
{
    let mut out = window_titles;
    let ghost tv = out@.map_values(|s: String| s@);
    if let Some(t) = ini_title {
        let mut found = false;
        let mut i: usize = 0;
        while i < out.len()
            invariant
                i <= out.len(),
                tv == out@.map_values(|s: String| s@),
                found ==> tv.contains(t@),
                !found ==> forall|k: int| 0 <= k < i ==> tv[k] != t@,
            decreases out.len() - i,
        {
            if same_text(out[i].as_str(), t.as_str()) {
                proof {
                    assert(tv[i as int] == t@);
                }
                found = true;
            }
            i += 1;
        }
        if !found {
            let ghost before = out@;
            out.push(t);
            proof {
                assert(!tv.contains(t@));
                assert(out@.map_values(|s: String| s@) =~= before.map_values(|s: String| s@).push(t@));
            }
        }
    }
    out
}

/// The file-name prefix of the local lyric cache for the playing track: the first
/// candidate display name that denotes the track, followed by `-`.
pub open spec fn spec_local_prefix(cands: Seq<Seq<char>>, title: Seq<char>, artist: Seq<char>) -> Option<
    Seq<char>,
>
    decreases cands.len(),
{
    if cands.len() == 0 {
        None
    } else if spec_titles_match(cands[0], title, artist) {
        Some(cands[0] + seq!['-'])
    } else {
        spec_local_prefix(cands.drop_first(), title, artist)
    }
}

/// The lyric-cache file prefix for the track, if a candidate display name denotes it.
pub fn local_lyrics_prefix(candidates: &Vec<String>, track_title: &str, artist: &str) -> (r: Option<
    String,
>)
    ensures
        r matches Some(p) ==> spec_local_prefix(
            candidates@.map_values(|s: String| s@),
            track_title@,
            artist@,
        ) == Some(p@),
        r is None ==> spec_local_prefix(
            candidates@.map_values(|s: String| s@),
            track_title@,
            artist@,
        ) is None,
{
    let ghost cv = candidates@.map_values(|s: String| s@);
    let mut i: usize = 0;
    proof {
        assert(cv.skip(0) =~= cv);
    }
    while i < candidates.len()
        invariant
            i <= candidates.len(),
            cv == candidates@.map_values(|s: String| s@),
            spec_local_prefix(cv, track_title@, artist@) == spec_local_prefix(
                cv.skip(i as int),
                track_title@,
                artist@,
            ),
        decreases candidates.len() - i,
    {
        proof {
            assert(cv.skip(i as int)[0] == candidates@[i as int]@);
            assert(cv.skip(i as int).drop_first() =~= cv.skip(i + 1));
        }
        if titles_match(candidates[i].as_str(), track_title, artist) {
            let mut p = chars_of(candidates[i].as_str());
            p.push('-');
            return Some(string_of(&p));
        }
        i += 1;
    }
    None
}

/// The index of the newest kept entry: kept, with the latest modification time, and
/// the first such in listing order.
pub open spec fn is_newest(times: Seq<i128>, keep: Seq<bool>, i: int) -> bool {
    &&& 0 <= i < times.len()
    &&& keep[i]
    &&& forall|j: int| 0 <= j < times.len() && keep[j] ==> times[j] <= times[i]
    &&& forall|j: int| 0 <= j < i && keep[j] ==> times[j] < times[i]
}

pub(crate) fn newest_kept(times: &Vec<i128>, keep: &Vec<bool>) -> (r: Option<usize>)
    requires
        times.len() == keep.len(),
    ensures
        r matches Some(i) ==> is_newest(times@, keep@, i as int),
        r is None ==> forall|j: int| 0 <= j < keep.len() ==> !keep@[j],
{
    let mut best: Option<usize> = None;
    let mut i: usize = 0;
    while i < times.len()
        invariant
            i <= times.len() == keep.len(),
            best matches Some(b) ==> b < i && keep@[b as int] && (forall|j: int|
                0 <= j < i && keep@[j] ==> times@[j] <= times@[b as int]) && (forall|j: int|
                0 <= j < b && keep@[j] ==> times@[j] < times@[b as int]),
            best is None ==> forall|j: int| 0 <= j < i ==> !keep@[j],
        decreases times.len() - i,
    {
        if keep[i] {
            match best {
                Some(b) => {
                    if times[i] > times[b] {
                        best = Some(i);
                    }
                },
                None => {
                    best = Some(i);
                },
            }
        }
        i += 1;
    }
    best
}

/// Among directory entries (name, modification time), the newest whose name starts
/// with `prefix` and ends with `.krc` (a song may be cached in several versions).
pub fn newest_matching(entries: &Vec<(String, i128)>, prefix: &str) -> (r: Option<usize>)
    ensures
        r matches Some(i) ==> is_newest(
            entries@.map_values(|e: (String, i128)| e.1),
            entries@.map_values(
                |e: (String, i128)| prefix@.is_prefix_of(e.0@) && exe_like_krc(e.0@),
            ),
            i as int,
        ),
        r is None ==> forall|j: int|
            0 <= j < entries.len() ==> !(prefix@.is_prefix_of(#[trigger] entries@[j].0@)
                && exe_like_krc(entries@[j].0@)),
{
    let p = chars_of(prefix);
    let mut krc: Vec<char> = Vec::new();
    krc.push('.');
    krc.push('k');
    krc.push('r');
    krc.push('c');
    proof {
        assert(krc@ =~= krc_suffix());
    }
    let mut times: Vec<i128> = Vec::new();
    let mut keep: Vec<bool> = Vec::new();
    let mut i: usize = 0;
    while i < entries.len()
        invariant
            i <= entries.len(),
            p@ == prefix@,
            krc@ == krc_suffix(),
            times.len() == i && keep.len() == i,
            forall|k: int| 0 <= k < i ==> times@[k] == (#[trigger] entries@[k]).1,
            forall|k: int|
                0 <= k < i ==> keep@[k] == (prefix@.is_prefix_of((#[trigger] entries@[k]).0@)
                    && exe_like_krc(entries@[k].0@)),
        decreases entries.len() - i,
    {
        let name = chars_of(entries[i].0.as_str());
        times.push(entries[i].1);
        keep.push(starts_with_chars(&name, &p) && ends_with_chars(&name, &krc));
        i += 1;
    }
    proof {
        assert(times@ =~= entries@.map_values(|e: (String, i128)| e.1));
        assert(keep@ =~= entries@.map_values(
            |e: (String, i128)| prefix@.is_prefix_of(e.0@) && exe_like_krc(e.0@),
        ));
    }
    let r = newest_kept(&times, &keep);
    proof {
        if r is None {
            assert forall|j: int| 0 <= j < entries.len() implies !(prefix@.is_prefix_of(
                #[trigger] entries@[j].0@,
            ) && exe_like_krc(entries@[j].0@)) by {
                assert(!keep@[j]);
            }
        }
    }
    r
}

/// The characters `.krc`.
pub open spec fn krc_suffix() -> Seq<char> {
    seq!['.', 'k', 'r', 'c']
}

/// A file name ending in `.krc`.
pub open spec fn exe_like_krc(name: Seq<char>) -> bool {
    krc_suffix().is_suffix_of(name)
}

/// Among directory entries, the newest whose name contains `-{hash}-` (cache files are
/// named `artist - title-{hash}-...krc`).
pub fn newest_with_hash(entries: &Vec<(String, i128)>, hash: &str) -> (r: Option<usize>)
    ensures
        r matches Some(i) ==> is_newest(
            entries@.map_values(|e: (String, i128)| e.1),
            entries@.map_values(
                |e: (String, i128)| has_infix(e.0@, seq!['-'] + hash@ + seq!['-']),
            ),
            i as int,
        ),
        r is None ==> forall|j: int|
            0 <= j < entries.len() ==> !has_infix(
                #[trigger] entries@[j].0@,
                seq!['-'] + hash@ + seq!['-'],
            ),
{
    let mut dash: Vec<char> = Vec::new();
    dash.push('-');
    let mut needle = concat_chars(&dash, &chars_of(hash));
    needle.push('-');
    proof {
        assert(needle@ =~= seq!['-'] + hash@ + seq!['-']);
    }
    let mut times: Vec<i128> = Vec::new();
    let mut keep: Vec<bool> = Vec::new();
    let mut i: usize = 0;
    while i < entries.len()
        invariant
            i <= entries.len(),
            needle@ == seq!['-'] + hash@ + seq!['-'],
            times.len() == i && keep.len() == i,
            forall|k: int| 0 <= k < i ==> times@[k] == (#[trigger] entries@[k]).1,
            forall|k: int| 0 <= k < i ==> keep@[k] == has_infix((#[trigger] entries@[k]).0@, needle@),
        decreases entries.len() - i,
    {
        let name = chars_of(entries[i].0.as_str());
        times.push(entries[i].1);
        keep.push(contains_chars(&name, &needle));
        i += 1;
    }
    proof {
        assert(times@ =~= entries@.map_values(|e: (String, i128)| e.1));
        assert(keep@ =~= entries@.map_values(
            |e: (String, i128)| has_infix(e.0@, seq!['-'] + hash@ + seq!['-']),
        ));
    }
    let r = newest_kept(&times, &keep);
    proof {
        if r is None {
            assert forall|j: int| 0 <= j < entries.len() implies !has_infix(
                #[trigger] entries@[j].0@,
                seq!['-'] + hash@ + seq!['-'],
            ) by {
                assert(!keep@[j]);
            }
        }
    }
    r
}

/// The text of a NUL-terminated UTF-16 buffer (up to the first NUL, or all of it).
pub open spec fn spec_wide_nul_to_string(w: Seq<u16>) -> Seq<char> {
    match first_nul(w, 0) {
        Some(end) => utf16_lossy(w.take(end)),
        None => utf16_lossy(w),
    }
}

/// The first index at or after `i` holding a NUL unit.
pub open spec fn first_nul(w: Seq<u16>, i: int) -> Option<int>
    decreases w.len() - i,
{
    if i < 0 || i >= w.len() {
        None
    } else if w[i] == 0 {
        Some(i)
    } else {
        first_nul(w, i + 1)
    }
}

/// Decodes a NUL-terminated UTF-16 buffer (such as a process image name).
pub fn wide_nul_to_string(w: &[u16]) -> (r: String)
    ensures
        r@ == spec_wide_nul_to_string(w@),
{
    let mut end: usize = 0;
    while end < w.len() && w[end] != 0
        invariant
            end <= w.len(),
            first_nul(w@, 0) == first_nul(w@, end as int),
        decreases w.len() - end,
    {
        end += 1;
    }
    let mut units: Vec<u16> = Vec::new();
    let mut i: usize = 0;
    while i < end
        invariant
            i <= end <= w.len(),
            units@ == w@.take(i as int),
        decreases end - i,
    {
        units.push(w[i]);
        i += 1;
        proof {
            assert(units@ =~= w@.take(i as int));
        }
    }
    proof {
        if end == w.len() {
            assert(w@.take(end as int) =~= w@);
        }
    }
    string_of(&utf16_lossy_chars(&units))
}

} // verus!

verus! {

/// The track display name in a KuGou window title `name - 酷狗音乐` (the main window and
/// the desktop lyrics carry it): the trimmed name, when there is one.
pub open spec fn spec_window_display_name(title: Seq<char>) -> Option<Seq<char>> {
    let suffix = " - 酷狗音乐"@;
    if suffix.is_suffix_of(title) {
        let name = trim(title.subrange(0, title.len() - suffix.len()));
        if name.len() > 0 {
            Some(name)
        } else {
            None
        }
    } else {
        None
    }
}

/// The track display name a KuGou window title carries.
pub fn window_display_name(title: &str) -> (r: Option<String>)
    ensures
        r matches Some(n) ==> spec_window_display_name(title@) == Some(n@),
        r is None ==> spec_window_display_name(title@) is None,
{
    let t = chars_of(title);
    let suffix = chars_of(" - 酷狗音乐");
    if !ends_with_chars(&t, &suffix) {
        return None;
    }
    let head = slice_chars(&t, 0, t.len() - suffix.len());
    let name = trim_chars(&head);
    if name.len() == 0 {
        None
    } else {
        Some(string_of(&name))
    }
}

/// An uninstall entry of KuGou: its display name mentions `酷狗`, or `kugou` in any
/// case.
pub open spec fn spec_names_kugou(display: Seq<char>) -> bool {
    has_infix(display, "酷狗"@) || has_infix(lowercase(display), kugou_word())
}

/// Whether an uninstall entry's display name is KuGou's.
pub fn names_kugou(display: &str) -> (r: bool)
    ensures
        r == spec_names_kugou(display@),
{
    let d = chars_of(display);
    contains_chars(&d, &chars_of("酷狗")) || mentions_kugou(&to_lowercase_chars(&d))
}

} // verus!

verus! {

/// Where a KRC line ends: its start plus its duration, a negative duration counting as
/// none.
pub open spec fn krc_line_end(l: (i64, i64, Seq<char>)) -> int {
    l.0 + if l.1 < 0 {
        0
    } else {
        l.1 as int
    }
}

/// The duration `parse_krc` reports for KRC lines is the latest end of a parsed line,
/// and at least 0: it is no earlier than the end (so the start) of any parsed line,
/// and it is 0 or the end of one of them.
pub proof fn law_krc_coverage_is_latest_end(ls: Seq<Seq<char>>)
    ensures
        krc_coverage(ls) >= 0,
        forall|k: int| 0 <= k < ls.len() ==> (#[trigger] krc_line(ls[k]) matches Some(l) ==> l.0 <= krc_line_end(l)
            <= krc_coverage(ls)),
        krc_coverage(ls) == 0 || exists|k: int| 0 <= k < ls.len() && (#[trigger] krc_line(ls[k]) matches Some(l)
            && krc_line_end(l) == krc_coverage(ls)),
    decreases ls.len(),
{
    if ls.len() > 0 {
        let p = ls.drop_last();
        law_krc_coverage_is_latest_end(p);
        assert forall|k: int| 0 <= k < ls.len() implies (#[trigger] krc_line(ls[k]) matches Some(l) ==> l.0
            <= krc_line_end(l) <= krc_coverage(ls)) by {
            if k < ls.len() - 1 {
                assert(ls[k] == p[k]);
            }
        }
        if krc_coverage(ls) != 0 {
            if krc_coverage(ls) == krc_coverage(p) {
                let k = choose|k: int| 0 <= k < p.len() && (#[trigger] krc_line(p[k]) matches Some(l)
                    && krc_line_end(l) == krc_coverage(p));
                assert(ls[k] == p[k]);
                assert(krc_line(ls[k]) matches Some(l) && krc_line_end(l) == krc_coverage(ls));
            } else {
                let k = ls.len() - 1;
                assert(ls[k] == ls.last());
                assert(krc_line(ls[k]) matches Some(l) && krc_line_end(l) == krc_coverage(ls));
            }
        }
    }
}

proof fn lemma_no_artist_hit(items: Seq<Json>, artist: Seq<char>)
    requires
        forall|k: int| 0 <= k < items.len() ==> !(spec_artist_matches(
            str_or_empty(at(Some(#[trigger] items[k]), "SingerName"@)),
            artist,
        ) && spec_hit_of(items[k]) is Some),
    ensures
        first_artist_hit(items, artist) is None,
    decreases items.len(),
{
    if items.len() > 0 {
        let r = items.drop_first();
        assert forall|k: int| 0 <= k < r.len() implies !(spec_artist_matches(
            str_or_empty(at(Some(#[trigger] r[k]), "SingerName"@)),
            artist,
        ) && spec_hit_of(r[k]) is Some) by {
            assert(r[k] == items[k + 1]);
        }
        assert(items[0] == items[0]);
        lemma_no_artist_hit(r, artist);
    }
}

proof fn lemma_first_artist_hit_at(items: Seq<Json>, artist: Seq<char>, i: int)
    requires
        0 <= i < items.len(),
        spec_artist_matches(str_or_empty(at(Some(items[i]), "SingerName"@)), artist),
        spec_hit_of(items[i]) is Some,
        forall|k: int| 0 <= k < i ==> !(spec_artist_matches(
            str_or_empty(at(Some(#[trigger] items[k]), "SingerName"@)),
            artist,
        ) && spec_hit_of(items[k]) is Some),
    ensures
        first_artist_hit(items, artist) == spec_hit_of(items[i]),
    decreases i,
{
    if i > 0 {
        let r = items.drop_first();
        assert forall|k: int| 0 <= k < i - 1 implies !(spec_artist_matches(
            str_or_empty(at(Some(#[trigger] r[k]), "SingerName"@)),
            artist,
        ) && spec_hit_of(r[k]) is Some) by {
            assert(r[k] == items[k + 1]);
        }
        assert(items[0] == items[0]);
        assert(r[i - 1] == items[i]);
        lemma_first_artist_hit_at(r, artist, i - 1);
    }
}

/// How a KuGou search result is picked. With a known artist, the first result whose
/// singer field names the artist and that has a hash is taken. When there is none (or
/// no artist is known), the first result is taken if it has a hash and its title is
/// related to the query, whether or not an artist was given; else nothing.
pub proof fn law_pick_hit_artist_then_first(json: Json, title: Seq<char>, artist: Seq<char>, items: Seq<Json>)
    requires
        array_of(at(at(Some(json), "data"@), "lists"@)) == Some(items),
    ensures
        artist.len() > 0 ==> forall|i: int|
            0 <= i < items.len() && spec_artist_matches(
                str_or_empty(at(Some(#[trigger] items[i]), "SingerName"@)),
                artist,
            ) && spec_hit_of(items[i]) is Some && (forall|k: int| 0 <= k < i ==> !(spec_artist_matches(
                str_or_empty(at(Some(#[trigger] items[k]), "SingerName"@)),
                artist,
            ) && spec_hit_of(items[k]) is Some)) ==> spec_pick_hit(json, title, artist) == spec_hit_of(
                items[i],
            ),
        (artist.len() == 0 || forall|k: int| 0 <= k < items.len() ==> !(spec_artist_matches(
            str_or_empty(at(Some(#[trigger] items[k]), "SingerName"@)),
            artist,
        ) && spec_hit_of(items[k]) is Some)) ==> spec_pick_hit(json, title, artist) == (if items.len() > 0
            && spec_hit_of(items[0]) is Some && related(
            norm_title(search_query(title, artist)),
            norm_title(spec_hit_of(items[0])->0.title),
        ) {
            spec_hit_of(items[0])
        } else {
            None
        }),
{
    if artist.len() > 0 {
        assert forall|i: int|
            0 <= i < items.len() && spec_artist_matches(
                str_or_empty(at(Some(#[trigger] items[i]), "SingerName"@)),
                artist,
            ) && spec_hit_of(items[i]) is Some && (forall|k: int| 0 <= k < i ==> !(spec_artist_matches(
                str_or_empty(at(Some(#[trigger] items[k]), "SingerName"@)),
                artist,
            ) && spec_hit_of(items[k]) is Some)) implies spec_pick_hit(json, title, artist) == spec_hit_of(
                items[i],
            ) by {
            lemma_first_artist_hit_at(items, artist, i);
        }
        if forall|k: int| 0 <= k < items.len() ==> !(spec_artist_matches(
            str_or_empty(at(Some(#[trigger] items[k]), "SingerName"@)),
            artist,
        ) && spec_hit_of(items[k]) is Some) {
            lemma_no_artist_hit(items, artist);
        }
    }
}

/// The duration a lyric download reports: the picked candidate's own duration when it
/// is positive, else the search's seconds (negative counting as zero) in milliseconds;
/// so it is positive whenever the search's duration is.
pub proof fn law_lrc_download_duration(json: Json, title: Seq<char>, duration_s: i64, c: Seq<Json>, i: int)
    requires
        array_of(at(Some(json), "candidates"@)) == Some(c),
        spec_pick_candidate(c, title) == Some(i),
    ensures
        spec_lrc_download(json, title, duration_s) matches Some(req) ==> {
            let fallback = if duration_s < 0 {
                0
            } else {
                duration_s * 1000
            };
            &&& match int_field(at(Some(c[i]), "duration"@)) {
                Some(d) => if d > 0 {
                    req.1 == d
                } else {
                    req.1 == fallback
                },
                None => req.1 == fallback,
            }
            &&& duration_s > 0 ==> req.1 > 0
        },
{
}

} // verus!
