//! The KuGou DevTools source: reading the player's own play state (exact position,
//! duration, audio hash) from its embedded browser, once `libcef.dll` is patched.

use vstd::prelude::*;
use crate::json::{array_of, field, field_of, i64_of, json_text, parse_json, str_of, str_or_empty, Json};
use crate::kugou::at;
use crate::music::ClockRate;
use crate::provider::{ProviderState, ProviderView};
use crate::text::{
    chars_of, concat_chars, has_infix, parse_i64, parse_i64_chars, replace, replace_chars,
    same_text, split_once, split_once_chars, string_of, trim, trim_chars, contains_chars,
};

verus! {

/// The port the patch opens for DevTools.
pub const CDP_PORT: u16 = 12233;

/// A snapshot older than this many milliseconds is no source at all.
pub const SNAPSHOT_TTL_MS: i64 = 2000;

/// The play information the player's `SuperCall(864)` returns.
#[derive(Debug, Clone, Default, PartialEq, Eq)]
pub struct PlayInfo {
    /// `artist - title`.
    pub filename: String,
    /// `playing`, `paused` or `stopped`.
    pub play_status: String,
    pub position_ms: i64,
    pub duration_ms: i64,
    pub cover_url: String,
    /// Hash of the playing audio file (lyrics by hash have no version ambiguity).
    pub hash: String,
}

/// The abstract value of [`PlayInfo`].
pub struct PlayInfoView {
    pub filename: Seq<char>,
    pub play_status: Seq<char>,
    pub position_ms: i64,
    pub duration_ms: i64,
    pub cover_url: Seq<char>,
    pub hash: Seq<char>,
}

impl View for PlayInfo {
    type V = PlayInfoView;

    open spec fn view(&self) -> PlayInfoView {
        PlayInfoView {
            filename: self.filename@,
            play_status: self.play_status@,
            position_ms: self.position_ms,
            duration_ms: self.duration_ms,
            cover_url: self.cover_url@,
            hash: self.hash@,
        }
    }
}

/// `artist - title` split into (title, artist), both trimmed; without the separator
/// the whole trimmed name is the title.
pub open spec fn spec_title_artist(filename: Seq<char>) -> (Seq<char>, Seq<char>) {
    match split_once(filename, seq![' ', '-', ' ']) {
        Some((artist, title)) => (trim(title), trim(artist)),
        None => (trim(filename), Seq::<char>::empty()),
    }
}

impl PlayInfo {
    /// Whether the player is playing.
    pub fn is_playing(&self) -> (r: bool)
        ensures
            r == (self.play_status@ == seq!['p', 'l', 'a', 'y', 'i', 'n', 'g']),
    {
        let mut playing: Vec<char> = Vec::new();
        playing.push('p');
        playing.push('l');
        playing.push('a');
        playing.push('y');
        playing.push('i');
        playing.push('n');
        playing.push('g');
        let s = string_of(&playing);
        proof {
            assert(s@ =~= seq!['p', 'l', 'a', 'y', 'i', 'n', 'g']);
        }
        same_text(self.play_status.as_str(), s.as_str())
    }

    /// (title, artist) of the `artist - title` file name.
    pub fn title_artist(&self) -> (r: (String, String))
        ensures
            (r.0@, r.1@) == spec_title_artist(self.filename@),
    {
        let mut sep: Vec<char> = Vec::new();
        sep.push(' ');
        sep.push('-');
        sep.push(' ');
        proof {
            assert(sep@ =~= seq![' ', '-', ' ']);
        }
        let name = chars_of(self.filename.as_str());
        match split_once_chars(&name, &sep) {
            Some((artist, title)) => (string_of(&trim_chars(&title)), string_of(&trim_chars(&artist))),
            None => (string_of(&trim_chars(&name)), String::new()),
        }
    }
}

/// The position the DevTools `progress` stands for: the value counts 100-nanosecond
/// ticks (non-numbers and negatives count as zero), so milliseconds are a ten-thousandth
/// of it; beyond a known positive duration it is capped at the duration.
pub open spec fn spec_decode_progress_ms(raw: Seq<char>, duration_ms: i64) -> int {
    let value = match parse_i64(raw) {
        Some(v) => if v < 0 {
            0
        } else {
            v as int
        },
        None => 0,
    };
    let ticks = value / 10000;
    if duration_ms > 0 && ticks > duration_ms {
        duration_ms as int
    } else {
        ticks
    }
}

/// Decodes the `progress` field into milliseconds.
pub fn decode_progress_ms(raw: &str, duration_ms: i64) -> (r: i64)
    ensures
        r == spec_decode_progress_ms(raw@, duration_ms),
{
    let value = match parse_i64_chars(&chars_of(raw)) {
        Some(v) => if v < 0 {
            0
        } else {
            v
        },
        None => 0,
    };
    let ticks = value / 10000;
    if duration_ms > 0 && ticks > duration_ms {
        duration_ms
    } else {
        ticks
    }
}

/// A field read as text: a string's characters, a number's text, else empty.
pub open spec fn spec_text_of(v: Json, key: Seq<char>) -> Seq<char> {
    match field(v, key) {
        Some(Json::Str(s)) => s@,
        Some(Json::Number(n)) => n.text@,
        _ => Seq::<char>::empty(),
    }
}

/// Reads a field that may be given as a string or as a number.
pub fn text_of(v: &Json, key: &str) -> (r: String)
    ensures
        r@ == spec_text_of(*v, key@),
{
    match v.get(key) {
        Some(Json::Str(s)) => s.clone(),
        Some(Json::Number(n)) => n.text.clone(),
        _ => String::new(),
    }
}

/// The play information a `SuperCall(864)` document describes; `None` when it has
/// neither a file name nor a hash (an ad, an empty queue).
pub open spec fn spec_play_info(v: Json) -> Option<PlayInfoView> {
    let filename = spec_text_of(v, "filename"@);
    let hash = spec_text_of(v, "hash"@);
    if filename.len() == 0 && hash.len() == 0 {
        None
    } else {
        let duration_ms = match parse_i64(spec_text_of(v, "duration"@)) {
            Some(d) => d,
            None => 0,
        };
        Some(
            PlayInfoView {
                filename,
                play_status: spec_text_of(v, "play_status"@),
                position_ms: spec_decode_progress_ms(spec_text_of(v, "progress"@), duration_ms) as i64,
                duration_ms,
                cover_url: spec_text_of(v, "cover"@),
                hash,
            },
        )
    }
}

/// Reads the play information from the parsed `SuperCall(864)` document.
pub fn play_info_of(v: &Json) -> (r: Option<PlayInfo>)
    ensures
        r matches Some(i) ==> spec_play_info(*v) == Some(i@),
        r is None ==> spec_play_info(*v) is None,
{
    let filename = text_of(v, "filename");
    let hash = text_of(v, "hash");
    if filename.as_str().is_empty() && hash.as_str().is_empty() {
        return None;
    }
    let duration_ms = match parse_i64_chars(&chars_of(text_of(v, "duration").as_str())) {
        Some(d) => d,
        None => 0,
    };
    let progress = text_of(v, "progress");
    Some(
        PlayInfo {
            filename,
            play_status: text_of(v, "play_status"),
            position_ms: decode_progress_ms(progress.as_str(), duration_ms),
            duration_ms,
            cover_url: text_of(v, "cover"),
            hash,
        },
    )
}

/// Parses the text `SuperCall(864)` resolves to and reads the play information from
/// it; `None` when the text is not JSON or describes no song.
pub fn parse_play_info(raw: &str) -> (r: Option<PlayInfo>)
    ensures
        r matches Some(i) ==> (json_text(raw@) matches Some(v) && spec_play_info(v) == Some(i@)),
        r is None ==> (json_text(raw@) matches Some(v) ==> spec_play_info(v) is None),
{
    match parse_json(raw) {
        Some(v) => play_info_of(&v),
        None => None,
    }
}

} // verus!

verus! {

/// A DevTools target whose `url` contains `needle`.
pub open spec fn url_has(p: Json, needle: Seq<char>) -> bool {
    str_of(field(p, "url"@)) matches Some(u) && has_infix(u, needle)
}

/// A DevTools target of type `page`.
pub open spec fn is_page(p: Json) -> bool {
    str_of(field(p, "type"@)) == Some(seq!['p', 'a', 'g', 'e'])
}

/// The first index at or after `i` satisfying `pred`.
pub open spec fn first_where(list: Seq<Json>, pred: spec_fn(Json) -> bool, i: int) -> Option<int>
    decreases list.len() - i,
{
    if i < 0 || i >= list.len() {
        None
    } else if pred(list[i]) {
        Some(i)
    } else {
        first_where(list, pred, i + 1)
    }
}

/// The target picked from the DevTools `/json` list: the first desktop pop-up page
/// (the one with the player's bridge), else the first page; its WebSocket debugger URL.
pub open spec fn spec_pick_page(pages: Json) -> Option<Seq<char>> {
    match array_of(Some(pages)) {
        None => None,
        Some(list) => {
            let popup = first_where(list, |p: Json| url_has(p, "desktop-popup"@), 0);
            let pick = match popup {
                Some(i) => Some(i),
                None => first_where(list, |p: Json| is_page(p), 0),
            };
            match pick {
                Some(i) => str_of(field(list[i], "webSocketDebuggerUrl"@)),
                None => None,
            }
        },
    }
}

fn target_url_has(p: &Json, needle: &[char]) -> (r: bool)
    ensures
        r == (str_of(field(*p, "url"@)) matches Some(u) && has_infix(u, needle@)),
{
    match p.get("url") {
        Some(u) => match u.as_str() {
            Some(text) => contains_chars(&chars_of(text), needle),
            None => false,
        },
        None => false,
    }
}

fn target_is_page(p: &Json) -> (r: bool)
    ensures
        r == is_page(*p),
{
    let mut page: Vec<char> = Vec::new();
    page.push('p');
    page.push('a');
    page.push('g');
    page.push('e');
    let page_text = string_of(&page);
    proof {
        assert(page_text@ =~= seq!['p', 'a', 'g', 'e']);
    }
    match p.get("type") {
        Some(t) => match t.as_str() {
            Some(text) => same_text(text, page_text.as_str()),
            None => false,
        },
        None => false,
    }
}

fn first_popup(list: &Vec<Json>) -> (r: Option<usize>)
    ensures
        r matches Some(k) ==> first_where(list@, |p: Json| url_has(p, "desktop-popup"@), 0) == Some(
            k as int,
        ) && k < list.len(),
        r is None ==> first_where(list@, |p: Json| url_has(p, "desktop-popup"@), 0) is None,
{
    let needle = chars_of("desktop-popup");
    let ghost pred = |p: Json| url_has(p, "desktop-popup"@);
    let mut i: usize = 0;
    while i < list.len()
        invariant
            i <= list.len(),
            needle@ == "desktop-popup"@,
            pred == (|p: Json| url_has(p, "desktop-popup"@)),
            first_where(list@, pred, 0) == first_where(list@, pred, i as int),
        decreases list.len() - i,
    {
        if target_url_has(&list[i], &needle) {
            return Some(i);
        }
        i += 1;
    }
    None
}

fn first_page(list: &Vec<Json>) -> (r: Option<usize>)
    ensures
        r matches Some(k) ==> first_where(list@, |p: Json| is_page(p), 0) == Some(k as int) && k
            < list.len(),
        r is None ==> first_where(list@, |p: Json| is_page(p), 0) is None,
{
    let ghost pred = |p: Json| is_page(p);
    let mut i: usize = 0;
    while i < list.len()
        invariant
            i <= list.len(),
            pred == (|p: Json| is_page(p)),
            first_where(list@, pred, 0) == first_where(list@, pred, i as int),
        decreases list.len() - i,
    {
        if target_is_page(&list[i]) {
            return Some(i);
        }
        i += 1;
    }
    None
}

/// The WebSocket debugger URL of the page to attach to.
pub fn pick_page(pages: &Json) -> (r: Option<String>)
    ensures
        r matches Some(u) ==> spec_pick_page(*pages) == Some(u@),
        r is None ==> spec_pick_page(*pages) is None,
{
    let list = match pages.as_array() {
        Some(l) => l,
        None => {
            return None;
        },
    };
    let pick = match first_popup(list) {
        Some(k) => Some(k),
        None => first_page(list),
    };
    match pick {
        Some(k) => match list[k].get("webSocketDebuggerUrl") {
            Some(u) => match u.as_str() {
                Some(text) => Some(text.to_owned()),
                None => None,
            },
            None => None,
        },
        None => None,
    }
}

} // verus!

verus! {

/// The source id the DevTools source reports, the same as KuGou's media session's.
pub open spec fn kugou_exe_id() -> Seq<char> {
    seq!['k', 'u', 'g', 'o', 'u', '.', 'e', 'x', 'e']
}

/// The song-id prefix marking an audio hash from the DevTools source.
pub open spec fn kugou_song_prefix() -> Seq<char> {
    seq!['k', 'u', 'g', 'o', 'u', ':']
}

/// The DevTools source's state: whether it is switched on, whether a session is
/// connected, and the latest play information with the (monotonic) time it was read.
#[derive(Debug)]
pub struct KugouCdpProvider {
    latest: Option<(i64, PlayInfo)>,
    connected: bool,
    enabled: bool,
}

/// The abstract state of a [`KugouCdpProvider`].
pub struct CdpView {
    pub latest: Option<(i64, PlayInfoView)>,
    pub connected: bool,
    pub enabled: bool,
}

impl View for KugouCdpProvider {
    type V = CdpView;

    closed spec fn view(&self) -> CdpView {
        CdpView {
            latest: match self.latest {
                Some((at, info)) => Some((at, info@)),
                None => None,
            },
            connected: self.connected,
            enabled: self.enabled,
        }
    }
}

/// The snapshot a fresh play information gives: title and artist from the file name,
/// source id `kugou.exe`, song id `kugou:<hash>` when the hash is known, the position
/// anchored at the moment it was read, rate 1 while playing (0 otherwise), the duration
/// when positive, no seeking, and the cover URL made `https`.
pub open spec fn spec_snapshot_of(info: PlayInfoView, anchor: int) -> ProviderView {
    let playing = info.play_status == seq!['p', 'l', 'a', 'y', 'i', 'n', 'g'];
    ProviderView {
        is_playing: playing,
        title: spec_title_artist(info.filename).0,
        artist: spec_title_artist(info.filename).1,
        album: None,
        source_app_id: kugou_exe_id(),
        song_id: if info.hash.len() > 0 {
            Some(kugou_song_prefix() + info.hash)
        } else {
            None
        },
        position_ms: info.position_ms,
        anchor_epoch_ms: anchor as i64,
        rate: if playing {
            ClockRate { num: 1, den: 1 }
        } else {
            ClockRate { num: 0, den: 1 }
        },
        duration_ms: if info.duration_ms > 0 {
            Some(info.duration_ms)
        } else {
            None
        },
        seek_supported: false,
        artwork_url: if info.cover_url.len() > 0 {
            Some(replace(info.cover_url, "http://"@, "https://"@))
        } else {
            None
        },
    }
}

/// The source's snapshot at monotonic time `now_ms` (wall clock `now_epoch_ms`): none
/// when switched off, without play information, or when that is
/// [`SNAPSHOT_TTL_MS`] or more old.
pub open spec fn spec_snapshot(v: CdpView, now_ms: i64, now_epoch_ms: i64) -> Option<ProviderView> {
    if !v.enabled {
        None
    } else {
        match v.latest {
            None => None,
            Some((at, info)) => {
                let age = if now_ms > at {
                    now_ms - at
                } else {
                    0
                };
                if age >= SNAPSHOT_TTL_MS {
                    None
                } else {
                    Some(spec_snapshot_of(info, now_epoch_ms - age))
                }
            },
        }
    }
}

/// Whether two play informations are equal field by field.
fn same_info(a: &PlayInfo, b: &PlayInfo) -> (r: bool)
    ensures
        r == (a@ == b@),
{
    same_text(a.filename.as_str(), b.filename.as_str()) && same_text(
        a.play_status.as_str(),
        b.play_status.as_str(),
    ) && a.position_ms == b.position_ms && a.duration_ms == b.duration_ms && same_text(
        a.cover_url.as_str(),
        b.cover_url.as_str(),
    ) && same_text(a.hash.as_str(), b.hash.as_str())
}

impl KugouCdpProvider {
    /// Switched off, not connected, no play information.
    pub fn new() -> (r: Self)
        ensures
            r@.latest is None,
            !r@.connected,
            !r@.enabled,
    {
        KugouCdpProvider { latest: None, connected: false, enabled: false }
    }

    /// The switch: off makes the worker idle and the source empty.
    pub fn set_enabled(&mut self, on: bool)
        ensures
            final(self)@.enabled == on,
            final(self)@.connected == old(self)@.connected,
            final(self)@.latest == old(self)@.latest,
    {
        self.enabled = on;
    }

    /// Whether the source is switched on.
    pub fn is_enabled(&self) -> (r: bool)
        ensures
            r == self@.enabled,
    {
        self.enabled
    }

    /// Whether a DevTools session is connected.
    pub fn is_connected(&self) -> (r: bool)
        ensures
            r == self@.connected,
    {
        self.connected
    }

    /// Records that a DevTools session is up.
    pub fn set_connected(&mut self)
        ensures
            final(self)@.connected,
            final(self)@.enabled == old(self)@.enabled,
            final(self)@.latest == old(self)@.latest,
    {
        self.connected = true;
    }

    /// Stores the play information read at `now_ms`; returns whether it differs from
    /// the previous one (or there was none).
    pub fn store(&mut self, now_ms: i64, info: PlayInfo) -> (changed: bool)
        ensures
            final(self)@.latest == Some((now_ms, info@)),
            final(self)@.connected == old(self)@.connected,
            final(self)@.enabled == old(self)@.enabled,
            changed == (match old(self)@.latest {
                Some((_, prev)) => prev != info@,
                None => true,
            }),
    {
        let changed = match &self.latest {
            Some((_, prev)) => !same_info(prev, &info),
            None => true,
        };
        self.latest = Some((now_ms, info));
        changed
    }

    /// Drops the play information (nothing playing); returns whether there was one.
    pub fn clear(&mut self) -> (had: bool)
        ensures
            final(self)@.latest is None,
            final(self)@.connected == old(self)@.connected,
            final(self)@.enabled == old(self)@.enabled,
            had == old(self)@.latest is Some,
    {
        let had = self.latest.is_some();
        self.latest = None;
        had
    }

    /// The session is gone: not connected, no play information.
    pub fn set_offline(&mut self)
        ensures
            !final(self)@.connected,
            final(self)@.latest is None,
            final(self)@.enabled == old(self)@.enabled,
    {
        self.connected = false;
        self.clear();
    }

    /// The snapshot to show at monotonic time `now_ms`, wall clock `now_epoch_ms`.
    pub fn snapshot(&self, now_ms: i64, now_epoch_ms: i64) -> (r: Option<ProviderState>)
        requires
            now_epoch_ms >= i64::MIN + SNAPSHOT_TTL_MS,
        ensures
            r matches Some(p) ==> spec_snapshot(self@, now_ms, now_epoch_ms) == Some(p@),
            r is None ==> spec_snapshot(self@, now_ms, now_epoch_ms) is None,
    {
        if !self.enabled {
            return None;
        }
        let (at, info) = match &self.latest {
            Some((at, info)) => (*at, info),
            None => {
                return None;
            },
        };
        let age: i64 = if now_ms > at {
            let d = (now_ms as i128) - (at as i128);
            if d >= SNAPSHOT_TTL_MS as i128 {
                return None;
            }
            d as i64
        } else {
            0
        };
        let (title, artist) = info.title_artist();
        let playing = info.is_playing();
        let song_id = if info.hash.as_str().is_empty() {
            None
        } else {
            let mut p: Vec<char> = Vec::new();
            p.push('k');
            p.push('u');
            p.push('g');
            p.push('o');
            p.push('u');
            p.push(':');
            proof {
                assert(p@ =~= kugou_song_prefix());
            }
            Some(string_of(&concat_chars(&p, &chars_of(info.hash.as_str()))))
        };
        let artwork_url = if info.cover_url.as_str().is_empty() {
            None
        } else {
            let http = chars_of("http://");
            let https = chars_of("https://");
            proof {
                reveal_strlit("http://");
            }
            Some(string_of(&replace_chars(&chars_of(info.cover_url.as_str()), &http, &https)))
        };
        let mut id: Vec<char> = Vec::new();
        id.push('k');
        id.push('u');
        id.push('g');
        id.push('o');
        id.push('u');
        id.push('.');
        id.push('e');
        id.push('x');
        id.push('e');
        proof {
            assert(id@ =~= kugou_exe_id());
        }
        Some(
            ProviderState {
                is_playing: playing,
                title,
                artist,
                album: None,
                source_app_id: string_of(&id),
                song_id,
                position_ms: info.position_ms,
                anchor_epoch_ms: now_epoch_ms - age,
                rate: if playing {
                    ClockRate { num: 1, den: 1 }
                } else {
                    ClockRate { num: 0, den: 1 }
                },
                duration_ms: if info.duration_ms > 0 {
                    Some(info.duration_ms)
                } else {
                    None
                },
                seek_supported: false,
                artwork_url,
            },
        )
    }
}

} // verus!

verus! {

/// Pause between two reads while connected (lyric lines advance by it; the renderer
/// extrapolates between anchors).
pub const POLL_INTERVAL_MS: u64 = 200;

/// Pause before reconnecting after a failed connection.
pub const RECONNECT_INTERVAL_MS: u64 = 3000;

/// Pause while switched off.
pub const IDLE_INTERVAL_MS: u64 = 1000;

/// Where the DevTools worker is: waiting to be switched on for the first time, without
/// a session, or with one.
#[derive(Debug, Clone, Copy, PartialEq, Eq, Structural)]
pub enum CdpPhase {
    Waiting,
    Offline,
    Online,
}

/// What the worker's last action gave: a pause ended; a connection attempt succeeded or
/// not; a read of the play information gave one, nothing playing (`Some(None)`), or
/// failed (`None`: the session is gone).
#[derive(Debug)]
pub enum CdpEvent {
    Woke,
    Connected(bool),
    Read(Option<Option<PlayInfo>>),
}

/// The abstract value of a [`CdpEvent`].
pub enum CdpEventView {
    Woke,
    Connected(bool),
    Read(Option<Option<PlayInfoView>>),
}

impl View for CdpEvent {
    type V = CdpEventView;

    open spec fn view(&self) -> CdpEventView {
        match self {
            CdpEvent::Woke => CdpEventView::Woke,
            CdpEvent::Connected(ok) => CdpEventView::Connected(*ok),
            CdpEvent::Read(r) => CdpEventView::Read(
                match r {
                    Some(Some(info)) => Some(Some(info@)),
                    Some(None) => Some(None),
                    None => None,
                },
            ),
        }
    }
}

/// The worker's next action.
#[derive(Debug, Clone, Copy, PartialEq, Eq, Structural)]
pub enum CdpAction {
    Sleep(u64),
    Connect,
    Read,
}

/// The source without a session: not connected, no play information.
pub open spec fn offline(v: CdpView) -> CdpView {
    CdpView { connected: false, latest: None, ..v }
}

/// The worker at the top of its connection loop: switched off it goes offline and
/// idles; otherwise it connects.
pub open spec fn connect_or_idle(v: CdpView) -> (CdpView, CdpPhase, CdpAction) {
    if !v.enabled {
        (offline(v), CdpPhase::Offline, CdpAction::Sleep(IDLE_INTERVAL_MS))
    } else {
        (v, CdpPhase::Offline, CdpAction::Connect)
    }
}

/// One step of the DevTools worker from its phase and the outcome of its last action
/// (`now_ms` is the monotonic time of a read): the new source state, phase, next action,
/// and how many times the island should refresh.
///
/// It waits idle until first switched on. Without a session it connects (switched off
/// it goes offline and idles; a failed attempt waits to retry); a new session is marked
/// connected (refresh) and read, unless the worker was switched off meanwhile: then the
/// session ends at once (offline, a second refresh). With a session, a read play
/// information is stored (refresh when it changed), nothing playing clears it (refresh
/// when there was one), and both pause before the next read; a failed read, or being
/// switched off, ends the session (offline, refresh) and goes back to connecting.
pub open spec fn spec_worker_step(v: CdpView, phase: CdpPhase, ev: CdpEventView, now_ms: i64) -> (
    CdpView,
    CdpPhase,
    CdpAction,
    u8,
) {
    let leave = |w: CdpView|
        {
            let (x, p, a) = connect_or_idle(offline(w));
            (x, p, a, 1u8)
        };
    match phase {
        CdpPhase::Waiting => if !v.enabled {
            (v, CdpPhase::Waiting, CdpAction::Sleep(IDLE_INTERVAL_MS), 0u8)
        } else {
            let (x, p, a) = connect_or_idle(v);
            (x, p, a, 0u8)
        },
        CdpPhase::Offline => match ev {
            CdpEventView::Connected(true) => {
                let up = CdpView { connected: true, ..v };
                if !v.enabled {
                    let (x, p, a) = connect_or_idle(offline(up));
                    (x, p, a, 2u8)
                } else {
                    (up, CdpPhase::Online, CdpAction::Read, 1u8)
                }
            },
            CdpEventView::Connected(false) => (
                v,
                CdpPhase::Offline,
                CdpAction::Sleep(RECONNECT_INTERVAL_MS),
                0u8,
            ),
            _ => {
                let (x, p, a) = connect_or_idle(v);
                (x, p, a, 0u8)
            },
        },
        CdpPhase::Online => match ev {
            CdpEventView::Read(Some(Some(info))) => (
                CdpView { latest: Some((now_ms, info)), ..v },
                CdpPhase::Online,
                CdpAction::Sleep(POLL_INTERVAL_MS),
                match v.latest {
                    Some((_, prev)) => if prev != info {
                        1u8
                    } else {
                        0u8
                    },
                    None => 1u8,
                },
            ),
            CdpEventView::Read(Some(None)) => (
                CdpView { latest: None, ..v },
                CdpPhase::Online,
                CdpAction::Sleep(POLL_INTERVAL_MS),
                if v.latest is Some {
                    1u8
                } else {
                    0u8
                },
            ),
            CdpEventView::Read(None) => leave(v),
            _ => if !v.enabled {
                leave(v)
            } else {
                (v, CdpPhase::Online, CdpAction::Read, 0u8)
            },
        },
    }
}

impl KugouCdpProvider {
    fn connect_or_idle(&mut self) -> (r: (CdpPhase, CdpAction))
        ensures
            connect_or_idle(old(self)@) == (final(self)@, r.0, r.1),
    {
        if !self.enabled {
            self.set_offline();
            (CdpPhase::Offline, CdpAction::Sleep(IDLE_INTERVAL_MS))
        } else {
            (CdpPhase::Offline, CdpAction::Connect)
        }
    }

    /// One step of the DevTools worker; returns the next phase, the next action, and
    /// how many times the island should refresh.
    pub fn step(&mut self, phase: CdpPhase, event: CdpEvent, now_ms: i64) -> (r: (CdpPhase, CdpAction, u8))
        ensures
            spec_worker_step(old(self)@, phase, event@, now_ms) == (final(self)@, r.0, r.1, r.2),
    {
        match phase {
            CdpPhase::Waiting => {
                if !self.enabled {
                    (CdpPhase::Waiting, CdpAction::Sleep(IDLE_INTERVAL_MS), 0)
                } else {
                    let (p, a) = self.connect_or_idle();
                    (p, a, 0)
                }
            },
            CdpPhase::Offline => match event {
                CdpEvent::Connected(true) => {
                    self.set_connected();
                    if !self.enabled {
                        self.set_offline();
                        let (p, a) = self.connect_or_idle();
                        (p, a, 2)
                    } else {
                        (CdpPhase::Online, CdpAction::Read, 1)
                    }
                },
                CdpEvent::Connected(false) => (
                    CdpPhase::Offline,
                    CdpAction::Sleep(RECONNECT_INTERVAL_MS),
                    0,
                ),
                _ => {
                    let (p, a) = self.connect_or_idle();
                    (p, a, 0)
                },
            },
            CdpPhase::Online => match event {
                CdpEvent::Read(Some(Some(info))) => {
                    let changed = self.store(now_ms, info);
                    (CdpPhase::Online, CdpAction::Sleep(POLL_INTERVAL_MS), if changed { 1 } else { 0 })
                },
                CdpEvent::Read(Some(None)) => {
                    let had = self.clear();
                    (CdpPhase::Online, CdpAction::Sleep(POLL_INTERVAL_MS), if had { 1 } else { 0 })
                },
                CdpEvent::Read(None) => {
                    self.set_offline();
                    let (p, a) = self.connect_or_idle();
                    (p, a, 1)
                },
                _ => {
                    if !self.enabled {
                        self.set_offline();
                        let (p, a) = self.connect_or_idle();
                        (p, a, 1)
                    } else {
                        (CdpPhase::Online, CdpAction::Read, 0)
                    }
                },
            },
        }
    }
}

/// A source that is switched off is no source, whatever it holds.
pub proof fn law_switched_off_is_no_source(v: CdpView, now_ms: i64, now_epoch_ms: i64)
    requires
        !v.enabled,
    ensures
        spec_snapshot(v, now_ms, now_epoch_ms) is None,
{
}

/// A snapshot says the track plays exactly when the player's play status is
/// `playing`, and its rate is 1 while playing and 0 otherwise: a paused track's
/// position stands still.
pub proof fn law_snapshot_rate_follows_play_status(v: CdpView, now_ms: i64, now_epoch_ms: i64)
    ensures
        spec_snapshot(v, now_ms, now_epoch_ms) matches Some(p) ==> {
            &&& v.latest matches Some((_, info))
            &&& p.is_playing == (info.play_status == "playing"@)
            &&& p.rate == (if p.is_playing {
                ClockRate { num: 1, den: 1 }
            } else {
                ClockRate { num: 0, den: 1 }
            })
        },
{
    reveal_strlit("playing");
    assert("playing"@ =~= seq!['p', 'l', 'a', 'y', 'i', 'n', 'g']);
}

/// A source whose session is gone is no source.
pub proof fn law_offline_is_no_source(v: CdpView, now_ms: i64, now_epoch_ms: i64)
    ensures
        spec_snapshot(offline(v), now_ms, now_epoch_ms) is None,
{
}

/// Whenever the worker ends a session (a failed read, or switched off while connected),
/// the source is left offline and the island refreshes.
pub proof fn law_session_end_goes_offline(v: CdpView, ev: CdpEventView, now_ms: i64)
    requires
        ev matches CdpEventView::Read(None) || (!v.enabled && !(ev is Read)),
    ensures
        ({
            let (w, p, a, refreshes) = spec_worker_step(v, CdpPhase::Online, ev, now_ms);
            &&& !w.connected
            &&& w.latest is None
            &&& refreshes == 1
            &&& p == CdpPhase::Offline
        }),
{
}

/// A switched-off worker leaves the player alone: whatever its phase and the last
/// outcome, its next action is a pause (it neither connects nor reads).
pub proof fn law_switched_off_never_connects(v: CdpView, phase: CdpPhase, ev: CdpEventView, now_ms: i64)
    requires
        !v.enabled,
    ensures
        spec_worker_step(v, phase, ev, now_ms).2 is Sleep,
{
}

} // verus!

verus! {

/// What a DevTools message means for the evaluation with request id `id`: `None` when
/// it answers something else; an error when the script threw (`result.exceptionDetails`);
/// otherwise the string the script resolved to (`result.result.value`, empty when it
/// is not a string).
pub open spec fn spec_evaluate_reply(msg: Json, id: i64) -> Option<Result<Seq<char>, ()>> {
    if i64_of(field(msg, "id"@)) != Some(id) {
        None
    } else if field_of(field(msg, "result"@), "exceptionDetails"@) is Some {
        Some(Err(()))
    } else {
        Some(Ok(str_or_empty(field_of(field_of(field(msg, "result"@), "result"@), "value"@))))
    }
}

/// Reads a DevTools message as the reply to evaluation `id`.
pub fn evaluate_reply(msg: &Json, id: i64) -> (r: Option<Result<String, ()>>)
    ensures
        match (r, spec_evaluate_reply(*msg, id)) {
            (None, None) => true,
            (Some(Err(_)), Some(Err(_))) => true,
            (Some(Ok(s)), Some(Ok(t))) => s@ == t,
            _ => false,
        },
{
    let mine = match msg.get("id") {
        Some(v) => match v.as_i64() {
            Some(x) => x == id,
            None => false,
        },
        None => false,
    };
    if !mine {
        return None;
    }
    let result = msg.get("result");
    let thrown = match result {
        Some(r) => r.get("exceptionDetails").is_some(),
        None => false,
    };
    if thrown {
        return Some(Err(()));
    }
    let value = match result {
        Some(r) => match r.get("result") {
            Some(inner) => match inner.get("value") {
                Some(v) => match v.as_str() {
                    Some(s) => s.to_owned(),
                    None => String::new(),
                },
                None => String::new(),
            },
            None => String::new(),
        },
        None => String::new(),
    };
    Some(Ok(value))
}

/// Reads the text of a DevTools message as the reply to evaluation `id`; `None` when
/// the text is not JSON, as for a reply to something else.
pub fn evaluate_reply_text(text: &str, id: i64) -> (r: Option<Result<String, ()>>)
    ensures
        json_text(text@) is None ==> r is None,
        json_text(text@) matches Some(msg) ==> match (r, spec_evaluate_reply(msg, id)) {
            (None, None) => true,
            (Some(Err(_)), Some(Err(_))) => true,
            (Some(Ok(s)), Some(Ok(t))) => s@ == t,
            _ => false,
        },
{
    match parse_json(text) {
        Some(msg) => evaluate_reply(&msg, id),
        None => None,
    }
}

} // verus!
