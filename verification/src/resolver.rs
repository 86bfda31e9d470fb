//! Completion of a source's raw state into a displayable track (details, lyrics,
//! cover), with one cache slot per resource keyed by track identity.

use vstd::prelude::*;
use crate::kugou::{is_source, spec_is_source};
use crate::kugou_cdp::kugou_song_prefix;
use crate::lyrics::{copy_lyrics, LyricsData, LyricsView, TrackMeta};
use crate::provider::{clone_opt, opt_view, ProviderState, ProviderView};
use crate::b64::{encode, encoded};
use crate::text::{chars_of, concat_chars, join3, same_text, slice_chars, starts_with_chars, string_of};

verus! {

/// What the details slot fetches: by platform song id (NetEase bridge), or for KuGou
/// (no song id) by title and artist.
#[derive(Debug, PartialEq, Eq)]
pub enum MetaTask {
    SongId(String),
    Kugou { title: String, artist: String },
}

/// The abstract value of a [`MetaTask`].
pub enum MetaTaskView {
    SongId(Seq<char>),
    Kugou(Seq<char>, Seq<char>),
}

impl View for MetaTask {
    type V = MetaTaskView;

    open spec fn view(&self) -> MetaTaskView {
        match self {
            MetaTask::SongId(id) => MetaTaskView::SongId(id@),
            MetaTask::Kugou { title, artist } => MetaTaskView::Kugou(title@, artist@),
        }
    }
}

/// The unit separator used inside the KuGou details key.
pub open spec fn unit_sep() -> char {
    '\u{1f}'
}

/// The details fetch for a track and its cache key (the key is identity only, never
/// parsed): a song id that is not a KuGou hash fetches by id, keyed by the id; a KuGou
/// track without song id and with a title fetches by title and artist, keyed in its own
/// namespace; anything else (DevTools hashes already carry details, other sources' titles
/// are often page titles) fetches nothing.
pub open spec fn spec_meta_task(
    song_id: Option<Seq<char>>,
    source_app_id: Seq<char>,
    title: Seq<char>,
    artist: Seq<char>,
) -> Option<(Seq<char>, MetaTaskView)> {
    match song_id {
        None => if spec_is_source(source_app_id) && title.len() > 0 {
            Some(
                (
                    seq!['k', 'u', 'g', 'o', 'u', unit_sep()] + title + seq![unit_sep()] + artist,
                    MetaTaskView::Kugou(title, artist),
                ),
            )
        } else {
            None
        },
        Some(id) => if kugou_song_prefix().is_prefix_of(id) {
            None
        } else {
            Some((id, MetaTaskView::SongId(id)))
        },
    }
}

fn kugou_prefix_chars() -> (r: Vec<char>)
    ensures
        r@ == kugou_song_prefix(),
{
    let mut p: Vec<char> = Vec::new();
    p.push('k');
    p.push('u');
    p.push('g');
    p.push('o');
    p.push('u');
    p.push(':');
    proof {
        assert(p@ =~= kugou_song_prefix());
    }
    p
}

/// Whether a song id is a KuGou audio hash (`kugou:<hash>`).
pub fn is_kugou_song_id(id: &str) -> (r: bool)
    ensures
        r == kugou_song_prefix().is_prefix_of(id@),
{
    starts_with_chars(&chars_of(id), &kugou_prefix_chars())
}

/// The details fetch and its cache key for a track.
pub fn meta_task_for(song_id: Option<&str>, source_app_id: &str, title: &str, artist: &str) -> (r: Option<
    (String, MetaTask),
>)
    ensures
        r matches Some(p) ==> spec_meta_task(
            match song_id {
                Some(s) => Some(s@),
                None => None,
            },
            source_app_id@,
            title@,
            artist@,
        ) == Some((p.0@, p.1@)),
        r is None ==> spec_meta_task(
            match song_id {
                Some(s) => Some(s@),
                None => None,
            },
            source_app_id@,
            title@,
            artist@,
        ) is None,
{
    match song_id {
        None => {
            if is_source(source_app_id) && !title.is_empty() {
                let mut k: Vec<char> = Vec::new();
                k.push('k');
                k.push('u');
                k.push('g');
                k.push('o');
                k.push('u');
                k.push('\u{1f}');
                let mut with_title = concat_chars(&k, &chars_of(title));
                with_title.push('\u{1f}');
                let key = concat_chars(&with_title, &chars_of(artist));
                proof {
                    assert(key@ =~= seq!['k', 'u', 'g', 'o', 'u', unit_sep()] + title@ + seq![
                        unit_sep(),
                    ] + artist@);
                }
                Some(
                    (
                        string_of(&key),
                        MetaTask::Kugou { title: title.to_owned(), artist: artist.to_owned() },
                    ),
                )
            } else {
                None
            }
        },
        Some(id) => {
            if is_kugou_song_id(id) {
                None
            } else {
                Some((id.to_owned(), MetaTask::SongId(id.to_owned())))
            }
        },
    }
}

/// One resource's cache: the key last decided on (also the track-change watermark),
/// the value with the key it was fetched for, and the key being fetched.
#[derive(Debug)]
pub struct Slot<T> {
    pub key: String,
    pub value: Option<(String, T)>,
    pub fetching: Option<String>,
}

/// The value cached for `key`, if the cached value was fetched for that key.
pub open spec fn slot_get<T>(value: Option<(String, T)>, key: Seq<char>) -> Option<T> {
    match value {
        Some((k, v)) => if k@ == key {
            Some(v)
        } else {
            None
        },
        None => None,
    }
}

impl<T> Slot<T> {
    /// An empty slot.
    pub fn new() -> (r: Self)
        ensures
            r.key@.len() == 0,
            r.value is None,
            r.fetching is None,
    {
        Slot { key: String::new(), value: None, fetching: None }
    }

    /// The cached value, only when it was fetched for `key` (after a track change the
    /// old value is never returned).
    pub fn get(&self, key: &str) -> (r: Option<&T>)
        ensures
            r matches Some(v) ==> slot_get(self.value, key@) == Some(*v),
            r is None ==> slot_get(self.value, key@) is None,
    {
        match &self.value {
            Some((k, v)) => {
                if same_text(k.as_str(), key) {
                    Some(v)
                } else {
                    None
                }
            },
            None => None,
        }
    }

    /// Starts fetching `key` unless it is already being fetched; returns whether it
    /// started.
    pub fn begin(&mut self, key: &str) -> (started: bool)
        ensures
            started == !(old(self).fetching matches Some(f) && f@ == key@),
            final(self).key == old(self).key,
            final(self).value == old(self).value,
            started ==> (final(self).fetching matches Some(f) && f@ == key@),
            !started ==> final(self).fetching == old(self).fetching,
    {
        let already = match &self.fetching {
            Some(f) => same_text(f.as_str(), key),
            None => false,
        };
        if already {
            return false;
        }
        self.fetching = Some(key.to_owned());
        true
    }

    /// Gives up a fetch of `key` that could not start: the slot no longer counts it as
    /// in flight.
    pub fn abandon(&mut self, key: &str)
        ensures
            final(self).key == old(self).key,
            final(self).value == old(self).value,
            (old(self).fetching matches Some(f) && f@ == key@) ==> final(self).fetching is None,
            !(old(self).fetching matches Some(f) && f@ == key@) ==> final(self).fetching
                == old(self).fetching,
    {
        let mine = match &self.fetching {
            Some(f) => same_text(f.as_str(), key),
            None => false,
        };
        if mine {
            self.fetching = None;
        }
    }

    /// Completes the fetch of `key`: a result for the current key is stored (and the
    /// caller should notify); a failure for the current key clears the key so the next
    /// observation retries; a result for a key no longer current is dropped.
    pub fn finish(&mut self, key: &str, result: Option<T>) -> (notify: bool)
        ensures
            ({
                let current = old(self).key@ == key@;
                &&& notify == (current && result is Some)
                &&& (current && result is Some) ==> (final(self).value matches Some((k, v)) && k@
                    == key@ && Some(v) == result)
                &&& !(current && result is Some) ==> final(self).value == old(self).value
                &&& (current && result is None) ==> final(self).key@.len() == 0
                &&& !(current && result is None) ==> final(self).key == old(self).key
                &&& (old(self).fetching matches Some(f) && f@ == key@) ==> final(self).fetching is None
                &&& !(old(self).fetching matches Some(f) && f@ == key@) ==> final(self).fetching
                    == old(self).fetching
            }),
    {
        let current = same_text(self.key.as_str(), key);
        let mine = match &self.fetching {
            Some(f) => same_text(f.as_str(), key),
            None => false,
        };
        if mine {
            self.fetching = None;
        }
        match result {
            Some(v) => {
                if current {
                    self.value = Some((key.to_owned(), v));
                    true
                } else {
                    false
                }
            },
            None => {
                if current {
                    self.key = String::new();
                }
                false
            },
        }
    }
}

} // verus!

verus! {

/// A cover image fetched from the player: its content hash and a `data:` URL.
#[derive(Debug)]
pub struct Artwork {
    pub hash: String,
    pub data_url: String,
}

/// The displayable track: the source's fields completed from the caches.
#[derive(Debug, Default)]
pub struct Resolved {
    pub title: String,
    pub artist: String,
    pub album: Option<String>,
    pub artwork_url: Option<String>,
    pub artwork_hash: Option<String>,
    pub duration_ms: Option<i64>,
    pub lyrics_id: Option<String>,
}

/// A lyrics fetch to run: cache key, title, artist, song id, source id and duration.
#[derive(Debug)]
pub struct LyricsJob {
    pub key: String,
    pub title: String,
    pub artist: String,
    pub song_id: Option<String>,
    pub source_app_id: String,
    pub duration_ms: Option<i64>,
}

/// The fetches an observation asks to start (each only when its key changed).
#[derive(Debug)]
pub struct Fetches {
    pub meta: Option<(String, MetaTask)>,
    pub lyrics: Option<LyricsJob>,
    pub artwork: Option<String>,
}

/// The caches, one slot per resource.
#[derive(Debug)]
pub struct Resolver {
    pub meta: Slot<TrackMeta>,
    pub lyrics: Slot<LyricsData>,
    pub artwork: Slot<Artwork>,
}

/// The cached details for the source's track, if any.
pub open spec fn cached_meta(r: Resolver, src: ProviderView) -> Option<TrackMeta> {
    match spec_meta_task(src.song_id, src.source_app_id, src.title, src.artist) {
        Some((k, _)) => slot_get(r.meta.value, k),
        None => None,
    }
}

/// The title shown: the source's, or the cached details' when the source has none.
pub open spec fn shown_title(src: ProviderView, m: Option<TrackMeta>) -> Seq<char> {
    match m {
        Some(x) => if src.title.len() == 0 {
            x.title@
        } else {
            src.title
        },
        None => src.title,
    }
}

/// The artist shown: the source's, or the cached details' when the source has none.
pub open spec fn shown_artist(src: ProviderView, m: Option<TrackMeta>) -> Seq<char> {
    match m {
        Some(x) => if src.artist.len() == 0 {
            x.artist@
        } else {
            src.artist
        },
        None => src.artist,
    }
}

/// The album shown: the source's, or the cached details' (when non-empty).
pub open spec fn shown_album(src: ProviderView, m: Option<TrackMeta>) -> Option<Seq<char>> {
    match m {
        Some(x) => if src.album is None && x.album@.len() > 0 {
            Some(x.album@)
        } else {
            src.album
        },
        None => src.album,
    }
}

/// The cover URL from the source or the cached details (before bitmap covers).
pub open spec fn shown_cover(src: ProviderView, m: Option<TrackMeta>) -> Option<Seq<char>> {
    match m {
        Some(x) => if src.artwork_url is None && x.cover_url@.len() > 0 {
            Some(x.cover_url@)
        } else {
            src.artwork_url
        },
        None => src.artwork_url,
    }
}

/// The duration shown: the source's, or the cached details' (when positive).
pub open spec fn shown_duration(src: ProviderView, m: Option<TrackMeta>) -> Option<i64> {
    match m {
        Some(x) => if src.duration_ms is None && x.duration_ms > 0 {
            Some(x.duration_ms)
        } else {
            src.duration_ms
        },
        None => src.duration_ms,
    }
}

/// The track identity `title|artist|source`, from the completed title and artist.
pub open spec fn track_key(title: Seq<char>, artist: Seq<char>, source: Seq<char>) -> Seq<char> {
    title + seq!['|'] + artist + seq!['|'] + source
}

/// The lyrics key: a KuGou hash song id itself, another song id as `163:<id>`, else
/// the track identity.
pub open spec fn lyrics_key(song_id: Option<Seq<char>>, track: Seq<char>) -> Seq<char> {
    match song_id {
        Some(id) => if kugou_song_prefix().is_prefix_of(id) {
            id
        } else {
            seq!['1', '6', '3', ':'] + id
        },
        None => track,
    }
}

/// The abstract value of a [`Resolved`].
pub struct ResolvedView {
    pub title: Seq<char>,
    pub artist: Seq<char>,
    pub album: Option<Seq<char>>,
    pub artwork_url: Option<Seq<char>>,
    pub artwork_hash: Option<Seq<char>>,
    pub duration_ms: Option<i64>,
    pub lyrics_id: Option<Seq<char>>,
}

impl View for Resolved {
    type V = ResolvedView;

    open spec fn view(&self) -> ResolvedView {
        ResolvedView {
            title: self.title@,
            artist: self.artist@,
            album: opt_view(self.album),
            artwork_url: opt_view(self.artwork_url),
            artwork_hash: opt_view(self.artwork_hash),
            duration_ms: self.duration_ms,
            lyrics_id: opt_view(self.lyrics_id),
        }
    }
}

/// The track identity under which a source's track is cached (from the completed title
/// and artist).
pub open spec fn shown_track_key(r: Resolver, s: ProviderView) -> Seq<char> {
    let m = cached_meta(r, s);
    track_key(shown_title(s, m), shown_artist(s, m), s.source_app_id)
}

/// The lyrics key of a source's track.
pub open spec fn shown_lyrics_key(r: Resolver, s: ProviderView) -> Seq<char> {
    lyrics_key(s.song_id, shown_track_key(r, s))
}

/// Whether observing the source re-keys the lyrics slot: the key changed and there is
/// something to search with (a song id or a title).
pub open spec fn rekeys_lyrics(r: Resolver, s: ProviderView) -> bool {
    r.lyrics.key@ != shown_lyrics_key(r, s) && (s.song_id is Some || shown_title(
        s,
        cached_meta(r, s),
    ).len() > 0)
}

/// The displayable track for a source, given the caches: the source's fields completed
/// by the cached details (only where the source leaves them empty); the cached player
/// bitmap cover, when the source offers bitmaps and one is cached for the track,
/// replacing any URL cover; the lyrics id when non-empty lyrics are cached for its key.
pub open spec fn resolved_of(r: Resolver, s: ProviderView, artwork_bitmap: bool) -> ResolvedView {
    let m = cached_meta(r, s);
    let lk = shown_lyrics_key(r, s);
    let bitmap = if artwork_bitmap {
        slot_get(r.artwork.value, shown_track_key(r, s))
    } else {
        None
    };
    ResolvedView {
        title: shown_title(s, m),
        artist: shown_artist(s, m),
        album: shown_album(s, m),
        artwork_url: match bitmap {
            Some(_) => None,
            None => shown_cover(s, m),
        },
        artwork_hash: match bitmap {
            Some(a) => Some(a.hash@),
            None => None,
        },
        duration_ms: shown_duration(s, m),
        lyrics_id: match slot_get(r.lyrics.value, lk) {
            Some(l) => if l.lines@.len() > 0 {
                Some(lk)
            } else {
                None
            },
            None => None,
        },
    }
}

/// The caches after observing a source: only keys move (details key to the source's
/// details key, cover key to the track identity, lyrics key to the lyrics key when it
/// re-keys); cached values and in-flight fetches stay.
pub open spec fn resolver_after(old: Resolver, new: Resolver, s: ProviderView) -> bool {
    &&& new.meta.key@ == meta_key(s)
    &&& new.artwork.key@ == shown_track_key(old, s)
    &&& if rekeys_lyrics(old, s) {
        new.lyrics.key@ == shown_lyrics_key(old, s)
    } else {
        new.lyrics.key == old.lyrics.key
    }
    &&& new.meta.value == old.meta.value
    &&& new.lyrics.value == old.lyrics.value
    &&& new.artwork.value == old.artwork.value
    &&& new.meta.fetching == old.meta.fetching
    &&& new.lyrics.fetching == old.lyrics.fetching
    &&& new.artwork.fetching == old.artwork.fetching
}

/// The fetches an observation starts: details when the details key changed (with the
/// task for it); the player cover when the source offers bitmaps and the track
/// identity changed; lyrics when the lyrics slot re-keys and the track has a song id or
/// its source supports lyrics (with the completed track).
pub open spec fn fetches_of(
    old: Resolver,
    s: ProviderView,
    artwork_bitmap: bool,
    lyrics_supported: bool,
    f: Fetches,
) -> bool {
    let tk = shown_track_key(old, s);
    let shown = resolved_of(old, s, artwork_bitmap);
    &&& match spec_meta_task(s.song_id, s.source_app_id, s.title, s.artist) {
        Some((k, t)) => (f.meta is Some <==> old.meta.key@ != k) && (f.meta matches Some(x) ==> (
        x.0@ == k && x.1@ == t)),
        None => f.meta is None,
    }
    &&& (f.artwork is Some <==> (artwork_bitmap && old.artwork.key@ != tk))
    &&& (f.artwork matches Some(k) ==> k@ == tk)
    &&& (f.lyrics is Some <==> (rekeys_lyrics(old, s) && (s.song_id is Some || lyrics_supported)))
    &&& (f.lyrics matches Some(j) ==> (j.key@ == shown_lyrics_key(old, s) && j.title@ == shown.title
        && j.artist@ == shown.artist && opt_view(j.song_id) == s.song_id && j.source_app_id@
        == s.source_app_id && j.duration_ms == shown.duration_ms))
}

/// The details key of a source's track (empty when no details are fetched for it).
pub open spec fn meta_key(src: ProviderView) -> Seq<char> {
    match spec_meta_task(src.song_id, src.source_app_id, src.title, src.artist) {
        Some((k, _)) => k,
        None => Seq::empty(),
    }
}

/// The track identity of a completed title and artist from a source.
pub fn track_key_text(title: &str, artist: &str, source: &str) -> (r: String)
    ensures
        r@ == track_key(title@, artist@, source@),
{
    let mut v = chars_of(title);
    v.push('|');
    let mut v = concat_chars(&v, &chars_of(artist));
    v.push('|');
    let v = concat_chars(&v, &chars_of(source));
    proof {
        assert(v@ =~= track_key(title@, artist@, source@));
    }
    string_of(&v)
}

/// The lyrics key of a track.
fn lyrics_key_of(song_id: Option<&str>, track: &String) -> (r: String)
    ensures
        r@ == lyrics_key(
            match song_id {
                Some(s) => Some(s@),
                None => None,
            },
            track@,
        ),
{
    match song_id {
        Some(id) => {
            if is_kugou_song_id(id) {
                id.to_owned()
            } else {
                let mut p: Vec<char> = Vec::new();
                p.push('1');
                p.push('6');
                p.push('3');
                p.push(':');
                let v = concat_chars(&p, &chars_of(id));
                proof {
                    assert(v@ =~= seq!['1', '6', '3', ':'] + id@);
                }
                string_of(&v)
            }
        },
        None => track.clone(),
    }
}

impl Resolver {
    /// Empty caches.
    pub fn new() -> (r: Self)
        ensures
            r.meta.key@.len() == 0 && r.meta.value is None && r.meta.fetching is None,
            r.lyrics.key@.len() == 0 && r.lyrics.value is None && r.lyrics.fetching is None,
            r.artwork.key@.len() == 0 && r.artwork.value is None && r.artwork.fetching is None,
    {
        Resolver { meta: Slot::new(), lyrics: Slot::new(), artwork: Slot::new() }
    }

    /// Forgets the current track (no source): every key is cleared, so the next track
    /// fetches afresh; cached values stay but no longer match any key.
    pub fn reset(&mut self)
        ensures
            final(self).meta.key@.len() == 0,
            final(self).lyrics.key@.len() == 0,
            final(self).artwork.key@.len() == 0,
            final(self).meta.value == old(self).meta.value,
            final(self).lyrics.value == old(self).lyrics.value,
            final(self).artwork.value == old(self).artwork.value,
            final(self).meta.fetching == old(self).meta.fetching,
            final(self).lyrics.fetching == old(self).lyrics.fetching,
            final(self).artwork.fetching == old(self).artwork.fetching,
    {
        self.meta.key = String::new();
        self.lyrics.key = String::new();
        self.artwork.key = String::new();
    }

    /// Completes the source's fields from the caches and decides which fetches to start.
    ///
    /// The details fill only what the source leaves empty. Keys follow the completed title,
    /// so a title that arrives late still gets fetched. A player cover bitmap, when the
    /// source has that capability and it is cached for this track, replaces any URL cover.
    /// Lyrics are re-keyed only when there is something to search with, and fetched when
    /// the track has a song id or its source supports lyrics; the lyrics id is shown when
    /// non-empty lyrics are cached for the key. Cached values and in-flight fetches are
    /// untouched: only keys change.
    pub fn observe(&mut self, src: &ProviderState, artwork_bitmap: bool, lyrics_supported: bool) -> (r: (
        Resolved,
        Fetches,
    ))
        ensures
            r.0@ == resolved_of(*old(self), src@, artwork_bitmap),
            resolver_after(*old(self), *final(self), src@),
            fetches_of(*old(self), src@, artwork_bitmap, lyrics_supported, r.1),
    {
        let ghost s = src@;
        let ghost m = cached_meta(*self, s);
        let mut title = src.title.clone();
        let mut artist = src.artist.clone();
        let mut album = clone_opt(&src.album);
        let mut artwork_url = clone_opt(&src.artwork_url);
        let mut duration_ms = src.duration_ms;
        let song_id: Option<&str> = match &src.song_id {
            Some(x) => Some(x.as_str()),
            None => None,
        };
        assert(match song_id {
            Some(x) => Some(x@),
            None => None,
        } == s.song_id);
        let mut fetch_meta: Option<(String, MetaTask)> = None;
        match meta_task_for(song_id, src.source_app_id.as_str(), src.title.as_str(), src.artist.as_str()) {
            Some((key, task)) => {
                if !same_text(key.as_str(), self.meta.key.as_str()) {
                    self.meta.key = key.clone();
                    fetch_meta = Some((key.clone(), task));
                }
                match self.meta.get(key.as_str()) {
                    Some(cm) => {
                        if src.title.as_str().is_empty() {
                            title = cm.title.clone();
                        }
                        if src.artist.as_str().is_empty() {
                            artist = cm.artist.clone();
                        }
                        if src.album.is_none() && !cm.album.as_str().is_empty() {
                            album = Some(cm.album.clone());
                        }
                        if src.artwork_url.is_none() && !cm.cover_url.as_str().is_empty() {
                            artwork_url = Some(cm.cover_url.clone());
                        }
                        if src.duration_ms.is_none() && cm.duration_ms > 0 {
                            duration_ms = Some(cm.duration_ms);
                        }
                    },
                    None => {},
                }
            },
            None => {
                self.meta.key = String::new();
            },
        }
        assert(title@ == shown_title(s, m));
        assert(artist@ == shown_artist(s, m));
        assert(opt_view(album) == shown_album(s, m));
        assert(opt_view(artwork_url) == shown_cover(s, m));
        assert(duration_ms == shown_duration(s, m));

        let tk = track_key_text(title.as_str(), artist.as_str(), src.source_app_id.as_str());
        let lk = lyrics_key_of(song_id, &tk);

        let mut artwork_hash: Option<String> = None;
        let mut fetch_artwork: Option<String> = None;
        if artwork_bitmap {
            if !same_text(tk.as_str(), self.artwork.key.as_str()) {
                self.artwork.key = tk.clone();
                fetch_artwork = Some(tk.clone());
            }
            match self.artwork.get(tk.as_str()) {
                Some(a) => {
                    artwork_hash = Some(a.hash.clone());
                    artwork_url = None;
                },
                None => {},
            }
        } else {
            self.artwork.key = tk.clone();
        }

        let can_fetch = song_id.is_some() || !title.as_str().is_empty();
        let mut fetch_lyrics: Option<LyricsJob> = None;
        if !same_text(lk.as_str(), self.lyrics.key.as_str()) && can_fetch {
            self.lyrics.key = lk.clone();
            if song_id.is_some() || lyrics_supported {
                fetch_lyrics = Some(
                    LyricsJob {
                        key: lk.clone(),
                        title: title.clone(),
                        artist: artist.clone(),
                        song_id: clone_opt(&src.song_id),
                        source_app_id: src.source_app_id.clone(),
                        duration_ms,
                    },
                );
            }
        }
        let lyrics_id = match self.lyrics.get(lk.as_str()) {
            Some(l) => {
                if l.lines.len() > 0 {
                    Some(lk.clone())
                } else {
                    None
                }
            },
            None => None,
        };
        let out = Resolved { title, artist, album, artwork_url, artwork_hash, duration_ms, lyrics_id };
        (out, Fetches { meta: fetch_meta, lyrics: fetch_lyrics, artwork: fetch_artwork })
    }

    /// The current cover as (hash, data URL) when its hash is `hash` (otherwise the
    /// track has changed).
    pub fn artwork(&self, hash: &str) -> (r: Option<(String, String)>)
        ensures
            r matches Some(p) ==> (self.artwork.value matches Some((_, a)) && a.hash@ == hash@
                && p.0@ == a.hash@ && p.1@ == a.data_url@),
            r is None ==> !(self.artwork.value matches Some((_, a)) && a.hash@ == hash@),
    {
        match &self.artwork.value {
            Some((_, a)) => {
                if same_text(a.hash.as_str(), hash) {
                    Some((a.hash.clone(), a.data_url.clone()))
                } else {
                    None
                }
            },
            None => None,
        }
    }

    /// A copy of the lyrics cached for `id` (none when the track has changed).
    pub fn lyrics(&self, id: &str) -> (r: Option<LyricsData>)
        ensures
            r matches Some(d) ==> (slot_get(self.lyrics.value, id@) matches Some(c) && d@ == c@),
            r is None ==> slot_get(self.lyrics.value, id@) is None,
    {
        match self.lyrics.get(id) {
            Some(d) => Some(copy_lyrics(d)),
            None => None,
        }
    }
}

} // verus!

verus! {

/// The image type of cover bytes by their signature (PNG, JPEG, GIF, BMP); unknown
/// bytes count as JPEG.
pub open spec fn spec_sniff_mime(b: Seq<u8>) -> Seq<char> {
    if b.len() >= 2 && b[0] == 0x89 && b[1] == 0x50 {
        "image/png"@
    } else if b.len() >= 2 && b[0] == 0xFF && b[1] == 0xD8 {
        "image/jpeg"@
    } else if b.len() >= 2 && b[0] == 0x47 && b[1] == 0x49 {
        "image/gif"@
    } else if b.len() >= 2 && b[0] == 0x42 && b[1] == 0x4D {
        "image/bmp"@
    } else {
        "image/jpeg"@
    }
}

/// The image type of cover bytes.
pub fn sniff_mime(bytes: &[u8]) -> (r: &'static str)
    ensures
        r@ == spec_sniff_mime(bytes@),
{
    if bytes.len() >= 2 {
        let (b0, b1) = (bytes[0], bytes[1]);
        if b0 == 0x89 && b1 == 0x50 {
            return "image/png";
        } else if b0 == 0xFF && b1 == 0xD8 {
            return "image/jpeg";
        } else if b0 == 0x47 && b1 == 0x49 {
            return "image/gif";
        } else if b0 == 0x42 && b1 == 0x4D {
            return "image/bmp";
        }
    }
    "image/jpeg"
}

/// The `data:` URL of cover bytes: their image type and their base64 encoding.
pub open spec fn spec_data_url(b: Seq<u8>) -> Seq<char> {
    "data:"@ + spec_sniff_mime(b) + ";base64,"@ + encoded(b)
}

/// The cover for the player's bitmap bytes, with their content hash.
pub fn artwork_of(bytes: &[u8], hash: String) -> (r: Artwork)
    ensures
        r.hash@ == hash@,
        r.data_url@ == spec_data_url(bytes@),
{
    let head = join3("data:", sniff_mime(bytes), ";base64,");
    let data_url = join3(head.as_str(), encode(bytes).as_str(), "");
    proof {
        reveal_strlit("");
        assert(data_url@ =~= spec_data_url(bytes@));
    }
    Artwork { hash, data_url }
}

/// How long the cover fetch first waits: the player fills in the cover a little after a
/// track change.
pub const ARTWORK_FIRST_WAIT_MS: u64 = 800;

/// How many times the cover fetch asks the player for the cover.
pub const ARTWORK_ATTEMPTS: u32 = 6;

/// How long the cover fetch waits before retry `attempt` (counted from zero): half a
/// second for the first three, a second after that.
pub fn artwork_retry_delay_ms(attempt: u32) -> (r: u64)
    ensures
        r == (if attempt < 3 {
            500u64
        } else {
            1000u64
        }),
{
    if attempt < 3 {
        500
    } else {
        1000
    }
}

impl Resolver {
    /// Whether the cover slot still wants the cover of `key` (the track has not changed
    /// since the fetch started).
    pub fn artwork_wanted(&self, key: &str) -> (r: bool)
        ensures
            r == (self.artwork.key@ == key@),
    {
        same_text(self.artwork.key.as_str(), key)
    }
}

/// `s` without every leading repetition of `p`.
pub open spec fn strip_prefixes(s: Seq<char>, p: Seq<char>) -> Seq<char>
    decreases s.len(),
{
    if p.len() > 0 && p.is_prefix_of(s) {
        strip_prefixes(s.subrange(p.len() as int, s.len() as int), p)
    } else {
        s
    }
}

/// How a lyrics job fetches.
#[derive(Debug, PartialEq, Eq)]
pub enum LyricsRoute {
    /// KuGou audio hash: the local `.krc` cache, then KuGou's service by hash (duration
    /// in seconds), then the title search.
    ByHash { hash: String, duration_s: i64 },
    /// NetEase song id: its lyrics and details by id, then the title search.
    ById(String),
    /// The title search over the sources for the track's media source.
    ByQuery,
}

/// The route of a lyrics job: a `kugou:` song id goes by its hash (all leading
/// `kugou:` removed) with the duration in whole seconds (missing or negative counts as
/// zero), any other song id by id, and no song id by the title search.
pub open spec fn spec_lyrics_route(song_id: Option<Seq<char>>, duration_ms: Option<i64>) -> (int, Seq<
    char,
>, int) {
    match song_id {
        Some(id) => if kugou_song_prefix().is_prefix_of(id) {
            let d = match duration_ms {
                Some(d) => if d < 0 {
                    0
                } else {
                    d as int
                },
                None => 0,
            };
            (0, strip_prefixes(id, kugou_song_prefix()), d / 1000)
        } else {
            (1, id, 0)
        },
        None => (2, Seq::empty(), 0),
    }
}

/// The abstract value of a route: (kind, key, seconds) with kind 0 by hash, 1 by id,
/// 2 by query.
pub open spec fn route_view(r: LyricsRoute) -> (int, Seq<char>, int) {
    match r {
        LyricsRoute::ByHash { hash, duration_s } => (0, hash@, duration_s as int),
        LyricsRoute::ById(id) => (1, id@, 0),
        LyricsRoute::ByQuery => (2, Seq::empty(), 0),
    }
}

fn strip_prefixes_chars(s: &[char], p: &[char]) -> (r: Vec<char>)
    requires
        p.len() > 0,
    ensures
        r@ == strip_prefixes(s@, p@),
{
    let mut i: usize = 0;
    let n = p.len();
    proof {
        assert(s@.subrange(0, s.len() as int) =~= s@);
    }
    loop
        invariant
            i <= s.len(),
            n == p.len() > 0,
            strip_prefixes(s@, p@) == strip_prefixes(s@.subrange(i as int, s.len() as int), p@),
        ensures
            i <= s.len(),
            !p@.is_prefix_of(s@.subrange(i as int, s.len() as int)),
            strip_prefixes(s@, p@) == strip_prefixes(s@.subrange(i as int, s.len() as int), p@),
        decreases s.len() - i,
    {
        let rest = slice_chars(s, i, s.len());
        if !starts_with_chars(&rest, p) {
            break;
        }
        proof {
            let t = s@.subrange(i as int, s.len() as int);
            assert(t.subrange(n as int, t.len() as int) =~= s@.subrange(i + n, s.len() as int));
        }
        i = i + n;
    }
    slice_chars(s, i, s.len())
}

/// The route of a lyrics job.
pub fn lyrics_route(job: &LyricsJob) -> (r: LyricsRoute)
    ensures
        route_view(r) == spec_lyrics_route(opt_view(job.song_id), job.duration_ms),
{
    match &job.song_id {
        Some(id) => {
            if is_kugou_song_id(id.as_str()) {
                let d: i64 = match job.duration_ms {
                    Some(d) => if d < 0 {
                        0
                    } else {
                        d
                    },
                    None => 0,
                };
                let hash = strip_prefixes_chars(&chars_of(id.as_str()), &kugou_prefix_chars());
                LyricsRoute::ByHash { hash: string_of(&hash), duration_s: d / 1000 }
            } else {
                LyricsRoute::ById(id.clone())
            }
        },
        None => LyricsRoute::ByQuery,
    }
}

} // verus!

verus! {

/// A slot serves a value only under the key it was fetched for.
pub proof fn law_slot_serves_only_its_key<T>(value: Option<(String, T)>, key: Seq<char>)
    ensures
        slot_get(value, key) is Some ==> (value matches Some((k, _)) && k@ == key),
{
}

/// The lyrics id shown always names the shown track's lyrics key, so lyrics of a
/// previous track are never offered for the current one.
pub proof fn law_lyrics_id_names_the_track(r: Resolver, s: ProviderView, artwork_bitmap: bool)
    ensures
        resolved_of(r, s, artwork_bitmap).lyrics_id matches Some(k) ==> (k == shown_lyrics_key(r, s)
            && slot_get(r.lyrics.value, k) is Some),
{
}

/// A cover bitmap is shown only when it was fetched for the shown track.
pub proof fn law_cover_names_the_track(r: Resolver, s: ProviderView, artwork_bitmap: bool)
    ensures
        resolved_of(r, s, artwork_bitmap).artwork_hash is Some ==> (artwork_bitmap && (r.artwork.value matches Some(
            (k, _),
        ) && k@ == shown_track_key(r, s))),
{
}

} // verus!

verus! {

/// A cleared key (after a failed fetch, or a reset) makes the next observation fetch
/// again: the cover when the source offers bitmaps, the details when the track has a
/// details task, and the lyrics when there is a song id, or a title and lyrics support.
pub proof fn law_cleared_key_fetches_again(
    r: Resolver,
    s: ProviderView,
    artwork_bitmap: bool,
    lyrics_supported: bool,
    f: Fetches,
)
    requires
        fetches_of(r, s, artwork_bitmap, lyrics_supported, f),
    ensures
        r.artwork.key@.len() == 0 && artwork_bitmap ==> f.artwork is Some,
        r.meta.key@.len() == 0 && (spec_meta_task(s.song_id, s.source_app_id, s.title, s.artist) matches Some(
            (k, _),
        ) && k.len() > 0) ==> f.meta is Some,
        r.lyrics.key@.len() == 0 && (s.song_id is Some || (shown_title(s, cached_meta(r, s)).len() > 0
            && lyrics_supported)) ==> f.lyrics is Some,
{
    let tk = shown_track_key(r, s);
    assert(tk.len() > 0) by {
        let m = cached_meta(r, s);
        assert(tk == shown_title(s, m) + seq!['|'] + shown_artist(s, m) + seq!['|'] + s.source_app_id);
    }
    let lk = shown_lyrics_key(r, s);
    assert(lk.len() > 0) by {
        match s.song_id {
            Some(id) => if kugou_song_prefix().is_prefix_of(id) {
                assert(id.len() >= 6);
            } else {
                assert(lk == seq!['1', '6', '3', ':'] + id);
            },
            None => {},
        }
    }
    if r.artwork.key@.len() == 0 {
        assert(r.artwork.key@ != tk);
    }
    if r.lyrics.key@.len() == 0 {
        assert(r.lyrics.key@ != lk);
    }
}

} // verus!

verus! {

/// Observing the same track again starts no new fetch: the keys that the first
/// observation set already match.
pub proof fn law_same_track_fetched_once(
    r0: Resolver,
    r1: Resolver,
    s: ProviderView,
    artwork_bitmap: bool,
    lyrics_supported: bool,
    f: Fetches,
)
    requires
        resolver_after(r0, r1, s),
        fetches_of(r1, s, artwork_bitmap, lyrics_supported, f),
    ensures
        f.meta is None,
        f.artwork is None,
        f.lyrics is None,
        resolved_of(r1, s, artwork_bitmap) == resolved_of(r0, s, artwork_bitmap),
{
    assert(cached_meta(r1, s) == cached_meta(r0, s));
}

} // verus!
