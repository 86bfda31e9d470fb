//! What a music source reports about the track it plays.

use vstd::prelude::*;
use crate::music::ClockRate;

verus! {

/// A source's snapshot of the playing track.
#[derive(Debug, Clone)]
pub struct ProviderState {
    pub is_playing: bool,
    pub title: String,
    pub artist: String,
    pub album: Option<String>,
    /// The media session's source id (`KuGou.exe`, `cloudmusic.exe`, ...).
    pub source_app_id: String,
    /// Platform song id; `kugou:<audio hash>` for the KuGou DevTools source.
    pub song_id: Option<String>,
    /// `position_ms` was the position at `anchor_epoch_ms`.
    pub position_ms: i64,
    pub anchor_epoch_ms: i64,
    /// Playback speed to extrapolate with (zero while paused).
    pub rate: ClockRate,
    pub duration_ms: Option<i64>,
    pub seek_supported: bool,
    pub artwork_url: Option<String>,
}

} // verus!

verus! {

/// The characters of an optional string.
pub open spec fn opt_view(o: Option<String>) -> Option<Seq<char>> {
    match o {
        Some(s) => Some(s@),
        None => None,
    }
}

/// A copy of an optional string.
pub fn clone_opt(o: &Option<String>) -> (r: Option<String>)
    ensures
        opt_view(r) == opt_view(*o),
{
    match o {
        Some(s) => Some(s.clone()),
        None => None,
    }
}

/// The abstract value of a [`ProviderState`].
pub struct ProviderView {
    pub is_playing: bool,
    pub title: Seq<char>,
    pub artist: Seq<char>,
    pub album: Option<Seq<char>>,
    pub source_app_id: Seq<char>,
    pub song_id: Option<Seq<char>>,
    pub position_ms: i64,
    pub anchor_epoch_ms: i64,
    pub rate: ClockRate,
    pub duration_ms: Option<i64>,
    pub seek_supported: bool,
    pub artwork_url: Option<Seq<char>>,
}

impl View for ProviderState {
    type V = ProviderView;

    open spec fn view(&self) -> ProviderView {
        ProviderView {
            is_playing: self.is_playing,
            title: self.title@,
            artist: self.artist@,
            album: opt_view(self.album),
            source_app_id: self.source_app_id@,
            song_id: opt_view(self.song_id),
            position_ms: self.position_ms,
            anchor_epoch_ms: self.anchor_epoch_ms,
            rate: self.rate,
            duration_ms: self.duration_ms,
            seek_supported: self.seek_supported,
            artwork_url: opt_view(self.artwork_url),
        }
    }
}

} // verus!
