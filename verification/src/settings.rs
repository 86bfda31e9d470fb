//! The user settings that the library's logic reads, with their defaults.

use vstd::prelude::*;

verus! {

/// Colour theme.
#[derive(Debug, Clone, Copy, PartialEq, Eq, Structural)]
pub enum ThemeId {
    Dark,
    Light,
    Graphite,
    Cream,
    Pink,
    Cyberpink,
    Aurora,
    Sunset,
    Ocean,
    Mint,
    Custom,
}

impl Default for ThemeId {
    /// The dark theme.
    fn default() -> (r: Self)
        ensures
            r == ThemeId::Dark,
    {
        ThemeId::Dark
    }
}

/// A custom theme: two gradient colours and an accent colour.
#[derive(Debug, Clone, PartialEq, Eq)]
pub struct CustomTheme {
    pub a: String,
    pub b: String,
    pub accent: String,
}

impl Default for CustomTheme {
    /// All three colours empty.
    fn default() -> (r: Self)
        ensures
            r.a@.len() == 0,
            r.b@.len() == 0,
            r.accent@.len() == 0,
    {
        CustomTheme { a: String::new(), b: String::new(), accent: String::new() }
    }
}

/// Language preference.
#[derive(Debug, Clone, Copy, PartialEq, Eq, Structural)]
pub enum LangPref {
    /// Follow the system.
    Auto,
    ZhCn,
    EnUs,
}

impl Default for LangPref {
    /// Follow the system.
    fn default() -> (r: Self)
        ensures
            r == LangPref::Auto,
    {
        LangPref::Auto
    }
}

/// Background subsystems that can be switched off one by one (for troubleshooting).
#[derive(Debug, Clone, Copy, PartialEq, Eq, Structural)]
pub struct DiagnosticsToggles {
    pub clipboard_poll: bool,
    pub music_poll: bool,
    /// Developer mode: the renderer's frame-rate overlay.
    pub dev_overlay: bool,
}

impl Default for DiagnosticsToggles {
    /// Both polls on, the overlay off.
    fn default() -> (r: Self)
        ensures
            r == (DiagnosticsToggles { clipboard_poll: true, music_poll: true, dev_overlay: false }),
    {
        DiagnosticsToggles { clipboard_poll: true, music_poll: true, dev_overlay: false }
    }
}

/// Privacy mode details: which fields the notification card hides.
#[derive(Debug, Clone, PartialEq, Eq)]
pub struct NotificationsPrivacy {
    pub enabled: bool,
    pub blur_avatar: bool,
    pub blur_name: bool,
    pub replace_body: bool,
    /// Replacement text (empty: the built-in one).
    pub body_text: String,
}

impl Default for NotificationsPrivacy {
    /// Off; when switched on it blurs avatar and name and keeps the body.
    fn default() -> (r: Self)
        ensures
            !r.enabled,
            r.blur_avatar,
            r.blur_name,
            !r.replace_body,
            r.body_text@.len() == 0,
    {
        NotificationsPrivacy {
            enabled: false,
            blur_avatar: true,
            blur_name: true,
            replace_body: false,
            body_text: String::new(),
        }
    }
}

/// Notification settings.
#[derive(Debug, Clone, PartialEq, Eq)]
pub struct NotificationsConfig {
    /// Master switch: reading the notification store is privacy sensitive, so it is off
    /// until the user turns it on.
    pub enabled: bool,
    pub popup: bool,
    pub privacy: NotificationsPrivacy,
    /// Take over the system banners (edits the source apps' `ShowBanner` setting).
    pub suppress_banner: bool,
    /// WeChat messages (need a key first).
    pub wechat: bool,
}

impl Default for NotificationsConfig {
    /// Everything off, privacy at its defaults.
    fn default() -> (r: Self)
        ensures
            !r.enabled,
            !r.popup,
            !r.suppress_banner,
            !r.wechat,
            !r.privacy.enabled && r.privacy.blur_avatar && r.privacy.blur_name
                && !r.privacy.replace_body && r.privacy.body_text@.len() == 0,
    {
        NotificationsConfig {
            enabled: false,
            popup: false,
            privacy: NotificationsPrivacy::default(),
            suppress_banner: false,
            wechat: false,
        }
    }
}

/// Music settings.
#[derive(Debug, Clone, Copy, PartialEq, Eq, Structural)]
pub struct MusicConfig {
    /// NetEase in-process bridge.
    pub netease_bridge: bool,
    /// KuGou support (media session, lyrics, cover and duration from KuGou's service).
    pub kugou_support: bool,
    /// KuGou in-process enhancement (patches KuGou's `libcef.dll` to open DevTools for
    /// millisecond progress): it changes KuGou's own files and needs elevation once, so
    /// the user turns it on explicitly.
    pub kugou_enhance: bool,
}

impl Default for MusicConfig {
    /// NetEase bridge and KuGou support on, the KuGou enhancement off.
    fn default() -> (r: Self)
        ensures
            r == (MusicConfig { netease_bridge: true, kugou_support: true, kugou_enhance: false }),
    {
        MusicConfig { netease_bridge: true, kugou_support: true, kugou_enhance: false }
    }
}

} // verus!
