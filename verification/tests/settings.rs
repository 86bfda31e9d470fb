use island_app::settings::{
    CustomTheme, DiagnosticsToggles, LangPref, MusicConfig, NotificationsConfig, NotificationsPrivacy,
    ThemeId,
};

#[test]
fn defaults_match_the_documented_choices() {
    assert_eq!(ThemeId::default(), ThemeId::Dark);
    assert_eq!(LangPref::default(), LangPref::Auto);
    let c = CustomTheme::default();
    assert!(c.a.is_empty() && c.b.is_empty() && c.accent.is_empty());
    let d = DiagnosticsToggles::default();
    assert!(d.clipboard_poll && d.music_poll && !d.dev_overlay);
    let p = NotificationsPrivacy::default();
    assert!(!p.enabled && p.blur_avatar && p.blur_name && !p.replace_body && p.body_text.is_empty());
    let n = NotificationsConfig::default();
    assert!(!n.enabled && !n.popup && !n.suppress_banner && !n.wechat);
    assert_eq!(n.privacy, NotificationsPrivacy::default());
    let m = MusicConfig::default();
    assert!(m.netease_bridge && m.kugou_support, "网易云增强与酷狗接入默认开启");
    assert!(!m.kugou_enhance, "进程内增强要动播放器的文件，默认关闭");
}
