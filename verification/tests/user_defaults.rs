use hbb_common::keys;
use hbb_common::options::Settings;
use hbb_common::user_defaults::UserDefaultConfig;

#[test]
fn lan_user_defaults_favor_full_quality_and_sixty_fps() {
    let cfg = UserDefaultConfig::default();
    let settings = Settings::new();

    assert_eq!(cfg.get(&settings, keys::OPTION_IMAGE_QUALITY, false, None), "custom");
    assert_eq!(cfg.get(&settings, keys::OPTION_CUSTOM_IMAGE_QUALITY, false, None), "100");
    assert_eq!(cfg.get(&settings, keys::OPTION_CUSTOM_FPS, false, None), "60");
}

fn with(key: &str, value: &str) -> UserDefaultConfig {
    let mut cfg = UserDefaultConfig::default();
    cfg.options.insert(key.to_owned(), value.to_owned());
    cfg
}

#[test]
fn choices_are_limited() {
    let settings = Settings::new();
    let read = |key: &str, value: &str| with(key, value).get(&settings, key, false, None);
    assert_eq!(read("view_style", "adaptive"), "adaptive");
    assert_eq!(read("view_style", "sideways"), "original");
    assert_eq!(with("view_style", "sideways").get(&settings, "view_style", true, None), "adaptive");
    assert_eq!(with("view_style", "original").get(&settings, "view_style", true, None), "original");
    assert_eq!(read("scroll_style", "scrollbar"), "scrollbar");
    assert_eq!(read("scroll_style", "x"), "scrollauto");
    assert_eq!(read("image_quality", "low"), "low");
    assert_eq!(read("codec-preference", "av1"), "av1");
    assert_eq!(read("codec-preference", "h266"), "auto");
    assert_eq!(read("enable-file-copy-paste", ""), "");
    assert_eq!(read("enable-file-copy-paste", "N"), "N");
    assert_eq!(read("enable-file-copy-paste", "x"), "Y");
    assert_eq!(read("anything", "x"), "x");
}

#[test]
fn numbers_are_within_bounds() {
    let settings = Settings::new();
    let read = |key: &str, value: &str| with(key, value).get(&settings, key, false, None);
    assert_eq!(read("trackpad-speed", "10"), "10");
    assert_eq!(read("trackpad-speed", "1000"), "1000");
    assert_eq!(read("trackpad-speed", "+0500"), "500");
    assert_eq!(read("trackpad-speed", "9"), "100");
    assert_eq!(read("trackpad-speed", "1001"), "100");
    assert_eq!(read("trackpad-speed", "-50"), "100");
    assert_eq!(read("trackpad-speed", "5e1"), "100");
    assert_eq!(read("trackpad-speed", "99999999999"), "100");
    assert_eq!(read("trackpad-speed", ""), "100");
    assert_eq!(read("edge-scroll-edge-thickness", "20"), "20");
    assert_eq!(read("edge-scroll-edge-thickness", "151"), "100");
    assert_eq!(UserDefaultConfig::fraction_bounds("custom-fps"), Some((60, 5, 120)));
    assert_eq!(
        UserDefaultConfig::fraction_bounds("custom_image_quality"),
        Some((100, 10, 4095))
    );
    assert_eq!(UserDefaultConfig::fraction_bounds("trackpad-speed"), None);
    let fps = with("custom-fps", "29.97");
    assert_eq!(fps.get(&settings, "custom-fps", false, Some("29.97".to_owned())), "29.97");
}

#[test]
fn defaults_are_set_and_read_back() {
    let mut settings = Settings::new();
    settings.default_display_settings.insert("d".to_owned(), "1".to_owned());
    settings.overwrite_display_settings.insert("o".to_owned(), "2".to_owned());
    let mut cfg = UserDefaultConfig::default();
    assert!(cfg.set(&settings, "x".to_owned(), "v".to_owned()));
    assert!(cfg.set(&settings, "x".to_owned(), "v".to_owned()));
    assert_eq!(cfg.get_after(&settings, "x"), Some("v".to_owned()));
    assert!(cfg.set(&settings, "x".to_owned(), String::new()));
    assert_eq!(cfg.get_after(&settings, "x"), None);
    assert!(!cfg.set(&settings, "d".to_owned(), "1".to_owned()));
    assert!(cfg.set(&settings, "d".to_owned(), "3".to_owned()));
    assert!(cfg.set(&settings, "d".to_owned(), "1".to_owned()));
    assert!(!cfg.options.contains_key("d"));
    assert!(!cfg.set(&settings, "o".to_owned(), "9".to_owned()));
    assert_eq!(cfg.get_after(&settings, "o"), Some("2".to_owned()));
}

#[test]
fn defaults_are_read_again_after_a_second() {
    assert!(!UserDefaultConfig::is_stale(1_000_000_000));
    assert!(UserDefaultConfig::is_stale(1_000_000_001));
}
