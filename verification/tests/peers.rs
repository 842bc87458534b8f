use hbb_common::address_book::{can_be_stored, Ab, AbEntry, Group, MAX_STORED_LEN};
use hbb_common::limits::{helper_url, LINK_DOCS_HOME, LINK_DOCS_X11_REQUIRED};
use hbb_common::options::Settings;
use hbb_common::peer_config::{Defaults, OpenedSecrets, PeerConfig, SealedSecrets};
use hbb_common::peer_files::{peer_file_stem, peer_id, PeerFile, BATCH_LOADING_COUNT};
use hbb_common::status::Status;
use hbb_common::storage::Opened;
use hbb_common::text::{i32_text, parse_i32, replace_all, trim};
use hbb_common::user_defaults::UserDefaultConfig;

fn defaults() -> Defaults {
    Defaults {
        user: UserDefaultConfig::default(),
        settings: Settings::new(),
        mobile: false,
        image_quality: None,
        fps: None,
    }
}

fn opened(text: &str, should_store: bool) -> Opened {
    Opened { text: text.to_owned(), decrypted: true, should_store }
}

#[test]
fn a_new_host_is_as_the_user_has_chosen() {
    let config = PeerConfig::new(&defaults());
    assert_eq!(config.view_style, "original");
    assert_eq!(config.scroll_style, "scrollauto");
    assert_eq!(config.image_quality, "custom");
    assert_eq!(config.custom_image_quality, vec![100]);
    assert_eq!(config.edge_scroll_edge_thickness, 100);
    assert_eq!(config.trackpad_speed, 100);
    assert!(config.enable_file_copy_paste.v);
    assert!(!config.view_only.v);
    assert_eq!(config.options.len(), 6);
    assert_eq!(config.options.get("codec-preference").map(String::as_str), Some("auto"));
    assert_eq!(config.options.get("custom-fps").map(String::as_str), Some("60"));
    assert_eq!(config.options.get("zoom-cursor").map(String::as_str), Some(""));
    assert!(!config.is_listed());

    let mut chosen = defaults();
    chosen.mobile = true;
    chosen.image_quality = Some("55.9".to_owned());
    chosen.fps = Some("30".to_owned());
    for (k, v) in [
        ("view_only", "Y"),
        ("show_remote_cursor", "Y"),
        ("sync-init-clipboard", "Y"),
        ("enable-file-copy-paste", "N"),
        ("trackpad-speed", "200"),
        ("i444", "Y"),
    ] {
        chosen.user.options.insert(k.to_owned(), v.to_owned());
    }
    let mut config = PeerConfig::new(&chosen);
    assert_eq!(config.view_style, "adaptive");
    assert_eq!(config.custom_image_quality, vec![55]);
    assert_eq!(config.trackpad_speed, 200);
    assert!(config.view_only.v && config.show_remote_cursor.v && config.sync_init_clipboard.v);
    assert!(!config.enable_file_copy_paste.v && !config.privacy_mode.v);
    assert_eq!(config.options.get("custom-fps").map(String::as_str), Some("30"));
    assert_eq!(config.options.get("i444").map(String::as_str), Some("Y"));
    config.info.platform = "Linux".to_owned();
    assert!(config.is_listed());
}

#[test]
fn values_that_are_read_are_checked() {
    let d = defaults();
    assert_eq!(PeerConfig::deserialize_trackpad_speed(&d, 10), 10);
    assert_eq!(PeerConfig::deserialize_trackpad_speed(&d, 1000), 1000);
    assert_eq!(PeerConfig::deserialize_trackpad_speed(&d, 9), 100);
    assert_eq!(PeerConfig::deserialize_trackpad_speed(&d, 1001), 100);
    assert_eq!(PeerConfig::deserialize_edge_scroll_edge_thickness(&d, 20), 20);
    assert_eq!(PeerConfig::deserialize_edge_scroll_edge_thickness(&d, 151), 100);
    assert_eq!(PeerConfig::deserialize_custom_image_quality(&d, vec![10]), vec![10]);
    assert_eq!(PeerConfig::deserialize_custom_image_quality(&d, vec![4095]), vec![4095]);
    assert_eq!(PeerConfig::deserialize_custom_image_quality(&d, vec![4096]), vec![100]);
    assert_eq!(PeerConfig::deserialize_custom_image_quality(&d, vec![9]), vec![100]);
    assert_eq!(PeerConfig::deserialize_custom_image_quality(&d, vec![]), vec![100]);
    assert_eq!(PeerConfig::deserialize_custom_image_quality(&d, vec![50, 50]), vec![100]);
    let read = |s: Option<&str>| {
        PeerConfig::text_or_default(&d, "view_style", s.map(|s| s.to_owned()))
    };
    assert_eq!(read(Some("x")), "x");
    assert_eq!(read(Some("")), "original");
    assert_eq!(read(None), "original");
}

#[test]
fn secrets_are_sealed_and_opened() {
    let mut config = PeerConfig::new(&defaults());
    config.password = vec![1, 2];
    config.options.insert("rdp_password".to_owned(), "r".to_owned());
    config.options.insert("os-password".to_owned(), "p".to_owned());
    let stored = config.store(SealedSecrets {
        password: vec![9],
        rdp_password: "00r".to_owned(),
        os_username: "00u".to_owned(),
        os_password: "00p".to_owned(),
    });
    assert_eq!(stored.password, vec![9]);
    assert_eq!(stored.options.get("rdp_password").map(String::as_str), Some("00r"));
    assert_eq!(stored.options.get("os-password").map(String::as_str), Some("00p"));
    assert!(!stored.options.contains_key("os-username"));
    let secrets = OpenedSecrets {
        password: vec![1, 2],
        should_store: false,
        rdp_password: opened("r", false),
        os_username: opened("u", true),
        os_password: opened("p", false),
    };
    let (config, store) = PeerConfig::load(Some((stored, secrets)), &defaults());
    assert!(!store);
    assert_eq!(config.password, vec![1, 2]);
    assert_eq!(config.options.get("rdp_password").map(String::as_str), Some("r"));
    assert_eq!(config.options.get("os-password").map(String::as_str), Some("p"));
    assert_eq!(config.options.len(), 8);
    let secrets = OpenedSecrets {
        password: vec![],
        should_store: false,
        rdp_password: opened("r", true),
        os_username: opened("", false),
        os_password: opened("", false),
    };
    let (_, store) = PeerConfig::load(Some((config, secrets)), &defaults());
    assert!(store);
    let (config, store) = PeerConfig::load(None, &defaults());
    assert!(!store);
    assert_eq!(config.view_style, "original");
    assert_eq!(config.options.len(), 6);
}

#[test]
fn ids_that_cannot_be_names_of_files_are_encoded() {
    let path = |id: &str| PeerConfig::path(Some("/c"), id);
    assert_eq!(path("123456789"), "/c/peers/123456789.toml");
    assert_eq!(path("a.b"), "/c/peers/a.b.toml");
    assert_eq!(path("a:b"), "/c/peers/base64_YTpi.toml");
    for c in ['<', '>', ':', '/', '\\', '|', '?', '*'] {
        let id = format!("x\n{c}y");
        assert!(path(&id).starts_with("/c/peers/base64_"));
    }
    assert_eq!(path("x\ny"), "/c/peers/x\ny.toml");
    assert_eq!(path(""), "/c/peers.toml");
    assert_eq!(path("."), "/c/peers.toml");
    assert_eq!(path(".."), "/c/peers/..");
    assert_eq!(PeerConfig::path(None, "123456789"), "");
    assert_eq!(peer_file_stem("a:b", None), "a_b");
    assert_eq!(peer_file_stem("a:b", Some(false)), "a:b");
}

#[test]
fn ids_are_read_back_from_the_names_of_files() {
    for id in ["a:b", "192.168.1.2:21118", "\u{e9}|\u{1f600}", "?", "a/b\\c"] {
        let stem = peer_file_stem(id, Some(true));
        assert!(stem.starts_with("base64_"));
        assert_eq!(peer_id(&stem), id);
    }
    assert_eq!(peer_id("123"), "123");
    assert_eq!(peer_id("base64_"), "base64_");
    assert_eq!(peer_id("base64_%"), "");
    assert_eq!(peer_id("base64_/w=="), "\u{fffd}");
}

fn file(stem: &str, extension: Option<&str>, is_file: bool, modified: i128) -> PeerFile {
    PeerFile {
        stem: stem.to_owned(),
        extension: extension.map(|e| e.to_owned()),
        is_file,
        modified,
    }
}

#[test]
fn hosts_are_listed_from_the_last_file_on() {
    let files = vec![
        file("1", Some("toml"), true, 5),
        file("2", Some("toml"), false, 6),
        file("3", Some("txt"), true, 7),
        file("4", None, true, 8),
        file("base64_YTpi", Some("toml"), true, 9),
        file("6", Some("toml"), true, 7),
    ];
    let all = PeerConfig::get_vec_id_modified_time_path(&files, &None);
    let ids: Vec<&str> = all.iter().map(|e| e.id.as_str()).collect();
    assert_eq!(ids, vec!["a:b", "6", "1"]);
    assert_eq!(all[0].at, 4);
    assert_eq!(all[2].modified, 5);
    let filters = Some(vec!["1".to_owned(), "a:b".to_owned(), "2".to_owned()]);
    let some = PeerConfig::get_vec_id_modified_time_path(&files, &filters);
    let ids: Vec<&str> = some.iter().map(|e| e.id.as_str()).collect();
    assert_eq!(ids, vec!["a:b", "1"]);
    assert!(PeerConfig::get_vec_id_modified_time_path(&files, &Some(vec![])).is_empty());
}

#[test]
fn hosts_are_loaded_in_batches() {
    assert_eq!(BATCH_LOADING_COUNT, 100);
    assert_eq!(PeerConfig::batch_range(250, 0, None), (0, 100, 100));
    assert_eq!(PeerConfig::batch_range(250, 100, None), (100, 200, 200));
    assert_eq!(PeerConfig::batch_range(250, 200, None), (200, 250, 250));
    assert_eq!(PeerConfig::batch_range(250, 250, None), (0, 0, 0));
    assert_eq!(PeerConfig::batch_range(250, 10, Some(5)), (10, 10, 10));
    assert_eq!(PeerConfig::batch_range(250, 10, Some(500)), (10, 250, 250));
    assert_eq!(PeerConfig::batch_range(0, 0, Some(0)), (0, 0, 0));
    assert_eq!(PeerConfig::preload_range(250, 0, 0), Some((0, 100)));
    assert_eq!(PeerConfig::preload_range(250, 100, 9), None);
    assert_eq!(PeerConfig::preload_range(250, 100, 10), Some((100, 200)));
    assert_eq!(PeerConfig::preload_range(250, 250, 10), None);
    assert_eq!(PeerConfig::preload_range(0, 0, 0), None);
}

#[test]
fn values_of_the_status_are_read_back() {
    let mut status = Status::default();
    assert_eq!(status.get("a"), "");
    assert!(!status.set("a", String::new()));
    assert!(status.set("a", "1".to_owned()));
    assert!(!status.set("a", "1".to_owned()));
    assert_eq!(status.get("a"), "1");
    assert!(status.set("a", String::new()));
    assert_eq!(status.values.get("a").map(String::as_str), Some(""));
}

#[test]
fn address_books_have_names_and_limits() {
    let mut entry = AbEntry::default();
    assert!(!entry.personal());
    entry.name = "My address book".to_owned();
    assert!(entry.personal());
    entry.name = "Legacy address book".to_owned();
    assert!(entry.personal());
    entry.name = "my address book".to_owned();
    assert!(!entry.personal());
    assert_eq!(Ab::path("App"), "App_ab");
    assert_eq!(Group::path("App"), "App_group");
    assert!(Group::default().users.is_empty() && Ab::default().ab_entries.is_empty());
    assert_eq!(MAX_STORED_LEN, 64 * 1024 * 1024);
    assert!(can_be_stored(&vec![0; 10]));
    assert!(can_be_stored(&vec![0; MAX_STORED_LEN]));
    assert!(!can_be_stored(&vec![0; MAX_STORED_LEN + 1]));
}

#[test]
fn texts_are_trimmed_and_replaced() {
    assert_eq!(trim(" \t a b \u{3000}\n"), "a b");
    assert_eq!(trim("   "), "");
    assert_eq!(replace_all("aaa", "aa", "b"), "ba");
    assert_eq!(replace_all("a:b:c", ":", "_"), "a_b_c");
    assert_eq!(replace_all("", ":", "_"), "");
    assert_eq!(helper_url("rustdesk docs home"), Some(LINK_DOCS_HOME));
    assert_eq!(helper_url("rustdesk docs x11-required"), Some(LINK_DOCS_X11_REQUIRED));
    assert_eq!(helper_url("x"), None);
}

#[test]
fn white_space_is_what_the_standard_library_counts_as_such() {
    for c in '\0'..=char::MAX {
        let text = c.to_string();
        assert_eq!(trim(&text).is_empty(), c.is_whitespace(), "{c:?}");
    }
    let all = "\u{9}\u{a}\u{b}\u{c}\u{d}\u{20}\u{85}\u{a0}\u{1680}\u{2000}\u{200a}\u{2028}\
               \u{2029}\u{202f}\u{205f}\u{3000}";
    assert_eq!(trim(all), "");
    assert_eq!(trim("\u{200b}\u{feff}\u{1f}"), "\u{200b}\u{feff}\u{1f}");
}

#[test]
fn numbers_are_written_and_read_back() {
    for n in [0, 7, -1, 10, -10, 1234567890, i32::MAX, i32::MIN] {
        assert_eq!(i32_text(n), n.to_string());
        assert_eq!(parse_i32(&n.to_string()), Some(n));
    }
    for s in ["", "+", "-", "--1", "+-1", " 1", "1 ", "2147483648", "-2147483649", "1.0", "\u{661}"] {
        assert_eq!(parse_i32(s), s.parse::<i32>().ok());
        assert_eq!(parse_i32(s), None);
    }
    for s in ["+5", "-0", "007"] {
        assert_eq!(parse_i32(s), s.parse::<i32>().ok());
    }
}
