use hbb_common::config::{allow_insecure_tls_fallback, use_ws, Config};
use hbb_common::config2::Config2;
use hbb_common::local_config::LocalConfig;
use hbb_common::options::{
    is_disable_ab, is_disable_account, is_disable_installation, is_disable_settings,
    is_disable_tcp_listen, is_incoming_only, is_lan_only_obsolete_option, is_outgoing_only,
    option2bool, Settings,
};
use hbb_common::text_map::TextMap;
use hbb_common::user_defaults::UserDefaultConfig;

fn put(map: &mut TextMap<String>, k: &str, v: &str) {
    map.insert(k.to_owned(), v.to_owned());
}

#[test]
fn test_overwrite_settings() {
    let mut settings = Settings::new();
    let mut config2 = Config2::default();
    put(&mut settings.default_settings, "b", "a");
    put(&mut settings.default_settings, "c", "a");
    put(&mut config2.options, "a", "b");
    put(&mut config2.options, "b", "b");
    put(&mut settings.overwrite_settings, "b", "c");
    put(&mut settings.overwrite_settings, "c", "f");
    put(&mut settings.overwrite_settings, "d", "c");
    let mut res: TextMap<String> = TextMap::new();
    put(&mut res, "b", "c");
    put(&mut res, "d", "c");
    put(&mut res, "c", "a");
    Config::purify_options(&settings, &mut res);
    assert!(res.len() == 0);
    put(&mut res, "b", "c");
    put(&mut res, "d", "c");
    put(&mut res, "c", "a");
    put(&mut res, "f", "a");
    Config::purify_options(&settings, &mut res);
    assert!(res.len() == 1);
    put(&mut res, "b", "c");
    put(&mut res, "d", "c");
    put(&mut res, "c", "a");
    put(&mut res, "f", "a");
    put(&mut res, "e", "d");
    Config::purify_options(&settings, &mut res);
    assert!(res.len() == 2);
    put(&mut res, "b", "c");
    put(&mut res, "d", "c");
    put(&mut res, "c", "a");
    put(&mut res, "f", "a");
    put(&mut res, "c", "d");
    put(&mut res, "d", "cc");
    Config::purify_options(&settings, &mut res);
    put(&mut settings.default_settings, "f", "c");
    Config::purify_options(&settings, &mut res);
    assert!(res.len() == 2);
    put(&mut settings.default_settings, "f", "a");
    Config::purify_options(&settings, &mut res);
    assert!(res.len() == 1);
    let res = Config::get_options(&settings, &config2);
    assert!(res.get("a").unwrap() == "b");
    assert!(res.get("c").unwrap() == "f");
    assert!(res.get("b").unwrap() == "c");
    assert!(res.get("d").unwrap() == "c");
    assert!(Config::get_option(&settings, &config2, "a") == "b");
    assert!(Config::get_option(&settings, &config2, "c") == "f");
    assert!(Config::get_option(&settings, &config2, "b") == "c");
    assert!(Config::get_option(&settings, &config2, "d") == "c");
    settings.default_settings.clear();
    settings.overwrite_settings.clear();
    config2.options.clear();

    let mut local = LocalConfig::default();
    put(&mut settings.default_local_settings, "b", "a");
    put(&mut settings.default_local_settings, "c", "a");
    put(&mut local.options, "a", "b");
    put(&mut local.options, "b", "b");
    put(&mut settings.overwrite_local_settings, "b", "c");
    put(&mut settings.overwrite_local_settings, "d", "c");
    assert!(local.get_option(&settings, "a") == "b");
    assert!(local.get_option(&settings, "c") == "a");
    assert!(local.get_option(&settings, "b") == "c");
    assert!(local.get_option(&settings, "d") == "c");
    settings.default_local_settings.clear();
    settings.overwrite_local_settings.clear();
    local.options.clear();

    let mut defaults = UserDefaultConfig::default();
    put(&mut settings.default_display_settings, "b", "a");
    put(&mut settings.default_display_settings, "c", "a");
    put(&mut defaults.options, "a", "b");
    put(&mut defaults.options, "b", "b");
    put(&mut settings.overwrite_display_settings, "b", "c");
    put(&mut settings.overwrite_display_settings, "d", "c");
    assert!(defaults.get(&settings, "a", false, None) == "b");
    assert!(defaults.get(&settings, "c", false, None) == "a");
    assert!(defaults.get(&settings, "b", false, None) == "c");
    assert!(defaults.get(&settings, "d", false, None) == "c");
}

#[test]
fn options_are_set_and_read_back() {
    let mut settings = Settings::new();
    let mut config = Config2::default();
    assert!(Config::set_option(&settings, &mut config, "x".to_owned(), "1".to_owned()));
    assert!(!Config::set_option(&settings, &mut config, "x".to_owned(), "1".to_owned()));
    assert_eq!(Config::get_option(&settings, &config, "x"), "1");
    assert!(Config::set_option(&settings, &mut config, "x".to_owned(), String::new()));
    assert!(!Config::set_option(&settings, &mut config, "x".to_owned(), String::new()));
    assert_eq!(Config::get_option(&settings, &config, "x"), "");
    put(&mut settings.default_settings, "y", "d");
    put(&mut config.options, "y", "s");
    assert!(Config::set_option(&settings, &mut config, "y".to_owned(), "d".to_owned()));
    assert!(!config.options.contains_key("y"));
    assert_eq!(Config::get_option(&settings, &config, "y"), "d");
    put(&mut settings.overwrite_settings, "z", "o");
    assert!(!Config::set_option(&settings, &mut config, "z".to_owned(), "n".to_owned()));
    assert_eq!(Config::get_option(&settings, &config, "z"), "o");
    assert_eq!(Config::get_option_from_file(&settings, config, "z"), "o");
}

#[test]
fn obsolete_options_are_neither_kept_nor_read() {
    let mut settings = Settings::new();
    let mut config = Config2::default();
    assert!(is_lan_only_obsolete_option("relay-server"));
    assert!(is_lan_only_obsolete_option("register-device"));
    assert!(!is_lan_only_obsolete_option("relay-servers"));
    put(&mut config.options, "relay-server", "r");
    put(&mut settings.overwrite_settings, "api-server", "a");
    assert_eq!(Config::get_option(&settings, &config, "relay-server"), "");
    assert_eq!(Config::get_option(&settings, &config, "api-server"), "");
    assert!(Config::get_options(&settings, &config).is_empty());
    let set = Config::set_option(
        &settings,
        &mut config,
        "relay-server".to_owned(),
        "s".to_owned(),
    );
    assert!(set);
    assert!(config.options.is_empty());
    let mut all: TextMap<String> = TextMap::new();
    put(&mut all, "key", "k");
    put(&mut all, "x", "1");
    assert!(Config::set_options(&settings, &mut config, all));
    assert_eq!(config.options.len(), 1);
    let mut all: TextMap<String> = TextMap::new();
    put(&mut all, "x", "1");
    assert!(!Config::set_options(&settings, &mut config, all));
}

#[test]
fn switches_are_on_or_off_by_default() {
    assert!(option2bool("enable-audio", ""));
    assert!(!option2bool("enable-audio", "N"));
    assert!(!option2bool("allow-x", ""));
    assert!(option2bool("allow-x", "Y"));
    assert!(!option2bool("stop-service", ""));
    assert!(!option2bool("direct-server", "y"));
    assert!(option2bool("force-always-relay", "Y"));
    assert!(option2bool("other", "Y"));
    assert!(option2bool("other", ""));
    assert!(!option2bool("other", "N"));
}

#[test]
fn websocket_is_never_used() {
    let mut settings = Settings::new();
    let mut config = Config2::default();
    put(&mut settings.overwrite_settings, "allow-websocket", "Y");
    put(&mut config.options, "allow-websocket", "Y");
    assert!(!use_ws(&settings, &config));
    assert!(!allow_insecure_tls_fallback(&settings, &config));
    put(&mut config.options, "allow-insecure-tls-fallback", "Y");
    assert!(allow_insecure_tls_fallback(&settings, &config));
    assert!(Config::get_bool_option(&settings, &config, "enable-audio"));
}

#[test]
fn builds_can_disable_things() {
    let mut settings = Settings::new();
    assert!(!is_incoming_only(&settings) && !is_outgoing_only(&settings));
    put(&mut settings.hard_settings, "conn-type", "incoming");
    assert!(is_incoming_only(&settings) && !is_outgoing_only(&settings));
    put(&mut settings.hard_settings, "conn-type", "outgoing");
    assert!(!is_incoming_only(&settings) && is_outgoing_only(&settings));
    assert!(!is_disable_tcp_listen(&settings));
    put(&mut settings.hard_settings, "disable-tcp-listen", "Y");
    assert!(is_disable_tcp_listen(&settings));
    put(&mut settings.hard_settings, "disable-settings", "N");
    assert!(!is_disable_settings(&settings));
    put(&mut settings.hard_settings, "disable-settings", "Y");
    assert!(is_disable_settings(&settings));
    put(&mut settings.hard_settings, "disable-ab", "Y");
    assert!(is_disable_ab(&settings));
    put(&mut settings.hard_settings, "disable-account", "Y");
    assert!(is_disable_account(&settings));
    put(&mut settings.hard_settings, "disable-installation", "Y");
    assert!(is_disable_installation(&settings));
    assert!(!Config::no_register_device(&settings));
    put(&mut settings.builtin_settings, "register-device", "N");
    assert!(Config::no_register_device(&settings));
    put(&mut settings.builtin_settings, "disable-change-id", "Y");
    assert!(Config::is_disable_change_id(&settings));
    assert!(!Config::is_disable_change_permanent_password(&settings));
}

#[test]
fn the_pin_can_be_disabled() {
    let mut settings = Settings::new();
    let mut config = Config2::default();
    assert!(Config::set_unlock_pin(&settings, &mut config, "1234"));
    assert!(!Config::set_unlock_pin(&settings, &mut config, "1234"));
    assert_eq!(Config::get_unlock_pin(&settings, &config), "1234");
    put(&mut settings.builtin_settings, "disable-unlock-pin", "Y");
    assert_eq!(Config::get_unlock_pin(&settings, &config), "");
    assert!(!Config::set_unlock_pin(&settings, &mut config, "9"));
    assert_eq!(config.unlock_pin, "1234");
}

#[test]
fn texts_are_kept_under_their_keys() {
    let mut map: TextMap<String> = TextMap::new();
    assert!(map.is_empty());
    put(&mut map, "a", "1");
    put(&mut map, "b", "2");
    put(&mut map, "a", "3");
    assert_eq!(map.len(), 2);
    assert_eq!(map.key_at(0), "a");
    assert_eq!(map.value_at(0), "3");
    let copy = map.copy();
    assert!(copy.same(&map));
    assert!(map.remove("a"));
    assert!(!map.remove("a"));
    assert!(!copy.same(&map));
    map.extend(&copy);
    assert!(copy.same(&map));
}

#[test]
fn setting_an_option_leaves_the_others_alone() {
    let mut settings = Settings::new();
    let mut config = Config2::default();
    put(&mut settings.default_settings, "d", "1");
    put(&mut config.options, "a", "x");
    put(&mut config.options, "b", "y");
    assert!(Config::set_option(&settings, &mut config, "a".to_owned(), "z".to_owned()));
    assert_eq!(Config::get_option(&settings, &config, "b"), "y");
    assert_eq!(Config::get_option(&settings, &config, "d"), "1");
    let all = Config::get_options(&settings, &config);
    assert_eq!(all.len(), 3);
    for k in ["a", "b", "d", "missing"] {
        let value = all.get(k).cloned().unwrap_or_default();
        assert_eq!(Config::get_option(&settings, &config, k), value);
    }
}

#[test]
fn options_that_may_not_be_saved_are_taken_out_once() {
    let mut settings = Settings::new();
    put(&mut settings.default_settings, "d", "1");
    put(&mut settings.overwrite_settings, "o", "2");
    let mut map: TextMap<String> = TextMap::new();
    put(&mut map, "d", "1");
    put(&mut map, "o", "3");
    put(&mut map, "k", "4");
    Config::purify_options(&settings, &mut map);
    let once = map.copy();
    Config::purify_options(&settings, &mut map);
    assert!(map.same(&once));
    assert_eq!(map.len(), 1);
    assert_eq!(map.get("k").map(String::as_str), Some("4"));
}
