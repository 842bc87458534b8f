use hbb_common::error::ConfigError;
use hbb_common::local_config::{LanIdentity, LocalConfig, RecentLanEndpoint};
use hbb_common::options::Settings;
use hbb_common::ranking::Ranked;
use hbb_common::text_map::Entry;

#[test]
fn recent_lan_endpoints_follow_stable_fingerprint_when_address_changes() {
    let fingerprint = "a".repeat(64);
    let mut config = LocalConfig::default();
    config.upsert_recent_lan_endpoint(RecentLanEndpoint {
        endpoint: "192.168.1.20:21118".to_owned(),
        username: "operator".to_owned(),
        fingerprint: fingerprint.clone(),
        last_connected_at: 1,
        ..Default::default()
    });
    config.upsert_recent_lan_endpoint(RecentLanEndpoint {
        endpoint: "192.168.1.99:21118".to_owned(),
        username: "operator".to_owned(),
        fingerprint: fingerprint.clone(),
        last_connected_at: 2,
        ..Default::default()
    });

    assert_eq!(config.recent_lan_endpoints.len(), 1);
    assert_eq!(config.remote_id, "192.168.1.99:21118");
    assert_eq!(
        config.recent_lan_endpoints.get(&fingerprint).unwrap().endpoint,
        "192.168.1.99:21118"
    );
}

#[test]
fn recent_lan_endpoints_sort_and_remove_by_endpoint_or_fingerprint() {
    let first_fingerprint = "a".repeat(64);
    let second_fingerprint = "b".repeat(64);
    let mut config = LocalConfig::default();
    for (endpoint, fingerprint, last_connected_at) in [
        ("host-a.lan:21118", first_fingerprint.clone(), 10),
        ("host-b.lan:21118", second_fingerprint.clone(), 20),
    ] {
        config.upsert_recent_lan_endpoint(RecentLanEndpoint {
            endpoint: endpoint.to_owned(),
            fingerprint,
            last_connected_at,
            ..Default::default()
        });
    }

    let sorted = config.sorted_recent_lan_endpoints();
    assert_eq!(sorted[0].endpoint, "host-b.lan:21118");
    config
        .lan_identity_bindings
        .insert(first_fingerprint.clone(), "identity-a".to_owned());
    config
        .lan_identity_bindings
        .insert(second_fingerprint.clone(), "identity-b".to_owned());
    assert!(config.remove_recent_lan_endpoint_entry("host-a.lan:21118"));
    assert!(!config.lan_identity_bindings.contains_key(&first_fingerprint));
    assert!(config.remove_recent_lan_endpoint_entry(&second_fingerprint));
    assert!(config.recent_lan_endpoints.is_empty());
    assert!(config.lan_identity_bindings.is_empty());
}

#[test]
fn lan_identity_binding_overrides_default_and_falls_back_after_removal() {
    let default_id = "11111111-1111-4111-8111-111111111111".to_owned();
    let bound_id = "22222222-2222-4222-8222-222222222222".to_owned();
    let fingerprint = "a".repeat(64);
    let mut config = LocalConfig::default();
    for (id, name) in [
        (default_id.clone(), "Default operators"),
        (bound_id.clone(), "Special operators"),
    ] {
        config.lan_identities.insert(
            id.clone(),
            LanIdentity {
                id,
                name: name.to_owned(),
                username: "operator".to_owned(),
                ..Default::default()
            },
        );
    }
    config.default_lan_identity_id = default_id.clone();

    assert_eq!(config.resolve_lan_identity_entry(&fingerprint), default_id);
    assert!(matches!(
        config.bind_lan_identity_entry(&fingerprint, &bound_id),
        Ok(true)
    ));
    assert_eq!(config.resolve_lan_identity_entry(&fingerprint), bound_id);
    assert!(config.remove_lan_identity_entry(&bound_id));
    assert_eq!(
        config.resolve_lan_identity_entry(&fingerprint),
        config.default_lan_identity_id
    );
    assert!(config.remove_lan_identity_entry(&default_id));
    assert!(config.resolve_lan_identity_entry(&fingerprint).is_empty());
    assert!(config.default_lan_identity_id.is_empty());
    assert!(config.lan_identity_bindings.is_empty());
}

#[test]
fn lan_identity_binding_rejects_invalid_targets() {
    let mut config = LocalConfig::default();
    assert!(config.bind_lan_identity_entry("short", "").is_err());
    assert!(config
        .bind_lan_identity_entry(&"b".repeat(64), "missing")
        .is_err());
}

fn identity(id: &str, name: &str) -> LanIdentity {
    LanIdentity { id: id.to_owned(), name: name.to_owned(), ..Default::default() }
}

#[test]
fn a_host_that_is_recorded_is_cleaned_and_kept_in_lower_case() {
    let mut config = LocalConfig::default();
    let fingerprint = "AbCd".repeat(16);
    let r = config.record_recent_lan_endpoint(
        Ok("10.0.0.2:21118".to_owned()),
        Ok("operator".to_owned()),
        "  host\t",
        "\u{a0}Linux\n",
        &fingerprint,
        42,
    );
    assert!(r.is_ok());
    let lower = "abcd".repeat(16);
    let kept = config.recent_lan_endpoints.get(&lower).unwrap();
    assert_eq!(
        *kept,
        RecentLanEndpoint {
            endpoint: "10.0.0.2:21118".to_owned(),
            username: "operator".to_owned(),
            hostname: "host".to_owned(),
            platform: "Linux".to_owned(),
            fingerprint: lower.clone(),
            last_connected_at: 42,
        }
    );
    assert!(kept.same(&kept.clone()));
    assert_eq!(config.get_remote_id(), "10.0.0.2:21118");
    assert!(config.remove_recent_lan_endpoint(&fingerprint));
    assert!(config.recent_lan_endpoints.is_empty());
    assert!(!config.remove_recent_lan_endpoint(&fingerprint));
}

#[test]
fn a_host_that_is_refused_is_not_recorded() {
    let mut config = LocalConfig::default();
    let fingerprint = "a".repeat(64);
    let r = config.record_recent_lan_endpoint(
        Err(ConfigError::Rejected("no port".to_owned())),
        Err(ConfigError::Rejected("no name".to_owned())),
        "",
        "",
        "short",
        1,
    );
    assert!(matches!(r, Err(ConfigError::Rejected(reason)) if reason == "no port"));
    let r = config.record_recent_lan_endpoint(
        Ok("e".to_owned()),
        Err(ConfigError::Rejected("no name".to_owned())),
        "",
        "",
        "short",
        1,
    );
    assert!(matches!(r, Err(ConfigError::Rejected(reason)) if reason == "no name"));
    for bad in ["short", &"g".repeat(64), &"a".repeat(65), &"\u{e9}".repeat(32)] {
        let r = config.record_recent_lan_endpoint(
            Ok("e".to_owned()),
            Ok("u".to_owned()),
            "",
            "",
            bad,
            1,
        );
        assert!(matches!(r, Err(ConfigError::InvalidFingerprint)));
    }
    assert!(config.recent_lan_endpoints.is_empty());
    assert!(config.remote_id.is_empty());
    assert!(config
        .record_recent_lan_endpoint(
            Ok("e".to_owned()),
            Ok("u".to_owned()),
            "",
            "",
            &fingerprint,
            1
        )
        .is_ok());
}

#[test]
fn hosts_are_listed_from_the_last_one_on() {
    let mut config = LocalConfig::default();
    for (at, name) in [(5, "b"), (9, "a"), (1, "c"), (7, "d")] {
        config.upsert_recent_lan_endpoint(RecentLanEndpoint {
            endpoint: name.to_owned(),
            fingerprint: name.repeat(64),
            last_connected_at: at,
            ..Default::default()
        });
    }
    let times: Vec<i64> =
        config.get_recent_lan_endpoints().iter().map(|r| r.last_connected_at).collect();
    assert_eq!(times, vec![9, 7, 5, 1]);
    config.set_fav(vec!["x".to_owned()]);
    let (fav, recent) = config.load_fav_with_recent_lan_endpoints();
    assert_eq!(fav, vec!["x".to_owned()]);
    assert_eq!(recent[3].endpoint, "c");
}

#[test]
fn identities_are_listed_by_name_and_then_by_id() {
    let mut config = LocalConfig::default();
    config.store_lan_identity(identity("2", "alpha"));
    config.store_lan_identity(identity("1", "ALPHA"));
    config.store_lan_identity(identity("3", "Beta"));
    config.store_lan_identity(identity("4", "\u{c4}rger"));
    config.store_lan_identity(identity("0", "\u{e4}rger"));
    let ids: Vec<String> = config.get_lan_identities().iter().map(|i| i.id.clone()).collect();
    assert_eq!(ids, vec!["1", "2", "3", "0", "4"]);
    assert!(identity("1", "a").is_ahead(&identity("2", "A")));
    assert!(!identity("2", "a").is_ahead(&identity("1", "A")));
    assert_eq!(config.get_lan_identity("3").unwrap().name, "Beta");
    assert!(config.get_lan_identity("9").is_none());
}

#[test]
fn names_of_identities_are_taken_in_whatever_case() {
    let mut config = LocalConfig::default();
    assert!(!config.lan_identity_name_exists("Ops", None));
    config.store_lan_identity(identity("1", "Ops"));
    assert!(config.lan_identity_name_exists("oPS", None));
    assert!(config.lan_identity_name_exists("ops", Some("2")));
    assert!(!config.lan_identity_name_exists("ops", Some("1")));
    assert!(!config.lan_identity_name_exists("other", None));
}

#[test]
fn the_default_identity_exists_or_is_none() {
    let mut config = LocalConfig::default();
    assert!(matches!(
        config.set_default_lan_identity_id("1"),
        Err(ConfigError::UnknownIdentity)
    ));
    config.store_lan_identity(identity("1", "Ops"));
    assert!(matches!(config.set_default_lan_identity_id("1"), Ok(true)));
    assert!(matches!(config.set_default_lan_identity_id("1"), Ok(false)));
    assert_eq!(config.get_default_lan_identity_id(), "1");
    assert!(config.remove_lan_identity("1"));
    assert!(!config.remove_lan_identity("1"));
    assert_eq!(config.get_default_lan_identity_id(), "");
    assert!(matches!(config.set_default_lan_identity_id(""), Ok(false)));
}

#[test]
fn a_binding_is_found_in_whatever_case_and_can_be_taken_back() {
    let mut config = LocalConfig::default();
    config.store_lan_identity(identity("1", "Ops"));
    let upper = "AB".repeat(32);
    let lower = "ab".repeat(32);
    assert!(matches!(
        config.bind_lan_identity("xyz", "1"),
        Err(ConfigError::InvalidFingerprint)
    ));
    assert!(matches!(
        config.bind_lan_identity(&upper, "2"),
        Err(ConfigError::UnknownIdentity)
    ));
    assert!(matches!(config.bind_lan_identity(&upper, "1"), Ok(true)));
    assert!(matches!(config.bind_lan_identity(&lower, "1"), Ok(false)));
    assert_eq!(config.get_bound_lan_identity_id(&lower), "1");
    assert_eq!(config.resolve_lan_identity_id(&upper), "1");
    assert!(matches!(config.bind_lan_identity(&upper, ""), Ok(true)));
    assert!(matches!(config.bind_lan_identity(&upper, ""), Ok(false)));
    assert_eq!(config.get_bound_lan_identity_id(&lower), "");
    assert_eq!(config.resolve_lan_identity_id(&upper), "");
}

#[test]
fn a_window_that_is_too_small_is_not_remembered() {
    let mut config = LocalConfig::default();
    assert_eq!(config.get_size(), (0, 0, 0, 0));
    assert!(!config.set_size(1, 2, 299, 300));
    assert!(!config.set_size(1, 2, 300, 299));
    assert!(config.set_size(1, 2, 300, 300));
    assert!(!config.set_size(1, 2, 300, 300));
    assert_eq!(config.get_size(), (1, 2, 300, 300));
}

#[test]
fn simple_values_are_kept() {
    let mut config = LocalConfig::default();
    config.set_kb_layout_type("us".to_owned());
    assert_eq!(config.get_kb_layout_type(), "us");
    assert!(config.set_remote_id("r"));
    assert!(!config.set_remote_id("r"));
    assert_eq!(config.get_remote_id(), "r");
    assert!(config.set_fav(vec!["a".to_owned(), "b".to_owned()]));
    assert!(!config.set_fav(vec!["a".to_owned(), "b".to_owned()]));
    assert_eq!(config.get_fav(), vec!["a".to_owned(), "b".to_owned()]);
}

#[test]
fn local_options_are_read_back() {
    let mut settings = Settings::new();
    settings.default_local_settings.insert("d".to_owned(), "1".to_owned());
    settings.overwrite_local_settings.insert("o".to_owned(), "2".to_owned());
    let mut config = LocalConfig::default();
    assert_eq!(config.get_option(&settings, "d"), "1");
    assert!(config.set_option(&settings, "d".to_owned(), "3".to_owned()));
    assert_eq!(config.get_option(&settings, "d"), "3");
    assert!(!config.set_option(&settings, "d".to_owned(), "3".to_owned()));
    assert!(config.set_option(&settings, "d".to_owned(), "1".to_owned()));
    assert!(!config.options.contains_key("d"));
    assert!(!config.set_option(&settings, "o".to_owned(), "9".to_owned()));
    assert_eq!(config.get_option(&settings, "o"), "2");
    assert!(config.set_option(&settings, "lang".to_owned(), "default".to_owned()));
    assert!(config.set_option(&settings, "lang".to_owned(), "default".to_owned()));
    assert_eq!(config.options.get("lang").map(String::as_str), Some(""));
    assert!(config.set_option(&settings, "lang".to_owned(), String::new()));
    assert!(!config.options.contains_key("lang"));
    assert!(config.get_bool_option(&settings, "anything"));
    assert!(config.set_option(&settings, "anything".to_owned(), "N".to_owned()));
    assert!(!config.get_bool_option(&settings, "anything"));
    assert!(config.set_flutter_option("d".to_owned(), "7".to_owned()));
    assert!(!config.set_flutter_option("d".to_owned(), "7".to_owned()));
    assert_eq!(config.get_flutter_option(&settings, "d"), "7");
    assert!(config.set_flutter_option("d".to_owned(), String::new()));
    assert_eq!(config.get_flutter_option(&settings, "d"), "1");
    assert_eq!(LocalConfig::get_option_from_file(config, &settings, "anything"), "N");
}
