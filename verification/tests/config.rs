use hbb_common::config::{password_of, Config, KeyPair, LAN_SCHEMA_VERSION};
use hbb_common::config2::{Config2, Socks5Server};
use hbb_common::error::ConfigError;
use hbb_common::storage::Opened;

#[test]
fn lan_only_sanitizer_removes_legacy_identity_and_authentication() {
    let mut config = Config {
        id: "123456789".to_owned(),
        enc_id: "legacy-id".to_owned(),
        password: "legacy-password".to_owned(),
        salt: "legacy-salt".to_owned(),
        key_confirmed: true,
        ..Default::default()
    };
    config.keys_confirmed.insert("server".to_owned(), true);
    assert!(config.sanitize_lan_only());
    assert!(config.id.is_empty());
    assert!(config.enc_id.is_empty());
    assert!(config.password.is_empty());
    assert!(config.salt.is_empty());
    assert!(!config.key_confirmed);
    assert!(config.keys_confirmed.is_empty());
    assert_eq!(config.lan_schema_version, LAN_SCHEMA_VERSION);
}

#[test]
fn lan_only_sanitizer_removes_public_network_options() {
    let mut config = Config2 {
        rendezvous_server: "public.example".to_owned(),
        nat_type: 2,
        trusted_devices: "legacy".to_owned(),
        socks: Some(Socks5Server::default()),
        ..Default::default()
    };
    config.options.insert("relay-server".to_owned(), "relay.example".to_owned());
    config.options.insert("view_style".to_owned(), "original".to_owned());
    assert!(config.sanitize_lan_only());
    assert!(config.rendezvous_server.is_empty());
    assert_eq!(config.nat_type, 0);
    assert!(config.trusted_devices.is_empty());
    assert!(config.socks.is_none());
    assert!(!config.options.contains_key("relay-server"));
    assert_eq!(
        config.options.get("view_style").map(String::as_str),
        Some("original")
    );
}

#[test]
fn sanitizing_twice_changes_nothing() {
    let mut config = Config::default();
    config.access_username = "operator".to_owned();
    assert!(config.sanitize_lan_only());
    assert!(!config.sanitize_lan_only());
    assert_eq!(config.access_username, "operator");
    let mut config2 = Config2::default();
    config2.serial = 3;
    config2.options.insert("key".to_owned(), "k".to_owned());
    assert!(config2.sanitize_lan_only());
    assert!(!config2.sanitize_lan_only());
    assert_eq!(config2.serial, 3);
}

#[test]
fn a_configuration_is_taken_over_without_other_modes() {
    let mut config = Config::default();
    let mut other = Config::default();
    other.id = "1".to_owned();
    other.access_username = "u".to_owned();
    assert!(config.set(other));
    assert_eq!(config.id, "");
    assert_eq!(config.access_username, "u");
    let same = config.get();
    assert!(!config.set(same));
    let (loaded, store) = Config::load(config);
    assert!(!store);
    assert!(loaded.same(&loaded.clone()));
    let mut config2 = Config2::default();
    let mut other = Config2::default();
    other.socks = Some(Socks5Server::default());
    assert!(!config2.set(other));
    let mut other = Config2::default();
    other.serial = 1;
    assert!(config2.set(other));
    assert!(!config2.set(config2.get()));
}

#[test]
fn what_is_shown_holds_no_secret() {
    let mut config = Config::default();
    config.access_username = "operator".to_owned();
    config.access_password_hash = "the-hash".to_owned();
    config.salt = "the-salt".to_owned();
    config.password = "the-password".to_owned();
    config.key_pair = (vec![200, 201], vec![202]);
    config.credential_revision = 4;
    config.trusted_lan_endpoints.insert("e".to_owned(), "f".to_owned());
    let shown = format!("{:?}", config.summary());
    assert!(!shown.contains("the-") && !shown.contains("operator") && !shown.contains("200"));
    let summary = config.summary();
    assert!(summary.key_pair_configured && summary.access_username_configured);
    assert!(!summary.key_confirmed);
    assert_eq!(summary.trusted_lan_endpoint_count, 1);
    assert_eq!(summary.credential_revision, 4);
    assert_eq!(summary.lan_schema_version, 0);
    assert!(!config.is_empty());
    assert!(Config::default().is_empty());
}

#[test]
fn confirmed_keys_are_taken_back_together() {
    let mut config = Config::default();
    assert!(!config.get_key_confirmed());
    assert!(config.set_key_confirmed(true));
    assert!(!config.set_key_confirmed(true));
    assert!(config.set_host_key_confirmed("h", true));
    assert!(!config.set_host_key_confirmed("h", true));
    assert!(!config.set_host_key_confirmed("other", false));
    assert!(config.get_host_key_confirmed("h"));
    assert!(config.set_host_key_confirmed("h", false));
    assert!(!config.get_host_key_confirmed("h"));
    assert!(config.set_host_key_confirmed("h", true));
    assert!(config.set_key_confirmed(false));
    assert!(!config.get_host_key_confirmed("h"));
    config.set_id("1");
    config.update_id();
    assert_eq!(config.id, "");
}

#[test]
fn trusted_hosts_are_remembered_and_forgotten() {
    let mut config = Config::default();
    let upper = "AB".repeat(32);
    let lower = "ab".repeat(32);
    let refused = || Err(ConfigError::Rejected("bad endpoint".to_owned()));
    let e = config.trust_lan_fingerprint(refused(), &upper).unwrap_err();
    assert_eq!(e.message(), "bad endpoint");
    let e = config.trust_lan_fingerprint(Ok("a:1".to_owned()), "x").unwrap_err();
    assert_eq!(e.message(), "Invalid device fingerprint");
    assert!(!config.is_trusted_lan_fingerprint(&lower));
    assert!(config.trust_lan_fingerprint(Ok("a:1".to_owned()), &upper).is_ok());
    assert!(config.trust_lan_fingerprint(Ok("b:1".to_owned()), &"c".repeat(64)).is_ok());
    assert_eq!(config.get_trusted_lan_fingerprint("a:1"), Some(lower.clone()));
    assert!(config.is_trusted_lan_fingerprint(&upper));
    assert!(config.is_trusted_lan_fingerprint(&lower));
    assert!(config.forget_lan_fingerprint(refused()).is_err());
    assert!(matches!(config.forget_lan_fingerprint(Ok("a:1".to_owned())), Ok(true)));
    assert!(matches!(config.forget_lan_fingerprint(Ok("a:1".to_owned())), Ok(false)));
    assert_eq!(config.get_trusted_lan_fingerprint("a:1"), None);
    assert!(!config.is_trusted_lan_fingerprint(&upper));
    assert!(config.is_trusted_lan_fingerprint(&"C".repeat(64)));
}

#[test]
fn keys_are_made_once_and_kept() {
    assert!(sodiumoxide::init().is_ok());
    let none = || -> KeyPair { (vec![], vec![]) };
    let mut cache: Option<KeyPair> = None;
    assert!(Config::get_existing_key_pair(&mut cache, none()).is_none());
    assert!(Config::get_cached_pk(&cache).is_none());
    let (made, is_new) = Config::get_key_pair(&mut cache, none());
    assert!(is_new);
    assert_eq!(made.0.len(), 64);
    assert_eq!(made.1.len(), 32);
    assert_eq!(made.0[32..], made.1[..]);
    assert_ne!(made.0, vec![0; 64]);
    let (again, is_new) = Config::get_key_pair(&mut cache, (vec![1], vec![2]));
    assert!(!is_new);
    assert_eq!(again, made);
    assert_eq!(Config::get_cached_pk(&cache), Some(made.1.clone()));
    assert_eq!(Config::get_existing_key_pair(&mut cache, none()), Some(made.clone()));
    Config::invalidate_key_pair_cache_if_changed(&mut cache, &made);
    assert!(cache.is_some());
    Config::invalidate_key_pair_cache_if_changed(&mut cache, &none());
    assert!(cache.is_none());
    let (stored, is_new) = Config::get_key_pair(&mut cache, (vec![1], vec![2]));
    assert!(!is_new);
    assert_eq!(stored, (vec![1], vec![2]));
    let mut cache: Option<KeyPair> = None;
    let stored = Config::get_existing_key_pair(&mut cache, (vec![3], vec![4]));
    assert_eq!(stored, Some((vec![3], vec![4])));
    assert_eq!(cache, Some((vec![3], vec![4])));
}

#[test]
fn the_fingerprint_is_the_id() {
    assert_eq!(Config::get_id_or("f".to_owned(), "b".to_owned()), "f");
    assert_eq!(Config::get_id_or(String::new(), "b".to_owned()), "b");
}

#[test]
fn random_passwords_are_drawn_from_their_characters() {
    let p = Config::get_auto_password(200);
    assert_eq!(p.len(), 200);
    assert!(p.chars().all(|c| "23456789abcdefghijkmnpqrstuvwxyz".contains(c)));
    assert_ne!(p, Config::get_auto_password(200));
    let p = Config::get_auto_numeric_password(50);
    assert_eq!(p.len(), 50);
    assert!(p.chars().all(|c| c.is_ascii_digit()));
    assert_eq!(Config::get_auto_password(0), "");
    assert_eq!(password_of(&vec![0, 9, 10, 25], "0123456789"), "0905");
}

fn opened(text: &str, decrypted: bool, should_store: bool) -> Opened {
    Opened { text: text.to_owned(), decrypted, should_store }
}

#[test]
fn a_configuration_with_options_is_loaded_and_stored() {
    let mut loaded = Config2::default();
    loaded.unlock_pin = "00sealed".to_owned();
    let (config, store) = Config2::load(loaded.clone(), opened("1234", true, false));
    assert!(!store);
    assert_eq!(config.unlock_pin, "1234");
    let (_, store) = Config2::load(loaded.clone(), opened("1234", false, true));
    assert!(store);
    loaded.nat_type = 1;
    let (config, store) = Config2::load(loaded.clone(), opened("1234", true, false));
    assert!(store);
    assert_eq!(config.nat_type, 0);
    let mut with_proxy = config.clone();
    with_proxy.socks = Some(Socks5Server { password: "p".to_owned(), ..Default::default() });
    let stored = with_proxy.store(
        &loaded,
        &opened("", false, false),
        "00p".to_owned(),
        &opened("1234", true, false),
        "00new".to_owned(),
    );
    assert_eq!(stored.socks.unwrap().password, "00p");
    assert_eq!(stored.unlock_pin, "00sealed");
    let stored = with_proxy.store(
        &with_proxy,
        &opened("p", true, false),
        "00p".to_owned(),
        &opened("other", true, false),
        "00new".to_owned(),
    );
    assert_eq!(stored.socks.unwrap().password, "p");
    assert_eq!(stored.unlock_pin, "00new");
}

#[test]
fn errors_say_what_is_wrong() {
    assert_eq!(ConfigError::UnknownIdentity.message(), "LAN identity does not exist");
    assert_eq!(
        ConfigError::HashWithoutSalt.message(),
        "Permanent password hash storage requires a non-empty salt"
    );
    assert_eq!(
        ConfigError::InvalidStorage.message(),
        "Invalid permanent password encrypted hash storage"
    );
    assert_eq!(
        ConfigError::StorageWithoutSalt.message(),
        "Refusing to persist permanent password storage without salt"
    );
    assert_eq!(
        ConfigError::InvalidSyncPayload.message(),
        "Invalid permanent password storage sync payload"
    );
    assert_eq!(
        ConfigError::HashFailed("x".to_owned()).message(),
        "Failed to hash access password: x"
    );
    assert_eq!(
        ConfigError::InvalidStoredHash("y".to_owned()).message(),
        "Invalid stored access password hash: y"
    );
}
