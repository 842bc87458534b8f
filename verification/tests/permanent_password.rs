use hbb_common::config::Config;
use hbb_common::config2::Config2;
use hbb_common::error::ConfigError;
use hbb_common::options::Settings;
use hbb_common::permanent_password::{PasswordPlan, StorageReading};
use hbb_common::storage::{keep_encrypted_storage_if_plaintext_unchanged, Opened};
use sodiumoxide::base64;
use sodiumoxide::crypto::hash::sha256;
use sodiumoxide::crypto::secretbox;

// Secrets as the surrounding program seals and opens them: a version, and then what came out of
// a secret box, in Base64.

const PASSWORD_ENC_VERSION: &str = "00";
const PERMANENT_PASSWORD_ENC_VERSION: &str = "01";
const SALT_LEN: usize = 6;

fn symmetric_crypt(data: &[u8], encrypt: bool) -> Option<Vec<u8>> {
    assert!(sodiumoxide::init().is_ok());
    let key = secretbox::Key([7; secretbox::KEYBYTES]);
    let nonce = secretbox::Nonce([9; secretbox::NONCEBYTES]);
    if encrypt {
        Some(secretbox::seal(data, &nonce, &key))
    } else {
        secretbox::open(data, &nonce, &key).ok()
    }
}

fn encode(bytes: &[u8]) -> String {
    base64::encode(bytes, base64::Variant::Original)
}

fn encrypt_str_or_original(s: &str) -> String {
    PASSWORD_ENC_VERSION.to_owned() + &encode(&symmetric_crypt(s.as_bytes(), true).unwrap())
}

fn open(s: &str, version: &str) -> Opened {
    let payload = s
        .strip_prefix(version)
        .and_then(|code| base64::decode(code, base64::Variant::Original).ok())
        .filter(|payload| payload.len() >= secretbox::MACBYTES);
    let is_payload = payload.is_some();
    let plain = payload.and_then(|payload| symmetric_crypt(&payload, false));
    match plain.and_then(|plain| String::from_utf8(plain).ok()) {
        Some(text) => Opened { text, decrypted: true, should_store: false },
        None => Opened {
            text: s.to_owned(),
            decrypted: false,
            should_store: !s.is_empty() && !is_payload,
        },
    }
}

fn decrypt_str_or_original(s: &str) -> Opened {
    open(s, PASSWORD_ENC_VERSION)
}

fn compute_permanent_password_h1(password: &str, salt: &str) -> Vec<u8> {
    sha256::hash((password.to_owned() + salt).as_bytes()).0.to_vec()
}

fn decode_h1_from_hashed_storage(storage: &str) -> Option<Vec<u8>> {
    let code = storage.strip_prefix("00")?;
    let h1 = base64::decode(code, base64::Variant::Original).ok()?;
    if h1.len() == 32 {
        Some(h1)
    } else {
        None
    }
}

fn encode_storage_from_h1(h1: &[u8]) -> String {
    let hashed = "00".to_owned() + &encode(h1);
    PERMANENT_PASSWORD_ENC_VERSION.to_owned()
        + &encode(&symmetric_crypt(hashed.as_bytes(), true).unwrap())
}

fn decode_h1_from_storage(storage: &str) -> Option<Vec<u8>> {
    let opened = open(storage, PERMANENT_PASSWORD_ENC_VERSION);
    if opened.decrypted {
        decode_h1_from_hashed_storage(&opened.text)
    } else {
        None
    }
}

fn is_current(storage: &str) -> bool {
    decode_h1_from_storage(storage).is_some()
}

fn local_usable(storage: &str, salt: &str) -> bool {
    !storage.is_empty() && (!is_current(storage) || !salt.is_empty())
}

fn preset_usable(settings: &Settings) -> bool {
    let (storage, salt) = Config::get_preset_password_storage_and_salt(settings);
    if salt.is_empty() {
        !storage.is_empty()
    } else {
        decode_h1_from_hashed_storage(&storage).is_some()
    }
}

fn reading(storage: &str) -> StorageReading {
    let hashed = open(storage, PERMANENT_PASSWORD_ENC_VERSION);
    let is_hash = decode_h1_from_hashed_storage(&hashed.text).is_some();
    StorageReading { legacy: decrypt_str_or_original(storage), hashed, is_hash }
}

fn validate(cfg: &mut Config) -> Result<(), ConfigError> {
    let reading = reading(&cfg.password);
    cfg.validate_or_decrypt_permanent_password_storage(&reading)
}

fn sync(cfg: &mut Config, storage: &str, salt: &str) -> Result<bool, ConfigError> {
    cfg.apply_permanent_password_storage_for_sync(storage, salt, is_current(storage))
}

fn has_permanent_password(cfg: &Config, settings: &Settings) -> bool {
    let usable = local_usable(&cfg.password, &cfg.salt);
    cfg.has_permanent_password(usable, preset_usable(settings))
}

fn effective_salt(cfg: &mut Config, settings: &Settings) -> String {
    let usable = local_usable(&cfg.password, &cfg.salt);
    let hashed = is_current(&cfg.password);
    cfg.get_effective_permanent_password_salt(
        settings,
        usable,
        preset_usable(settings),
        hashed,
        SALT_LEN,
    )
    .0
}

fn hard_settings(entries: &[(&str, &str)]) -> Settings {
    let mut settings = Settings::new();
    for (k, v) in entries {
        settings.hard_settings.insert((*k).to_owned(), (*v).to_owned());
    }
    settings
}

#[test]
fn test_hbbs_00_hashed_preset_password_storage_matches_plain_with_salt() {
    let salt = "salt123";
    let h1 = compute_permanent_password_h1("p@ssw0rd", salt);
    let storage = "00".to_owned() + &base64::encode(h1, base64::Variant::Original);
    let settings = hard_settings(&[("password", &storage), ("salt", salt)]);

    let mut config = Config::default();
    assert!(has_permanent_password(&config, &settings));
    assert!(preset_usable(&settings));
    assert!(config.is_using_preset_password(preset_usable(&settings)));
    assert_eq!(effective_salt(&mut config, &settings), salt);
}

#[test]
fn test_legacy_plain_preset_password_with_00_hash_shape_without_salt_keeps_old_behavior() {
    let h1 = compute_permanent_password_h1("p@ssw0rd", "salt123");
    let storage = "00".to_owned() + &base64::encode(h1, base64::Variant::Original);
    let settings = hard_settings(&[("password", &storage)]);

    let mut config = Config::default();
    config.salt = "local1".to_owned();

    assert!(has_permanent_password(&config, &settings));
    assert!(preset_usable(&settings));
    assert!(config.is_using_preset_password(preset_usable(&settings)));
    assert_eq!(effective_salt(&mut config, &settings), "local1");
}

#[test]
fn test_local_hashed_permanent_password_without_salt_is_not_reported_as_set() {
    let h1 = compute_permanent_password_h1("p@ssw0rd", "salt123");
    let mut config = Config::default();
    config.password = encode_storage_from_h1(&h1);
    let settings = Settings::new();

    assert!(!has_permanent_password(&config, &settings));
    assert!(!local_usable(&config.password, &config.salt));
    assert!(!config.is_using_preset_password(preset_usable(&settings)));
}

#[test]
fn test_invalid_local_hashed_password_does_not_generate_effective_salt() {
    let h1 = compute_permanent_password_h1("p@ssw0rd", "salt123");
    let mut config = Config::default();
    config.password = encode_storage_from_h1(&h1);

    assert_eq!(effective_salt(&mut config, &Settings::new()), "");
    assert_eq!(config.get_local_permanent_password_storage_and_salt().1, "");
}

#[test]
fn test_legacy_plain_preset_password_uses_local_salt_for_challenge() {
    let mut config = Config::default();
    config.salt = "local1".to_owned();
    let settings = hard_settings(&[("password", "legacy-password")]);

    assert_eq!(effective_salt(&mut config, &settings), "local1");
    assert!(has_permanent_password(&config, &settings));
    assert!(config.is_using_preset_password(preset_usable(&settings)));
}

#[test]
fn test_malformed_preset_password_with_salt_is_not_usable() {
    for storage in ["01secret", "00not-a-valid-hash"] {
        let settings = hard_settings(&[("password", storage), ("salt", "preset-salt")]);

        let mut config = Config::default();
        assert_eq!(effective_salt(&mut config, &settings), "");
        assert_eq!(config.get_local_permanent_password_storage_and_salt().1, "");
        assert!(!has_permanent_password(&config, &settings));
        assert!(!config.is_using_preset_password(preset_usable(&settings)));
    }
}

#[test]
fn test_validate_or_decrypt_keeps_plaintext_permanent_password_unchanged() {
    let mut cfg = Config::default();
    cfg.password = "p@ssw0rd".to_owned();
    cfg.salt = "".to_owned();
    assert!(validate(&mut cfg).is_ok());
    assert_eq!(cfg.password, "p@ssw0rd");
    assert!(cfg.salt.is_empty());
}

#[test]
fn test_validate_or_decrypt_decrypts_00_permanent_password_without_forcing_store() {
    let mut cfg = Config::default();
    let legacy_storage = encrypt_str_or_original("legacy-secret");
    cfg.password = legacy_storage;
    cfg.salt = "".to_owned();
    assert!(validate(&mut cfg).is_ok());
    assert_eq!(cfg.password, "legacy-secret");
    assert!(cfg.salt.is_empty());
}

#[test]
fn test_validate_or_decrypt_rejects_corrupted_00_permanent_password_storage() {
    let legacy_storage = encrypt_str_or_original("legacy-secret");
    let mut invalid_payload = base64::decode(
        &legacy_storage.as_bytes()[PASSWORD_ENC_VERSION.len()..],
        base64::Variant::Original,
    )
    .unwrap();
    *invalid_payload.last_mut().unwrap() ^= 1;

    let mut cfg = Config::default();
    cfg.password = PASSWORD_ENC_VERSION.to_owned()
        + &base64::encode(invalid_payload, base64::Variant::Original);
    cfg.salt = "salt123".to_owned();

    assert!(validate(&mut cfg).is_err());
}

#[test]
fn test_validate_or_decrypt_rejects_encrypted_hashed_permanent_password_without_salt() {
    let mut cfg = Config::default();
    let h1 = compute_permanent_password_h1("p@ssw0rd", "salt123");
    cfg.password = encode_storage_from_h1(&h1);
    let original_password = cfg.password.clone();

    assert!(validate(&mut cfg).is_err());
    assert_eq!(cfg.password, original_password);
    assert!(cfg.salt.is_empty());
}

#[test]
fn test_config2_store_keeps_existing_unlock_pin_when_pin_is_unchanged() {
    let pin = "123456";
    let original_unlock_pin = encrypt_str_or_original(pin);
    let mut cfg = Config2 { unlock_pin: original_unlock_pin.clone(), ..Default::default() };
    let stored = cfg.clone();
    let opened = decrypt_str_or_original(&cfg.unlock_pin);
    assert!(opened.decrypted);
    cfg.unlock_pin = opened.text;
    cfg.nat_type = 1;

    let sealed = encrypt_str_or_original(&cfg.unlock_pin) + "new";
    let none = decrypt_str_or_original("");
    let opened = decrypt_str_or_original(&stored.unlock_pin);
    let stored = cfg.store(&stored, &none, String::new(), &opened, sealed);

    assert_eq!(stored.unlock_pin, original_unlock_pin);
    assert_eq!(stored.nat_type, 1);
}

#[test]
fn test_validate_or_decrypt_keeps_plaintext_permanent_password_with_current_prefix_and_long_base64()
{
    let mut cfg = Config::default();
    let plain = "01".to_owned() + &base64::encode([42u8; 24], base64::Variant::Original);
    cfg.password = plain.clone();
    cfg.salt = "".to_owned();

    assert!(validate(&mut cfg).is_ok());
    assert_eq!(cfg.password, plain);
    assert!(cfg.salt.is_empty());
}

#[test]
fn test_permanent_password_sync_treats_same_encrypted_hash_as_unchanged() {
    let mut cfg = Config::default();
    cfg.salt = "salt123".to_owned();
    let h1 = compute_permanent_password_h1("p@ssw0rd", &cfg.salt);
    let encrypted_hash_storage = encode_storage_from_h1(&h1);
    cfg.password = encrypted_hash_storage.clone();
    assert!(validate(&mut cfg).is_ok());

    assert!(matches!(sync(&mut cfg, &encrypted_hash_storage, "salt123"), Ok(false)));
}

#[test]
fn test_permanent_password_sync_stores_incoming_encrypted_hash_when_local_empty() {
    let salt = "salt123";
    let h1 = compute_permanent_password_h1("p@ssw0rd", salt);
    let incoming = encode_storage_from_h1(&h1);
    let mut cfg = Config::default();

    assert!(matches!(sync(&mut cfg, &incoming, salt), Ok(true)));
    assert_eq!(cfg.password, incoming);
    assert_eq!(cfg.salt, salt);
}

#[test]
fn test_permanent_password_sync_rejects_non_current_storage_payloads() {
    let invalid_payload = vec![42u8; sodiumoxide::crypto::secretbox::MACBYTES + 1];
    let invalid_storage = PERMANENT_PASSWORD_ENC_VERSION.to_owned()
        + &base64::encode(invalid_payload, base64::Variant::Original);
    let encrypted_legacy_plaintext = encrypt_str_or_original("legacy-secret");

    let encrypted = symmetric_crypt(b"not-a-hash", true).unwrap();
    let encrypted_non_hash = PERMANENT_PASSWORD_ENC_VERSION.to_owned()
        + &base64::encode(encrypted, base64::Variant::Original);
    for storage in [
        "00secret",
        &encrypted_legacy_plaintext,
        &invalid_storage,
        "01invalid",
        &encrypted_non_hash,
    ] {
        let mut cfg = Config::default();
        assert!(sync(&mut cfg, storage, "salt123").is_err());
        assert!(cfg.password.is_empty());
        assert!(cfg.salt.is_empty());
    }

    let mut cfg = Config::default();
    cfg.password = invalid_storage.clone();
    cfg.salt = "salt123".to_owned();
    assert!(sync(&mut cfg, &invalid_storage, "salt123").is_err());
    assert_eq!(cfg.password, invalid_storage);
    assert_eq!(cfg.salt, "salt123");
}

#[test]
fn test_permanent_password_sync_rejects_non_empty_storage_without_salt() {
    let mut cfg = Config::default();
    let h1 = compute_permanent_password_h1("p@ssw0rd", "salt123");
    let incoming = encode_storage_from_h1(&h1);

    assert!(sync(&mut cfg, &incoming, "").is_err());
    assert!(cfg.password.is_empty());
    assert!(cfg.salt.is_empty());
}

#[test]
fn test_permanent_password_sync_empty_storage_clears_existing_password() {
    let salt = "salt123";
    let h1 = compute_permanent_password_h1("p@ssw0rd", salt);
    let mut cfg = Config::default();
    cfg.password = encode_storage_from_h1(&h1);
    cfg.salt = salt.to_owned();

    assert!(matches!(sync(&mut cfg, "", ""), Ok(true)));
    assert!(cfg.password.is_empty());
    assert_eq!(cfg.salt, salt);
}

#[test]
fn test_permanent_password_sync_empty_storage_uses_incoming_salt() {
    let old_salt = "old-salt";
    let h1 = compute_permanent_password_h1("p@ssw0rd", old_salt);
    let mut cfg = Config::default();
    cfg.password = encode_storage_from_h1(&h1);
    cfg.salt = old_salt.to_owned();

    assert!(matches!(sync(&mut cfg, "", "new-salt"), Ok(true)));
    assert!(cfg.password.is_empty());
    assert_eq!(cfg.salt, "new-salt");
}

#[test]
fn each_refusal_has_its_reason() {
    let mut cfg = Config::default();
    cfg.password = encode_storage_from_h1(&[1; 32]);
    assert!(matches!(validate(&mut cfg), Err(ConfigError::HashWithoutSalt)));
    let sealed = symmetric_crypt(b"no hash", true).unwrap();
    cfg.password = "01".to_owned() + &encode(&sealed);
    cfg.salt = "s".to_owned();
    assert!(matches!(validate(&mut cfg), Err(ConfigError::InvalidStorage)));
    assert!(matches!(
        cfg.set_permanent_password_storage_for_sync("x", "", true),
        Err(ConfigError::StorageWithoutSalt)
    ));
    assert!(matches!(
        cfg.set_permanent_password_storage_for_sync("x", "s", false),
        Err(ConfigError::InvalidSyncPayload)
    ));
    assert!(matches!(cfg.set_permanent_password_storage_for_sync("x", "s", true), Ok(true)));
    assert!(matches!(cfg.set_permanent_password_storage_for_sync("x", "s", true), Ok(false)));
    assert!(matches!(sync(&mut Config::default(), "", ""), Ok(false)));
}

#[test]
fn a_password_that_cannot_be_read_is_not_stored() {
    let mut cfg = Config::default();
    cfg.id = "1".to_owned();
    cfg.access_username = "u".to_owned();
    cfg.password = encode_storage_from_h1(&[1; 32]);
    let reading = reading(&cfg.password);
    cfg.prepare_config_for_store(&reading);
    assert_eq!(cfg.password, "");
    let none = decrypt_str_or_original("");
    let stored = cfg.store(false, "", &none, "sealed".to_owned());
    assert_eq!(stored.password, "");
    assert_eq!(stored.id, "");
    assert_eq!(stored.access_username, "u");
}

#[test]
fn a_password_that_has_not_changed_is_stored_as_it_was() {
    let stored = encrypt_str_or_original("plain");
    let opened = decrypt_str_or_original(&stored);
    let mut cfg = Config::default();
    cfg.password = "plain".to_owned();
    let same = cfg.clone().store(false, &stored, &opened, "sealed".to_owned());
    assert_eq!(same.password, stored);
    cfg.password = "other".to_owned();
    let changed = cfg.clone().store(false, &stored, &opened, "sealed".to_owned());
    assert_eq!(changed.password, "sealed");
    let current = cfg.store(true, &stored, &opened, "sealed".to_owned());
    assert_eq!(current.password, "other");
    let not_encrypted = Opened { text: "x".to_owned(), decrypted: false, should_store: true };
    assert_eq!(
        keep_encrypted_storage_if_plaintext_unchanged("x", "x", &not_encrypted, "y".to_owned()),
        "y"
    );
}

#[test]
fn the_password_is_changed_step_by_step() {
    let mut settings = Settings::new();
    let mut cfg = Config::default();
    assert_eq!(
        cfg.plan_permanent_password(&settings, true, "preset", SALT_LEN),
        PasswordPlan::Keep
    );
    assert_eq!(cfg.set_permanent_password(PasswordPlan::Keep, None), (true, false));
    assert_eq!(
        cfg.plan_permanent_password(&settings, false, "new", SALT_LEN),
        PasswordPlan::Prepare
    );
    assert_eq!(cfg.salt.len(), SALT_LEN);
    let salt = cfg.salt.clone();
    let storage = encode_storage_from_h1(&compute_permanent_password_h1("new", &salt));
    assert_eq!(cfg.set_permanent_password(PasswordPlan::Prepare, None), (false, false));
    let plan = cfg.plan_permanent_password(&settings, false, "new", SALT_LEN);
    assert_eq!(cfg.set_permanent_password(plan, Some(storage.clone())), (true, true));
    assert_eq!(cfg.set_permanent_password(plan, Some(storage.clone())), (true, false));
    assert_eq!(cfg.password, storage);
    assert_eq!(cfg.salt, salt);
    let plan = cfg.plan_permanent_password(&settings, true, "", SALT_LEN);
    assert_eq!(plan, PasswordPlan::Clear);
    assert_eq!(cfg.set_permanent_password(plan, None), (true, true));
    assert_eq!(cfg.set_permanent_password(plan, None), (true, false));
    settings
        .builtin_settings
        .insert("disable-change-permanent-password".to_owned(), "Y".to_owned());
    let plan = cfg.plan_permanent_password(&settings, false, "x", SALT_LEN);
    assert_eq!(plan, PasswordPlan::Refuse);
    assert_eq!(cfg.set_permanent_password(plan, Some("x".to_owned())), (false, false));
    assert_eq!(cfg.password, "");
}

#[test]
fn a_salt_stays_where_the_password_is_a_hash() {
    let mut cfg = Config::default();
    let (salt, store) = cfg.get_salt(false, SALT_LEN);
    assert!(store);
    assert_eq!(salt.len(), SALT_LEN);
    assert_eq!(cfg.get_salt(false, SALT_LEN), (salt.clone(), false));
    assert!(!cfg.set_salt("new", true));
    assert_eq!(cfg.salt, salt);
    assert!(cfg.set_salt("new", false));
    assert!(!cfg.set_salt("new", false));
    let mut cfg = Config::default();
    assert!(cfg.set_salt("first", true));
    assert_eq!(cfg.salt, "first");
}
