use hbb_common::config::{Config, LAN_SCHEMA_VERSION};
use hbb_common::credentials::{
    has_overlong_lanes, hash_lan_password, hash_lan_password_with_salt, verify_lan_password_hash,
};
use hbb_common::error::ConfigError;

fn checked_name(name: &str) -> Result<String, ConfigError> {
    if name.is_empty() {
        Err(ConfigError::Rejected("empty name".to_owned()))
    } else {
        Ok(name.to_owned())
    }
}

fn checked(password: &[u8]) -> Result<(), ConfigError> {
    if password.is_empty() {
        Err(ConfigError::Rejected("empty password".to_owned()))
    } else {
        Ok(())
    }
}

fn hash(password: &[u8]) -> Result<String, ConfigError> {
    hash_lan_password(checked(password), password)
}

fn verify(hash: &str, password: &[u8]) -> Result<bool, ConfigError> {
    verify_lan_password_hash(hash, checked(password), password)
}

fn verify_against(
    stored_name: &str,
    stored_hash: &str,
    name: &str,
    password: &[u8],
) -> Result<bool, ConfigError> {
    Config::verify_lan_credentials_against(
        stored_name,
        stored_hash,
        checked_name(name),
        checked(password),
        password,
    )
}

// A hash with the costs of the library takes seconds where the crates are not optimised. A hash
// is checked with the costs that it names, so where many checks are made the hash has low ones.
fn cheap_hash(password: &[u8]) -> String {
    let params = argon2::Params::new(8, 1, 1, None).unwrap();
    let argon2 = argon2::Argon2::new(argon2::Algorithm::Argon2id, argon2::Version::V0x13, params);
    let salt = argon2::password_hash::SaltString::from_b64("AAAAAAAAAAAAAAAAAAAAAA").unwrap();
    argon2::PasswordHasher::hash_password(&argon2, password, &salt).unwrap().to_string()
}

const STORED_HASH: &str = "$argon2id$v=19$m=65536,t=3,p=1$AAAAAAAAAAAAAAAAAAAAAA$\
                           N6wBMJliFvI2XqjySG74fWsZvcS1H51hhng3qskqzhg";

#[test]
fn lan_argon2_hash_accepts_only_the_original_password() {
    let hash = hash(b"correct horse battery staple").ok().unwrap();
    assert!(hash.starts_with("$argon2id$v=19$"));
    assert!(matches!(verify(&hash, b"correct horse battery staple"), Ok(true)));
    assert!(matches!(verify(&hash, b"wrong password"), Ok(false)));
    assert!(verify("not-a-phc-hash", b"password").is_err());
    let cheap = cheap_hash(b"correct horse battery staple");
    assert!(matches!(
        verify_against("operator", &cheap, "operator", b"correct horse battery staple"),
        Ok(true)
    ));
    assert!(matches!(
        verify_against("operator", &cheap, "other-user", b"correct horse battery staple"),
        Ok(false)
    ));
    assert!(verify_against("operator", &hash, "", b"password").is_err());
}

#[test]
fn a_hash_that_was_made_gives_access_to_its_name_only() {
    let hash = hash(b"correct horse battery staple").ok().unwrap();
    assert!(matches!(
        verify_against("operator", &hash, "operator", b"correct horse battery staple"),
        Ok(true)
    ));
    assert!(matches!(
        verify_against("operator", &hash, "other-user", b"correct horse battery staple"),
        Ok(false)
    ));
    assert!(verify_against("operator", &hash, "", b"password").is_err());
}

#[test]
fn a_hash_is_made_with_the_costs_of_the_library() {
    let salt = "AAAAAAAAAAAAAAAAAAAAAA";
    let hash = hash_lan_password_with_salt(Ok(()), b"correct horse battery staple", salt);
    assert_eq!(hash.ok().unwrap(), STORED_HASH);
}

#[test]
fn another_salt_gives_another_hash() {
    let salt = "BBBBBBBBBBBBBBBBBBBBBQ";
    let hash = hash_lan_password_with_salt(Ok(()), b"correct horse battery staple", salt);
    let hash = hash.ok().unwrap();
    assert!(hash.starts_with("$argon2id$v=19$m=65536,t=3,p=1$BBBBBBBBBBBBBBBBBBBBBQ$"));
    assert_ne!(hash.rsplit('$').next(), STORED_HASH.rsplit('$').next());
}

#[test]
fn two_hashes_of_a_password_differ() {
    let one = hash(b"secret").ok().unwrap();
    let two = hash(b"secret").ok().unwrap();
    assert_ne!(one, two);
    assert!(one.starts_with("$argon2id$v=19$m=65536,t=3,p=1$"));
    assert!(two.starts_with("$argon2id$v=19$m=65536,t=3,p=1$"));
}

#[test]
fn refused_passwords_are_not_hashed() {
    assert!(matches!(hash(b""), Err(ConfigError::Rejected(reason)) if reason == "empty password"));
    assert!(matches!(verify("x", b""), Err(ConfigError::Rejected(_))));
}

#[test]
fn hashes_that_cannot_be_read_are_errors() {
    let e = verify("not-a-phc-hash", b"password").unwrap_err();
    assert_eq!(
        e.message(),
        "Invalid stored access password hash: password hash string missing field"
    );
    assert!(matches!(verify("", b"p"), Err(ConfigError::InvalidStoredHash(_))));
}

#[test]
fn hashes_with_too_many_lanes_accept_nothing() {
    let many = "$argon2id$v=19$m=65536,t=3,p=4294967295$AAAAAAAAAAAAAAAAAAAAAA$\
                AAAAAAAAAAAAAAAAAAAAAAAAAAAAAAAAAAAAAAAAAAA";
    assert!(has_overlong_lanes(many));
    assert!(matches!(verify(many, b"password"), Ok(false)));
    assert!(!has_overlong_lanes("$argon2id$v=19$m=65536,t=3,p=12345678$"));
    assert!(has_overlong_lanes("p=123456789"));
    assert!(!has_overlong_lanes("p=12345678"));
    assert!(!has_overlong_lanes(""));
    assert!(!has_overlong_lanes("t=123456789,p=1"));
}

#[test]
fn the_last_number_of_lanes_counts() {
    assert!(!has_overlong_lanes("p=123456789,p=1"));
    assert!(has_overlong_lanes("p=1,p=123456789"));
    assert!(!has_overlong_lanes("p=123456789p="));
    let hash = cheap_hash(b"secret");
    let repeated = hash.replace("p=1$", "p=4294967295,p=1$");
    assert_ne!(repeated, hash);
    assert!(matches!(verify(&repeated, b"secret"), Ok(true)));
    assert!(matches!(verify(&repeated, b"other"), Ok(false)));
    let many = hash.replace("p=1$", "p=1,p=4294967295$");
    assert!(matches!(verify(&many, b"secret"), Ok(false)));
}

#[test]
fn credentials_are_set_used_and_cleared() {
    let mut config = Config::default();
    assert!(!config.lan_credentials_configured());
    let use_them = |config: &Config, name: &str, password: &[u8]| {
        config.verify_lan_credentials(checked_name(name), checked(password), password)
    };
    assert!(matches!(use_them(&config, "operator", b"secret"), Ok(false)));
    assert!(config.set_lan_credentials(checked_name(""), checked(b"s"), b"s").is_err());
    assert!(config.set_lan_credentials(checked_name("operator"), checked(b""), b"").is_err());
    assert_eq!(config.get_credential_revision(), 0);
    let set = config.set_lan_credentials(checked_name("operator"), checked(b"secret"), b"secret");
    assert!(matches!(set, Ok(1)));
    assert!(config.lan_credentials_configured());
    assert_eq!(config.get_lan_access_username(), "operator");
    assert_eq!(config.get_lan_schema_version(), LAN_SCHEMA_VERSION);
    assert!(!config.access_password_hash.contains("secret"));
    assert!(matches!(use_them(&config, "operator", b"secret"), Ok(true)));
    config.access_password_hash = cheap_hash(b"secret");
    assert!(matches!(use_them(&config, "operator", b"secret"), Ok(true)));
    assert!(matches!(use_them(&config, "operator", b"other"), Ok(false)));
    assert!(matches!(use_them(&config, "Operator", b"secret"), Ok(false)));
    assert_eq!(config.clear_lan_credentials(), 2);
    assert!(!config.lan_credentials_configured());
    assert!(matches!(use_them(&config, "operator", b"secret"), Ok(false)));
}

#[test]
fn the_number_of_credentials_stops_at_the_largest() {
    let mut config = Config::default();
    config.credential_revision = u64::MAX - 1;
    assert_eq!(config.clear_lan_credentials(), u64::MAX);
    assert_eq!(config.clear_lan_credentials(), u64::MAX);
}
