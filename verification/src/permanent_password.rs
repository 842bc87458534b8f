//! The permanent password: how it is stored, changed and taken over from another process.
//!
//! Hashing and sealing a password is not done here. The functions take what came out of it: what
//! a stored password was opened as, whether it is a hash in the current form, and whether it can
//! be used to log in.

use vstd::prelude::*;
use crate::config::{drawn_from, Config, ConfigView, CHARS};
use crate::error::ConfigError;
use crate::keys;
use crate::options::{is_set_to, text_or_empty, Options, Settings};
use crate::storage::{
    keep_encrypted_storage_if_plaintext_unchanged, kept_storage, Opened, PASSWORD_ENC_VERSION,
};
use crate::text::{same_text, starts_with};

verus! {

/// What came out when a stored permanent password was opened.
pub struct StorageReading {
    /// What it was opened as in the form of other secrets.
    pub legacy: Opened,
    /// What it was opened as in the form of permanent passwords.
    pub hashed: Opened,
    /// Whether what came out of the latter is a hash.
    pub is_hash: bool,
}

/// A stored permanent password that was checked, and opened where it is in the form of other
/// secrets.
pub open spec fn validated(c: ConfigView, reading: StorageReading) -> Result<
    ConfigView,
    ConfigError,
> {
    if c.password.len() == 0 {
        Ok(c)
    } else if PASSWORD_ENC_VERSION@.is_prefix_of(c.password) {
        if reading.legacy.decrypted {
            Ok(ConfigView { password: reading.legacy.text@, ..c })
        } else if reading.legacy.should_store {
            Ok(c)
        } else {
            Err(ConfigError::InvalidStorage)
        }
    } else if reading.hashed.decrypted {
        if c.salt.len() == 0 {
            Err(ConfigError::HashWithoutSalt)
        } else if reading.is_hash {
            Ok(c)
        } else {
            Err(ConfigError::InvalidStorage)
        }
    } else {
        Ok(c)
    }
}

/// A configuration that is about to be stored: a permanent password that cannot be read is taken
/// out, with its salt.
pub open spec fn prepared(c: ConfigView, reading: StorageReading) -> ConfigView {
    match validated(c, reading) {
        Ok(c) => c,
        Err(_) => ConfigView { password: Seq::empty(), salt: Seq::empty(), ..c },
    }
}

/// The form in which a configuration is stored. A permanent password that is not a hash in the
/// current form is stored as it was where it has not changed, and sealed anew otherwise.
pub open spec fn stored_form(
    c: ConfigView,
    is_current: bool,
    stored_password: Seq<char>,
    opened: (Seq<char>, bool),
    sealed: Seq<char>,
) -> ConfigView {
    ConfigView {
        id: Seq::empty(),
        enc_id: Seq::empty(),
        password: if c.password.len() > 0 && !is_current {
            kept_storage(c.password, stored_password, opened, sealed)
        } else {
            c.password
        },
        ..c
    }
}

/// The configuration after a permanent password was taken over from another process: the empty
/// one clears the password and keeps the salt unless there is a new one, and any other one needs
/// its salt and has to be a hash in the current form.
pub open spec fn synced(
    c: ConfigView,
    storage: Seq<char>,
    salt: Seq<char>,
    is_current: bool,
) -> Result<ConfigView, ConfigError> {
    if storage.len() == 0 {
        Ok(
            ConfigView {
                password: storage,
                salt: if salt.len() == 0 {
                    c.salt
                } else {
                    salt
                },
                ..c
            },
        )
    } else if salt.len() == 0 {
        Err(ConfigError::StorageWithoutSalt)
    } else if !is_current {
        Err(ConfigError::InvalidSyncPayload)
    } else {
        Ok(ConfigView { password: storage, salt, ..c })
    }
}

/// What has to be done to change the permanent password.
#[derive(Debug, PartialEq, Eq, Clone, Copy)]
pub enum PasswordPlan {
    /// It may not be changed.
    Refuse,
    /// It is the preset one, and there is no other.
    Keep,
    /// It is cleared.
    Clear,
    /// It is hashed with the salt, and sealed.
    Prepare,
}

/// Whether the permanent password may not be changed.
pub open spec fn change_disabled(settings: Settings) -> bool {
    is_set_to(
        settings.builtin_settings@,
        keys::OPTION_DISABLE_CHANGE_PERMANENT_PASSWORD@,
        "Y"@,
    )
}

/// What has to be done to change the permanent password.
pub open spec fn plan_of(
    disabled: bool,
    matches_preset: bool,
    stored: Seq<char>,
    password: Seq<char>,
) -> PasswordPlan {
    if disabled {
        PasswordPlan::Refuse
    } else if matches_preset && stored.len() == 0 {
        PasswordPlan::Keep
    } else if password.len() == 0 {
        PasswordPlan::Clear
    } else {
        PasswordPlan::Prepare
    }
}

/// The permanent password that comes with the build, and its salt.
pub open spec fn preset(hard_settings: Options) -> (Seq<char>, Seq<char>) {
    (
        if hard_settings.contains_key("password"@) {
            hard_settings["password"@]
        } else {
            Seq::empty()
        },
        if hard_settings.contains_key("salt"@) {
            hard_settings["salt"@]
        } else {
            Seq::empty()
        },
    )
}

/// Whether a salt is the one that is kept, or a new one where none is.
pub open spec fn kept_or_new_salt(before: Seq<char>, after: Seq<char>, salt_len: usize) -> bool {
    if before.len() > 0 {
        after == before
    } else {
        after.len() == salt_len && drawn_from(after, CHARS@)
    }
}

/// Where the salt that goes with the permanent password comes from.
#[derive(Debug, PartialEq, Eq, Clone, Copy)]
pub enum SaltSource {
    /// There is none.
    Nowhere,
    /// The salt that comes with the build.
    Preset,
    /// The salt of this device.
    Local,
}

/// Where the salt that goes with the permanent password comes from.
pub open spec fn salt_source(
    local_password: Seq<char>,
    local_usable: bool,
    preset_salt: Seq<char>,
    preset_usable: bool,
) -> SaltSource {
    if local_password.len() > 0 {
        if local_usable {
            SaltSource::Local
        } else {
            SaltSource::Nowhere
        }
    } else if preset_salt.len() > 0 {
        if preset_usable {
            SaltSource::Preset
        } else {
            SaltSource::Nowhere
        }
    } else {
        SaltSource::Local
    }
}

/// Whether a salt is the one that goes with the permanent password in use. `before` and `after`
/// are the configurations before and after it was asked for, `store` tells whether the latter has
/// to be stored, and the other arguments are as for
/// [`Config::get_effective_permanent_password_salt`].
pub open spec fn salt_settled(
    before: ConfigView,
    after: ConfigView,
    hard_settings: Options,
    local_usable: bool,
    preset_usable: bool,
    salt_len: usize,
    salt: Seq<char>,
    store: bool,
) -> bool {
    &&& after == (ConfigView { salt: after.salt, ..before })
    &&& match salt_source(before.password, local_usable, preset(hard_settings).1, preset_usable) {
        SaltSource::Nowhere => salt.len() == 0 && !store && after == before,
        SaltSource::Preset => salt == preset(hard_settings).1 && !store && after == before,
        SaltSource::Local => {
            &&& salt == after.salt
            &&& store == (after.salt != before.salt)
            &&& kept_or_new_salt(before.salt, after.salt, salt_len)
        },
    }
}

impl Config {
    /// Checks the stored permanent password, and opens it where it is in the form of other
    /// secrets.
    ///
    /// `reading` is what came out when it was opened.
    pub fn validate_or_decrypt_permanent_password_storage(
        &mut self,
        reading: &StorageReading,
    ) -> (r: Result<(), ConfigError>)
        ensures
            match validated(old(self)@, *reading) {
                Ok(c) => r is Ok && final(self)@ == c,
                Err(e) => r == Err::<(), ConfigError>(e) && *final(self) == *old(self),
            },
    {
        if self.password.as_str().is_empty() {
            return Ok(());
        }
        if starts_with(self.password.as_str(), PASSWORD_ENC_VERSION) {
            if reading.legacy.decrypted {
                self.password = reading.legacy.text.clone();
                return Ok(());
            }
            if !reading.legacy.should_store {
                return Err(ConfigError::InvalidStorage);
            }
            return Ok(());
        }
        if reading.hashed.decrypted {
            if let Err(e) = self.ensure_permanent_password_hash_salt() {
                return Err(e);
            }
            if reading.is_hash {
                return Ok(());
            }
            return Err(ConfigError::InvalidStorage);
        }
        Ok(())
    }

    /// A hashed permanent password needs a salt.
    pub fn ensure_permanent_password_hash_salt(&self) -> (r: Result<(), ConfigError>)
        ensures
            r == (if self@.salt.len() == 0 {
                Err::<(), ConfigError>(ConfigError::HashWithoutSalt)
            } else {
                Ok::<(), ConfigError>(())
            }),
    {
        if self.salt.as_str().is_empty() {
            return Err(ConfigError::HashWithoutSalt);
        }
        Ok(())
    }

    /// Makes a new salt of the given length where there is none.
    pub fn ensure_permanent_password_salt(&mut self, salt_len: usize)
        ensures
            final(self)@ == (ConfigView { salt: final(self)@.salt, ..old(self)@ }),
            kept_or_new_salt(old(self)@.salt, final(self)@.salt, salt_len),
            old(self)@.salt.len() > 0 ==> final(self)@.salt == old(self)@.salt,
            old(self)@.salt.len() == 0 ==> final(self)@.salt.len() == salt_len && drawn_from(
                final(self)@.salt,
                CHARS@,
            ),
    {
        if self.salt.as_str().is_empty() {
            self.salt = Config::get_auto_password(salt_len);
        }
    }

    /// Readies the configuration for storing: a permanent password that cannot be read is taken
    /// out, with its salt.
    ///
    /// `reading` is what came out when the permanent password was opened.
    pub fn prepare_config_for_store(&mut self, reading: &StorageReading)
        ensures
            final(self)@ == prepared(old(self)@, *reading),
    {
        if self.validate_or_decrypt_permanent_password_storage(reading).is_err() {
            self.password = String::new();
            self.salt = String::new();
            assert(self.password@ =~= Seq::empty());
            assert(self.salt@ =~= Seq::empty());
        }
    }

    /// The form in which this configuration, after it was readied, is stored over the one that is
    /// stored now.
    ///
    /// `is_current` tells whether the permanent password is a hash in the current form, `opened`
    /// is what came out when the one that is stored now was opened, and `sealed` is the present
    /// one, sealed anew.
    pub fn store(
        self,
        is_current: bool,
        stored_password: &str,
        opened: &Opened,
        sealed: String,
    ) -> (r: Config)
        ensures
            r@ == stored_form(self@, is_current, stored_password@, opened@, sealed@),
    {
        let mut config = self;
        if !config.password.as_str().is_empty() && !is_current {
            config.password = keep_encrypted_storage_if_plaintext_unchanged(
                config.password.as_str(),
                stored_password,
                opened,
                sealed,
            );
        }
        config.id = String::new();
        config.enc_id = String::new();
        assert(config.id@ =~= Seq::empty());
        assert(config.enc_id@ =~= Seq::empty());
        config
    }

    /// Finds out what has to be done to change the permanent password. Where it has to be hashed
    /// there is a salt from then on, which stays as it is where there was one.
    ///
    /// `matches_preset` tells whether the password is the preset one.
    pub fn plan_permanent_password(
        &mut self,
        settings: &Settings,
        matches_preset: bool,
        password: &str,
        salt_len: usize,
    ) -> (plan: PasswordPlan)
        ensures
            plan == plan_of(
                change_disabled(*settings),
                matches_preset,
                old(self)@.password,
                password@,
            ),
            plan is Refuse <==> is_set_to(
                settings.builtin_settings@,
                "disable-change-permanent-password"@,
                "Y"@,
            ),
            plan is Prepare ==> password@.len() > 0 && !(matches_preset
                && old(self)@.password.len() == 0),
            plan is Keep ==> matches_preset && old(self)@.password.len() == 0,
            plan is Clear ==> password@.len() == 0,
            plan is Prepare && salt_len > 0 ==> final(self)@.salt.len() > 0,
            final(self)@ == (ConfigView { salt: final(self)@.salt, ..old(self)@ }),
            if plan is Prepare {
                kept_or_new_salt(old(self)@.salt, final(self)@.salt, salt_len)
            } else {
                final(self)@.salt == old(self)@.salt
            },
    {
        if Config::is_disable_change_permanent_password(settings) {
            return PasswordPlan::Refuse;
        }
        if matches_preset && self.password.as_str().is_empty() {
            return PasswordPlan::Keep;
        }
        if password.is_empty() {
            return PasswordPlan::Clear;
        }
        self.ensure_permanent_password_salt(salt_len);
        PasswordPlan::Prepare
    }

    /// Changes the permanent password according to a plan. The first result tells whether the
    /// password was accepted, the second one whether there is something to store.
    ///
    /// `storage` is the password in the form in which it is stored, where it had to be hashed and
    /// sealed and that did not fail.
    pub fn set_permanent_password(&mut self, plan: PasswordPlan, storage: Option<String>) -> (r: (
        bool,
        bool,
    ))
        ensures
            match plan {
                PasswordPlan::Refuse => r == (false, false) && final(self)@ == old(self)@,
                PasswordPlan::Keep => r == (true, false) && final(self)@ == old(self)@,
                PasswordPlan::Clear => r == (true, old(self)@.password.len() > 0) && final(self)@
                    == (ConfigView { password: Seq::empty(), ..old(self)@ }),
                PasswordPlan::Prepare => match storage {
                    Some(storage) => r == (true, old(self)@.password != storage@) && final(self)@
                        == (ConfigView { password: storage@, ..old(self)@ }),
                    None => r == (false, false) && final(self)@ == old(self)@,
                },
            },
    {
        let storage = match plan {
            PasswordPlan::Refuse => return (false, false),
            PasswordPlan::Keep => return (true, false),
            PasswordPlan::Clear => text_or_empty(None),
            PasswordPlan::Prepare => match storage {
                Some(storage) => storage,
                None => return (false, false),
            },
        };
        if same_text(storage.as_str(), self.password.as_str()) {
            return (true, false);
        }
        assert(plan is Clear && self@.password.len() == 0 ==> self@.password =~= storage@);
        self.password = storage;
        (true, true)
    }

    /// The permanent password in the form in which it is stored, and its salt.
    pub fn get_local_permanent_password_storage_and_salt(&self) -> (r: (String, String))
        ensures
            r.0@ == self@.password,
            r.1@ == self@.salt,
    {
        (self.password.clone(), self.salt.clone())
    }

    /// Takes over a permanent password and its salt from another process. Tells whether that
    /// changed anything, and so whether there is something to store.
    ///
    /// `is_current` tells whether `storage` is a hash in the current form.
    pub fn set_permanent_password_storage_for_sync(
        &mut self,
        storage: &str,
        salt: &str,
        is_current: bool,
    ) -> (r: Result<bool, ConfigError>)
        ensures
            match synced(old(self)@, storage@, salt@, is_current) {
                Ok(c) => r == Ok::<bool, ConfigError>(c != old(self)@) && final(self)@ == c,
                Err(e) => r == Err::<bool, ConfigError>(e) && *final(self) == *old(self),
            },
    {
        self.apply_permanent_password_storage_for_sync(storage, salt, is_current)
    }

    /// Takes over a permanent password and its salt from another process. Tells whether that
    /// changed anything.
    ///
    /// `is_current` tells whether `storage` is a hash in the current form.
    pub fn apply_permanent_password_storage_for_sync(
        &mut self,
        storage: &str,
        salt: &str,
        is_current: bool,
    ) -> (r: Result<bool, ConfigError>)
        ensures
            match synced(old(self)@, storage@, salt@, is_current) {
                Ok(c) => r == Ok::<bool, ConfigError>(c != old(self)@) && final(self)@ == c,
                Err(e) => r == Err::<bool, ConfigError>(e) && *final(self) == *old(self),
            },
    {
        let ghost before = self@;
        if storage.is_empty() {
            if self.password.as_str().is_empty() && (salt.is_empty() || same_text(
                self.salt.as_str(),
                salt,
            )) {
                assert(self.password@ =~= storage@);
                assert(self@ =~= synced(before, storage@, salt@, is_current)->Ok_0);
                return Ok(false);
            }
            self.password = String::new();
            assert(self.password@ =~= storage@);
            if !salt.is_empty() {
                self.salt = salt.to_owned();
            }
            return Ok(true);
        }
        if salt.is_empty() {
            return Err(ConfigError::StorageWithoutSalt);
        }
        if !is_current {
            return Err(ConfigError::InvalidSyncPayload);
        }
        if same_text(self.password.as_str(), storage) && same_text(self.salt.as_str(), salt) {
            return Ok(false);
        }
        self.password = storage.to_owned();
        self.salt = salt.to_owned();
        Ok(true)
    }

    /// Whether there is a permanent password that can be used.
    ///
    /// `local_usable` and `preset_usable` tell whether the one of this device and the preset one
    /// can be used.
    pub fn has_permanent_password(&self, local_usable: bool, preset_usable: bool) -> (r: bool)
        ensures
            r == (if self@.password.len() > 0 {
                local_usable
            } else {
                preset_usable
            }),
    {
        if !self.password.as_str().is_empty() {
            return local_usable;
        }
        preset_usable
    }

    /// Whether the permanent password in use is the preset one.
    ///
    /// `preset_usable` tells whether the preset one can be used.
    pub fn is_using_preset_password(&self, preset_usable: bool) -> (r: bool)
        ensures
            r == (self@.password.len() == 0 && preset_usable),
    {
        self.password.as_str().is_empty() && preset_usable
    }

    /// The permanent password that comes with the build, and its salt.
    pub fn get_preset_password_storage_and_salt(settings: &Settings) -> (r: (String, String))
        ensures
            (r.0@, r.1@) == preset(settings.hard_settings@),
            settings.hard_settings@.contains_key("password"@) ==> r.0@
                == settings.hard_settings@["password"@],
            !settings.hard_settings@.contains_key("password"@) ==> r.0@.len() == 0,
            settings.hard_settings@.contains_key("salt"@) ==> r.1@
                == settings.hard_settings@["salt"@],
            !settings.hard_settings@.contains_key("salt"@) ==> r.1@.len() == 0,
    {
        let storage = match settings.hard_settings.get("password") {
            Some(v) => Some(v.clone()),
            None => None,
        };
        let salt = match settings.hard_settings.get("salt") {
            Some(v) => Some(v.clone()),
            None => None,
        };
        (text_or_empty(storage), text_or_empty(salt))
    }

    /// The salt that goes with the permanent password in use. The second result tells whether a
    /// new salt has to be stored.
    ///
    /// `local_usable` and `preset_usable` tell whether the permanent password of this device and
    /// the preset one can be used, and `hashed` whether the former is a hash.
    pub fn get_effective_permanent_password_salt(
        &mut self,
        settings: &Settings,
        local_usable: bool,
        preset_usable: bool,
        hashed: bool,
        salt_len: usize,
    ) -> (r: (String, bool))
        ensures
            salt_settled(
                old(self)@,
                final(self)@,
                settings.hard_settings@,
                local_usable,
                preset_usable,
                salt_len,
                r.0@,
                r.1,
            ),
            final(self)@ == (ConfigView { salt: final(self)@.salt, ..old(self)@ }),
            old(self)@.password.len() > 0 && local_usable ==> {
                &&& r.0@ == final(self)@.salt
                &&& r.1 == (final(self)@.salt != old(self)@.salt)
                &&& old(self)@.salt.len() > 0 ==> r.0@ == old(self)@.salt
                &&& old(self)@.salt.len() == 0 ==> r.0@.len() == salt_len && drawn_from(
                    r.0@,
                    CHARS@,
                )
            },
            old(self)@.password.len() > 0 && !local_usable ==> r.0@.len() == 0 && !r.1
                && final(self)@ == old(self)@,
            old(self)@.password.len() == 0 && settings.hard_settings@.contains_key("salt"@)
                && settings.hard_settings@["salt"@].len() > 0 ==> r.0@ == (if preset_usable {
                settings.hard_settings@["salt"@]
            } else {
                Seq::empty()
            }) && !r.1 && final(self)@ == old(self)@,
            old(self)@.password.len() == 0 && !(settings.hard_settings@.contains_key("salt"@)
                && settings.hard_settings@["salt"@].len() > 0) ==> {
                &&& r.0@ == final(self)@.salt
                &&& r.1 == (final(self)@.salt != old(self)@.salt)
                &&& old(self)@.salt.len() > 0 ==> r.0@ == old(self)@.salt
                &&& old(self)@.salt.len() == 0 ==> r.0@.len() == salt_len && drawn_from(
                    r.0@,
                    CHARS@,
                )
            },
    {
        if !self.password.as_str().is_empty() {
            if local_usable {
                return self.get_salt(hashed, salt_len);
            }
            return (String::new(), false);
        }
        let (_, preset_salt) = Config::get_preset_password_storage_and_salt(settings);
        if !preset_salt.as_str().is_empty() {
            if preset_usable {
                return (preset_salt, false);
            }
            return (text_or_empty(None), false);
        }
        self.get_salt(hashed, salt_len)
    }

    /// Sets the salt. Where the permanent password is a hash, a salt that is there stays. Tells
    /// whether there is something to store.
    pub fn set_salt(&mut self, salt: &str, hashed: bool) -> (store: bool)
        ensures
            store == (salt@ != old(self)@.salt && !(hashed && old(self)@.salt.len() > 0)),
            final(self)@ == (ConfigView {
                salt: if store {
                    salt@
                } else {
                    old(self)@.salt
                },
                ..old(self)@
            }),
    {
        if same_text(salt, self.salt.as_str()) {
            return false;
        }
        if hashed && !self.salt.as_str().is_empty() {
            return false;
        }
        self.salt = salt.to_owned();
        true
    }

    /// The salt of this device; a new one of the given length where there is none. The second
    /// result tells whether there is something to store.
    ///
    /// `hashed` tells whether the permanent password is a hash.
    pub fn get_salt(&mut self, hashed: bool, salt_len: usize) -> (r: (String, bool))
        ensures
            final(self)@ == (ConfigView { salt: final(self)@.salt, ..old(self)@ }),
            r.0@ == final(self)@.salt,
            r.1 == (final(self)@.salt != old(self)@.salt),
            kept_or_new_salt(old(self)@.salt, final(self)@.salt, salt_len),
            old(self)@.salt.len() > 0 ==> r.0@ == old(self)@.salt,
            old(self)@.salt.len() == 0 ==> r.0@.len() == salt_len && drawn_from(r.0@, CHARS@),
    {
        if !self.salt.as_str().is_empty() {
            return (self.salt.clone(), false);
        }
        let salt = Config::get_auto_password(salt_len);
        let store = self.set_salt(salt.as_str(), hashed);
        (salt, store)
    }
}

// ---------------------------------------------------------------------------------------------
// Laws
// ---------------------------------------------------------------------------------------------

/// Taking over the same permanent password a second time changes nothing.
pub proof fn law_sync_is_idempotent(
    c: ConfigView,
    storage: Seq<char>,
    salt: Seq<char>,
    is_current: bool,
)
    requires
        synced(c, storage, salt, is_current) is Ok,
    ensures
        synced(synced(c, storage, salt, is_current)->Ok_0, storage, salt, is_current) == synced(
            c,
            storage,
            salt,
            is_current,
        ),
{
}

/// A permanent password that is taken over comes with its salt, and is a hash in the current
/// form; anything else is refused.
pub proof fn law_sync_takes_pairs(
    c: ConfigView,
    storage: Seq<char>,
    salt: Seq<char>,
    is_current: bool,
)
    requires
        storage.len() > 0,
    ensures
        synced(c, storage, salt, is_current) is Ok <==> salt.len() > 0 && is_current,
        synced(c, storage, salt, is_current) matches Ok(after) ==> after.password == storage
            && after.salt == salt,
{
}

/// The empty permanent password clears the one there is, and its salt stays unless a new one
/// comes with it.
pub proof fn law_empty_sync_clears(c: ConfigView, salt: Seq<char>, is_current: bool)
    ensures
        synced(c, Seq::empty(), salt, is_current) matches Ok(after) && after.password.len() == 0
            && after.salt == (if salt.len() == 0 {
            c.salt
        } else {
            salt
        }),
{
}

/// Checking a stored permanent password never changes the salt, and a password that is not
/// encrypted stays as it is.
pub proof fn law_checking_keeps_plain_passwords(c: ConfigView, reading: StorageReading)
    ensures
        validated(c, reading) matches Ok(after) ==> after.salt == c.salt,
        !PASSWORD_ENC_VERSION@.is_prefix_of(c.password) && !reading.hashed.decrypted ==> validated(
            c,
            reading,
        ) == Ok::<ConfigView, ConfigError>(c),
{
    reveal_strlit("00");
}

/// What is stored holds no device id, whatever came out when the permanent password was opened,
/// and what is unrelated to the permanent password is stored as it is.
pub proof fn law_storing_keeps_the_rest(
    c: ConfigView,
    reading: StorageReading,
    is_current: bool,
    stored_password: Seq<char>,
    opened: (Seq<char>, bool),
    sealed: Seq<char>,
)
    ensures
        ({
            let stored = stored_form(
                prepared(c, reading),
                is_current,
                stored_password,
                opened,
                sealed,
            );
            &&& stored.id.len() == 0
            &&& stored.enc_id.len() == 0
            &&& stored == (ConfigView {
                id: stored.id,
                enc_id: stored.enc_id,
                password: stored.password,
                salt: stored.salt,
                ..c
            })
        }),
{
}

/// Where this device has a permanent password of its own that can be used, the salt that goes with
/// it is the one that this device has then: the one that it had, or a new one of the given length
/// where it had none. So there is always one, and it is stored where it is new.
pub proof fn law_own_password_goes_with_own_salt(
    before: ConfigView,
    after: ConfigView,
    hard_settings: Options,
    preset_usable: bool,
    salt_len: usize,
    salt: Seq<char>,
    store: bool,
)
    requires
        before.password.len() > 0,
        salt_settled(before, after, hard_settings, true, preset_usable, salt_len, salt, store),
    ensures
        salt == after.salt,
        before.salt.len() > 0 ==> salt == before.salt && !store,
        before.salt.len() == 0 ==> salt.len() == salt_len,
        before.salt.len() == 0 ==> forall|i: int|
            0 <= i < salt.len() ==> ('2' <= #[trigger] salt[i] <= '9' || ('a' <= salt[i] <= 'z'
                && salt[i] != 'l' && salt[i] != 'o')),
        salt_len > 0 ==> salt.len() > 0,
        salt_len > 0 ==> (store <==> before.salt.len() == 0),
        after.password == before.password,
{
    lemma_new_salt(before.salt, after.salt, salt_len);
}

/// Where this device has a permanent password of its own that cannot be used, there is no salt,
/// not even a preset one, and nothing changes.
pub proof fn law_unusable_password_has_no_salt(
    before: ConfigView,
    after: ConfigView,
    hard_settings: Options,
    preset_usable: bool,
    salt_len: usize,
    salt: Seq<char>,
    store: bool,
)
    requires
        before.password.len() > 0,
        salt_settled(before, after, hard_settings, false, preset_usable, salt_len, salt, store),
    ensures
        salt.len() == 0,
        !store,
        after == before,
{
}

/// Where this device has no permanent password of its own and a salt comes with the build, that
/// one is used, as long as the preset password can be used, and none otherwise; the salt of this
/// device does not matter and stays.
pub proof fn law_preset_password_goes_with_preset_salt(
    before: ConfigView,
    after: ConfigView,
    hard_settings: Options,
    local_usable: bool,
    preset_usable: bool,
    salt_len: usize,
    salt: Seq<char>,
    store: bool,
    preset_salt: Seq<char>,
)
    requires
        before.password.len() == 0,
        preset_salt.len() > 0,
        salt_settled(
            before,
            after,
            hard_settings.insert("salt"@, preset_salt),
            local_usable,
            preset_usable,
            salt_len,
            salt,
            store,
        ),
    ensures
        preset_usable ==> salt == preset_salt,
        !preset_usable ==> salt.len() == 0,
        !store,
        after == before,
{
}

/// Where there is neither a permanent password of this device nor a preset salt, the salt is that
/// of this device, which is made where there is none.
pub proof fn law_without_password_the_own_salt_is_used(
    before: ConfigView,
    after: ConfigView,
    hard_settings: Options,
    local_usable: bool,
    preset_usable: bool,
    salt_len: usize,
    salt: Seq<char>,
    store: bool,
)
    requires
        before.password.len() == 0,
        salt_settled(
            before,
            after,
            hard_settings.remove("salt"@),
            local_usable,
            preset_usable,
            salt_len,
            salt,
            store,
        ),
    ensures
        salt == after.salt,
        before.salt.len() > 0 ==> salt == before.salt && !store,
        before.salt.len() == 0 ==> salt.len() == salt_len,
        salt_len > 0 ==> salt.len() > 0,
{
}

/// A salt that is there stays; otherwise the new one has the given length, and is made of the
/// characters of random passwords.
pub proof fn law_salt_is_kept_or_new(before: Seq<char>, after: Seq<char>, salt_len: usize)
    requires
        kept_or_new_salt(before, after, salt_len),
    ensures
        before.len() > 0 ==> after == before,
        before.len() == 0 ==> after.len() == salt_len,
        before.len() == 0 ==> forall|i: int|
            0 <= i < after.len() ==> ('2' <= #[trigger] after[i] <= '9' || ('a' <= after[i] <= 'z'
                && after[i] != 'l' && after[i] != 'o')),
        salt_len > 0 ==> after.len() > 0,
{
    lemma_new_salt(before, after, salt_len);
}

proof fn lemma_new_salt(before: Seq<char>, after: Seq<char>, salt_len: usize)
    requires
        kept_or_new_salt(before, after, salt_len),
    ensures
        before.len() == 0 ==> forall|i: int|
            0 <= i < after.len() ==> ('2' <= #[trigger] after[i] <= '9' || ('a' <= after[i] <= 'z'
                && after[i] != 'l' && after[i] != 'o')),
{
    if before.len() == 0 {
        assert forall|i: int| 0 <= i < after.len() implies ('2' <= #[trigger] after[i] <= '9' || (
        'a' <= after[i] <= 'z' && after[i] != 'l' && after[i] != 'o')) by {
            crate::config::law_characters_of_random_passwords(after, i);
        }
    }
}

/// The permanent password and the salt that come with the build are what the hard settings say,
/// each for itself, and empty where they say nothing.
pub proof fn law_what_comes_with_the_build(hard_settings: Options, v: Seq<char>)
    ensures
        preset(hard_settings.insert("password"@, v)).0 == v,
        preset(hard_settings.remove("password"@)).0.len() == 0,
        preset(hard_settings.insert("salt"@, v)).1 == v,
        preset(hard_settings.remove("salt"@)).1.len() == 0,
        preset(hard_settings.insert("password"@, v)).1 == preset(hard_settings).1,
        preset(hard_settings.insert("salt"@, v)).0 == preset(hard_settings).0,
{
    reveal_strlit("password");
    reveal_strlit("salt");
    assert("password"@.len() != "salt"@.len());
}

/// The permanent password may not be changed where the build says so.
pub proof fn law_change_is_refused_where_disabled(settings: Settings)
    ensures
        change_disabled(settings) <==> settings.builtin_settings@.contains_key(
            "disable-change-permanent-password"@,
        ) && settings.builtin_settings@["disable-change-permanent-password"@] == "Y"@,
{
}

/// A change is refused where it is disabled, whatever the password is, and only there. Otherwise
/// nothing is done for the preset password as long as there is no other; the empty password clears
/// the one there is, and any other one is hashed.
pub proof fn law_what_a_change_of_the_password_takes(
    disabled: bool,
    matches_preset: bool,
    stored: Seq<char>,
    password: Seq<char>,
)
    ensures
        ({
            let plan = plan_of(disabled, matches_preset, stored, password);
            &&& plan is Refuse <==> disabled
            &&& plan is Keep <==> !disabled && matches_preset && stored.len() == 0
            &&& !disabled && stored.len() > 0 && password.len() == 0 ==> plan is Clear
            &&& !disabled && stored.len() > 0 && password.len() > 0 ==> plan is Prepare
            &&& !disabled && !matches_preset && password.len() == 0 ==> plan is Clear
            &&& !disabled && !matches_preset && password.len() > 0 ==> plan is Prepare
        }),
{
}

/// A stored permanent password in the form of other secrets is opened where it can be; where it
/// cannot, it stays as it is if it is in a form that has to be stored anew, and is refused
/// otherwise.
pub proof fn law_other_secrets_are_opened(c: ConfigView, reading: StorageReading)
    requires
        "00"@.is_prefix_of(c.password),
    ensures
        reading.legacy.decrypted ==> (validated(c, reading) matches Ok(after) && after.password
            == reading.legacy.text@),
        !reading.legacy.decrypted && reading.legacy.should_store ==> validated(c, reading) == Ok::<
            ConfigView,
            ConfigError,
        >(c),
        !reading.legacy.decrypted && !reading.legacy.should_store ==> validated(c, reading)
            == Err::<ConfigView, ConfigError>(ConfigError::InvalidStorage),
{
    reveal_strlit("00");
    assert(c.password.len() > 0) by {
        if c.password.len() == 0 {
            assert("00"@.len() == 2);
        }
    }
}

/// A stored permanent password in its own form stays as it is where it is a hash and has its salt,
/// and is refused otherwise; a missing salt is named first.
pub proof fn law_hashes_need_a_salt(c: ConfigView, reading: StorageReading)
    requires
        c.password.len() > 0,
        !"00"@.is_prefix_of(c.password),
        reading.hashed.decrypted,
    ensures
        c.salt.len() > 0 && reading.is_hash ==> validated(c, reading) == Ok::<
            ConfigView,
            ConfigError,
        >(c),
        c.salt.len() == 0 ==> validated(c, reading) == Err::<ConfigView, ConfigError>(
            ConfigError::HashWithoutSalt,
        ),
        c.salt.len() > 0 && !reading.is_hash ==> validated(c, reading) == Err::<
            ConfigView,
            ConfigError,
        >(ConfigError::InvalidStorage),
{
}

/// Without a permanent password there is nothing to check, and checking changes nothing but the
/// password.
pub proof fn law_checking_changes_the_password_alone(c: ConfigView, reading: StorageReading)
    ensures
        c.password.len() == 0 ==> validated(c, reading) == Ok::<ConfigView, ConfigError>(c),
        validated(c, reading) matches Ok(after) ==> after == (ConfigView {
            password: after.password,
            ..c
        }),
{
}

/// What is readied for storing is what was checked; a permanent password that was refused is gone,
/// and its salt with it.
pub proof fn law_refused_passwords_are_not_stored(c: ConfigView, reading: StorageReading)
    ensures
        validated(c, reading) matches Ok(after) ==> prepared(c, reading) == after,
        validated(c, reading) is Err ==> prepared(c, reading).password.len() == 0 && prepared(
            c,
            reading,
        ).salt.len() == 0,
        prepared(c, reading) == (ConfigView {
            password: prepared(c, reading).password,
            salt: prepared(c, reading).salt,
            ..c
        }),
{
}

/// A permanent password that is a hash in the current form is stored as it is. Any other one is
/// stored in the form in which it was stored before, where that was encrypted and holds the same,
/// and sealed anew otherwise, so that it is never stored in the clear. An empty one stays empty.
pub proof fn law_passwords_are_stored_sealed(
    c: ConfigView,
    is_current: bool,
    stored_password: Seq<char>,
    opened: (Seq<char>, bool),
    sealed: Seq<char>,
)
    ensures
        ({
            let stored = stored_form(c, is_current, stored_password, opened, sealed).password;
            &&& is_current ==> stored == c.password
            &&& c.password.len() == 0 ==> stored.len() == 0
            &&& !is_current && c.password.len() > 0 && opened.1 && opened.0 == c.password ==> stored
                == stored_password
            &&& !is_current && c.password.len() > 0 && !opened.1 ==> stored == sealed
            &&& !is_current && c.password.len() > 0 && opened.0 != c.password ==> stored == sealed
        }),
        stored_form(c, is_current, stored_password, opened, sealed).salt == c.salt,
{
}

/// Taking over a permanent password changes nothing but the password and the salt, and names what
/// is wrong where it is refused: first a missing salt, then the wrong form.
pub proof fn law_sync_changes_password_and_salt_alone(
    c: ConfigView,
    storage: Seq<char>,
    salt: Seq<char>,
    is_current: bool,
)
    ensures
        synced(c, storage, salt, is_current) matches Ok(after) ==> after == (ConfigView {
            password: after.password,
            salt: after.salt,
            ..c
        }),
        storage.len() > 0 && salt.len() == 0 ==> synced(c, storage, salt, is_current) == Err::<
            ConfigView,
            ConfigError,
        >(ConfigError::StorageWithoutSalt),
        storage.len() > 0 && salt.len() > 0 && !is_current ==> synced(c, storage, salt, is_current)
            == Err::<ConfigView, ConfigError>(ConfigError::InvalidSyncPayload),
{
}

} // verus!
