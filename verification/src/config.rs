//! The main configuration: the keys of this device, the hosts that it trusts, and what others
//! need for access to it.

use vstd::prelude::*;
use crate::config2::Config2;
use crate::error::ConfigError;
use crate::keys;
use crate::options::{
    can_save, drop_obsolete, drop_option, get_or, has_value, is_lan_only_obsolete_option,
    is_option_can_save, is_set_to, layered, obsolete, option2bool, or_empty, put_option, said,
    switched_on, text_or_empty, with_option, without_obsolete, Options, Settings,
};
use crate::outside::{new_key_pair, random_number};
use crate::text::{
    ascii_lower, chars_of, is_fingerprint, same_bytes, same_text, to_ascii_lowercase,
    valid_fingerprint,
};
use crate::text_map::TextMap;

verus! {

/// The version of what is stored.
pub const LAN_SCHEMA_VERSION: u32 = 1;

/// A secret key and its public key.
pub type KeyPair = (Vec<u8>, Vec<u8>);

/// What a [`KeyPair`] stands for.
pub type KeyPairView = (Seq<u8>, Seq<u8>);

/// What a [`KeyPair`] stands for.
pub open spec fn keys_of(p: KeyPair) -> KeyPairView {
    (p.0@, p.1@)
}

/// What an optional [`KeyPair`] stands for.
pub open spec fn maybe_keys_of(p: Option<KeyPair>) -> Option<KeyPairView> {
    match p {
        Some(p) => Some(keys_of(p)),
        None => None,
    }
}

/// A second vector with the same bytes.
pub fn copy_bytes(v: &Vec<u8>) -> (r: Vec<u8>)
    ensures
        r@ == v@,
{
    let mut r: Vec<u8> = Vec::new();
    let mut i: usize = 0;
    while i < v.len()
        invariant
            i <= v.len(),
            r@ == v@.take(i as int),
        decreases v.len() - i,
    {
        r.push(v[i]);
        assert(v@.take(i as int).push(v@[i as int]) =~= v@.take(i + 1));
        i += 1;
    }
    assert(v@.take(v@.len() as int) =~= v@);
    r
}

/// A second pair of the same keys.
pub fn copy_key_pair(p: &KeyPair) -> (r: KeyPair)
    ensures
        keys_of(r) == keys_of(*p),
{
    (copy_bytes(&p.0), copy_bytes(&p.1))
}

/// The main configuration.
///
/// The methods that change something tell whether there is something to store.
pub struct Config {
    pub id: String,
    pub enc_id: String,
    /// The permanent password, in the form in which it is stored.
    pub password: String,
    pub salt: String,
    pub key_pair: KeyPair,
    pub key_confirmed: bool,
    pub access_username: String,
    pub access_password_hash: String,
    pub credential_revision: u64,
    pub lan_schema_version: u32,
    pub keys_confirmed: TextMap<bool>,
    /// The fingerprints of the hosts that are trusted, by endpoint.
    pub trusted_lan_endpoints: TextMap<String>,
}

/// What a [`Config`] stands for.
#[verifier::ext_equal]
pub struct ConfigView {
    pub id: Seq<char>,
    pub enc_id: Seq<char>,
    pub password: Seq<char>,
    pub salt: Seq<char>,
    pub key_pair: KeyPairView,
    pub key_confirmed: bool,
    pub access_username: Seq<char>,
    pub access_password_hash: Seq<char>,
    pub credential_revision: u64,
    pub lan_schema_version: u32,
    pub keys_confirmed: Map<Seq<char>, bool>,
    pub trusted_lan_endpoints: Options,
}

impl View for Config {
    type V = ConfigView;

    open spec fn view(&self) -> ConfigView {
        ConfigView {
            id: self.id@,
            enc_id: self.enc_id@,
            password: self.password@,
            salt: self.salt@,
            key_pair: keys_of(self.key_pair),
            key_confirmed: self.key_confirmed,
            access_username: self.access_username@,
            access_password_hash: self.access_password_hash@,
            credential_revision: self.credential_revision,
            lan_schema_version: self.lan_schema_version,
            keys_confirmed: self.keys_confirmed@,
            trusted_lan_endpoints: self.trusted_lan_endpoints@,
        }
    }
}

impl Default for Config {
    fn default() -> (r: Self)
        ensures
            r@ == (ConfigView {
                id: Seq::empty(),
                enc_id: Seq::empty(),
                password: Seq::empty(),
                salt: Seq::empty(),
                key_pair: (Seq::empty(), Seq::empty()),
                key_confirmed: false,
                access_username: Seq::empty(),
                access_password_hash: Seq::empty(),
                credential_revision: 0,
                lan_schema_version: 0,
                keys_confirmed: Map::empty(),
                trusted_lan_endpoints: Map::empty(),
            }),
    {
        let r = Config {
            id: String::new(),
            enc_id: String::new(),
            password: String::new(),
            salt: String::new(),
            key_pair: (Vec::new(), Vec::new()),
            key_confirmed: false,
            access_username: String::new(),
            access_password_hash: String::new(),
            credential_revision: 0,
            lan_schema_version: 0,
            keys_confirmed: TextMap::new(),
            trusted_lan_endpoints: TextMap::new(),
        };
        assert(r.id@ =~= Seq::empty());
        assert(r.enc_id@ =~= Seq::empty());
        assert(r.password@ =~= Seq::empty());
        assert(r.salt@ =~= Seq::empty());
        assert(r.access_username@ =~= Seq::empty());
        assert(r.access_password_hash@ =~= Seq::empty());
        r
    }
}

impl Clone for Config {
    fn clone(&self) -> (r: Self)
        ensures
            r@ == self@,
    {
        Config {
            id: self.id.clone(),
            enc_id: self.enc_id.clone(),
            password: self.password.clone(),
            salt: self.salt.clone(),
            key_pair: copy_key_pair(&self.key_pair),
            key_confirmed: self.key_confirmed,
            access_username: self.access_username.clone(),
            access_password_hash: self.access_password_hash.clone(),
            credential_revision: self.credential_revision,
            lan_schema_version: self.lan_schema_version,
            keys_confirmed: self.keys_confirmed.copy(),
            trusted_lan_endpoints: self.trusted_lan_endpoints.copy(),
        }
    }
}

/// The configuration without what belongs to other modes than LAN-only mode: the device id, the
/// permanent password and the confirmed keys.
pub open spec fn sanitized(c: ConfigView) -> ConfigView {
    ConfigView {
        id: Seq::empty(),
        enc_id: Seq::empty(),
        password: Seq::empty(),
        salt: Seq::empty(),
        key_confirmed: false,
        keys_confirmed: Map::empty(),
        lan_schema_version: LAN_SCHEMA_VERSION,
        ..c
    }
}

/// What may be shown of a [`Config`]: no secret is part of it.
#[derive(Debug)]
pub struct ConfigSummary {
    pub id: String,
    pub key_pair_configured: bool,
    pub key_confirmed: bool,
    pub trusted_lan_endpoint_count: usize,
    pub access_username_configured: bool,
    pub credential_revision: u64,
    pub lan_schema_version: u32,
}

/// What a [`ConfigSummary`] stands for.
pub struct SummaryView {
    pub id: Seq<char>,
    pub key_pair_configured: bool,
    pub key_confirmed: bool,
    pub trusted_lan_endpoint_count: nat,
    pub access_username_configured: bool,
    pub credential_revision: u64,
    pub lan_schema_version: u32,
}

impl View for ConfigSummary {
    type V = SummaryView;

    open spec fn view(&self) -> SummaryView {
        SummaryView {
            id: self.id@,
            key_pair_configured: self.key_pair_configured,
            key_confirmed: self.key_confirmed,
            trusted_lan_endpoint_count: self.trusted_lan_endpoint_count as nat,
            access_username_configured: self.access_username_configured,
            credential_revision: self.credential_revision,
            lan_schema_version: self.lan_schema_version,
        }
    }
}

/// What may be shown of a configuration.
pub open spec fn shown(c: ConfigView) -> SummaryView {
    SummaryView {
        id: c.id,
        key_pair_configured: c.key_pair.0.len() > 0,
        key_confirmed: c.key_confirmed,
        trusted_lan_endpoint_count: c.trusted_lan_endpoints.len(),
        access_username_configured: c.access_username.len() > 0,
        credential_revision: c.credential_revision,
        lan_schema_version: c.lan_schema_version,
    }
}

/// Which keys the device uses, whether they are new, and which ones are kept in memory then:
/// those that are kept in memory, else those that are stored, else new ones, and they are kept in
/// memory. The second half of a new secret key is the public key.
pub open spec fn keys_settled(
    kept: Option<KeyPairView>,
    stored: KeyPairView,
    used: KeyPairView,
    are_new: bool,
    kept_then: Option<KeyPairView>,
) -> bool {
    &&& kept_then == Some(used)
    &&& are_new == (kept is None && stored.0.len() == 0)
    &&& match kept {
        Some(kept) => used == kept,
        None => if stored.0.len() > 0 {
            used == stored
        } else {
            used.0.len() == 64 && used.1.len() == 32 && used.0.skip(32) == used.1
        },
    }
}

/// Whether one of the trusted hosts has this fingerprint.
pub open spec fn trusted(endpoints: Options, fingerprint: Seq<char>) -> bool {
    exists|k: Seq<char>| #[trigger]
        endpoints.contains_key(k) && endpoints[k] == ascii_lower(fingerprint)
}

/// Whether the key of a host was confirmed.
pub open spec fn host_confirmed(confirmed: Map<Seq<char>, bool>, host: Seq<char>) -> bool {
    confirmed.contains_key(host) && confirmed[host]
}

impl Config {
    /// Whether both configurations hold the same.
    pub fn same(&self, other: &Config) -> (r: bool)
        ensures
            r == (self@ == other@),
    {
        same_text(self.id.as_str(), other.id.as_str()) && same_text(
            self.enc_id.as_str(),
            other.enc_id.as_str(),
        ) && same_text(self.password.as_str(), other.password.as_str()) && same_text(
            self.salt.as_str(),
            other.salt.as_str(),
        ) && same_bytes(self.key_pair.0.as_slice(), other.key_pair.0.as_slice()) && same_bytes(
            self.key_pair.1.as_slice(),
            other.key_pair.1.as_slice(),
        ) && self.key_confirmed == other.key_confirmed && same_text(
            self.access_username.as_str(),
            other.access_username.as_str(),
        ) && same_text(
            self.access_password_hash.as_str(),
            other.access_password_hash.as_str(),
        ) && self.credential_revision == other.credential_revision && self.lan_schema_version
            == other.lan_schema_version && self.keys_confirmed.same(&other.keys_confirmed)
            && self.trusted_lan_endpoints.same(&other.trusted_lan_endpoints)
    }

    /// What may be shown of the configuration.
    pub fn summary(&self) -> (r: ConfigSummary)
        ensures
            r@ == shown(self@),
    {
        ConfigSummary {
            id: self.id.clone(),
            key_pair_configured: self.key_pair.0.len() > 0,
            key_confirmed: self.key_confirmed,
            trusted_lan_endpoint_count: self.trusted_lan_endpoints.len(),
            access_username_configured: !self.access_username.as_str().is_empty(),
            credential_revision: self.credential_revision,
            lan_schema_version: self.lan_schema_version,
        }
    }

    /// A configuration that was just read, without what belongs to other modes, and whether it
    /// has to be stored again.
    pub fn load(loaded: Config) -> (r: (Config, bool))
        ensures
            r.0@ == sanitized(loaded@),
            r.1 == (r.0@ != loaded@),
    {
        let mut config = loaded;
        let store = config.sanitize_lan_only();
        (config, store)
    }

    /// Takes out what belongs to other modes than LAN-only mode. Tells whether that changed
    /// anything.
    pub fn sanitize_lan_only(&mut self) -> (changed: bool)
        ensures
            final(self)@ == sanitized(old(self)@),
            changed == (final(self)@ != old(self)@),
    {
        let ghost before = self@;
        let changed = !self.id.as_str().is_empty() || !self.enc_id.as_str().is_empty()
            || !self.password.as_str().is_empty() || !self.salt.as_str().is_empty()
            || self.key_confirmed || !self.keys_confirmed.is_empty() || self.lan_schema_version
            != LAN_SCHEMA_VERSION;
        self.id = String::new();
        self.enc_id = String::new();
        self.password = String::new();
        self.salt = String::new();
        self.key_confirmed = false;
        self.keys_confirmed.clear();
        self.lan_schema_version = LAN_SCHEMA_VERSION;
        assert(self@ =~= sanitized(before));
        proof {
            if !changed {
                assert(before.id =~= Seq::empty());
                assert(before.enc_id =~= Seq::empty());
                assert(before.password =~= Seq::empty());
                assert(before.salt =~= Seq::empty());
                assert(self@ =~= before);
            }
        }
        changed
    }

    /// Whether this device has no keys yet.
    pub fn is_empty(&self) -> (r: bool)
        ensures
            r == (self@.key_pair.0.len() == 0),
    {
        self.key_pair.0.len() == 0
    }

    /// A copy of the configuration.
    pub fn get(&self) -> (r: Config)
        ensures
            r@ == self@,
    {
        self.clone()
    }

    /// Takes over a configuration, without what belongs to other modes. Tells whether there is
    /// something to store.
    pub fn set(&mut self, cfg: Config) -> (store: bool)
        ensures
            final(self)@ == sanitized(cfg@),
            store == (final(self)@ != old(self)@),
    {
        let mut cfg = cfg;
        cfg.sanitize_lan_only();
        if self.same(&cfg) {
            return false;
        }
        *self = cfg;
        true
    }

    // -----------------------------------------------------------------------------------------
    // Confirmed keys
    // -----------------------------------------------------------------------------------------

    /// Whether the key of this device was confirmed.
    pub fn get_key_confirmed(&self) -> (r: bool)
        ensures
            r == self.key_confirmed,
    {
        self.key_confirmed
    }

    /// Sets whether the key of this device was confirmed. Where that is taken back, no key of a
    /// host stays confirmed. Tells whether there is something to store.
    pub fn set_key_confirmed(&mut self, v: bool) -> (store: bool)
        ensures
            store == (old(self).key_confirmed != v),
            final(self)@ == (ConfigView {
                key_confirmed: v,
                keys_confirmed: if store && !v {
                    Map::empty()
                } else {
                    old(self)@.keys_confirmed
                },
                ..old(self)@
            }),
    {
        if self.key_confirmed == v {
            return false;
        }
        self.key_confirmed = v;
        if !v {
            self.keys_confirmed.clear();
        }
        true
    }

    /// Whether the key of a host was confirmed.
    pub fn get_host_key_confirmed(&self, host: &str) -> (r: bool)
        ensures
            r == host_confirmed(self@.keys_confirmed, host@),
            r <==> self.keys_confirmed@.contains_key(host@) && self.keys_confirmed@[host@],
    {
        match self.keys_confirmed.get(host) {
            Some(v) => *v,
            None => false,
        }
    }

    /// Sets whether the key of a host was confirmed. Tells whether there is something to store.
    pub fn set_host_key_confirmed(&mut self, host: &str, v: bool) -> (store: bool)
        ensures
            store == (host_confirmed(old(self)@.keys_confirmed, host@) != v),
            final(self)@ == (ConfigView {
                keys_confirmed: if store {
                    old(self)@.keys_confirmed.insert(host@, v)
                } else {
                    old(self)@.keys_confirmed
                },
                ..old(self)@
            }),
    {
        if self.get_host_key_confirmed(host) == v {
            return false;
        }
        self.keys_confirmed.insert(host.to_owned(), v);
        true
    }

    // -----------------------------------------------------------------------------------------
    // Trusted hosts
    // -----------------------------------------------------------------------------------------

    /// The fingerprint that is trusted at an endpoint.
    pub fn get_trusted_lan_fingerprint(&self, endpoint: &str) -> (r: Option<String>)
        ensures
            said(r) == (if self@.trusted_lan_endpoints.contains_key(endpoint@) {
                Some(self@.trusted_lan_endpoints[endpoint@])
            } else {
                None
            }),
    {
        match self.trusted_lan_endpoints.get(endpoint) {
            Some(fingerprint) => Some(fingerprint.clone()),
            None => None,
        }
    }

    /// Whether a fingerprint, in whatever case, is trusted at some endpoint.
    pub fn is_trusted_lan_fingerprint(&self, fingerprint: &str) -> (r: bool)
        ensures
            r == trusted(self@.trusted_lan_endpoints, fingerprint@),
            r <==> exists|k: Seq<char>| #[trigger]
                self.trusted_lan_endpoints@.contains_key(k) && self.trusted_lan_endpoints@[k]
                    == ascii_lower(fingerprint@),
    {
        let lower = to_ascii_lowercase(fingerprint);
        let ghost endpoints = self.trusted_lan_endpoints@;
        let ghost order = self.trusted_lan_endpoints.order();
        let count = self.trusted_lan_endpoints.len();
        let mut i: usize = 0;
        while i < count
            invariant
                i <= count == order.len(),
                order == self.trusted_lan_endpoints.order(),
                endpoints == self.trusted_lan_endpoints@,
                lower@ == ascii_lower(fingerprint@),
                forall|j: int| 0 <= j < count ==> endpoints.contains_key(#[trigger] order[j]),
                forall|j: int|
                    0 <= j < i ==> endpoints[#[trigger] order[j]] != ascii_lower(fingerprint@),
            decreases count - i,
        {
            if same_text(self.trusted_lan_endpoints.value_at(i).as_str(), lower.as_str()) {
                assert(endpoints.contains_key(order[i as int]));
                return true;
            }
            i += 1;
        }
        assert forall|k: Seq<char>| #[trigger] endpoints.contains_key(k) implies endpoints[k]
            != ascii_lower(fingerprint@) by {
            assert(order.contains(k));
            let j = choose|j: int| 0 <= j < order.len() && order[j] == k;
            assert(endpoints[order[j]] != ascii_lower(fingerprint@));
        }
        false
    }

    /// Trusts a fingerprint at an endpoint.
    ///
    /// `endpoint` is the authority that its address was read as. What comes back as `Ok` is to be
    /// stored.
    pub fn trust_lan_fingerprint(
        &mut self,
        endpoint: Result<String, ConfigError>,
        fingerprint: &str,
    ) -> (r: Result<(), ConfigError>)
        ensures
            r is Err ==> *final(self) == *old(self),
            match endpoint {
                Err(e) => r == Err::<(), ConfigError>(e),
                Ok(endpoint) => if is_fingerprint(fingerprint@) {
                    r is Ok && final(self)@ == (ConfigView {
                        trusted_lan_endpoints: old(self)@.trusted_lan_endpoints.insert(
                            endpoint@,
                            ascii_lower(fingerprint@),
                        ),
                        ..old(self)@
                    })
                } else {
                    r == Err::<(), ConfigError>(ConfigError::InvalidFingerprint)
                },
            },
    {
        let endpoint = match endpoint {
            Ok(endpoint) => endpoint,
            Err(e) => return Err(e),
        };
        if !valid_fingerprint(fingerprint) {
            return Err(ConfigError::InvalidFingerprint);
        }
        self.trusted_lan_endpoints.insert(endpoint, to_ascii_lowercase(fingerprint));
        Ok(())
    }

    /// Trusts no fingerprint at an endpoint any more. Tells whether there is something to store.
    ///
    /// `endpoint` is the authority that its address was read as.
    pub fn forget_lan_fingerprint(&mut self, endpoint: Result<String, ConfigError>) -> (r: Result<
        bool,
        ConfigError,
    >)
        ensures
            match endpoint {
                Err(e) => r == Err::<bool, ConfigError>(e) && *final(self) == *old(self),
                Ok(endpoint) => r == Ok::<bool, ConfigError>(
                    old(self)@.trusted_lan_endpoints.contains_key(endpoint@),
                ) && final(self)@ == (ConfigView {
                    trusted_lan_endpoints: old(self)@.trusted_lan_endpoints.remove(endpoint@),
                    ..old(self)@
                }),
            },
    {
        match endpoint {
            Ok(endpoint) => Ok(self.trusted_lan_endpoints.remove(endpoint.as_str())),
            Err(e) => Err(e),
        }
    }

    // -----------------------------------------------------------------------------------------
    // The keys of this device
    // -----------------------------------------------------------------------------------------

    /// The keys of this device: those that are kept in memory, else those that are stored, else
    /// new ones. They are kept in memory from then on.
    ///
    /// `stored` are the keys of the configuration that was just read. The second result tells
    /// whether the keys are new, and so whether they have to be stored.
    pub fn get_key_pair(cache: &mut Option<KeyPair>, stored: KeyPair) -> (r: (KeyPair, bool))
        ensures
            keys_settled(
                maybe_keys_of(*old(cache)),
                keys_of(stored),
                keys_of(r.0),
                r.1,
                maybe_keys_of(*final(cache)),
            ),
            *old(cache) matches Some(kept) ==> r.0.0@ == kept.0@ && r.0.1@ == kept.1@ && !r.1,
            *old(cache) is None && stored.0@.len() > 0 ==> r.0.0@ == stored.0@ && r.0.1@
                == stored.1@ && !r.1,
            *old(cache) is None && stored.0@.len() == 0 ==> r.0.0@.len() == 64 && r.0.1@.len() == 32
                && r.0.0@.skip(32) == r.0.1@ && r.1,
            *final(cache) matches Some(kept) && kept.0@ == r.0.0@ && kept.1@ == r.0.1@,
    {
        if let Some(kept) = &*cache {
            return (copy_key_pair(kept), false);
        }
        let is_new = stored.0.len() == 0;
        let key_pair = if is_new {
            new_key_pair()
        } else {
            stored
        };
        *cache = Some(copy_key_pair(&key_pair));
        (key_pair, is_new)
    }

    /// The keys of this device, as long as there are some: those that are kept in memory, else
    /// those that are stored, which are kept in memory from then on.
    pub fn get_existing_key_pair(cache: &mut Option<KeyPair>, stored: KeyPair) -> (r: Option<
        KeyPair,
    >)
        ensures
            maybe_keys_of(r) == (match *old(cache) {
                Some(kept) => Some(keys_of(kept)),
                None => if stored.0@.len() > 0 {
                    Some(keys_of(stored))
                } else {
                    None
                },
            }),
            maybe_keys_of(*final(cache)) == maybe_keys_of(r),
    {
        if let Some(kept) = &*cache {
            return Some(copy_key_pair(kept));
        }
        if stored.0.len() == 0 {
            return None;
        }
        *cache = Some(copy_key_pair(&stored));
        Some(stored)
    }

    /// The public key that is kept in memory.
    pub fn get_cached_pk(cache: &Option<KeyPair>) -> (r: Option<Vec<u8>>)
        ensures
            match (*cache, r) {
                (Some(kept), Some(pk)) => pk@ == kept.1@,
                (None, None) => true,
                _ => false,
            },
    {
        match cache {
            Some(kept) => Some(copy_bytes(&kept.1)),
            None => None,
        }
    }

    /// Keeps no keys in memory that differ from the new ones.
    pub fn invalidate_key_pair_cache_if_changed(
        cache: &mut Option<KeyPair>,
        new_key_pair: &KeyPair,
    )
        ensures
            *final(cache) == (if maybe_keys_of(*old(cache)) == Some(keys_of(*new_key_pair)) {
                *old(cache)
            } else {
                None
            }),
    {
        let changed = match &*cache {
            Some(kept) => !(same_bytes(kept.0.as_slice(), new_key_pair.0.as_slice()) && same_bytes(
                kept.1.as_slice(),
                new_key_pair.1.as_slice(),
            )),
            None => false,
        };
        if changed {
            *cache = None;
        }
    }

    /// The device id is not set in LAN-only mode, where it is the fingerprint of the device.
    pub fn set_id(&mut self, id: &str)
        ensures
            *final(self) == *old(self),
    {
    }

    /// The device id is not renewed in LAN-only mode.
    pub fn update_id(&mut self)
        ensures
            *final(self) == *old(self),
    {
    }

    /// The fingerprint of this device, or the given text where there is none.
    pub fn get_id_or(fingerprint: String, b: String) -> (r: String)
        ensures
            r == (if fingerprint@.len() == 0 {
                b
            } else {
                fingerprint
            }),
    {
        if fingerprint.as_str().is_empty() {
            b
        } else {
            fingerprint
        }
    }

    // -----------------------------------------------------------------------------------------
    // Random passwords
    // -----------------------------------------------------------------------------------------

    /// A random password of digits and small letters that are not easily mistaken.
    pub fn get_auto_password(length: usize) -> (r: String)
        ensures
            r@.len() == length,
            drawn_from(r@, CHARS@),
    {
        proof {
            reveal_strlit("23456789abcdefghijkmnpqrstuvwxyz");
        }
        Self::get_auto_password_with_chars(length, CHARS)
    }

    /// A random password of digits.
    pub fn get_auto_numeric_password(length: usize) -> (r: String)
        ensures
            r@.len() == length,
            drawn_from(r@, NUM_CHARS@),
    {
        proof {
            reveal_strlit("0123456789");
        }
        Self::get_auto_password_with_chars(length, NUM_CHARS)
    }

    /// A random password of the given characters.
    pub fn get_auto_password_with_chars(length: usize, chars: &str) -> (r: String)
        requires
            length > 0 ==> chars@.len() > 0,
        ensures
            r@.len() == length,
            drawn_from(r@, chars@),
    {
        let mut numbers: Vec<usize> = Vec::new();
        let mut i: usize = 0;
        while i < length
            invariant
                i <= length,
                numbers@.len() == i,
            decreases length - i,
        {
            numbers.push(random_number());
            i += 1;
        }
        let r = password_of(&numbers, chars);
        assert(drawn_from(r@, chars@)) by {
            assert forall|i: int| 0 <= i < r@.len() implies chars@.contains(#[trigger] r@[i]) by {
                assert(chars@[numbers@[i] as int % chars@.len() as int] == r@[i]);
            }
        }
        r
    }

    // -----------------------------------------------------------------------------------------
    // Built-in settings
    // -----------------------------------------------------------------------------------------

    /// Whether the device is not to be registered.
    pub fn no_register_device(settings: &Settings) -> (r: bool)
        ensures
            r == is_set_to(settings.builtin_settings@, keys::OPTION_REGISTER_DEVICE@, "N"@),
            r == is_set_to(settings.builtin_settings@, "register-device"@, "N"@),
    {
        has_value(&settings.builtin_settings, keys::OPTION_REGISTER_DEVICE, "N")
    }

    /// Whether the permanent password may not be changed.
    pub fn is_disable_change_permanent_password(settings: &Settings) -> (r: bool)
        ensures
            r == is_set_to(
                settings.builtin_settings@,
                keys::OPTION_DISABLE_CHANGE_PERMANENT_PASSWORD@,
                "Y"@,
            ),
            r == is_set_to(
                settings.builtin_settings@,
                "disable-change-permanent-password"@,
                "Y"@,
            ),
    {
        has_value(
            &settings.builtin_settings,
            keys::OPTION_DISABLE_CHANGE_PERMANENT_PASSWORD,
            "Y",
        )
    }

    /// Whether the device id may not be changed.
    pub fn is_disable_change_id(settings: &Settings) -> (r: bool)
        ensures
            r == is_set_to(settings.builtin_settings@, keys::OPTION_DISABLE_CHANGE_ID@, "Y"@),
            r == is_set_to(settings.builtin_settings@, "disable-change-id"@, "Y"@),
    {
        has_value(&settings.builtin_settings, keys::OPTION_DISABLE_CHANGE_ID, "Y")
    }

    /// Whether the PIN that unlocks the settings is disabled.
    pub fn is_disable_unlock_pin(settings: &Settings) -> (r: bool)
        ensures
            r == is_set_to(settings.builtin_settings@, keys::OPTION_DISABLE_UNLOCK_PIN@, "Y"@),
            r == is_set_to(settings.builtin_settings@, "disable-unlock-pin"@, "Y"@),
    {
        has_value(&settings.builtin_settings, keys::OPTION_DISABLE_UNLOCK_PIN, "Y")
    }

    // -----------------------------------------------------------------------------------------
    // Options
    // -----------------------------------------------------------------------------------------

    /// All options that have a value.
    pub fn get_options(settings: &Settings, config: &Config2) -> (r: TextMap<String>)
        ensures
            r@ == all_options(
                settings.overwrite_settings@,
                config.options@,
                settings.default_settings@,
            ),
    {
        let mut res = settings.default_settings.copy();
        res.extend(&config.options);
        res.extend(&settings.overwrite_settings);
        drop_obsolete(&mut res);
        res
    }

    /// Takes the options out that may not be saved.
    pub fn purify_options(settings: &Settings, v: &mut TextMap<String>)
        ensures
            final(v)@ == purified(
                settings.overwrite_settings@,
                settings.default_settings@,
                old(v)@,
            ),
    {
        let ghost over = settings.overwrite_settings@;
        let ghost defaults = settings.default_settings@;
        let savable = |k: &str, v: &String| -> (keep: bool)
            ensures
                keep == can_save(
                    settings.overwrite_settings@,
                    k@,
                    settings.default_settings@,
                    v@,
                ),
        {
            is_option_can_save(
                &settings.overwrite_settings,
                k,
                &settings.default_settings,
                v.as_str(),
            )
        };
        v.retain(savable, Ghost(|k: Seq<char>, v: Seq<char>| can_save(over, k, defaults, v)));
        assert(v@ =~= purified(over, defaults, old(v)@));
    }

    /// Sets all options at once. Tells whether there is something to store.
    pub fn set_options(settings: &Settings, config: &mut Config2, v: TextMap<String>) -> (store:
        bool)
        ensures
            *final(config) == (Config2 { options: final(config).options, ..*old(config) }),
            final(config).options@ == without_obsolete(
                purified(settings.overwrite_settings@, settings.default_settings@, v@),
            ),
            store == (final(config).options@ != old(config).options@),
    {
        let mut v = v;
        Self::purify_options(settings, &mut v);
        drop_obsolete(&mut v);
        if config.options.same(&v) {
            return false;
        }
        config.options = v;
        true
    }

    /// The value of an option, with the empty text where it has none.
    pub fn get_option(settings: &Settings, config: &Config2, k: &str) -> (r: String)
        ensures
            r@ == option_value(
                settings.overwrite_settings@,
                config.options@,
                settings.default_settings@,
                k@,
            ),
            obsolete(k@) ==> r@.len() == 0,
            !obsolete(k@) && settings.overwrite_settings@.contains_key(k@) ==> r@
                == settings.overwrite_settings@[k@],
            !obsolete(k@) && !settings.overwrite_settings@.contains_key(k@)
                && config.options@.contains_key(k@) ==> r@ == config.options@[k@],
            !obsolete(k@) && !settings.overwrite_settings@.contains_key(k@)
                && !config.options@.contains_key(k@) && settings.default_settings@.contains_key(k@)
                ==> r@ == settings.default_settings@[k@],
            !settings.overwrite_settings@.contains_key(k@) && !config.options@.contains_key(k@)
                && !settings.default_settings@.contains_key(k@) ==> r@.len() == 0,
    {
        if is_lan_only_obsolete_option(k) {
            return text_or_empty(None);
        }
        text_or_empty(
            get_or(&settings.overwrite_settings, &config.options, &settings.default_settings, k),
        )
    }

    /// The value of an option in a configuration that was just read.
    pub fn get_option_from_file(settings: &Settings, loaded: Config2, k: &str) -> (r: String)
        ensures
            r@ == option_value(
                settings.overwrite_settings@,
                loaded.options@,
                settings.default_settings@,
                k@,
            ),
    {
        Self::get_option(settings, &loaded, k)
    }

    /// Whether an option is switched on.
    pub fn get_bool_option(settings: &Settings, config: &Config2, k: &str) -> (r: bool)
        ensures
            r == switched_on(
                k@,
                option_value(
                    settings.overwrite_settings@,
                    config.options@,
                    settings.default_settings@,
                    k@,
                ),
            ),
    {
        let v = Self::get_option(settings, config, k);
        option2bool(k, v.as_str())
    }

    /// Sets an option; an empty value takes it out, and so does a value that may not be saved.
    /// Tells whether there is something to store.
    pub fn set_option(settings: &Settings, config: &mut Config2, k: String, v: String) -> (store:
        bool)
        ensures
            *final(config) == (Config2 { options: final(config).options, ..*old(config) }),
            final(config).options@ == with_saved_option(
                settings.overwrite_settings@,
                settings.default_settings@,
                old(config).options@,
                k@,
                v@,
            ),
            store == (final(config).options@ != old(config).options@),
    {
        if is_lan_only_obsolete_option(k.as_str()) || !is_option_can_save(
            &settings.overwrite_settings,
            k.as_str(),
            &settings.default_settings,
            v.as_str(),
        ) {
            return drop_option(&mut config.options, k.as_str());
        }
        put_option(&mut config.options, k, v)
    }

    /// The PIN that unlocks the settings.
    pub fn get_unlock_pin(settings: &Settings, config: &Config2) -> (r: String)
        ensures
            r@ == (if is_set_to(
                settings.builtin_settings@,
                keys::OPTION_DISABLE_UNLOCK_PIN@,
                "Y"@,
            ) {
                Seq::empty()
            } else {
                config.unlock_pin@
            }),
    {
        if Self::is_disable_unlock_pin(settings) {
            return text_or_empty(None);
        }
        config.unlock_pin.clone()
    }

    /// Sets the PIN that unlocks the settings. Tells whether there is something to store.
    pub fn set_unlock_pin(settings: &Settings, config: &mut Config2, pin: &str) -> (store: bool)
        ensures
            store == (!is_set_to(
                settings.builtin_settings@,
                keys::OPTION_DISABLE_UNLOCK_PIN@,
                "Y"@,
            ) && pin@ != old(config).unlock_pin@),
            *final(config) == (Config2 { unlock_pin: final(config).unlock_pin, ..*old(config) }),
            final(config).unlock_pin@ == (if store {
                pin@
            } else {
                old(config).unlock_pin@
            }),
    {
        if Self::is_disable_unlock_pin(settings) {
            return false;
        }
        if same_text(pin, config.unlock_pin.as_str()) {
            return false;
        }
        config.unlock_pin = pin.to_owned();
        true
    }
}

/// The characters of random passwords.
pub const CHARS: &'static str = "23456789abcdefghijkmnpqrstuvwxyz";

/// The characters of random passwords of digits.
pub const NUM_CHARS: &'static str = "0123456789";

/// Whether each character of a text is one of the given ones.
pub open spec fn drawn_from(s: Seq<char>, chars: Seq<char>) -> bool {
    forall|i: int| 0 <= i < s.len() ==> chars.contains(#[trigger] s[i])
}

/// The password whose characters the numbers pick, each counted round the given characters.
pub fn password_of(numbers: &Vec<usize>, chars: &str) -> (r: String)
    requires
        numbers@.len() > 0 ==> chars@.len() > 0,
    ensures
        r@ == Seq::new(
            numbers@.len(),
            |i: int| chars@[numbers@[i] as int % chars@.len() as int],
        ),
{
    let list = chars_of(chars);
    let mut r = String::new();
    let mut i: usize = 0;
    while i < numbers.len()
        invariant
            i <= numbers.len(),
            list@ == chars@,
            numbers@.len() > 0 ==> list@.len() > 0,
            r@.len() == i,
            forall|j: int|
                0 <= j < i ==> #[trigger] r@[j] == chars@[numbers@[j] as int % chars@.len() as int],
        decreases numbers.len() - i,
    {
        let at: usize = numbers[i] % list.len();
        r.push(list[at]);
        i += 1;
    }
    r
}

/// The values of all options: the overwriting ones, then the stored ones, then the defaults,
/// without the obsolete options.
pub open spec fn all_options(over: Options, stored: Options, defaults: Options) -> Options {
    without_obsolete(defaults.union_prefer_right(stored).union_prefer_right(over))
}

/// The options that may be saved.
pub open spec fn purified(over: Options, defaults: Options, m: Options) -> Options {
    m.restrict(Set::new(|k: Seq<char>| m.contains_key(k) && can_save(over, k, defaults, m[k])))
}

/// The value of an option, with the empty text where it has none or is obsolete.
pub open spec fn option_value(
    over: Options,
    stored: Options,
    defaults: Options,
    k: Seq<char>,
) -> Seq<char> {
    if obsolete(k) {
        Seq::empty()
    } else {
        or_empty(layered(over, stored, defaults, k))
    }
}

/// The stored options after one of them has been set.
pub open spec fn with_saved_option(
    over: Options,
    defaults: Options,
    m: Options,
    k: Seq<char>,
    v: Seq<char>,
) -> Options {
    if obsolete(k) || !can_save(over, k, defaults, v) {
        m.remove(k)
    } else {
        with_option(m, k, v)
    }
}

/// Whether WebSocket is used. In LAN-only mode it never is.
pub fn use_ws(settings: &Settings, config: &Config2) -> (r: bool)
    ensures
        r == switched_on(
            keys::OPTION_ALLOW_WEBSOCKET@,
            option_value(
                settings.overwrite_settings@,
                config.options@,
                settings.default_settings@,
                keys::OPTION_ALLOW_WEBSOCKET@,
            ),
        ),
        !r,
{
    proof {
        law_websocket_is_never_used(
            settings.overwrite_settings@,
            config.options@,
            settings.default_settings@,
        );
    }
    Config::get_bool_option(settings, config, keys::OPTION_ALLOW_WEBSOCKET)
}

/// Whether a connection may fall back to TLS without checks.
pub fn allow_insecure_tls_fallback(settings: &Settings, config: &Config2) -> (r: bool)
    ensures
        r == switched_on(
            keys::OPTION_ALLOW_INSECURE_TLS_FALLBACK@,
            option_value(
                settings.overwrite_settings@,
                config.options@,
                settings.default_settings@,
                keys::OPTION_ALLOW_INSECURE_TLS_FALLBACK@,
            ),
        ),
        r <==> option_value(
            settings.overwrite_settings@,
            config.options@,
            settings.default_settings@,
            "allow-insecure-tls-fallback"@,
        ) == "Y"@,
{
    proof {
        reveal_strlit("allow-insecure-tls-fallback");
        reveal_strlit("allow-");
        assert("allow-"@ =~= "allow-insecure-tls-fallback"@.subrange(0, 6));
        crate::options::law_allow_options_are_off_unless_yes(
            "allow-insecure-tls-fallback"@,
            option_value(
                settings.overwrite_settings@,
                config.options@,
                settings.default_settings@,
                "allow-insecure-tls-fallback"@,
            ),
        );
    }
    Config::get_bool_option(settings, config, keys::OPTION_ALLOW_INSECURE_TLS_FALLBACK)
}

// ---------------------------------------------------------------------------------------------
// Laws
// ---------------------------------------------------------------------------------------------

/// Taking out what belongs to other modes a second time changes nothing.
pub proof fn law_sanitizing_is_idempotent(c: ConfigView)
    ensures
        sanitized(sanitized(c)) == sanitized(c),
{
}

/// Taking out what belongs to other modes leaves the keys of the device, the credentials and the
/// trusted hosts alone.
pub proof fn law_sanitizing_keeps_access(c: ConfigView)
    ensures
        sanitized(c).key_pair == c.key_pair,
        sanitized(c).access_username == c.access_username,
        sanitized(c).access_password_hash == c.access_password_hash,
        sanitized(c).credential_revision == c.credential_revision,
        sanitized(c).trusted_lan_endpoints == c.trusted_lan_endpoints,
{
}

/// What is shown of a configuration does not depend on its secrets: neither on the passwords and
/// the salt, nor on which keys there are, nor on the hash of the access password.
pub proof fn law_summary_shows_no_secret(a: ConfigView, b: ConfigView)
    requires
        a == (ConfigView {
            enc_id: a.enc_id,
            password: a.password,
            salt: a.salt,
            key_pair: a.key_pair,
            access_password_hash: a.access_password_hash,
            ..b
        }),
        a.key_pair.0.len() > 0 <==> b.key_pair.0.len() > 0,
    ensures
        shown(a) == shown(b),
{
}

/// The device goes on using the keys that it has used, whatever is stored in between, and makes
/// new ones once at most.
pub proof fn law_keys_are_made_once(
    kept: Option<KeyPairView>,
    stored: KeyPairView,
    used: KeyPairView,
    are_new: bool,
    kept_then: Option<KeyPairView>,
    stored_later: KeyPairView,
    used_later: KeyPairView,
    are_new_later: bool,
    kept_later: Option<KeyPairView>,
)
    requires
        keys_settled(kept, stored, used, are_new, kept_then),
        keys_settled(kept_then, stored_later, used_later, are_new_later, kept_later),
    ensures
        used_later == used,
        !are_new_later,
        used.0.len() > 0 || kept is Some,
{
}

/// A fingerprint that was trusted is the one at its endpoint, and is trusted in whatever case;
/// other endpoints keep theirs.
pub proof fn law_trusted_fingerprint_is_found(
    endpoints: Options,
    endpoint: Seq<char>,
    fingerprint: Seq<char>,
    other: Seq<char>,
)
    requires
        ascii_lower(other) == ascii_lower(fingerprint),
    ensures
        ({
            let after = endpoints.insert(endpoint, ascii_lower(fingerprint));
            &&& after[endpoint] == ascii_lower(fingerprint)
            &&& trusted(after, other)
            &&& forall|k: Seq<char>|
                k != endpoint && #[trigger] endpoints.contains_key(k) ==> after.contains_key(k)
                    && after[k] == endpoints[k]
        }),
{
    assert(endpoints.insert(endpoint, ascii_lower(fingerprint)).contains_key(endpoint));
}

/// A fingerprint that was trusted and is forgotten leaves the other endpoints as they were, and
/// nothing at its own.
pub proof fn law_forgotten_fingerprint_is_gone(
    endpoints: Options,
    endpoint: Seq<char>,
    fingerprint: Seq<char>,
)
    ensures
        !endpoints.remove(endpoint).contains_key(endpoint),
        !endpoints.contains_key(endpoint) ==> endpoints.insert(
            endpoint,
            ascii_lower(fingerprint),
        ).remove(endpoint) == endpoints,
{
    if !endpoints.contains_key(endpoint) {
        assert(endpoints.insert(endpoint, ascii_lower(fingerprint)).remove(endpoint) =~= endpoints);
    }
}

/// What was said of the key of a host is what is known of it then.
pub proof fn law_host_key_is_confirmed_as_set(
    confirmed: Map<Seq<char>, bool>,
    host: Seq<char>,
    v: bool,
)
    ensures
        host_confirmed(confirmed.insert(host, v), host) == v,
{
}

/// Each option has the same value on its own as among all options: an option that is not among
/// them has the empty value.
pub proof fn law_option_agrees_with_options(
    over: Options,
    stored: Options,
    defaults: Options,
    k: Seq<char>,
)
    ensures
        ({
            let all = all_options(over, stored, defaults);
            option_value(over, stored, defaults, k) == (if all.contains_key(k) {
                all[k]
            } else {
                Seq::empty()
            })
        }),
{
}

/// Taking out the options that may not be saved a second time changes nothing.
pub proof fn law_purifying_is_idempotent(over: Options, defaults: Options, m: Options)
    ensures
        purified(over, defaults, purified(over, defaults, m)) == purified(over, defaults, m),
{
    assert(purified(over, defaults, purified(over, defaults, m)) =~= purified(over, defaults, m));
}

/// What is set is read back, unless the option is overwritten or obsolete: a value as it is, and
/// the empty value as the default.
pub proof fn law_option_is_read_back(
    over: Options,
    defaults: Options,
    m: Options,
    k: Seq<char>,
    v: Seq<char>,
)
    requires
        !over.contains_key(k),
        !obsolete(k),
    ensures
        option_value(over, with_saved_option(over, defaults, m, k, v), defaults, k) == (if v.len()
            == 0 {
            option_value(over, Options::empty(), defaults, k)
        } else {
            v
        }),
{
}

/// Setting an option leaves every other one as it was.
pub proof fn law_other_options_stay(
    over: Options,
    defaults: Options,
    m: Options,
    k: Seq<char>,
    v: Seq<char>,
    other: Seq<char>,
)
    requires
        other != k,
    ensures
        option_value(over, with_saved_option(over, defaults, m, k, v), defaults, other)
            == option_value(over, m, defaults, other),
{
}

/// Setting an overwritten option has no effect on what is read.
pub proof fn law_overwritten_option_stays(
    over: Options,
    defaults: Options,
    m: Options,
    k: Seq<char>,
    v: Seq<char>,
)
    requires
        over.contains_key(k),
    ensures
        option_value(over, with_saved_option(over, defaults, m, k, v), defaults, k)
            == option_value(over, m, defaults, k),
{
}

/// No obsolete option is stored after options were set, one or all, and none is read.
pub proof fn law_obsolete_options_are_gone(
    over: Options,
    defaults: Options,
    m: Options,
    k: Seq<char>,
    v: Seq<char>,
)
    requires
        obsolete(k),
    ensures
        !with_saved_option(over, defaults, m, k, v).contains_key(k),
        !without_obsolete(purified(over, defaults, m)).contains_key(k),
        !all_options(over, m, defaults).contains_key(k),
        option_value(over, m, defaults, k).len() == 0,
{
}

/// Where no obsolete option is stored, setting an option leaves it so.
pub proof fn law_no_obsolete_option_comes_in(
    over: Options,
    defaults: Options,
    m: Options,
    k: Seq<char>,
    v: Seq<char>,
)
    requires
        without_obsolete(m) == m,
    ensures
        without_obsolete(with_saved_option(over, defaults, m, k, v)) == with_saved_option(
            over,
            defaults,
            m,
            k,
            v,
        ),
{
    let after = with_saved_option(over, defaults, m, k, v);
    assert forall|x: Seq<char>| #[trigger] after.contains_key(x) implies !obsolete(x) by {
        if x != k {
            assert(without_obsolete(m).contains_key(x));
        } else if obsolete(k) {
            assert(!after.contains_key(k));
        } else {
        }
    }
    assert(without_obsolete(after) =~= after);
}

/// Whatever is stored or set, WebSocket is never used.
pub proof fn law_websocket_is_never_used(over: Options, stored: Options, defaults: Options)
    ensures
        !switched_on(
            keys::OPTION_ALLOW_WEBSOCKET@,
            option_value(over, stored, defaults, keys::OPTION_ALLOW_WEBSOCKET@),
        ),
{
    reveal_strlit("allow-websocket");
    reveal_strlit("enable-");
    reveal_strlit("allow-");
    reveal_strlit("Y");
    let k = keys::OPTION_ALLOW_WEBSOCKET@;
    assert(!"enable-"@.is_prefix_of(k)) by {
        assert(k.subrange(0, 7)[0] != "enable-"@[0]);
    }
    assert("allow-"@ =~= k.subrange(0, 6));
    assert(Seq::<char>::empty() != "Y"@) by {
        assert("Y"@.len() == 1);
    }
}

/// Random passwords are made of the digits from 2 to 9 and the small letters but l and o, those of
/// digits of all ten digits.
pub proof fn law_characters_of_random_passwords(s: Seq<char>, i: int)
    requires
        0 <= i < s.len(),
    ensures
        drawn_from(s, CHARS@) ==> ('2' <= s[i] <= '9' || ('a' <= s[i] <= 'z' && s[i] != 'l' && s[i]
            != 'o')),
        drawn_from(s, NUM_CHARS@) ==> '0' <= s[i] <= '9',
{
    law_alphabet_of_random_passwords(s[i]);
}

/// Each digit from 2 to 9 and each small letter but l and o can be part of a random password, and
/// each digit of one of digits; no other character can.
pub proof fn law_alphabet_of_random_passwords(c: char)
    ensures
        CHARS@.contains(c) <==> ('2' <= c <= '9' || ('a' <= c <= 'z' && c != 'l' && c != 'o')),
        NUM_CHARS@.contains(c) <==> '0' <= c <= '9',
        drawn_from(seq![c], CHARS@) <==> CHARS@.contains(c),
        drawn_from(seq![c], NUM_CHARS@) <==> NUM_CHARS@.contains(c),
{
    reveal_strlit("23456789abcdefghijkmnpqrstuvwxyz");
    reveal_strlit("0123456789");
    let n = c as int;
    if '0' <= c <= '9' {
        assert(NUM_CHARS@[n - '0' as int] == c);
    }
    if '2' <= c <= '9' {
        assert(CHARS@[n - '2' as int] == c);
    }
    if 'a' <= c <= 'k' {
        assert(CHARS@[8 + n - 'a' as int] == c);
    }
    if 'm' <= c <= 'n' {
        assert(CHARS@[19 + n - 'm' as int] == c);
    }
    if 'p' <= c <= 'z' {
        assert(CHARS@[21 + n - 'p' as int] == c);
    }
    assert(seq![c][0] == c);
}

/// What a configuration stands for tells everything that is kept in it, each under its name.
pub proof fn law_what_a_configuration_stands_for(config: Config)
    ensures
        config@.id == config.id@,
        config@.enc_id == config.enc_id@,
        config@.password == config.password@,
        config@.salt == config.salt@,
        config@.key_pair.0 == config.key_pair.0@,
        config@.key_pair.1 == config.key_pair.1@,
        config@.key_confirmed == config.key_confirmed,
        config@.access_username == config.access_username@,
        config@.access_password_hash == config.access_password_hash@,
        config@.credential_revision == config.credential_revision,
        config@.lan_schema_version == config.lan_schema_version,
        config@.keys_confirmed == config.keys_confirmed@,
        config@.trusted_lan_endpoints == config.trusted_lan_endpoints@,
{
}

/// What a summary stands for is what it shows, each under its name.
pub proof fn law_what_a_summary_stands_for(summary: ConfigSummary)
    ensures
        summary@.id == summary.id@,
        summary@.key_pair_configured == summary.key_pair_configured,
        summary@.key_confirmed == summary.key_confirmed,
        summary@.trusted_lan_endpoint_count == summary.trusted_lan_endpoint_count,
        summary@.access_username_configured == summary.access_username_configured,
        summary@.credential_revision == summary.credential_revision,
        summary@.lan_schema_version == summary.lan_schema_version,
{
}

/// What belongs to other modes is gone from a configuration: no device id, no permanent password
/// and no salt are left, no key counts as confirmed, and the version is that of LAN-only mode.
pub proof fn law_sanitizing_takes_out_other_modes(c: ConfigView, host: Seq<char>)
    ensures
        sanitized(c).id.len() == 0,
        sanitized(c).enc_id.len() == 0,
        sanitized(c).password.len() == 0,
        sanitized(c).salt.len() == 0,
        !sanitized(c).key_confirmed,
        !sanitized(c).keys_confirmed.contains_key(host),
        sanitized(c).lan_schema_version == 1,
{
}

/// A configuration that holds nothing of other modes is not changed.
pub proof fn law_sanitizing_leaves_lan_configurations_alone(c: ConfigView)
    requires
        c.id.len() == 0,
        c.enc_id.len() == 0,
        c.password.len() == 0,
        c.salt.len() == 0,
        !c.key_confirmed,
        c.keys_confirmed == Map::<Seq<char>, bool>::empty(),
        c.lan_schema_version == 1,
    ensures
        sanitized(c) == c,
{
    assert(sanitized(c) =~= c);
}

/// What is shown of a configuration is its id, its versions, whether it has keys and a name for
/// access, whether the key was confirmed, and how many hosts are trusted.
pub proof fn law_what_is_shown(c: ConfigView, endpoint: Seq<char>, fingerprint: Seq<char>)
    requires
        c.trusted_lan_endpoints.dom().finite(),
        !c.trusted_lan_endpoints.contains_key(endpoint),
    ensures
        shown(c).id == c.id,
        shown(c).key_confirmed == c.key_confirmed,
        shown(c).credential_revision == c.credential_revision,
        shown(c).lan_schema_version == c.lan_schema_version,
        shown(c).key_pair_configured <==> c.key_pair.0.len() > 0,
        shown(c).access_username_configured <==> c.access_username.len() > 0,
        c.trusted_lan_endpoints == Options::empty() ==> shown(c).trusted_lan_endpoint_count == 0,
        shown(
            ConfigView {
                trusted_lan_endpoints: c.trusted_lan_endpoints.insert(endpoint, fingerprint),
                ..c
            },
        ).trusted_lan_endpoint_count == shown(c).trusted_lan_endpoint_count + 1,
{
}

/// The keys in use are those that are kept in memory, and where none are, those that are stored;
/// new ones are made only where there are neither, and are a pair whose secret key ends in the
/// public one. Whichever they are, they are kept in memory then.
pub proof fn law_which_keys_are_used(
    kept: Option<KeyPairView>,
    stored: KeyPairView,
    used: KeyPairView,
    are_new: bool,
    kept_then: Option<KeyPairView>,
)
    requires
        keys_settled(kept, stored, used, are_new, kept_then),
    ensures
        kept_then == Some(used),
        kept is Some ==> used == kept->Some_0 && !are_new,
        kept is None && stored.0.len() > 0 ==> used == stored && !are_new,
        kept is None && stored.0.len() == 0 ==> are_new && used.0.len() == 64 && used.1.len() == 32,
        are_new ==> forall|i: int| 0 <= i < 32 ==> #[trigger] used.1[i] == used.0[32 + i],
{
    if are_new {
        assert forall|i: int| 0 <= i < 32 implies #[trigger] used.1[i] == used.0[32 + i] by {
            assert(used.0.skip(32)[i] == used.0[32 + i]);
        }
    }
}

/// What two keys stand for are their bytes.
pub proof fn law_keys_are_told_by_their_bytes(a: KeyPair, b: KeyPair)
    ensures
        keys_of(a) == keys_of(b) <==> a.0@ == b.0@ && a.1@ == b.1@,
        maybe_keys_of(Some(a)) == maybe_keys_of(Some(b)) <==> a.0@ == b.0@ && a.1@ == b.1@,
        maybe_keys_of(Some(a)) is Some,
        maybe_keys_of(None) is None,
{
}

/// Where nothing is trusted, no fingerprint is; and trusting one at an endpoint adds that one, in
/// whatever case, in place of the one that was trusted there.
pub proof fn law_what_is_trusted(
    endpoints: Options,
    endpoint: Seq<char>,
    fingerprint: Seq<char>,
    other: Seq<char>,
)
    ensures
        !trusted(Options::empty(), other),
        trusted(endpoints.insert(endpoint, ascii_lower(fingerprint)), other) <==> ascii_lower(
            fingerprint,
        ) == ascii_lower(other) || trusted(endpoints.remove(endpoint), other),
{
    let after = endpoints.insert(endpoint, ascii_lower(fingerprint));
    let rest = endpoints.remove(endpoint);
    if trusted(after, other) {
        let k = choose|k: Seq<char>| #[trigger]
            after.contains_key(k) && after[k] == ascii_lower(other);
        if k != endpoint {
            assert(rest.contains_key(k) && rest[k] == ascii_lower(other));
        }
    }
    if trusted(rest, other) {
        let k = choose|k: Seq<char>| #[trigger]
            rest.contains_key(k) && rest[k] == ascii_lower(other);
        assert(after.contains_key(k) && after[k] == ascii_lower(other));
    }
    if ascii_lower(fingerprint) == ascii_lower(other) {
        assert(after.contains_key(endpoint));
    }
}

/// The key of a host of which nothing was said is not confirmed, and what was said of another host
/// does not matter.
pub proof fn law_hosts_are_confirmed_one_by_one(
    confirmed: Map<Seq<char>, bool>,
    host: Seq<char>,
    other: Seq<char>,
    v: bool,
)
    ensures
        !host_confirmed(confirmed.remove(host), host),
        other != host ==> host_confirmed(confirmed.insert(other, v), host) == host_confirmed(
            confirmed,
            host,
        ),
{
}

/// An option is among all options where it has a value in some layer and is not obsolete, and it
/// has the overwriting value there, else the stored one, else the default.
pub proof fn law_which_options_there_are(
    over: Options,
    stored: Options,
    defaults: Options,
    k: Seq<char>,
)
    ensures
        ({
            let all = all_options(over, stored, defaults);
            &&& all.contains_key(k) <==> !obsolete(k) && (over.contains_key(k)
                || stored.contains_key(k) || defaults.contains_key(k))
            &&& !obsolete(k) && over.contains_key(k) ==> all[k] == over[k]
            &&& !obsolete(k) && !over.contains_key(k) && stored.contains_key(k) ==> all[k]
                == stored[k]
            &&& !obsolete(k) && !over.contains_key(k) && !stored.contains_key(k)
                && defaults.contains_key(k) ==> all[k] == defaults[k]
        }),
{
}

/// The options that may be saved are those that nothing overwrites and whose value is not the
/// default; they keep their values.
pub proof fn law_which_options_are_saved(
    over: Options,
    defaults: Options,
    m: Options,
    k: Seq<char>,
)
    ensures
        purified(over, defaults, m).contains_key(k) <==> m.contains_key(k) && !over.contains_key(k)
            && !(defaults.contains_key(k) && defaults[k] == m[k]),
        purified(over, defaults, m).contains_key(k) ==> purified(over, defaults, m)[k] == m[k],
{
}

/// Setting an option stores its value where it is neither empty nor the default, and takes it out
/// otherwise; it takes out overwritten and obsolete options, and leaves the others alone.
pub proof fn law_what_setting_an_option_stores(
    over: Options,
    defaults: Options,
    m: Options,
    k: Seq<char>,
    v: Seq<char>,
    other: Seq<char>,
)
    ensures
        ({
            let after = with_saved_option(over, defaults, m, k, v);
            &&& after.contains_key(k) <==> v.len() > 0 && !obsolete(k) && !over.contains_key(k)
                && !(defaults.contains_key(k) && defaults[k] == v)
            &&& after.contains_key(k) ==> after[k] == v
            &&& other != k ==> after.contains_key(other) == m.contains_key(other)
            &&& other != k && m.contains_key(other) ==> after[other] == m[other]
        }),
{
}

} // verus!
