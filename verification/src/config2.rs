//! The configuration that changes more often: options, and the PIN that unlocks the settings.

use vstd::prelude::*;
use crate::options::{drop_obsolete, without_obsolete, Options};
use crate::storage::{kept_storage, keep_encrypted_storage_if_plaintext_unchanged, Opened};
use crate::text::same_text;
use crate::text_map::TextMap;

verus! {

/// A proxy.
#[derive(Debug, PartialEq)]
pub struct Socks5Server {
    pub proxy: String,
    pub username: String,
    pub password: String,
}

/// What a [`Socks5Server`] stands for.
#[verifier::ext_equal]
pub struct Socks5View {
    pub proxy: Seq<char>,
    pub username: Seq<char>,
    pub password: Seq<char>,
}

impl View for Socks5Server {
    type V = Socks5View;

    open spec fn view(&self) -> Socks5View {
        Socks5View { proxy: self.proxy@, username: self.username@, password: self.password@ }
    }
}

impl Default for Socks5Server {
    fn default() -> (r: Self)
        ensures
            r.proxy@.len() == 0,
            r.username@.len() == 0,
            r.password@.len() == 0,
    {
        Socks5Server { proxy: String::new(), username: String::new(), password: String::new() }
    }
}

impl Clone for Socks5Server {
    fn clone(&self) -> (r: Self)
        ensures
            r@ == self@,
    {
        Socks5Server {
            proxy: self.proxy.clone(),
            username: self.username.clone(),
            password: self.password.clone(),
        }
    }
}

/// What an optional [`Socks5Server`] stands for.
pub open spec fn maybe_socks(s: Option<Socks5Server>) -> Option<Socks5View> {
    match s {
        Some(s) => Some(s@),
        None => None,
    }
}

/// The configuration that changes more often.
pub struct Config2 {
    pub rendezvous_server: String,
    pub nat_type: i32,
    pub serial: i32,
    pub unlock_pin: String,
    pub trusted_devices: String,
    pub socks: Option<Socks5Server>,
    pub options: TextMap<String>,
}

/// What a [`Config2`] stands for.
#[verifier::ext_equal]
pub struct Config2View {
    pub rendezvous_server: Seq<char>,
    pub nat_type: i32,
    pub serial: i32,
    pub unlock_pin: Seq<char>,
    pub trusted_devices: Seq<char>,
    pub socks: Option<Socks5View>,
    pub options: Options,
}

impl View for Config2 {
    type V = Config2View;

    open spec fn view(&self) -> Config2View {
        Config2View {
            rendezvous_server: self.rendezvous_server@,
            nat_type: self.nat_type,
            serial: self.serial,
            unlock_pin: self.unlock_pin@,
            trusted_devices: self.trusted_devices@,
            socks: maybe_socks(self.socks),
            options: self.options@,
        }
    }
}

impl Default for Config2 {
    fn default() -> (r: Self)
        ensures
            r@ == (Config2View {
                rendezvous_server: Seq::empty(),
                nat_type: 0,
                serial: 0,
                unlock_pin: Seq::empty(),
                trusted_devices: Seq::empty(),
                socks: None,
                options: Map::empty(),
            }),
    {
        let r = Config2 {
            rendezvous_server: String::new(),
            nat_type: 0,
            serial: 0,
            unlock_pin: String::new(),
            trusted_devices: String::new(),
            socks: None,
            options: TextMap::new(),
        };
        assert(r.rendezvous_server@ =~= Seq::empty());
        assert(r.unlock_pin@ =~= Seq::empty());
        assert(r.trusted_devices@ =~= Seq::empty());
        r
    }
}

impl Clone for Config2 {
    fn clone(&self) -> (r: Self)
        ensures
            r@ == self@,
    {
        Config2 {
            rendezvous_server: self.rendezvous_server.clone(),
            nat_type: self.nat_type,
            serial: self.serial,
            unlock_pin: self.unlock_pin.clone(),
            trusted_devices: self.trusted_devices.clone(),
            socks: match &self.socks {
                Some(socks) => Some(socks.clone()),
                None => None,
            },
            options: self.options.copy(),
        }
    }
}

/// The configuration without what belongs to other modes than LAN-only mode: the rendezvous
/// server, trusted devices, the proxy and the obsolete options.
pub open spec fn sanitized2(c: Config2View) -> Config2View {
    Config2View {
        rendezvous_server: Seq::empty(),
        nat_type: 0,
        trusted_devices: Seq::empty(),
        socks: None,
        options: without_obsolete(c.options),
        ..c
    }
}

/// The form in which a configuration is stored over another one: the PIN and the password of the
/// proxy are stored as they were where they have not changed, and sealed anew otherwise.
pub open spec fn stored_form2(
    c: Config2View,
    stored: Config2View,
    socks_password: (Seq<char>, bool),
    sealed_socks_password: Seq<char>,
    pin: (Seq<char>, bool),
    sealed_pin: Seq<char>,
) -> Config2View {
    Config2View {
        socks: match c.socks {
            Some(socks) => Some(
                Socks5View {
                    password: kept_storage(
                        socks.password,
                        stored_socks_password(stored),
                        socks_password,
                        sealed_socks_password,
                    ),
                    ..socks
                },
            ),
            None => None,
        },
        unlock_pin: kept_storage(c.unlock_pin, stored.unlock_pin, pin, sealed_pin),
        ..c
    }
}

/// The password of the proxy as it is stored, or the empty text where there is no proxy.
pub open spec fn stored_socks_password(stored: Config2View) -> Seq<char> {
    match stored.socks {
        Some(socks) => socks.password,
        None => Seq::empty(),
    }
}

impl Config2 {
    /// Whether both configurations hold the same.
    pub fn same(&self, other: &Config2) -> (r: bool)
        ensures
            r == (self@ == other@),
    {
        let same_socks = match (&self.socks, &other.socks) {
            (Some(a), Some(b)) => same_text(a.proxy.as_str(), b.proxy.as_str()) && same_text(
                a.username.as_str(),
                b.username.as_str(),
            ) && same_text(a.password.as_str(), b.password.as_str()),
            (None, None) => true,
            _ => false,
        };
        same_text(self.rendezvous_server.as_str(), other.rendezvous_server.as_str())
            && self.nat_type == other.nat_type && self.serial == other.serial && same_text(
            self.unlock_pin.as_str(),
            other.unlock_pin.as_str(),
        ) && same_text(self.trusted_devices.as_str(), other.trusted_devices.as_str()) && same_socks
            && self.options.same(&other.options)
    }

    /// A configuration that was just read, without what belongs to other modes and with its PIN
    /// opened, and whether it has to be stored again.
    ///
    /// `pin` is what came out when the stored PIN was opened.
    pub fn load(loaded: Config2, pin: Opened) -> (r: (Config2, bool))
        ensures
            r.0@ == (Config2View { unlock_pin: pin.text@, ..sanitized2(loaded@) }),
            r.1 == (sanitized2(loaded@) != loaded@ || pin.should_store),
    {
        let mut config = loaded;
        let store = config.sanitize_lan_only();
        config.unlock_pin = pin.text;
        (config, store || pin.should_store)
    }

    /// Takes out what belongs to other modes than LAN-only mode. Tells whether that changed
    /// anything.
    pub fn sanitize_lan_only(&mut self) -> (changed: bool)
        ensures
            final(self)@ == sanitized2(old(self)@),
            changed == (final(self)@ != old(self)@),
    {
        let before = self.clone();
        self.rendezvous_server = String::new();
        self.nat_type = 0;
        self.trusted_devices = String::new();
        self.socks = None;
        drop_obsolete(&mut self.options);
        assert(self@ =~= sanitized2(old(self)@));
        !self.same(&before)
    }

    /// The form in which this configuration is stored over the one that is stored now.
    ///
    /// `socks_password` and `pin` are what came out when the stored password of the proxy and
    /// the stored PIN were opened, and `sealed_socks_password` and `sealed_pin` are the present
    /// ones, sealed anew.
    pub fn store(
        &self,
        stored: &Config2,
        socks_password: &Opened,
        sealed_socks_password: String,
        pin: &Opened,
        sealed_pin: String,
    ) -> (r: Config2)
        ensures
            r@ == stored_form2(
                self@,
                stored@,
                socks_password@,
                sealed_socks_password@,
                pin@,
                sealed_pin@,
            ),
    {
        let mut config = self.clone();
        let before = match &stored.socks {
            Some(socks) => socks.password.clone(),
            None => String::new(),
        };
        assert(before@ =~= stored_socks_password(stored@));
        let socks = match &self.socks {
            Some(socks) => {
                let mut socks = socks.clone();
                socks.password = keep_encrypted_storage_if_plaintext_unchanged(
                    socks.password.as_str(),
                    before.as_str(),
                    socks_password,
                    sealed_socks_password,
                );
                Some(socks)
            },
            None => None,
        };
        config.socks = socks;
        config.unlock_pin = keep_encrypted_storage_if_plaintext_unchanged(
            self.unlock_pin.as_str(),
            stored.unlock_pin.as_str(),
            pin,
            sealed_pin,
        );
        config
    }

    /// A copy of the configuration.
    pub fn get(&self) -> (r: Config2)
        ensures
            r@ == self@,
    {
        self.clone()
    }

    /// Takes over a configuration, without what belongs to other modes. Tells whether there is
    /// something to store.
    pub fn set(&mut self, cfg: Config2) -> (store: bool)
        ensures
            final(self)@ == sanitized2(cfg@),
            store == (final(self)@ != old(self)@),
    {
        let mut cfg = cfg;
        cfg.sanitize_lan_only();
        if self.same(&cfg) {
            return false;
        }
        *self = cfg;
        true
    }
}

// ---------------------------------------------------------------------------------------------
// Laws
// ---------------------------------------------------------------------------------------------

/// Taking out what belongs to other modes a second time changes nothing.
pub proof fn law_sanitizing_twice(c: Config2View)
    ensures
        sanitized2(sanitized2(c)) == sanitized2(c),
{
    assert(without_obsolete(without_obsolete(c.options)) =~= without_obsolete(c.options));
}

/// A PIN that has not changed is stored as it was, so that nothing new has to be sealed.
pub proof fn law_unchanged_pin_is_stored_as_it_was(
    c: Config2View,
    stored: Config2View,
    socks_password: (Seq<char>, bool),
    sealed_socks_password: Seq<char>,
    sealed_pin: Seq<char>,
)
    ensures
        stored_form2(
            c,
            stored,
            socks_password,
            sealed_socks_password,
            (c.unlock_pin, true),
            sealed_pin,
        ).unlock_pin == stored.unlock_pin,
{
}

/// What a configuration stands for tells everything that is kept in it, each under its name.
pub proof fn law_what_options_stand_for(config: Config2)
    ensures
        config@.rendezvous_server == config.rendezvous_server@,
        config@.nat_type == config.nat_type,
        config@.serial == config.serial,
        config@.unlock_pin == config.unlock_pin@,
        config@.trusted_devices == config.trusted_devices@,
        config@.options == config.options@,
        config.socks is None ==> config@.socks is None,
        config.socks matches Some(socks) ==> (config@.socks matches Some(said) && said.proxy
            == socks.proxy@ && said.username == socks.username@ && said.password
            == socks.password@),
{
}

/// What belongs to other modes is gone from a configuration: no server, no proxy, no trusted
/// devices and no obsolete option are left. The PIN, the serial number and the other options stay.
pub proof fn law_sanitizing_takes_out_servers(c: Config2View, k: Seq<char>)
    ensures
        sanitized2(c).rendezvous_server.len() == 0,
        sanitized2(c).nat_type == 0,
        sanitized2(c).trusted_devices.len() == 0,
        sanitized2(c).socks is None,
        sanitized2(c).serial == c.serial,
        sanitized2(c).unlock_pin == c.unlock_pin,
        sanitized2(c).options.contains_key(k) <==> c.options.contains_key(k)
            && !crate::options::obsolete(k),
        sanitized2(c).options.contains_key(k) ==> sanitized2(c).options[k] == c.options[k],
{
}

/// The PIN is stored in the form in which it was stored before, where that was encrypted and holds
/// the same, and sealed anew otherwise; and so is the password of the proxy. Nothing else changes.
pub proof fn law_secrets_are_stored_sealed(
    c: Config2View,
    stored: Config2View,
    socks_password: (Seq<char>, bool),
    sealed_socks_password: Seq<char>,
    pin: (Seq<char>, bool),
    sealed_pin: Seq<char>,
)
    ensures
        ({
            let after = stored_form2(
                c,
                stored,
                socks_password,
                sealed_socks_password,
                pin,
                sealed_pin,
            );
            &&& pin.1 && pin.0 == c.unlock_pin ==> after.unlock_pin == stored.unlock_pin
            &&& !pin.1 || pin.0 != c.unlock_pin ==> after.unlock_pin == sealed_pin
            &&& c.socks is None ==> after.socks is None
            &&& c.socks matches Some(socks) ==> (after.socks matches Some(now) && now.proxy
                == socks.proxy && now.username == socks.username)
            &&& c.socks is Some && (!socks_password.1 || socks_password.0
                != c.socks->Some_0.password) ==> after.socks->Some_0.password
                == sealed_socks_password
            &&& c.socks is Some && socks_password.1 && socks_password.0 == c.socks->Some_0.password
                && stored.socks is Some ==> after.socks->Some_0.password
                == stored.socks->Some_0.password
            &&& c.socks is Some && socks_password.1 && socks_password.0 == c.socks->Some_0.password
                && stored.socks is None ==> after.socks->Some_0.password.len() == 0
            &&& after.rendezvous_server == c.rendezvous_server
            &&& after.nat_type == c.nat_type
            &&& after.serial == c.serial
            &&& after.trusted_devices == c.trusted_devices
            &&& after.options == c.options
        }),
{
}

} // verus!
