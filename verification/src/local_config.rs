//! What this user keeps on this device: the hosts that were connected to, the LAN identities and
//! which host uses which of them, favourites, and options of the user interface.

use vstd::prelude::*;
use crate::error::ConfigError;
use crate::keys;
use crate::options::{
    can_save, drop_option, get_or, is_option_can_save, layered, option2bool, or_empty, put_option,
    switched_on, text_or_empty, with_option, Options, Settings,
};
use crate::outside::{lowercase, to_lowercase};
use crate::ranking::{lists_values, ranked, ranked_values, views, Ranked};
use crate::text::{
    ascii_lower, copy_texts, eq_ignore_ascii_case, is_before, is_fingerprint,
    lemma_text_before_total, lemma_text_before_transitive, same_text, same_texts, text_before,
    texts, to_ascii_lowercase, trim, trimmed, valid_fingerprint,
};
use crate::text_map::{Entry, TextMap};

verus! {

/// The place and the size of a window: left, top, width, height.
pub type Size = (i32, i32, i32, i32);

// ---------------------------------------------------------------------------------------------
// Hosts that were connected to
// ---------------------------------------------------------------------------------------------

/// A host that was connected to.
#[derive(Debug, PartialEq, Eq)]
pub struct RecentLanEndpoint {
    pub endpoint: String,
    pub username: String,
    pub hostname: String,
    pub platform: String,
    pub fingerprint: String,
    pub last_connected_at: i64,
}

/// What a [`RecentLanEndpoint`] stands for.
pub struct RecentView {
    pub endpoint: Seq<char>,
    pub username: Seq<char>,
    pub hostname: Seq<char>,
    pub platform: Seq<char>,
    pub fingerprint: Seq<char>,
    pub last_connected_at: i64,
}

impl View for RecentLanEndpoint {
    type V = RecentView;

    open spec fn view(&self) -> RecentView {
        RecentView {
            endpoint: self.endpoint@,
            username: self.username@,
            hostname: self.hostname@,
            platform: self.platform@,
            fingerprint: self.fingerprint@,
            last_connected_at: self.last_connected_at,
        }
    }
}

impl Default for RecentLanEndpoint {
    fn default() -> (r: Self)
        ensures
            r.endpoint@.len() == 0,
            r.username@.len() == 0,
            r.hostname@.len() == 0,
            r.platform@.len() == 0,
            r.fingerprint@.len() == 0,
            r.last_connected_at == 0,
    {
        RecentLanEndpoint {
            endpoint: String::new(),
            username: String::new(),
            hostname: String::new(),
            platform: String::new(),
            fingerprint: String::new(),
            last_connected_at: 0,
        }
    }
}

impl Clone for RecentLanEndpoint {
    fn clone(&self) -> (r: Self)
        ensures
            r@ == self@,
    {
        RecentLanEndpoint {
            endpoint: self.endpoint.clone(),
            username: self.username.clone(),
            hostname: self.hostname.clone(),
            platform: self.platform.clone(),
            fingerprint: self.fingerprint.clone(),
            last_connected_at: self.last_connected_at,
        }
    }
}

impl Entry for RecentLanEndpoint {
    fn copy(&self) -> (r: Self) {
        self.clone()
    }

    fn same(&self, other: &Self) -> (r: bool) {
        same_text(self.endpoint.as_str(), other.endpoint.as_str()) && same_text(
            self.username.as_str(),
            other.username.as_str(),
        ) && same_text(self.hostname.as_str(), other.hostname.as_str()) && same_text(
            self.platform.as_str(),
            other.platform.as_str(),
        ) && same_text(self.fingerprint.as_str(), other.fingerprint.as_str())
            && self.last_connected_at == other.last_connected_at
    }
}

/// The host that was connected to last comes first.
impl Ranked for RecentLanEndpoint {
    open spec fn ahead(a: RecentView, b: RecentView) -> bool {
        a.last_connected_at > b.last_connected_at
    }

    fn is_ahead(&self, other: &Self) -> (r: bool) {
        self.last_connected_at > other.last_connected_at
    }

    proof fn ahead_is_an_order(a: RecentView, b: RecentView, c: RecentView) {
    }
}

/// Hosts by their fingerprints.
pub type Recents = Map<Seq<char>, RecentView>;

/// The hosts without those that the text names by fingerprint or by endpoint.
pub open spec fn recents_without(recents: Recents, named: Seq<char>) -> Recents {
    recents.restrict(
        Set::new(
            |k: Seq<char>|
                recents.contains_key(k) && k != ascii_lower(named) && recents[k].endpoint != named,
        ),
    )
}

/// Whether a text names a host, by its fingerprint in any case or by its endpoint.
pub open spec fn names_recent(recents: Recents, k: Seq<char>, named: Seq<char>) -> bool {
    recents.contains_key(k) && (ascii_lower(k) == ascii_lower(named) || recents[k].endpoint
        == named)
}

/// The identity bindings without those of the hosts that the text names.
pub open spec fn bindings_without_recent(
    bindings: Options,
    recents: Recents,
    named: Seq<char>,
) -> Options {
    bindings.restrict(
        Set::new(|k: Seq<char>| bindings.contains_key(k) && !names_recent(recents, k, named)),
    )
}

// ---------------------------------------------------------------------------------------------
// Identities
// ---------------------------------------------------------------------------------------------

/// A name to log in with on hosts in the LAN. The password is not part of it.
#[derive(Debug, PartialEq, Eq)]
pub struct LanIdentity {
    pub id: String,
    pub name: String,
    pub username: String,
    pub created_at: i64,
    pub updated_at: i64,
}

/// What a [`LanIdentity`] stands for.
pub struct IdentityView {
    pub id: Seq<char>,
    pub name: Seq<char>,
    pub username: Seq<char>,
    pub created_at: i64,
    pub updated_at: i64,
}

impl View for LanIdentity {
    type V = IdentityView;

    open spec fn view(&self) -> IdentityView {
        IdentityView {
            id: self.id@,
            name: self.name@,
            username: self.username@,
            created_at: self.created_at,
            updated_at: self.updated_at,
        }
    }
}

impl Default for LanIdentity {
    fn default() -> (r: Self)
        ensures
            r.id@.len() == 0,
            r.name@.len() == 0,
            r.username@.len() == 0,
            r.created_at == 0,
            r.updated_at == 0,
    {
        LanIdentity {
            id: String::new(),
            name: String::new(),
            username: String::new(),
            created_at: 0,
            updated_at: 0,
        }
    }
}

impl Clone for LanIdentity {
    fn clone(&self) -> (r: Self)
        ensures
            r@ == self@,
    {
        LanIdentity {
            id: self.id.clone(),
            name: self.name.clone(),
            username: self.username.clone(),
            created_at: self.created_at,
            updated_at: self.updated_at,
        }
    }
}

impl Entry for LanIdentity {
    fn copy(&self) -> (r: Self) {
        self.clone()
    }

    fn same(&self, other: &Self) -> (r: bool) {
        same_text(self.id.as_str(), other.id.as_str()) && same_text(
            self.name.as_str(),
            other.name.as_str(),
        ) && same_text(self.username.as_str(), other.username.as_str()) && self.created_at
            == other.created_at && self.updated_at == other.updated_at
    }
}

/// Identities are ordered by their names, whatever the case, and then by their ids.
impl Ranked for LanIdentity {
    open spec fn ahead(a: IdentityView, b: IdentityView) -> bool {
        text_before(lowercase(a.name), lowercase(b.name)) || (lowercase(a.name) == lowercase(b.name)
            && text_before(a.id, b.id))
    }

    fn is_ahead(&self, other: &Self) -> (r: bool) {
        let a = to_lowercase(self.name.as_str());
        let b = to_lowercase(other.name.as_str());
        is_before(a.as_str(), b.as_str()) || (same_text(a.as_str(), b.as_str()) && is_before(
            self.id.as_str(),
            other.id.as_str(),
        ))
    }

    proof fn ahead_is_an_order(a: IdentityView, b: IdentityView, c: IdentityView) {
        lemma_text_before_total(lowercase(a.name), lowercase(b.name));
        lemma_text_before_total(a.id, b.id);
        if text_before(lowercase(a.name), lowercase(b.name)) && text_before(
            lowercase(b.name),
            lowercase(c.name),
        ) {
            lemma_text_before_transitive(lowercase(a.name), lowercase(b.name), lowercase(c.name));
        }
        if text_before(a.id, b.id) && text_before(b.id, c.id) {
            lemma_text_before_transitive(a.id, b.id, c.id);
        }
    }
}

/// Identities by their ids.
pub type Identities = Map<Seq<char>, IdentityView>;

/// The identity that a host is bound to, where there is such an identity.
pub open spec fn bound(
    identities: Identities,
    bindings: Options,
    fingerprint: Seq<char>,
) -> Option<Seq<char>> {
    let k = ascii_lower(fingerprint);
    if bindings.contains_key(k) && identities.contains_key(bindings[k]) {
        Some(bindings[k])
    } else {
        None
    }
}

/// The identity to use on a host: the one that it is bound to, else the default one, else none.
pub open spec fn resolved(
    identities: Identities,
    bindings: Options,
    default_id: Seq<char>,
    fingerprint: Seq<char>,
) -> Seq<char> {
    match bound(identities, bindings, fingerprint) {
        Some(id) => id,
        None => if identities.contains_key(default_id) {
            default_id
        } else {
            Seq::empty()
        },
    }
}

/// The bindings that are left when an identity is gone.
pub open spec fn bindings_without_identity(bindings: Options, id: Seq<char>) -> Options {
    bindings.restrict(Set::new(|k: Seq<char>| bindings.contains_key(k) && bindings[k] != id))
}

/// The default identity that is left when an identity is gone.
pub open spec fn default_without_identity(default_id: Seq<char>, id: Seq<char>) -> Seq<char> {
    if default_id == id {
        Seq::empty()
    } else {
        default_id
    }
}

/// Whether an identity other than the excluded one has this name, whatever the case.
pub open spec fn name_taken(
    identities: Identities,
    name: Seq<char>,
    excluding_id: Option<Seq<char>>,
) -> bool {
    exists|k: Seq<char>| #[trigger]
        identities.contains_key(k) && Some(identities[k].id) != excluding_id && ascii_lower(
            identities[k].name,
        ) == ascii_lower(name)
}

// ---------------------------------------------------------------------------------------------
// Options
// ---------------------------------------------------------------------------------------------

/// Whether a value stands for the default language.
pub open spec fn default_language(k: Seq<char>, v: Seq<char>) -> bool {
    k == keys::OPTION_LANGUAGE@ && v == "default"@
}

/// The stored options after one of them has been set. The default language is kept as the empty
/// text; what may not be saved is taken out.
pub open spec fn with_local_option(
    over: Options,
    defaults: Options,
    m: Options,
    k: Seq<char>,
    v: Seq<char>,
) -> Options {
    if !can_save(over, k, defaults, v) {
        m.remove(k)
    } else if default_language(k, v) {
        m.insert(k, Seq::empty())
    } else {
        with_option(m, k, v)
    }
}

// ---------------------------------------------------------------------------------------------
// The configuration
// ---------------------------------------------------------------------------------------------

/// What this user keeps on this device.
///
/// The methods that change something tell whether there is something to store.
pub struct LocalConfig {
    /// The host that was used last.
    pub remote_id: String,
    pub kb_layout_type: String,
    pub size: Size,
    pub fav: Vec<String>,
    pub default_lan_identity_id: String,
    pub options: TextMap<String>,
    /// The hosts that were connected to, by fingerprint.
    pub recent_lan_endpoints: TextMap<RecentLanEndpoint>,
    /// The identities, by id.
    pub lan_identities: TextMap<LanIdentity>,
    /// Which identity a host uses, by fingerprint.
    pub lan_identity_bindings: TextMap<String>,
    pub ui_flutter: TextMap<String>,
}

impl Default for LocalConfig {
    fn default() -> (r: Self)
        ensures
            r.remote_id@.len() == 0,
            r.kb_layout_type@.len() == 0,
            r.size == (0i32, 0i32, 0i32, 0i32),
            r.fav@.len() == 0,
            r.default_lan_identity_id@.len() == 0,
            r.options@ == Options::empty(),
            r.recent_lan_endpoints@ == Recents::empty(),
            r.lan_identities@ == Identities::empty(),
            r.lan_identity_bindings@ == Options::empty(),
            r.ui_flutter@ == Options::empty(),
    {
        LocalConfig {
            remote_id: String::new(),
            kb_layout_type: String::new(),
            size: (0, 0, 0, 0),
            fav: Vec::new(),
            default_lan_identity_id: String::new(),
            options: TextMap::new(),
            recent_lan_endpoints: TextMap::new(),
            lan_identities: TextMap::new(),
            lan_identity_bindings: TextMap::new(),
            ui_flutter: TextMap::new(),
        }
    }
}

impl LocalConfig {
    /// Remembers a host, in place of what was known of the one with the same fingerprint.
    pub fn upsert_recent_lan_endpoint(&mut self, recent: RecentLanEndpoint)
        ensures
            *final(self) == (LocalConfig {
                remote_id: final(self).remote_id,
                recent_lan_endpoints: final(self).recent_lan_endpoints,
                ..*old(self)
            }),
            final(self).remote_id@ == recent.endpoint@,
            final(self).recent_lan_endpoints@ == old(self).recent_lan_endpoints@.insert(
                recent.fingerprint@,
                recent@,
            ),
    {
        self.remote_id = recent.endpoint.clone();
        self.recent_lan_endpoints.insert(recent.fingerprint.clone(), recent);
    }

    /// The hosts that were connected to, the last one first.
    pub fn sorted_recent_lan_endpoints(&self) -> (r: Vec<RecentLanEndpoint>)
        ensures
            lists_values(self.recent_lan_endpoints@, views(r@)),
            ranked::<RecentLanEndpoint>(views(r@)),
            forall|i: int, j: int|
                0 <= i < j < r@.len() ==> (#[trigger] r@[i]).last_connected_at >= (
                #[trigger] r@[j]).last_connected_at,
            r@.len() == self.recent_lan_endpoints@.dom().len(),
    {
        let r = ranked_values(&self.recent_lan_endpoints);
        proof {
            crate::ranking::law_list_has_all_values(self.recent_lan_endpoints@, views(r@));
            assert forall|i: int, j: int| 0 <= i < j < r@.len() implies (
            #[trigger] r@[i]).last_connected_at >= (#[trigger] r@[j]).last_connected_at by {
                assert(!<RecentLanEndpoint as Ranked>::ahead(views(r@)[j], views(r@)[i]));
            }
        }
        r
    }

    /// Forgets the hosts that the text names by fingerprint or by endpoint, and which identity
    /// they used.
    pub fn remove_recent_lan_endpoint_entry(&mut self, endpoint_or_fingerprint: &str) -> (r: bool)
        ensures
            *final(self) == (LocalConfig {
                recent_lan_endpoints: final(self).recent_lan_endpoints,
                lan_identity_bindings: final(self).lan_identity_bindings,
                ..*old(self)
            }),
            final(self).recent_lan_endpoints@ == recents_without(
                old(self).recent_lan_endpoints@,
                endpoint_or_fingerprint@,
            ),
            final(self).lan_identity_bindings@ == bindings_without_recent(
                old(self).lan_identity_bindings@,
                old(self).recent_lan_endpoints@,
                endpoint_or_fingerprint@,
            ),
            r == (final(self).recent_lan_endpoints@ != old(self).recent_lan_endpoints@),
    {
        let ghost recents = self.recent_lan_endpoints@;
        let ghost named = endpoint_or_fingerprint@;
        let known = &self.recent_lan_endpoints;
        let other_host = |k: &str, v: &String| -> (keep: bool)
            ensures
                keep == !names_recent(known@, k@, endpoint_or_fingerprint@),
        {
            match known.get(k) {
                Some(recent) => !(eq_ignore_ascii_case(k, endpoint_or_fingerprint) || same_text(
                    recent.endpoint.as_str(),
                    endpoint_or_fingerprint,
                )),
                None => true,
            }
        };
        self.lan_identity_bindings.retain(
            other_host,
            Ghost(|k: Seq<char>, v: Seq<char>| !names_recent(recents, k, named)),
        );
        assert(self.lan_identity_bindings@ =~= bindings_without_recent(
            old(self).lan_identity_bindings@,
            recents,
            named,
        ));
        let lower = to_ascii_lowercase(endpoint_or_fingerprint);
        let removed = self.recent_lan_endpoints.remove(lower.as_str());
        let before = self.recent_lan_endpoints.len();
        let ghost middle = self.recent_lan_endpoints@;
        let other_endpoint = |k: &str, recent: &RecentLanEndpoint| -> (keep: bool)
            ensures
                keep == (recent.endpoint@ != endpoint_or_fingerprint@),
        {
            !same_text(recent.endpoint.as_str(), endpoint_or_fingerprint)
        };
        self.recent_lan_endpoints.retain(
            other_endpoint,
            Ghost(|k: Seq<char>, recent: RecentView| recent.endpoint != named),
        );
        let after = self.recent_lan_endpoints.len();
        proof {
            let left = self.recent_lan_endpoints@;
            assert(left =~= recents_without(recents, named));
            if removed {
                assert(!left.contains_key(ascii_lower(named)));
            } else if before == after {
                assert(left.dom().subset_of(middle.dom()));
                vstd::set_lib::lemma_subset_equality(left.dom(), middle.dom());
                assert(left =~= recents);
            } else {
                assert(middle =~= recents);
            }
        }
        removed || before != after
    }

    /// Removes an identity, with the bindings to it and its standing as the default one.
    pub fn remove_lan_identity_entry(&mut self, identity_id: &str) -> (r: bool)
        ensures
            r == old(self).lan_identities@.contains_key(identity_id@),
            *final(self) == (LocalConfig {
                lan_identities: final(self).lan_identities,
                default_lan_identity_id: final(self).default_lan_identity_id,
                lan_identity_bindings: final(self).lan_identity_bindings,
                ..*old(self)
            }),
            final(self).lan_identities@ == old(self).lan_identities@.remove(identity_id@),
            final(self).default_lan_identity_id@ == (if r {
                default_without_identity(old(self).default_lan_identity_id@, identity_id@)
            } else {
                old(self).default_lan_identity_id@
            }),
            final(self).lan_identity_bindings@ == (if r {
                bindings_without_identity(old(self).lan_identity_bindings@, identity_id@)
            } else {
                old(self).lan_identity_bindings@
            }),
    {
        if !self.lan_identities.remove(identity_id) {
            return false;
        }
        if same_text(self.default_lan_identity_id.as_str(), identity_id) {
            self.default_lan_identity_id = String::new();
            assert(self.default_lan_identity_id@ =~= Seq::<char>::empty());
        }
        let other_identity = |k: &str, bound_identity_id: &String| -> (keep: bool)
            ensures
                keep == (bound_identity_id@ != identity_id@),
        {
            !same_text(bound_identity_id.as_str(), identity_id)
        };
        let ghost id = identity_id@;
        self.lan_identity_bindings.retain(
            other_identity,
            Ghost(|k: Seq<char>, v: Seq<char>| v != id),
        );
        assert(self.lan_identity_bindings@ =~= bindings_without_identity(
            old(self).lan_identity_bindings@,
            id,
        ));
        true
    }

    /// Binds a host to an identity; the empty id unbinds it. Tells whether that changed anything.
    pub fn bind_lan_identity_entry(&mut self, fingerprint: &str, identity_id: &str) -> (r: Result<
        bool,
        ConfigError,
    >)
        ensures
            *final(self) == (LocalConfig {
                lan_identity_bindings: final(self).lan_identity_bindings,
                ..*old(self)
            }),
            !is_fingerprint(fingerprint@) ==> r == Err::<bool, ConfigError>(
                ConfigError::InvalidFingerprint,
            ),
            is_fingerprint(fingerprint@) && identity_id@.len() > 0
                && !old(self).lan_identities@.contains_key(identity_id@) ==> r == Err::<
                bool,
                ConfigError,
            >(ConfigError::UnknownIdentity),
            r is Err ==> *final(self) == *old(self),
            is_fingerprint(fingerprint@) && (identity_id@.len() == 0
                || old(self).lan_identities@.contains_key(identity_id@)) ==> r == Ok::<
                bool,
                ConfigError,
            >(final(self).lan_identity_bindings@ != old(self).lan_identity_bindings@)
                && final(self).lan_identity_bindings@ == with_option(
                old(self).lan_identity_bindings@,
                ascii_lower(fingerprint@),
                identity_id@,
            ),
    {
        if !valid_fingerprint(fingerprint) {
            return Err(ConfigError::InvalidFingerprint);
        }
        if !identity_id.is_empty() && !self.lan_identities.contains_key(identity_id) {
            return Err(ConfigError::UnknownIdentity);
        }
        let fingerprint = to_ascii_lowercase(fingerprint);
        Ok(put_option(&mut self.lan_identity_bindings, fingerprint, identity_id.to_owned()))
    }

    /// The identity to use on a host: the one that it is bound to, else the default one, else
    /// none.
    pub fn resolve_lan_identity_entry(&self, fingerprint: &str) -> (r: String)
        ensures
            r@ == resolved(
                self.lan_identities@,
                self.lan_identity_bindings@,
                self.default_lan_identity_id@,
                fingerprint@,
            ),
    {
        let lower = to_ascii_lowercase(fingerprint);
        if let Some(id) = self.lan_identity_bindings.get(lower.as_str()) {
            if self.lan_identities.contains_key(id.as_str()) {
                return id.clone();
            }
        }
        if self.lan_identities.contains_key(self.default_lan_identity_id.as_str()) {
            self.default_lan_identity_id.clone()
        } else {
            let none = String::new();
            assert(none@ =~= Seq::<char>::empty());
            none
        }
    }

    /// Remembers a host that was connected to.
    ///
    /// `endpoint` is the authority that its address was read as, and `username` the name that
    /// passed the check of names; where one of them was refused, so is the host. `now` is the
    /// present time. What comes back as `Ok` is to be stored.
    pub fn record_recent_lan_endpoint(
        &mut self,
        endpoint: Result<String, ConfigError>,
        username: Result<String, ConfigError>,
        hostname: &str,
        platform: &str,
        fingerprint: &str,
        now: i64,
    ) -> (r: Result<(), ConfigError>)
        ensures
            r is Err ==> *final(self) == *old(self),
            match (endpoint, username) {
                (Err(e), _) => r == Err::<(), ConfigError>(e),
                (_, Err(e)) => r == Err::<(), ConfigError>(e),
                (Ok(endpoint), Ok(username)) => if is_fingerprint(fingerprint@) {
                    &&& r is Ok
                    &&& *final(self) == (LocalConfig {
                        remote_id: final(self).remote_id,
                        recent_lan_endpoints: final(self).recent_lan_endpoints,
                        ..*old(self)
                    })
                    &&& final(self).remote_id@ == endpoint@
                    &&& final(self).recent_lan_endpoints@ == old(self).recent_lan_endpoints@.insert(
                        ascii_lower(fingerprint@),
                        RecentView {
                            endpoint: endpoint@,
                            username: username@,
                            hostname: trimmed(hostname@),
                            platform: trimmed(platform@),
                            fingerprint: ascii_lower(fingerprint@),
                            last_connected_at: now,
                        },
                    )
                } else {
                    r == Err::<(), ConfigError>(ConfigError::InvalidFingerprint)
                },
            },
    {
        let endpoint = match endpoint {
            Ok(endpoint) => endpoint,
            Err(e) => return Err(e),
        };
        let username = match username {
            Ok(username) => username,
            Err(e) => return Err(e),
        };
        if !valid_fingerprint(fingerprint) {
            return Err(ConfigError::InvalidFingerprint);
        }
        self.upsert_recent_lan_endpoint(
            RecentLanEndpoint {
                endpoint,
                username,
                hostname: trim(hostname),
                platform: trim(platform),
                fingerprint: to_ascii_lowercase(fingerprint),
                last_connected_at: now,
            },
        );
        Ok(())
    }

    /// The hosts that were connected to, the last one first.
    pub fn get_recent_lan_endpoints(&self) -> (r: Vec<RecentLanEndpoint>)
        ensures
            lists_values(self.recent_lan_endpoints@, views(r@)),
            ranked::<RecentLanEndpoint>(views(r@)),
            forall|i: int, j: int|
                0 <= i < j < r@.len() ==> (#[trigger] r@[i]).last_connected_at >= (
                #[trigger] r@[j]).last_connected_at,
            r@.len() == self.recent_lan_endpoints@.dom().len(),
    {
        self.sorted_recent_lan_endpoints()
    }

    /// Forgets the hosts that the text names by fingerprint or by endpoint, and which identity
    /// they used. Tells whether there is something to store.
    pub fn remove_recent_lan_endpoint(&mut self, endpoint_or_fingerprint: &str) -> (store: bool)
        ensures
            *final(self) == (LocalConfig {
                recent_lan_endpoints: final(self).recent_lan_endpoints,
                lan_identity_bindings: final(self).lan_identity_bindings,
                ..*old(self)
            }),
            final(self).recent_lan_endpoints@ == recents_without(
                old(self).recent_lan_endpoints@,
                endpoint_or_fingerprint@,
            ),
            final(self).lan_identity_bindings@ == bindings_without_recent(
                old(self).lan_identity_bindings@,
                old(self).recent_lan_endpoints@,
                endpoint_or_fingerprint@,
            ),
            store == (final(self).recent_lan_endpoints@ != old(self).recent_lan_endpoints@),
    {
        self.remove_recent_lan_endpoint_entry(endpoint_or_fingerprint)
    }

    /// The identities, ordered by name and then by id.
    pub fn get_lan_identities(&self) -> (r: Vec<LanIdentity>)
        ensures
            lists_values(self.lan_identities@, views(r@)),
            ranked::<LanIdentity>(views(r@)),
    {
        ranked_values(&self.lan_identities)
    }

    /// The identity with the given id.
    pub fn get_lan_identity(&self, identity_id: &str) -> (r: Option<LanIdentity>)
        ensures
            match r {
                Some(identity) => self.lan_identities@.contains_key(identity_id@) && identity@
                    == self.lan_identities@[identity_id@],
                None => !self.lan_identities@.contains_key(identity_id@),
            },
    {
        match self.lan_identities.get(identity_id) {
            Some(identity) => Some(identity.copy()),
            None => None,
        }
    }

    /// Whether an identity other than the excluded one has this name, whatever the case.
    pub fn lan_identity_name_exists(&self, name: &str, excluding_id: Option<&str>) -> (r: bool)
        ensures
            r == name_taken(
                self.lan_identities@,
                name@,
                match excluding_id {
                    Some(id) => Some(id@),
                    None => None,
                },
            ),
    {
        let ghost excluded = match excluding_id {
            Some(id) => Some(id@),
            None => None,
        };
        let ghost identities = self.lan_identities@;
        let ghost order = self.lan_identities.order();
        let count = self.lan_identities.len();
        let mut i: usize = 0;
        while i < count
            invariant
                i <= count == order.len(),
                order == self.lan_identities.order(),
                identities == self.lan_identities@,
                excluded == (match excluding_id {
                    Some(id) => Some(id@),
                    None => None,
                }),
                forall|j: int| 0 <= j < count ==> identities.contains_key(#[trigger] order[j]),
                forall|j: int|
                    0 <= j < i ==> !(Some(identities[#[trigger] order[j]].id) != excluded
                        && ascii_lower(identities[order[j]].name) == ascii_lower(name@)),
            decreases count - i,
        {
            let identity = self.lan_identities.value_at(i);
            let other = match excluding_id {
                Some(id) => !same_text(identity.id.as_str(), id),
                None => true,
            };
            if other && eq_ignore_ascii_case(identity.name.as_str(), name) {
                assert(identities.contains_key(order[i as int]));
                return true;
            }
            i += 1;
        }
        assert forall|k: Seq<char>| #[trigger] identities.contains_key(k) implies !(Some(
            identities[k].id,
        ) != excluded && ascii_lower(identities[k].name) == ascii_lower(name@)) by {
            let j = choose|j: int| 0 <= j < order.len() && order[j] == k;
            assert(order.contains(k));
        }
        false
    }

    /// Keeps an identity under its id. There is always something to store.
    pub fn store_lan_identity(&mut self, identity: LanIdentity)
        ensures
            *final(self) == (LocalConfig {
                lan_identities: final(self).lan_identities,
                ..*old(self)
            }),
            final(self).lan_identities@ == old(self).lan_identities@.insert(
                identity.id@,
                identity@,
            ),
    {
        self.lan_identities.insert(identity.id.clone(), identity);
    }

    /// Removes an identity, with the bindings to it and its standing as the default one. Tells
    /// whether it was there, and so whether there is something to store.
    pub fn remove_lan_identity(&mut self, identity_id: &str) -> (r: bool)
        ensures
            r == old(self).lan_identities@.contains_key(identity_id@),
            *final(self) == (LocalConfig {
                lan_identities: final(self).lan_identities,
                default_lan_identity_id: final(self).default_lan_identity_id,
                lan_identity_bindings: final(self).lan_identity_bindings,
                ..*old(self)
            }),
            final(self).lan_identities@ == old(self).lan_identities@.remove(identity_id@),
            final(self).default_lan_identity_id@ == (if r {
                default_without_identity(old(self).default_lan_identity_id@, identity_id@)
            } else {
                old(self).default_lan_identity_id@
            }),
            final(self).lan_identity_bindings@ == (if r {
                bindings_without_identity(old(self).lan_identity_bindings@, identity_id@)
            } else {
                old(self).lan_identity_bindings@
            }),
    {
        self.remove_lan_identity_entry(identity_id)
    }

    /// The id of the default identity.
    pub fn get_default_lan_identity_id(&self) -> (r: String)
        ensures
            r@ == self.default_lan_identity_id@,
    {
        self.default_lan_identity_id.clone()
    }

    /// Makes an identity the default one; the empty id leaves none. Tells whether there is
    /// something to store.
    pub fn set_default_lan_identity_id(&mut self, identity_id: &str) -> (r: Result<
        bool,
        ConfigError,
    >)
        ensures
            *final(self) == (LocalConfig {
                default_lan_identity_id: final(self).default_lan_identity_id,
                ..*old(self)
            }),
            identity_id@.len() == 0 || old(self).lan_identities@.contains_key(identity_id@) ==> r
                == Ok::<bool, ConfigError>(old(self).default_lan_identity_id@ != identity_id@)
                && final(self).default_lan_identity_id@ == identity_id@,
            !(identity_id@.len() == 0 || old(self).lan_identities@.contains_key(identity_id@))
                ==> r == Err::<bool, ConfigError>(ConfigError::UnknownIdentity) && *final(self)
                == *old(self),
    {
        if !identity_id.is_empty() && !self.lan_identities.contains_key(identity_id) {
            return Err(ConfigError::UnknownIdentity);
        }
        let store = !same_text(self.default_lan_identity_id.as_str(), identity_id);
        if store {
            self.default_lan_identity_id = identity_id.to_owned();
        }
        Ok(store)
    }

    /// The identity that a host is bound to, or the empty text where there is none.
    pub fn get_bound_lan_identity_id(&self, fingerprint: &str) -> (r: String)
        ensures
            r@ == or_empty(
                bound(self.lan_identities@, self.lan_identity_bindings@, fingerprint@),
            ),
    {
        let lower = to_ascii_lowercase(fingerprint);
        if let Some(id) = self.lan_identity_bindings.get(lower.as_str()) {
            if self.lan_identities.contains_key(id.as_str()) {
                return id.clone();
            }
        }
        text_or_empty(None)
    }

    /// Binds a host to an identity; the empty id unbinds it. Tells whether there is something to
    /// store.
    pub fn bind_lan_identity(&mut self, fingerprint: &str, identity_id: &str) -> (r: Result<
        bool,
        ConfigError,
    >)
        ensures
            *final(self) == (LocalConfig {
                lan_identity_bindings: final(self).lan_identity_bindings,
                ..*old(self)
            }),
            !is_fingerprint(fingerprint@) ==> r == Err::<bool, ConfigError>(
                ConfigError::InvalidFingerprint,
            ),
            is_fingerprint(fingerprint@) && identity_id@.len() > 0
                && !old(self).lan_identities@.contains_key(identity_id@) ==> r == Err::<
                bool,
                ConfigError,
            >(ConfigError::UnknownIdentity),
            r is Err ==> *final(self) == *old(self),
            is_fingerprint(fingerprint@) && (identity_id@.len() == 0
                || old(self).lan_identities@.contains_key(identity_id@)) ==> r == Ok::<
                bool,
                ConfigError,
            >(final(self).lan_identity_bindings@ != old(self).lan_identity_bindings@)
                && final(self).lan_identity_bindings@ == with_option(
                old(self).lan_identity_bindings@,
                ascii_lower(fingerprint@),
                identity_id@,
            ),
    {
        self.bind_lan_identity_entry(fingerprint, identity_id)
    }

    /// The identity to use on a host: the one that it is bound to, else the default one, else
    /// none.
    pub fn resolve_lan_identity_id(&self, fingerprint: &str) -> (r: String)
        ensures
            r@ == resolved(
                self.lan_identities@,
                self.lan_identity_bindings@,
                self.default_lan_identity_id@,
                fingerprint@,
            ),
    {
        self.resolve_lan_identity_entry(fingerprint)
    }

    /// The layout of the keyboard.
    pub fn get_kb_layout_type(&self) -> (r: String)
        ensures
            r@ == self.kb_layout_type@,
    {
        self.kb_layout_type.clone()
    }

    /// Sets the layout of the keyboard. There is always something to store.
    pub fn set_kb_layout_type(&mut self, kb_layout_type: String)
        ensures
            *final(self) == (LocalConfig { kb_layout_type, ..*old(self) }),
    {
        self.kb_layout_type = kb_layout_type;
    }

    /// The place and the size of the window.
    pub fn get_size(&self) -> (r: Size)
        ensures
            r == self.size,
    {
        self.size
    }

    /// Sets the place and the size of the window, unless it is too small. Tells whether there is
    /// something to store.
    pub fn set_size(&mut self, x: i32, y: i32, w: i32, h: i32) -> (store: bool)
        ensures
            store == ((x, y, w, h) != old(self).size && w >= 300 && h >= 300),
            *final(self) == (if store {
                (LocalConfig { size: (x, y, w, h), ..*old(self) })
            } else {
                *old(self)
            }),
    {
        let same = x == self.size.0 && y == self.size.1 && w == self.size.2 && h == self.size.3;
        if same || w < 300 || h < 300 {
            return false;
        }
        self.size = (x, y, w, h);
        true
    }

    /// Sets the host that was used last. Tells whether there is something to store.
    pub fn set_remote_id(&mut self, remote_id: &str) -> (store: bool)
        ensures
            *final(self) == (LocalConfig { remote_id: final(self).remote_id, ..*old(self) }),
            final(self).remote_id@ == remote_id@,
            store == (remote_id@ != old(self).remote_id@),
    {
        if same_text(remote_id, self.remote_id.as_str()) {
            return false;
        }
        self.remote_id = remote_id.to_owned();
        true
    }

    /// The host that was used last.
    pub fn get_remote_id(&self) -> (r: String)
        ensures
            r@ == self.remote_id@,
    {
        self.remote_id.clone()
    }

    /// Sets the favourites. Tells whether there is something to store.
    pub fn set_fav(&mut self, fav: Vec<String>) -> (store: bool)
        ensures
            *final(self) == (LocalConfig { fav: final(self).fav, ..*old(self) }),
            texts(final(self).fav@) == texts(fav@),
            store == (texts(fav@) != texts(old(self).fav@)),
    {
        if same_texts(&self.fav, &fav) {
            return false;
        }
        self.fav = fav;
        true
    }

    /// The favourites.
    pub fn get_fav(&self) -> (r: Vec<String>)
        ensures
            texts(r@) == texts(self.fav@),
    {
        copy_texts(&self.fav)
    }

    /// The favourites, and the hosts that were connected to, the last one first, of a
    /// configuration that was just loaded.
    pub fn load_fav_with_recent_lan_endpoints(self) -> (r: (Vec<String>, Vec<RecentLanEndpoint>))
        ensures
            r.0 == self.fav,
            lists_values(self.recent_lan_endpoints@, views(r.1@)),
            ranked::<RecentLanEndpoint>(views(r.1@)),
            forall|i: int, j: int|
                0 <= i < j < r.1@.len() ==> (#[trigger] r.1@[i]).last_connected_at >= (
                #[trigger] r.1@[j]).last_connected_at,
    {
        let recent = self.sorted_recent_lan_endpoints();
        (self.fav, recent)
    }

    /// The value of an option, with the empty text where it has none.
    pub fn get_option(&self, settings: &Settings, k: &str) -> (r: String)
        ensures
            r@ == or_empty(
                layered(
                    settings.overwrite_local_settings@,
                    self.options@,
                    settings.default_local_settings@,
                    k@,
                ),
            ),
    {
        text_or_empty(
            get_or(
                &settings.overwrite_local_settings,
                &self.options,
                &settings.default_local_settings,
                k,
            ),
        )
    }

    /// The value of an option in a configuration that was just read.
    pub fn get_option_from_file(loaded: LocalConfig, settings: &Settings, k: &str) -> (r: String)
        ensures
            r@ == or_empty(
                layered(
                    settings.overwrite_local_settings@,
                    loaded.options@,
                    settings.default_local_settings@,
                    k@,
                ),
            ),
    {
        loaded.get_option(settings, k)
    }

    /// Whether an option is switched on.
    pub fn get_bool_option(&self, settings: &Settings, k: &str) -> (r: bool)
        ensures
            r == switched_on(
                k@,
                or_empty(
                    layered(
                        settings.overwrite_local_settings@,
                        self.options@,
                        settings.default_local_settings@,
                        k@,
                    ),
                ),
            ),
    {
        let v = self.get_option(settings, k);
        option2bool(k, v.as_str())
    }

    /// Sets an option. Tells whether there is something to store.
    pub fn set_option(&mut self, settings: &Settings, k: String, v: String) -> (store: bool)
        ensures
            *final(self) == (LocalConfig { options: final(self).options, ..*old(self) }),
            final(self).options@ == with_local_option(
                settings.overwrite_local_settings@,
                settings.default_local_settings@,
                old(self).options@,
                k@,
                v@,
            ),
            store == (final(self).options@ != old(self).options@ || (can_save(
                settings.overwrite_local_settings@,
                k@,
                settings.default_local_settings@,
                v@,
            ) && default_language(k@, v@))),
    {
        if !is_option_can_save(
            &settings.overwrite_local_settings,
            k.as_str(),
            &settings.default_local_settings,
            v.as_str(),
        ) {
            return drop_option(&mut self.options, k.as_str());
        }
        if same_text(k.as_str(), keys::OPTION_LANGUAGE) && same_text(v.as_str(), "default") {
            let default_value = String::new();
            assert(default_value@ =~= Seq::<char>::empty());
            self.options.insert(k, default_value);
            return true;
        }
        put_option(&mut self.options, k, v)
    }

    /// The value of an option of the user interface, with the empty text where it has none.
    pub fn get_flutter_option(&self, settings: &Settings, k: &str) -> (r: String)
        ensures
            r@ == or_empty(
                layered(
                    settings.overwrite_local_settings@,
                    self.ui_flutter@,
                    settings.default_local_settings@,
                    k@,
                ),
            ),
    {
        text_or_empty(
            get_or(
                &settings.overwrite_local_settings,
                &self.ui_flutter,
                &settings.default_local_settings,
                k,
            ),
        )
    }

    /// Sets an option of the user interface; an empty value takes it out. Tells whether there is
    /// something to store.
    pub fn set_flutter_option(&mut self, k: String, v: String) -> (store: bool)
        ensures
            *final(self) == (LocalConfig { ui_flutter: final(self).ui_flutter, ..*old(self) }),
            final(self).ui_flutter@ == with_option(old(self).ui_flutter@, k@, v@),
            store == (final(self).ui_flutter@ != old(self).ui_flutter@),
    {
        put_option(&mut self.ui_flutter, k, v)
    }
}

// ---------------------------------------------------------------------------------------------
// Laws
// ---------------------------------------------------------------------------------------------

/// A host keeps one entry, under its fingerprint, wherever it is found: remembering it again
/// replaces the entry and leaves the other hosts alone.
pub proof fn law_one_entry_per_fingerprint(recents: Recents, first: RecentView, second: RecentView)
    requires
        first.fingerprint == second.fingerprint,
    ensures
        ({
            let after = recents.insert(first.fingerprint, first).insert(second.fingerprint, second);
            after == recents.insert(second.fingerprint, second)
                && after[second.fingerprint].endpoint == second.endpoint
        }),
{
    assert(recents.insert(first.fingerprint, first).insert(second.fingerprint, second)
        =~= recents.insert(second.fingerprint, second));
}

/// Whether each host is kept under its fingerprint in lower case.
pub open spec fn keyed_by_fingerprint(recents: Recents) -> bool {
    forall|k: Seq<char>| #[trigger]
        recents.contains_key(k) ==> recents[k].fingerprint == k && ascii_lower(k) == k
}

/// Remembering and forgetting hosts leaves each host under its fingerprint in lower case.
pub proof fn law_hosts_stay_keyed_by_fingerprint(
    recents: Recents,
    fingerprint: Seq<char>,
    recent: RecentView,
    named: Seq<char>,
)
    requires
        keyed_by_fingerprint(recents),
        recent.fingerprint == ascii_lower(fingerprint),
    ensures
        keyed_by_fingerprint(recents.insert(ascii_lower(fingerprint), recent)),
        keyed_by_fingerprint(recents_without(recents, named)),
{
    crate::text::lemma_lower_twice(fingerprint);
}

/// When a host is forgotten by its endpoint, no host with that endpoint is left, and no identity
/// stays bound to one that had it.
pub proof fn law_forgotten_by_endpoint(
    recents: Recents,
    bindings: Options,
    endpoint: Seq<char>,
    k: Seq<char>,
)
    requires
        recents.contains_key(k),
        recents[k].endpoint == endpoint,
    ensures
        !recents_without(recents, endpoint).contains_key(k),
        !bindings_without_recent(bindings, recents, endpoint).contains_key(k),
{
}

/// When a host is forgotten by its fingerprint, in whatever case, neither the host nor its
/// binding is left, as long as it is kept in lower case, as remembering a host does.
pub proof fn law_forgotten_by_fingerprint(
    recents: Recents,
    bindings: Options,
    fingerprint: Seq<char>,
    k: Seq<char>,
)
    requires
        recents.contains_key(k),
        k == ascii_lower(fingerprint),
    ensures
        !recents_without(recents, fingerprint).contains_key(k),
        !bindings_without_recent(bindings, recents, fingerprint).contains_key(k),
{
    crate::text::lemma_lower_twice(fingerprint);
}

/// Forgetting a host leaves every other host, and its binding, as it was.
pub proof fn law_others_are_not_forgotten(
    recents: Recents,
    bindings: Options,
    named: Seq<char>,
    k: Seq<char>,
)
    requires
        recents.contains_key(k),
        ascii_lower(k) != ascii_lower(named),
        recents[k].endpoint != named,
    ensures
        recents_without(recents, named).contains_key(k),
        recents_without(recents, named)[k] == recents[k],
        bindings.contains_key(k) ==> bindings_without_recent(bindings, recents, named).contains_key(
            k,
        ) && bindings_without_recent(bindings, recents, named)[k] == bindings[k],
{
    if k == ascii_lower(named) {
        crate::text::lemma_lower_twice(named);
    }
}

/// The identity to use on a host is one that exists, or none.
pub proof fn law_resolved_identity_exists(
    identities: Identities,
    bindings: Options,
    default_id: Seq<char>,
    fingerprint: Seq<char>,
)
    ensures
        ({
            let id = resolved(identities, bindings, default_id, fingerprint);
            identities.contains_key(id) || id.len() == 0
        }),
{
}

/// A host that is bound to an identity uses that identity, whatever the default one is.
pub proof fn law_binding_overrides_default(
    identities: Identities,
    bindings: Options,
    default_id: Seq<char>,
    fingerprint: Seq<char>,
    id: Seq<char>,
)
    requires
        id.len() > 0,
        identities.contains_key(id),
    ensures
        resolved(
            identities,
            with_option(bindings, ascii_lower(fingerprint), id),
            default_id,
            fingerprint,
        ) == id,
{
}

/// Binding a host twice to the same identity changes nothing the second time.
pub proof fn law_binding_is_idempotent(bindings: Options, fingerprint: Seq<char>, id: Seq<char>)
    ensures
        ({
            let k = ascii_lower(fingerprint);
            with_option(with_option(bindings, k, id), k, id) == with_option(bindings, k, id)
        }),
{
    let k = ascii_lower(fingerprint);
    assert(with_option(with_option(bindings, k, id), k, id) =~= with_option(bindings, k, id));
}

/// The case of a fingerprint does not matter for the identity that a host uses.
pub proof fn law_fingerprint_case_does_not_matter(
    identities: Identities,
    bindings: Options,
    default_id: Seq<char>,
    one: Seq<char>,
    other: Seq<char>,
)
    requires
        ascii_lower(one) == ascii_lower(other),
    ensures
        resolved(identities, bindings, default_id, one) == resolved(
            identities,
            bindings,
            default_id,
            other,
        ),
{
}

/// When an identity is removed, nothing refers to it any more: no binding does, it is not the
/// default one, and no host uses it. The hosts that were bound to it use the default identity
/// that is left.
pub proof fn law_removed_identity_is_not_used(
    identities: Identities,
    bindings: Options,
    default_id: Seq<char>,
    id: Seq<char>,
    fingerprint: Seq<char>,
)
    requires
        id.len() > 0,
    ensures
        ({
            let identities_left = identities.remove(id);
            let bindings_left = bindings_without_identity(bindings, id);
            let default_left = default_without_identity(default_id, id);
            &&& default_left != id
            &&& forall|k: Seq<char>| #[trigger]
                bindings_left.contains_key(k) ==> bindings_left[k] != id
            &&& resolved(identities_left, bindings_left, default_left, fingerprint) != id
            &&& bound(identities, bindings, fingerprint) == Some(id) ==> resolved(
                identities_left,
                bindings_left,
                default_left,
                fingerprint,
            ) == (if identities_left.contains_key(default_left) {
                default_left
            } else {
                Seq::empty()
            })
        }),
{
}

/// Whether each binding, and the default identity where there is one, is to an identity that
/// exists.
pub open spec fn identities_consistent(
    identities: Identities,
    bindings: Options,
    default_id: Seq<char>,
) -> bool {
    &&& forall|k: Seq<char>| #[trigger]
        bindings.contains_key(k) ==> identities.contains_key(bindings[k])
    &&& default_id.len() > 0 ==> identities.contains_key(default_id)
}

/// Whatever is done with identities, each binding and the default identity are to identities that
/// exist: when one is stored, when one is removed, when a host is bound to one or to none, and
/// when a host is forgotten.
pub proof fn law_identities_stay_consistent(
    identities: Identities,
    bindings: Options,
    default_id: Seq<char>,
    identity: IdentityView,
    id: Seq<char>,
    fingerprint: Seq<char>,
    recents: Recents,
    named: Seq<char>,
)
    requires
        identities_consistent(identities, bindings, default_id),
    ensures
        identities_consistent(identities.insert(identity.id, identity), bindings, default_id),
        identities_consistent(
            identities.remove(id),
            bindings_without_identity(bindings, id),
            default_without_identity(default_id, id),
        ),
        id.len() == 0 || identities.contains_key(id) ==> identities_consistent(
            identities,
            with_option(bindings, ascii_lower(fingerprint), id),
            default_id,
        ) && identities_consistent(identities, bindings, id),
        identities_consistent(
            identities,
            bindings_without_recent(bindings, recents, named),
            default_id,
        ),
{
}

/// An identity that was stored is found under its id, and the other ones stay as they were.
pub proof fn law_stored_identity_is_found(
    identities: Identities,
    identity: IdentityView,
    other: Seq<char>,
)
    ensures
        identities.insert(identity.id, identity)[identity.id] == identity,
        other != identity.id && identities.contains_key(other) ==> identities.insert(
            identity.id,
            identity,
        )[other] == identities[other],
{
}

/// What is set is read back, unless the option is overwritten: a value as it is, the default
/// language and the empty value as the empty text or the default.
pub proof fn law_local_option_is_read_back(
    over: Options,
    defaults: Options,
    m: Options,
    k: Seq<char>,
    v: Seq<char>,
)
    requires
        !over.contains_key(k),
    ensures
        ({
            let read = or_empty(layered(over, with_local_option(over, defaults, m, k, v), defaults, k));
            if v.len() == 0 {
                read == or_empty(layered(over, Options::empty(), defaults, k))
            } else if default_language(k, v) && can_save(over, k, defaults, v) {
                read.len() == 0
            } else {
                read == v
            }
        }),
{
    reveal_strlit("default");
}

/// Setting an overwritten option has no effect on what is read.
pub proof fn law_overwritten_local_option_stays(
    over: Options,
    defaults: Options,
    m: Options,
    k: Seq<char>,
    v: Seq<char>,
    read: Seq<char>,
)
    requires
        over.contains_key(k),
    ensures
        layered(over, with_local_option(over, defaults, m, k, v), defaults, read) == layered(
            over,
            m,
            defaults,
            read,
        ),
{
}

/// What an entry of a host stands for tells everything that is kept of it, each under its name.
pub proof fn law_what_a_recent_host_stands_for(recent: RecentLanEndpoint)
    ensures
        recent@.endpoint == recent.endpoint@,
        recent@.username == recent.username@,
        recent@.hostname == recent.hostname@,
        recent@.platform == recent.platform@,
        recent@.fingerprint == recent.fingerprint@,
        recent@.last_connected_at == recent.last_connected_at,
{
}

/// What an identity stands for tells everything that is kept of it, each under its name.
pub proof fn law_what_an_identity_stands_for(identity: LanIdentity)
    ensures
        identity@.id == identity.id@,
        identity@.name == identity.name@,
        identity@.username == identity.username@,
        identity@.created_at == identity.created_at,
        identity@.updated_at == identity.updated_at,
{
}

/// In the list of hosts, one that was connected to later never stands behind one that was
/// connected to earlier.
pub proof fn law_last_host_comes_first(hosts: Seq<RecentView>, i: int, j: int)
    requires
        ranked::<RecentLanEndpoint>(hosts),
        0 <= i < j < hosts.len(),
    ensures
        hosts[i].last_connected_at >= hosts[j].last_connected_at,
{
    assert(!<RecentLanEndpoint as Ranked>::ahead(hosts[j], hosts[i]));
}

/// In the list of identities the names do not go back in the order of texts, whatever their case,
/// and where two names are the same the ids do not.
pub proof fn law_identities_are_listed_by_name(identities: Seq<IdentityView>, i: int, j: int)
    requires
        ranked::<LanIdentity>(identities),
        0 <= i < j < identities.len(),
    ensures
        lowercase(identities[i].name) == lowercase(identities[j].name) || text_before(
            lowercase(identities[i].name),
            lowercase(identities[j].name),
        ),
        lowercase(identities[i].name) == lowercase(identities[j].name) ==> identities[i].id
            == identities[j].id || text_before(identities[i].id, identities[j].id),
{
    let a = identities[i];
    let b = identities[j];
    assert(!<LanIdentity as Ranked>::ahead(b, a));
    lemma_text_before_total(lowercase(a.name), lowercase(b.name));
    lemma_text_before_total(a.id, b.id);
}

/// Of the hosts, those are forgotten that are kept under the fingerprint in lower case or have the
/// endpoint, and no others; the rest stays as it was.
pub proof fn law_which_hosts_are_forgotten(recents: Recents, named: Seq<char>, k: Seq<char>)
    ensures
        recents_without(recents, named).contains_key(k) <==> recents.contains_key(k) && k
            != ascii_lower(named) && recents[k].endpoint != named,
        recents_without(recents, named).contains_key(k) ==> recents_without(recents, named)[k]
            == recents[k],
{
}

/// Of the bindings, those are forgotten whose host is known and has the fingerprint, in whatever
/// case, or the endpoint; a binding of a host that is not known stays.
pub proof fn law_which_bindings_are_forgotten(
    bindings: Options,
    recents: Recents,
    named: Seq<char>,
    k: Seq<char>,
)
    ensures
        ({
            let left = bindings_without_recent(bindings, recents, named);
            &&& !recents.contains_key(k) ==> left.contains_key(k) == bindings.contains_key(k)
            &&& recents.contains_key(k) && ascii_lower(k) == ascii_lower(named)
                ==> !left.contains_key(k)
            &&& recents.contains_key(k) && recents[k].endpoint == named ==> !left.contains_key(k)
            &&& recents.contains_key(k) && ascii_lower(k) != ascii_lower(named)
                && recents[k].endpoint != named ==> left.contains_key(k) == bindings.contains_key(k)
            &&& left.contains_key(k) ==> left[k] == bindings[k]
        }),
{
}

/// A host uses the identity that it is bound to, as long as there is such an identity; otherwise
/// it is as if it were not bound, and uses the default identity, as long as there is that one, and
/// none else.
pub proof fn law_which_identity_a_host_uses(
    identities: Identities,
    bindings: Options,
    default_id: Seq<char>,
    fingerprint: Seq<char>,
    id: Seq<char>,
)
    ensures
        ({
            let to_id = bindings.insert(ascii_lower(fingerprint), id);
            let to_none = bindings.remove(ascii_lower(fingerprint));
            &&& identities.contains_key(id) ==> bound(identities, to_id, fingerprint) == Some(id)
            &&& !identities.contains_key(id) ==> bound(identities, to_id, fingerprint) is None
            &&& bound(identities, to_none, fingerprint) is None
            &&& identities.contains_key(id) ==> resolved(
                identities,
                to_id,
                default_id,
                fingerprint,
            ) == id
            &&& !identities.contains_key(id) ==> resolved(
                identities,
                to_id,
                default_id,
                fingerprint,
            ) == resolved(identities, to_none, default_id, fingerprint)
            &&& identities.contains_key(default_id) ==> resolved(
                identities,
                to_none,
                default_id,
                fingerprint,
            ) == default_id
            &&& !identities.contains_key(default_id) ==> resolved(
                identities,
                to_none,
                default_id,
                fingerprint,
            ).len() == 0
        }),
{
}

/// The binding of a host depends on its own fingerprint alone.
pub proof fn law_bindings_do_not_mix_hosts(
    identities: Identities,
    bindings: Options,
    fingerprint: Seq<char>,
    other: Seq<char>,
    id: Seq<char>,
)
    requires
        ascii_lower(fingerprint) != ascii_lower(other),
    ensures
        bound(identities, bindings.insert(ascii_lower(other), id), fingerprint) == bound(
            identities,
            bindings,
            fingerprint,
        ),
{
}

/// When an identity is gone, the bindings to it are, and no others; it is not the default one any
/// more, and any other default identity stays.
pub proof fn law_what_goes_with_an_identity(
    bindings: Options,
    default_id: Seq<char>,
    id: Seq<char>,
    k: Seq<char>,
)
    ensures
        bindings_without_identity(bindings, id).contains_key(k) <==> bindings.contains_key(k)
            && bindings[k] != id,
        bindings_without_identity(bindings, id).contains_key(k) ==> bindings_without_identity(
            bindings,
            id,
        )[k] == bindings[k],
        default_id == id ==> default_without_identity(default_id, id).len() == 0,
        default_id != id ==> default_without_identity(default_id, id) == default_id,
{
}

/// No name is taken where there are no identities. An identity takes its name, in whatever case,
/// unless it is the excluded one, and no other name.
pub proof fn law_which_names_are_taken(
    identities: Identities,
    k: Seq<char>,
    identity: IdentityView,
    name: Seq<char>,
    excluding_id: Option<Seq<char>>,
)
    ensures
        !name_taken(Identities::empty(), name, excluding_id),
        name_taken(identities.insert(k, identity), name, excluding_id) <==> (excluding_id != Some(
            identity.id,
        ) && ascii_lower(identity.name) == ascii_lower(name)) || name_taken(
            identities.remove(k),
            name,
            excluding_id,
        ),
{
    let after = identities.insert(k, identity);
    let rest = identities.remove(k);
    if name_taken(after, name, excluding_id) {
        let x = choose|x: Seq<char>| #[trigger]
            after.contains_key(x) && Some(after[x].id) != excluding_id && ascii_lower(after[x].name)
                == ascii_lower(name);
        if x != k {
            assert(rest.contains_key(x) && rest[x] == after[x]);
        }
    }
    if name_taken(rest, name, excluding_id) {
        let x = choose|x: Seq<char>| #[trigger]
            rest.contains_key(x) && Some(rest[x].id) != excluding_id && ascii_lower(rest[x].name)
                == ascii_lower(name);
        assert(after.contains_key(x) && after[x] == rest[x]);
    }
    assert(after.contains_key(k) && after[k] == identity);
}

/// Setting an option stores its value where it is neither empty nor the default, and takes it out
/// otherwise, as it does where the option is overwritten. The default language is stored as the
/// empty text. The other options stay.
pub proof fn law_what_setting_a_local_option_stores(
    over: Options,
    defaults: Options,
    m: Options,
    k: Seq<char>,
    v: Seq<char>,
    other: Seq<char>,
)
    ensures
        ({
            let after = with_local_option(over, defaults, m, k, v);
            &&& after.contains_key(k) <==> v.len() > 0 && !over.contains_key(k) && !(
            defaults.contains_key(k) && defaults[k] == v)
            &&& after.contains_key(k) && k == "lang"@ && v == "default"@ ==> after[k].len() == 0
            &&& after.contains_key(k) && (k != "lang"@ || v != "default"@) ==> after[k] == v
            &&& other != k ==> after.contains_key(other) == m.contains_key(other)
            &&& other != k && m.contains_key(other) ==> after[other] == m[other]
        }),
{
    reveal_strlit("default");
}

} // verus!
