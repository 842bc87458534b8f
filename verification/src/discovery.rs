//! Hosts that were found in the LAN, and what is known of their presence.

use vstd::prelude::*;
use crate::options::Options;
use crate::ranking::views;
use crate::text::{ascii_lower, eq_ignore_ascii_case, same_text};
use crate::text_map::TextMap;

verus! {

/// How long what was found out about the presence of a host counts, in milliseconds.
pub const STATUS_MAX_AGE_MS: i64 = 30_000;

/// How many scans in a row have to miss a host before it counts as offline.
pub const MISSES_BEFORE_OFFLINE: u32 = 3;

/// A host that was found in the LAN. Times are in milliseconds.
pub struct DiscoveryPeer {
    pub id: String,
    pub username: String,
    pub hostname: String,
    pub platform: String,
    pub online: bool,
    /// When it was last found.
    pub last_seen: i64,
    /// When it was last looked for.
    pub last_checked: i64,
    /// How many scans in a row have missed it.
    pub missed_discoveries: u32,
    pub endpoint: String,
    pub fingerprint: String,
    pub ip_mac: TextMap<String>,
}

/// What a [`DiscoveryPeer`] stands for.
#[verifier::ext_equal]
pub struct PeerView {
    pub id: Seq<char>,
    pub username: Seq<char>,
    pub hostname: Seq<char>,
    pub platform: Seq<char>,
    pub online: bool,
    pub last_seen: i64,
    pub last_checked: i64,
    pub missed_discoveries: u32,
    pub endpoint: Seq<char>,
    pub fingerprint: Seq<char>,
    pub ip_mac: Options,
}

impl View for DiscoveryPeer {
    type V = PeerView;

    open spec fn view(&self) -> PeerView {
        PeerView {
            id: self.id@,
            username: self.username@,
            hostname: self.hostname@,
            platform: self.platform@,
            online: self.online,
            last_seen: self.last_seen,
            last_checked: self.last_checked,
            missed_discoveries: self.missed_discoveries,
            endpoint: self.endpoint@,
            fingerprint: self.fingerprint@,
            ip_mac: self.ip_mac@,
        }
    }
}

impl Default for DiscoveryPeer {
    fn default() -> (r: Self)
        ensures
            r@ == (PeerView {
                id: Seq::empty(),
                username: Seq::empty(),
                hostname: Seq::empty(),
                platform: Seq::empty(),
                online: false,
                last_seen: 0,
                last_checked: 0,
                missed_discoveries: 0,
                endpoint: Seq::empty(),
                fingerprint: Seq::empty(),
                ip_mac: Map::empty(),
            }),
    {
        let r = DiscoveryPeer {
            id: String::new(),
            username: String::new(),
            hostname: String::new(),
            platform: String::new(),
            online: false,
            last_seen: 0,
            last_checked: 0,
            missed_discoveries: 0,
            endpoint: String::new(),
            fingerprint: String::new(),
            ip_mac: TextMap::new(),
        };
        assert(r.id@ =~= Seq::empty());
        assert(r.username@ =~= Seq::empty());
        assert(r.hostname@ =~= Seq::empty());
        assert(r.platform@ =~= Seq::empty());
        assert(r.endpoint@ =~= Seq::empty());
        assert(r.fingerprint@ =~= Seq::empty());
        r
    }
}

impl Clone for DiscoveryPeer {
    fn clone(&self) -> (r: Self)
        ensures
            r@ == self@,
    {
        DiscoveryPeer {
            id: self.id.clone(),
            username: self.username.clone(),
            hostname: self.hostname.clone(),
            platform: self.platform.clone(),
            online: self.online,
            last_seen: self.last_seen,
            last_checked: self.last_checked,
            missed_discoveries: self.missed_discoveries,
            endpoint: self.endpoint.clone(),
            fingerprint: self.fingerprint.clone(),
            ip_mac: self.ip_mac.copy(),
        }
    }
}

/// Whether what was found out about a host at a time still counts now.
pub open spec fn recent(then: i64, now: i64) -> bool {
    0 <= now - then < STATUS_MAX_AGE_MS
}

/// What is known of the presence of a host. Nothing is known of a host that was never found, nor
/// where the last check is too long ago or the clock has gone back.
pub open spec fn presence(p: PeerView, now: i64) -> Option<bool> {
    if !(0 < p.last_seen <= now && p.last_seen <= p.last_checked && recent(p.last_checked, now)) {
        None
    } else if p.online && p.missed_discoveries == 0 {
        Some(true)
    } else if p.missed_discoveries >= MISSES_BEFORE_OFFLINE && now - p.last_seen
        >= STATUS_MAX_AGE_MS {
        Some(false)
    } else {
        None
    }
}

/// A host that was found at a time.
pub open spec fn seen(p: PeerView, now: i64) -> PeerView {
    PeerView { online: true, last_seen: now, last_checked: now, missed_discoveries: 0, ..p }
}

/// A host that was missed at a time. Misses count on from one check to the next, but not over a
/// long pause.
pub open spec fn missed(p: PeerView, now: i64) -> PeerView {
    PeerView {
        online: false,
        last_checked: now,
        missed_discoveries: if !recent(p.last_checked, now) {
            1
        } else if p.missed_discoveries == u32::MAX {
            u32::MAX
        } else {
            (p.missed_discoveries + 1) as u32
        },
        ..p
    }
}

/// Whether two entries stand for the same host: by fingerprint where both have one, and by id and
/// user otherwise.
pub open spec fn same_host(a: PeerView, b: PeerView) -> bool {
    if a.fingerprint.len() > 0 && b.fingerprint.len() > 0 {
        ascii_lower(a.fingerprint) == ascii_lower(b.fingerprint)
    } else {
        a.id == b.id && a.username == b.username
    }
}

impl DiscoveryPeer {
    /// What is known of the presence of the host.
    pub fn online_state(&self, now: i64) -> (r: Option<bool>)
        ensures
            r == presence(self@, now),
    {
        if self.last_seen <= 0 || self.last_seen > now || self.last_checked < self.last_seen
            || now < self.last_checked || now - self.last_checked >= STATUS_MAX_AGE_MS {
            return None;
        }
        if self.online && self.missed_discoveries == 0 {
            Some(true)
        } else if self.missed_discoveries >= MISSES_BEFORE_OFFLINE && now - self.last_seen
            >= STATUS_MAX_AGE_MS {
            Some(false)
        } else {
            None
        }
    }

    /// The host was found.
    pub fn mark_seen(&mut self, now: i64)
        ensures
            final(self)@ == seen(old(self)@, now),
            final(self).online,
            final(self).last_seen == now,
            final(self).last_checked == now,
            final(self).missed_discoveries == 0,
    {
        self.online = true;
        self.last_seen = now;
        self.last_checked = now;
        self.missed_discoveries = 0;
    }

    /// The host was missed.
    pub fn mark_missed(&mut self, now: i64)
        ensures
            final(self)@ == missed(old(self)@, now),
            !final(self).online,
            final(self).last_checked == now,
            final(self).last_seen == old(self).last_seen,
    {
        let age: i128 = now as i128 - self.last_checked as i128;
        self.missed_discoveries = if 0 <= age && age < STATUS_MAX_AGE_MS as i128 {
            self.missed_discoveries.saturating_add(1)
        } else {
            1
        };
        self.online = false;
        self.last_checked = now;
    }

    /// Whether two entries stand for the same host.
    pub fn is_same_peer(&self, other: &DiscoveryPeer) -> (r: bool)
        ensures
            r == same_host(self@, other@),
            self.fingerprint@.len() > 0 && other.fingerprint@.len() > 0 ==> r == (
            self.fingerprint@.len() == other.fingerprint@.len() && forall|i: int|
                0 <= i < self.fingerprint@.len() ==> {
                    ||| #[trigger] self.fingerprint@[i] == other.fingerprint@[i]
                    ||| 'A' <= self.fingerprint@[i] <= 'Z' && other.fingerprint@[i] as int
                        == self.fingerprint@[i] as int + 32
                    ||| 'A' <= other.fingerprint@[i] <= 'Z' && self.fingerprint@[i] as int
                        == other.fingerprint@[i] as int + 32
                }),
            self.fingerprint@.len() == 0 || other.fingerprint@.len() == 0 ==> r == (self.id@
                == other.id@ && self.username@ == other.username@),
    {
        if !self.fingerprint.as_str().is_empty() && !other.fingerprint.as_str().is_empty() {
            eq_ignore_ascii_case(self.fingerprint.as_str(), other.fingerprint.as_str())
        } else {
            same_text(self.id.as_str(), other.id.as_str()) && same_text(
                self.username.as_str(),
                other.username.as_str(),
            )
        }
    }
}

/// The hosts that were found in the LAN.
pub struct LanPeers {
    pub peers: Vec<DiscoveryPeer>,
}

impl Default for LanPeers {
    fn default() -> (r: Self)
        ensures
            r.peers@.len() == 0,
    {
        LanPeers { peers: Vec::new() }
    }
}

impl LanPeers {
    /// The list of these hosts that is to be stored.
    pub fn store(peers: &[DiscoveryPeer]) -> (r: LanPeers)
        ensures
            views(r.peers@) == views(peers@),
            r.peers@.len() == peers@.len(),
            forall|i: int| 0 <= i < peers@.len() ==> (#[trigger] r.peers@[i])@ == peers@[i]@,
    {
        let mut list: Vec<DiscoveryPeer> = Vec::new();
        let mut i: usize = 0;
        while i < peers.len()
            invariant
                i <= peers.len(),
                list@.len() == i,
                forall|j: int| 0 <= j < i ==> (#[trigger] list@[j])@ == peers@[j]@,
            decreases peers.len() - i,
        {
            list.push(peers[i].clone());
            i += 1;
        }
        assert(views(list@) =~= views(peers@));
        LanPeers { peers: list }
    }
}

// ---------------------------------------------------------------------------------------------
// Laws
// ---------------------------------------------------------------------------------------------

/// A host that was found is online for as long as that counts, and nothing is known of it later
/// or where the clock has gone back.
pub proof fn law_seen_host_is_online_for_a_while(p: PeerView, then: i64, now: i64)
    requires
        then > 0,
    ensures
        presence(seen(p, then), now) == (if recent(then, now) {
            Some(true)
        } else {
            None
        }),
{
}

/// A host that was just missed is never online.
pub proof fn law_missed_host_is_not_online(p: PeerView, then: i64, now: i64)
    ensures
        presence(missed(p, then), now) != Some(true),
{
}

/// A host is offline only after enough scans in a row have missed it, and it was found last
/// longer ago than findings count, while the last check still counts.
pub proof fn law_offline_needs_evidence(p: PeerView, now: i64)
    requires
        presence(p, now) == Some(false),
    ensures
        p.missed_discoveries >= MISSES_BEFORE_OFFLINE,
        p.last_seen > 0,
        now - p.last_seen >= STATUS_MAX_AGE_MS,
        recent(p.last_checked, now),
{
}

/// Missing evidence is not an offline result: nothing is known of a host that was never found.
pub proof fn law_unseen_host_is_unknown(p: PeerView, now: i64)
    requires
        p.last_seen <= 0,
    ensures
        presence(p, now) == None::<bool>,
{
}

/// Scans that miss a host leave it unknown until there are enough of them in a row.
pub proof fn law_few_misses_leave_it_unknown(p: PeerView, t1: i64, t2: i64, t3: i64, now: i64)
    ensures
        presence(missed(seen(p, t1), t2), now) == None::<bool>,
        presence(missed(missed(seen(p, t1), t2), t3), now) == None::<bool>,
{
}

/// A miss after a long pause is the first one again, and leaves it unknown whether the host is
/// there.
pub proof fn law_pause_starts_over(p: PeerView, now: i64)
    requires
        !recent(p.last_checked, now),
    ensures
        missed(p, now).missed_discoveries == 1,
        presence(missed(p, now), now) == None::<bool>,
{
}

/// Missing a host does not change when it was last found.
pub proof fn law_miss_keeps_last_seen(p: PeerView, now: i64)
    ensures
        missed(p, now).last_seen == p.last_seen,
{
}

/// Standing for the same host goes both ways, and each entry stands for the host it stands for.
pub proof fn law_same_host_is_symmetric(a: PeerView, b: PeerView)
    ensures
        same_host(a, b) == same_host(b, a),
        same_host(a, a),
{
}

/// What an entry stands for tells everything that is kept of the host, each under its name.
pub proof fn law_what_an_entry_stands_for(peer: DiscoveryPeer)
    ensures
        peer@.id == peer.id@,
        peer@.username == peer.username@,
        peer@.hostname == peer.hostname@,
        peer@.platform == peer.platform@,
        peer@.online == peer.online,
        peer@.last_seen == peer.last_seen,
        peer@.last_checked == peer.last_checked,
        peer@.missed_discoveries == peer.missed_discoveries,
        peer@.endpoint == peer.endpoint@,
        peer@.fingerprint == peer.fingerprint@,
        peer@.ip_mac == peer.ip_mac@,
{
}

/// A host is online where the last scan has found it, not before the host was last seen and less
/// than half a minute ago, and where no scan has missed it since; and only there.
pub proof fn law_online_needs_a_fresh_finding(p: PeerView, now: i64)
    ensures
        presence(p, now) == Some(true) <==> {
            &&& p.online
            &&& p.missed_discoveries == 0
            &&& 0 < p.last_seen
            &&& p.last_seen <= p.last_checked
            &&& p.last_checked <= now
            &&& now < p.last_checked + 30_000
        },
{
}

/// A host is offline where three scans in a row or more have missed it, the last of them less
/// than half a minute ago, and it was last seen at least half a minute ago; and only there.
pub proof fn law_offline_needs_three_misses(p: PeerView, now: i64)
    ensures
        presence(p, now) == Some(false) <==> {
            &&& p.missed_discoveries >= 3
            &&& 0 < p.last_seen
            &&& p.last_seen + 30_000 <= now
            &&& p.last_seen <= p.last_checked
            &&& p.last_checked <= now
            &&& now < p.last_checked + 30_000
        },
{
}

/// Finding a host renews what is known of its presence, and nothing else.
pub proof fn law_finding_renews_the_presence(p: PeerView, now: i64)
    ensures
        seen(p, now).online,
        seen(p, now).last_seen == now,
        seen(p, now).last_checked == now,
        seen(p, now).missed_discoveries == 0,
        seen(p, now).id == p.id,
        seen(p, now).username == p.username,
        seen(p, now).hostname == p.hostname,
        seen(p, now).platform == p.platform,
        seen(p, now).endpoint == p.endpoint,
        seen(p, now).fingerprint == p.fingerprint,
        seen(p, now).ip_mac == p.ip_mac,
{
}

/// Missing a host counts one miss more where the last check was less than half a minute ago, up
/// to the largest number there is, and is the first miss otherwise. Nothing else changes but the
/// time of the check, and that the host is not there.
pub proof fn law_misses_are_counted(p: PeerView, now: i64)
    ensures
        p.last_checked <= now < p.last_checked + 30_000 && p.missed_discoveries < u32::MAX
            ==> missed(p, now).missed_discoveries == p.missed_discoveries + 1,
        p.last_checked <= now < p.last_checked + 30_000 && p.missed_discoveries == u32::MAX
            ==> missed(p, now).missed_discoveries == u32::MAX,
        now < p.last_checked || now >= p.last_checked + 30_000 ==> missed(
            p,
            now,
        ).missed_discoveries == 1,
        !missed(p, now).online,
        missed(p, now).last_checked == now,
        missed(p, now).last_seen == p.last_seen,
        missed(p, now).id == p.id,
        missed(p, now).username == p.username,
        missed(p, now).hostname == p.hostname,
        missed(p, now).platform == p.platform,
        missed(p, now).endpoint == p.endpoint,
        missed(p, now).fingerprint == p.fingerprint,
        missed(p, now).ip_mac == p.ip_mac,
{
}

/// A host that was found, and that three scans have missed since, each less than half a minute
/// after the one before, is offline once it was last seen half a minute ago.
pub proof fn law_three_misses_make_it_offline(
    p: PeerView,
    t0: i64,
    t1: i64,
    t2: i64,
    t3: i64,
    now: i64,
)
    requires
        0 < t0 <= t1 < t0 + 30_000,
        t1 <= t2 < t1 + 30_000,
        t2 <= t3 < t2 + 30_000,
        t3 <= now < t3 + 30_000,
        t0 + 30_000 <= now,
    ensures
        presence(missed(missed(missed(seen(p, t0), t1), t2), t3), now) == Some(false),
{
}

/// Two entries that both have a fingerprint stand for the same host where the fingerprints have
/// the same length and differ at no place in more than the case of an ASCII letter, and only
/// there.
pub proof fn law_fingerprints_tell_hosts_apart(a: PeerView, b: PeerView)
    requires
        a.fingerprint.len() > 0,
        b.fingerprint.len() > 0,
    ensures
        same_host(a, b) <==> a.fingerprint.len() == b.fingerprint.len() && forall|i: int|
            0 <= i < a.fingerprint.len() ==> {
                ||| #[trigger] a.fingerprint[i] == b.fingerprint[i]
                ||| 'A' <= a.fingerprint[i] <= 'Z' && b.fingerprint[i] as int
                    == a.fingerprint[i] as int + 32
                ||| 'A' <= b.fingerprint[i] <= 'Z' && a.fingerprint[i] as int
                    == b.fingerprint[i] as int + 32
            },
{
    crate::text::law_same_up_to_case(a.fingerprint, b.fingerprint);
}

/// Where one of two entries has no fingerprint, they stand for the same host where both the id
/// and the user are the same, and only there.
pub proof fn law_without_fingerprint_id_and_user_count(a: PeerView, b: PeerView)
    requires
        a.fingerprint.len() == 0 || b.fingerprint.len() == 0,
    ensures
        a.id == b.id && a.username == b.username ==> same_host(a, b),
        a.id != b.id ==> !same_host(a, b),
        a.username != b.username ==> !same_host(a, b),
{
}

} // verus!
