//! Options: how the layers of settings combine, which options may be saved, and which ones are
//! obsolete in LAN-only mode.

use vstd::prelude::*;
use crate::keys;
use crate::text::{same_text, starts_with};
use crate::text_map::TextMap;

verus! {

/// What a map from texts to texts stands for.
pub type Options = Map<Seq<char>, Seq<char>>;

/// What an optional text says.
pub open spec fn said(o: Option<String>) -> Option<Seq<char>> {
    match o {
        Some(s) => Some(s@),
        None => None,
    }
}

/// The settings around the stored options.
///
/// Each kind of option has values that win over what is stored (`overwrite_..`) and values that
/// stand in where nothing is stored (`default_..`). Hard and built-in settings belong to the
/// build and are not stored at all.
pub struct Settings {
    pub default_settings: TextMap<String>,
    pub overwrite_settings: TextMap<String>,
    pub default_display_settings: TextMap<String>,
    pub overwrite_display_settings: TextMap<String>,
    pub default_local_settings: TextMap<String>,
    pub overwrite_local_settings: TextMap<String>,
    pub hard_settings: TextMap<String>,
    pub builtin_settings: TextMap<String>,
}

impl Settings {
    /// No settings at all.
    pub fn new() -> (r: Settings)
        ensures
            r.default_settings@ == Options::empty(),
            r.overwrite_settings@ == Options::empty(),
            r.default_display_settings@ == Options::empty(),
            r.overwrite_display_settings@ == Options::empty(),
            r.default_local_settings@ == Options::empty(),
            r.overwrite_local_settings@ == Options::empty(),
            r.hard_settings@ == Options::empty(),
            r.builtin_settings@ == Options::empty(),
    {
        Settings {
            default_settings: TextMap::new(),
            overwrite_settings: TextMap::new(),
            default_display_settings: TextMap::new(),
            overwrite_display_settings: TextMap::new(),
            default_local_settings: TextMap::new(),
            overwrite_local_settings: TextMap::new(),
            hard_settings: TextMap::new(),
            builtin_settings: TextMap::new(),
        }
    }
}

// ---------------------------------------------------------------------------------------------
// Obsolete options
// ---------------------------------------------------------------------------------------------

/// Whether an option has no meaning in LAN-only mode.
pub open spec fn obsolete(key: Seq<char>) -> bool {
    ||| key == "id-server"@
    ||| key == "rendezvous-server"@
    ||| key == "custom-rendezvous-server"@
    ||| key == "rendezvous-servers"@
    ||| key == "relay-server"@
    ||| key == "api-server"@
    ||| key == "key"@
    ||| key == "proxy-url"@
    ||| key == "proxy-username"@
    ||| key == "proxy-password"@
    ||| key == "enable-udp-punch"@
    ||| key == "enable-ipv6-punch"@
    ||| key == "allow-websocket"@
    ||| key == "force-always-relay"@
    ||| key == "access-token"@
    ||| key == "direct-server"@
    ||| key == "direct-access-port"@
    ||| key == "access-mode"@
    ||| key == "approve-mode"@
    ||| key == "verification-method"@
    ||| key == "temporary-password-length"@
    ||| key == "allow-numeric-one-time-password"@
    ||| key == "enable-perm-change-in-accept-window"@
    ||| key == "allow-remote-config-modification"@
    ||| key == "allow-hide-cm"@
    ||| key == "disable-change-id"@
    ||| key == "enable-check-update"@
    ||| key == "allow-auto-update"@
    ||| key == "sync-ab-with-recent-sessions"@
    ||| key == "sync-ab-tags"@
    ||| key == "filter-ab-by-intersection"@
    ||| key == "preset-address-book-name"@
    ||| key == "preset-address-book-tag"@
    ||| key == "preset-address-book-alias"@
    ||| key == "preset-address-book-password"@
    ||| key == "preset-address-book-note"@
    ||| key == "enable-trusted-devices"@
    ||| key == "register-device"@
}

/// Whether an option has no meaning in LAN-only mode.
pub fn is_lan_only_obsolete_option(key: &str) -> (r: bool)
    ensures
        r == obsolete(key@),
{
    same_text(key, "id-server")
        || same_text(key, "rendezvous-server")
        || same_text(key, "custom-rendezvous-server")
        || same_text(key, "rendezvous-servers")
        || same_text(key, "relay-server")
        || same_text(key, "api-server")
        || same_text(key, "key")
        || same_text(key, "proxy-url")
        || same_text(key, "proxy-username")
        || same_text(key, "proxy-password")
        || same_text(key, "enable-udp-punch")
        || same_text(key, "enable-ipv6-punch")
        || same_text(key, "allow-websocket")
        || same_text(key, "force-always-relay")
        || same_text(key, "access-token")
        || same_text(key, "direct-server")
        || same_text(key, "direct-access-port")
        || same_text(key, "access-mode")
        || same_text(key, "approve-mode")
        || same_text(key, "verification-method")
        || same_text(key, "temporary-password-length")
        || same_text(key, "allow-numeric-one-time-password")
        || same_text(key, "enable-perm-change-in-accept-window")
        || same_text(key, "allow-remote-config-modification")
        || same_text(key, "allow-hide-cm")
        || same_text(key, "disable-change-id")
        || same_text(key, "enable-check-update")
        || same_text(key, "allow-auto-update")
        || same_text(key, "sync-ab-with-recent-sessions")
        || same_text(key, "sync-ab-tags")
        || same_text(key, "filter-ab-by-intersection")
        || same_text(key, "preset-address-book-name")
        || same_text(key, "preset-address-book-tag")
        || same_text(key, "preset-address-book-alias")
        || same_text(key, "preset-address-book-password")
        || same_text(key, "preset-address-book-note")
        || same_text(key, "enable-trusted-devices")
        || same_text(key, "register-device")
}

/// The options that still have a meaning.
pub open spec fn without_obsolete(m: Options) -> Options {
    m.restrict(Set::new(|k: Seq<char>| m.contains_key(k) && !obsolete(k)))
}

/// Takes the obsolete options out.
pub fn drop_obsolete(m: &mut TextMap<String>)
    ensures
        final(m)@ == without_obsolete(old(m)@),
{
    let current = |k: &str, v: &String| -> (keep: bool)
        ensures
            keep == !obsolete(k@),
    {
        !is_lan_only_obsolete_option(k)
    };
    m.retain(current, Ghost(|k: Seq<char>, v: Seq<char>| !obsolete(k)));
    assert(m@ =~= without_obsolete(old(m)@));
}

// ---------------------------------------------------------------------------------------------
// Layers
// ---------------------------------------------------------------------------------------------

/// The value of an option: the overwriting one, else the stored one, else the default.
pub open spec fn layered(over: Options, stored: Options, defaults: Options, k: Seq<char>) -> Option<
    Seq<char>,
> {
    if over.contains_key(k) {
        Some(over[k])
    } else if stored.contains_key(k) {
        Some(stored[k])
    } else if defaults.contains_key(k) {
        Some(defaults[k])
    } else {
        None
    }
}

/// What an optional text says, with the empty text where there is none.
pub open spec fn or_empty(o: Option<Seq<char>>) -> Seq<char> {
    match o {
        Some(s) => s,
        None => Seq::empty(),
    }
}

/// The value of an option: the overwriting one, else the stored one, else the default.
pub fn get_or(
    a: &TextMap<String>,
    b: &TextMap<String>,
    c: &TextMap<String>,
    k: &str,
) -> (r: Option<String>)
    ensures
        said(r) == layered(a@, b@, c@, k@),
        a@.contains_key(k@) ==> (r matches Some(v) && v@ == a@[k@]),
        !a@.contains_key(k@) && b@.contains_key(k@) ==> (r matches Some(v) && v@ == b@[k@]),
        !a@.contains_key(k@) && !b@.contains_key(k@) && c@.contains_key(k@) ==> (r matches Some(v)
            && v@ == c@[k@]),
        r is None <==> !a@.contains_key(k@) && !b@.contains_key(k@) && !c@.contains_key(k@),
{
    if let Some(v) = a.get(k) {
        return Some(v.clone());
    }
    if let Some(v) = b.get(k) {
        return Some(v.clone());
    }
    match c.get(k) {
        Some(v) => Some(v.clone()),
        None => None,
    }
}

/// The text itself, or the empty text where there is none.
pub fn text_or_empty(o: Option<String>) -> (r: String)
    ensures
        r@ == or_empty(said(o)),
        o matches Some(s) ==> r@ == s@,
        o is None ==> r@.len() == 0,
{
    match o {
        Some(s) => s,
        None => String::new(),
    }
}

/// Whether a value may be stored: nothing overwrites the option, and the value is not its
/// default.
pub open spec fn can_save(over: Options, k: Seq<char>, defaults: Options, v: Seq<char>) -> bool {
    !over.contains_key(k) && !(defaults.contains_key(k) && defaults[k] == v)
}

/// Whether a value may be stored: nothing overwrites the option, and the value is not its
/// default.
pub fn is_option_can_save(
    overwrite: &TextMap<String>,
    k: &str,
    defaults: &TextMap<String>,
    v: &str,
) -> (r: bool)
    ensures
        r == can_save(overwrite@, k@, defaults@, v@),
        overwrite@.contains_key(k@) ==> !r,
        defaults@.contains_key(k@) && defaults@[k@] == v@ ==> !r,
        !overwrite@.contains_key(k@) && !defaults@.contains_key(k@) ==> r,
        !overwrite@.contains_key(k@) && defaults@[k@] != v@ ==> r,
{
    if overwrite.contains_key(k) {
        return false;
    }
    match defaults.get(k) {
        Some(x) => !same_text(x.as_str(), v),
        None => true,
    }
}

/// The options with one of them set; an empty value takes the option out.
pub open spec fn with_option(m: Options, k: Seq<char>, v: Seq<char>) -> Options {
    if v.len() == 0 {
        m.remove(k)
    } else {
        m.insert(k, v)
    }
}

/// Sets an option, where an empty value takes it out. Tells whether that changed anything.
pub fn put_option(m: &mut TextMap<String>, k: String, v: String) -> (changed: bool)
    ensures
        final(m)@ == with_option(old(m)@, k@, v@),
        changed == (final(m)@ != old(m)@),
{
    let ghost before = m@;
    if v.as_str().is_empty() {
        let changed = m.remove(k.as_str());
        proof {
            if changed {
                assert(!before.remove(k@).contains_key(k@));
            } else {
                assert(before.remove(k@) =~= before);
            }
        }
        changed
    } else {
        let unchanged = match m.get(k.as_str()) {
            Some(old_value) => same_text(old_value.as_str(), v.as_str()),
            None => false,
        };
        proof {
            if unchanged {
                assert(before.insert(k@, v@) =~= before);
            } else {
                assert(before.insert(k@, v@)[k@] == v@);
                assert(before.insert(k@, v@).contains_key(k@));
            }
        }
        if !unchanged {
            m.insert(k, v);
        }
        !unchanged
    }
}

/// Takes an option out. Tells whether that changed anything.
pub fn drop_option(m: &mut TextMap<String>, k: &str) -> (changed: bool)
    ensures
        final(m)@ == old(m)@.remove(k@),
        changed == (final(m)@ != old(m)@),
{
    let ghost before = m@;
    let changed = m.remove(k);
    proof {
        if changed {
            assert(!before.remove(k@).contains_key(k@));
        } else {
            assert(before.remove(k@) =~= before);
        }
    }
    changed
}

// ---------------------------------------------------------------------------------------------
// Switches
// ---------------------------------------------------------------------------------------------

/// Whether an option is on when it has not been set: all are, but for those that allow something
/// and a few others.
pub open spec fn on_by_default(option: Seq<char>) -> bool {
    "enable-"@.is_prefix_of(option) || !("allow-"@.is_prefix_of(option) || option == "stop-service"@
        || option == keys::OPTION_DIRECT_SERVER@ || option == "force-always-relay"@)
}

/// What the value of a switch means: an option that is on by default is off only at `N`, any
/// other one is on only at `Y`.
pub open spec fn switched_on(option: Seq<char>, value: Seq<char>) -> bool {
    if on_by_default(option) {
        value != "N"@
    } else {
        value == "Y"@
    }
}

/// What the value of a switch means.
pub fn option2bool(option: &str, value: &str) -> (r: bool)
    ensures
        r == switched_on(option@, value@),
        value@ == "Y"@ ==> r,
        value@ == "N"@ ==> !r,
        "enable-"@.is_prefix_of(option@) && value@ != "N"@ ==> r,
        "allow-"@.is_prefix_of(option@) && value@ != "Y"@ ==> !r,
{
    proof {
        law_yes_is_on_and_no_is_off(option@);
        if "enable-"@.is_prefix_of(option@) {
            law_enable_options_are_on_unless_no(option@, value@);
        }
        if "allow-"@.is_prefix_of(option@) {
            law_allow_options_are_off_unless_yes(option@, value@);
        }
    }
    if starts_with(option, "enable-") {
        !same_text(value, "N")
    } else if starts_with(option, "allow-") || same_text(option, "stop-service") || same_text(
        option,
        keys::OPTION_DIRECT_SERVER,
    ) || same_text(option, "force-always-relay") {
        same_text(value, "Y")
    } else {
        !same_text(value, "N")
    }
}

/// Whether a map gives an option exactly this value.
pub open spec fn is_set_to(m: Options, k: Seq<char>, v: Seq<char>) -> bool {
    m.contains_key(k) && m[k] == v
}

/// Whether a map gives an option exactly this value.
pub fn has_value(m: &TextMap<String>, k: &str, v: &str) -> (r: bool)
    ensures
        r == is_set_to(m@, k@, v@),
        r <==> m@.contains_key(k@) && m@[k@] == v@,
{
    match m.get(k) {
        Some(x) => same_text(x.as_str(), v),
        None => false,
    }
}

/// Whether this build takes incoming connections only.
pub fn is_incoming_only(settings: &Settings) -> (r: bool)
    ensures
        r == is_set_to(settings.hard_settings@, "conn-type"@, "incoming"@),
{
    has_value(&settings.hard_settings, "conn-type", "incoming")
}

/// Whether this build makes outgoing connections only.
pub fn is_outgoing_only(settings: &Settings) -> (r: bool)
    ensures
        r == is_set_to(settings.hard_settings@, "conn-type"@, "outgoing"@),
{
    has_value(&settings.hard_settings, "conn-type", "outgoing")
}

/// Whether a hard setting is `Y`.
pub fn is_some_hard_opton(settings: &Settings, name: &str) -> (r: bool)
    ensures
        r == is_set_to(settings.hard_settings@, name@, "Y"@),
{
    has_value(&settings.hard_settings, name, "Y")
}

/// Whether listening on TCP is disabled.
pub fn is_disable_tcp_listen(settings: &Settings) -> (r: bool)
    ensures
        r == is_set_to(settings.hard_settings@, "disable-tcp-listen"@, "Y"@),
{
    is_some_hard_opton(settings, "disable-tcp-listen")
}

/// Whether the settings page is disabled.
pub fn is_disable_settings(settings: &Settings) -> (r: bool)
    ensures
        r == is_set_to(settings.hard_settings@, "disable-settings"@, "Y"@),
{
    is_some_hard_opton(settings, "disable-settings")
}

/// Whether the address book is disabled.
pub fn is_disable_ab(settings: &Settings) -> (r: bool)
    ensures
        r == is_set_to(settings.hard_settings@, "disable-ab"@, "Y"@),
{
    is_some_hard_opton(settings, "disable-ab")
}

/// Whether accounts are disabled.
pub fn is_disable_account(settings: &Settings) -> (r: bool)
    ensures
        r == is_set_to(settings.hard_settings@, "disable-account"@, "Y"@),
{
    is_some_hard_opton(settings, "disable-account")
}

/// Whether installing is disabled.
pub fn is_disable_installation(settings: &Settings) -> (r: bool)
    ensures
        r == is_set_to(settings.hard_settings@, "disable-installation"@, "Y"@),
{
    is_some_hard_opton(settings, "disable-installation")
}

// ---------------------------------------------------------------------------------------------
// Laws
// ---------------------------------------------------------------------------------------------

/// The obsolete options are those for servers, relays, proxies, direct access, ways of asking for
/// access, updates, address books and registered devices.
pub proof fn law_which_options_are_obsolete(key: Seq<char>)
    ensures
        obsolete(key) <==> set![
            "id-server"@,
            "rendezvous-server"@,
            "custom-rendezvous-server"@,
            "rendezvous-servers"@,
            "relay-server"@,
            "api-server"@,
            "key"@,
            "proxy-url"@,
            "proxy-username"@,
            "proxy-password"@,
            "enable-udp-punch"@,
            "enable-ipv6-punch"@,
            "allow-websocket"@,
            "force-always-relay"@,
            "access-token"@,
            "direct-server"@,
            "direct-access-port"@,
            "access-mode"@,
            "approve-mode"@,
            "verification-method"@,
            "temporary-password-length"@,
            "allow-numeric-one-time-password"@,
            "enable-perm-change-in-accept-window"@,
            "allow-remote-config-modification"@,
            "allow-hide-cm"@,
            "disable-change-id"@,
            "enable-check-update"@,
            "allow-auto-update"@,
            "sync-ab-with-recent-sessions"@,
            "sync-ab-tags"@,
            "filter-ab-by-intersection"@,
            "preset-address-book-name"@,
            "preset-address-book-tag"@,
            "preset-address-book-alias"@,
            "preset-address-book-password"@,
            "preset-address-book-note"@,
            "enable-trusted-devices"@,
            "register-device"@,
        ].contains(key),
{
}

/// Taking the obsolete options out takes out those and no others, and changes no value.
pub proof fn law_only_obsolete_options_are_taken_out(m: Options, k: Seq<char>)
    ensures
        without_obsolete(m).contains_key(k) <==> m.contains_key(k) && !obsolete(k),
        without_obsolete(m).contains_key(k) ==> without_obsolete(m)[k] == m[k],
{
}

/// An option has the overwriting value whatever is stored, the stored one whatever the default
/// is, and else the default; it has no value where it stands nowhere.
pub proof fn law_layers_give_way_in_order(
    over: Options,
    stored: Options,
    defaults: Options,
    k: Seq<char>,
    v: Seq<char>,
)
    ensures
        layered(over.insert(k, v), stored, defaults, k) == Some(v),
        layered(over.remove(k), stored.insert(k, v), defaults, k) == Some(v),
        layered(over.remove(k), stored.remove(k), defaults.insert(k, v), k) == Some(v),
        layered(over.remove(k), stored.remove(k), defaults.remove(k), k) is None,
{
}

/// The value of an option depends on what the layers say of that option alone.
pub proof fn law_layers_do_not_mix_options(
    over: Options,
    stored: Options,
    defaults: Options,
    k: Seq<char>,
    other: Seq<char>,
    v: Seq<char>,
)
    requires
        other != k,
    ensures
        layered(over.insert(other, v), stored, defaults, k) == layered(over, stored, defaults, k),
        layered(over, stored.insert(other, v), defaults, k) == layered(over, stored, defaults, k),
        layered(over, stored, defaults.insert(other, v), k) == layered(over, stored, defaults, k),
{
}

/// What a text that may be missing says is the text, and the empty text where it is missing.
pub proof fn law_missing_text_is_empty(s: String)
    ensures
        said(Some(s)) == Some(s@),
        said(None) is None,
        or_empty(said(Some(s))) == s@,
        or_empty(None).len() == 0,
{
}

/// An option that is overwritten is never saved, nor is a value that is the default; every other
/// value is.
pub proof fn law_what_may_be_saved(
    over: Options,
    defaults: Options,
    k: Seq<char>,
    v: Seq<char>,
    other: Seq<char>,
)
    ensures
        !can_save(over.insert(k, other), k, defaults, v),
        !can_save(over, k, defaults.insert(k, v), v),
        other != v ==> can_save(over.remove(k), k, defaults.insert(k, other), v),
        can_save(over.remove(k), k, defaults.remove(k), v),
{
}

/// An option that was set has its new value, or is gone where that is empty, and every other
/// option stays as it was.
pub proof fn law_set_option_is_kept(m: Options, k: Seq<char>, v: Seq<char>, other: Seq<char>)
    ensures
        v.len() > 0 ==> with_option(m, k, v).contains_key(k) && with_option(m, k, v)[k] == v,
        v.len() == 0 ==> !with_option(m, k, v).contains_key(k),
        other != k ==> with_option(m, k, v).contains_key(other) == m.contains_key(other),
        other != k && m.contains_key(other) ==> with_option(m, k, v)[other] == m[other],
{
}

/// Every option is on at `Y` and off at `N`.
pub proof fn law_yes_is_on_and_no_is_off(option: Seq<char>)
    ensures
        switched_on(option, "Y"@),
        !switched_on(option, "N"@),
{
    reveal_strlit("Y");
    reveal_strlit("N");
    assert("Y"@[0] != "N"@[0]);
}

/// An option that begins with `enable-` is off at `N` alone.
pub proof fn law_enable_options_are_on_unless_no(option: Seq<char>, value: Seq<char>)
    requires
        "enable-"@.is_prefix_of(option),
    ensures
        switched_on(option, value) <==> value != "N"@,
{
}

/// An option that begins with `allow-` is on at `Y` alone, and so are the options that stop the
/// service, take direct connections and always use a relay.
pub proof fn law_allow_options_are_off_unless_yes(option: Seq<char>, value: Seq<char>)
    requires
        "allow-"@.is_prefix_of(option) || option == "stop-service"@ || option == "direct-server"@
            || option == "force-always-relay"@,
    ensures
        switched_on(option, value) <==> value == "Y"@,
{
    reveal_strlit("enable-");
    reveal_strlit("allow-");
    reveal_strlit("stop-service");
    reveal_strlit("direct-server");
    reveal_strlit("force-always-relay");
    assert(!"enable-"@.is_prefix_of(option)) by {
        assert("enable-"@[0] == 'e');
        if "enable-"@.is_prefix_of(option) {
            assert(option.subrange(0, 7)[0] == 'e');
            if "allow-"@.is_prefix_of(option) {
                assert(option.subrange(0, 6)[0] == 'a');
            }
        }
    }
}

/// Every other option is off at `N` alone.
pub proof fn law_other_options_are_on_unless_no(option: Seq<char>, value: Seq<char>)
    requires
        !"allow-"@.is_prefix_of(option),
        option != "stop-service"@,
        option != "direct-server"@,
        option != "force-always-relay"@,
    ensures
        switched_on(option, value) <==> value != "N"@,
{
}

/// A map gives an option the value that was put there, whatever the other options are, and none
/// where the option was taken out.
pub proof fn law_map_gives_what_was_put_there(
    m: Options,
    k: Seq<char>,
    v: Seq<char>,
    w: Seq<char>,
    other: Seq<char>,
)
    ensures
        is_set_to(m.insert(k, v), k, w) <==> v == w,
        !is_set_to(m.remove(k), k, w),
        other != k ==> is_set_to(m.insert(other, v), k, w) == is_set_to(m, k, w),
{
}

} // verus!
