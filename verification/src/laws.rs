//! What holds of the operations, from what is given to them to what comes back: of one call, and
//! of calls that follow one another.

use vstd::prelude::*;
use crate::config::{Config, KeyPair};
use crate::config2::Config2;
use crate::discovery::DiscoveryPeer;
use crate::error::ConfigError;
use crate::local_config::{LanIdentity, LocalConfig, RecentLanEndpoint};
use crate::options::{is_incoming_only, is_outgoing_only, obsolete, option2bool, Settings};
use crate::peer_config::{Defaults, OpenedSecrets, PeerConfig, SealedSecrets};
use crate::permanent_password::PasswordPlan;
use crate::ranking::views;
use crate::status::Status;
use crate::storage::Opened;
use crate::text::ascii_lower;
use crate::text_map::TextMap;
use crate::user_defaults::UserDefaultConfig;

verus! {

// ---------------------------------------------------------------------------------------------
// The permanent password
// ---------------------------------------------------------------------------------------------

/// Where this device has a permanent password that can be used, the salt for logging in is that of
/// this device: the one that it had, or a new one of the given length where it had none.
pub proof fn law_salt_for_logging_in(
    config: &mut Config,
    settings: &Settings,
    preset_usable: bool,
    hashed: bool,
    salt_len: usize,
    r: (String, bool),
)
    requires
        call_ensures(
            Config::get_effective_permanent_password_salt,
            (config, settings, true, preset_usable, hashed, salt_len),
            r,
        ),
        old(config).password@.len() > 0,
    ensures
        r.0@ == final(config).salt@,
        old(config).salt@.len() > 0 ==> r.0@ == old(config).salt@ && !r.1,
        old(config).salt@.len() == 0 ==> r.0@.len() == salt_len,
        salt_len > 0 ==> r.0@.len() > 0,
        final(config).password@ == old(config).password@,
{
}

/// A salt for logging in that was given once is given again, and does not have to be stored again.
pub proof fn law_salt_for_logging_in_stays(
    first: &mut Config,
    second: &mut Config,
    settings: &Settings,
    local_usable: bool,
    preset_usable: bool,
    hashed: bool,
    salt_len: usize,
    one: (String, bool),
    two: (String, bool),
)
    requires
        call_ensures(
            Config::get_effective_permanent_password_salt,
            (first, settings, local_usable, preset_usable, hashed, salt_len),
            one,
        ),
        *old(second) == *final(first),
        call_ensures(
            Config::get_effective_permanent_password_salt,
            (second, settings, local_usable, preset_usable, hashed, salt_len),
            two,
        ),
        salt_len > 0,
    ensures
        two.0@ == one.0@,
        !two.1,
{
}

/// Where changing the permanent password is disabled, trying to changes nothing and is refused.
pub proof fn law_disabled_change_changes_nothing(
    planned: &mut Config,
    changed: &mut Config,
    settings: &Settings,
    matches_preset: bool,
    password: &str,
    salt_len: usize,
    plan: PasswordPlan,
    storage: Option<String>,
    r: (bool, bool),
)
    requires
        call_ensures(
            Config::plan_permanent_password,
            (planned, settings, matches_preset, password, salt_len),
            plan,
        ),
        *old(changed) == *final(planned),
        call_ensures(Config::set_permanent_password, (changed, plan, storage), r),
        settings.builtin_settings@.contains_key("disable-change-permanent-password"@),
        settings.builtin_settings@["disable-change-permanent-password"@] == "Y"@,
    ensures
        r == (false, false),
        final(changed).password@ == old(planned).password@,
        final(changed).salt@ == old(planned).salt@,
{
}

/// A permanent password that may be set, and is not the preset one, is kept in the form in which
/// it is stored, with a salt; the empty one clears the password that is there.
pub proof fn law_password_is_changed(
    planned: &mut Config,
    changed: &mut Config,
    settings: &Settings,
    password: &str,
    salt_len: usize,
    plan: PasswordPlan,
    storage: String,
    r: (bool, bool),
)
    requires
        call_ensures(
            Config::plan_permanent_password,
            (planned, settings, false, password, salt_len),
            plan,
        ),
        *old(changed) == *final(planned),
        call_ensures(Config::set_permanent_password, (changed, plan, Some(storage)), r),
        !settings.builtin_settings@.contains_key("disable-change-permanent-password"@),
    ensures
        r.0,
        r.1 == (final(changed).password@ != old(planned).password@),
        password@.len() > 0 ==> final(changed).password@ == storage@,
        password@.len() > 0 && salt_len > 0 ==> final(changed).salt@.len() > 0,
        old(planned).salt@.len() > 0 ==> final(changed).salt@ == old(planned).salt@,
        password@.len() == 0 ==> final(changed).password@.len() == 0,
{
    if old(planned).password@.len() == 0 {
        assert(old(planned).password@ =~= Seq::<char>::empty());
    }
}

/// Where the password could not be hashed and sealed, it is not changed.
pub proof fn law_password_that_cannot_be_sealed_is_refused(
    config: &mut Config,
    plan: PasswordPlan,
    r: (bool, bool),
)
    requires
        call_ensures(Config::set_permanent_password, (config, plan, None::<String>), r),
        plan is Prepare,
    ensures
        r == (false, false),
        final(config).password@ == old(config).password@,
        final(config).salt@ == old(config).salt@,
{
}

/// A permanent password of this device counts before the preset one, whether it can be used or
/// not.
pub proof fn law_own_password_counts_first(
    config: &Config,
    local_usable: bool,
    preset_usable: bool,
    has: bool,
    uses_preset: bool,
)
    requires
        call_ensures(Config::has_permanent_password, (config, local_usable, preset_usable), has),
        call_ensures(Config::is_using_preset_password, (config, preset_usable), uses_preset),
    ensures
        config.password@.len() > 0 ==> has == local_usable && !uses_preset,
        config.password@.len() == 0 ==> has == preset_usable && uses_preset == preset_usable,
{
}

/// A salt that was set is the one that is given, unless the permanent password is a hash with a
/// salt, which stays.
pub proof fn law_salt_that_was_set_is_given(
    set: &mut Config,
    got: &mut Config,
    salt: &str,
    hashed: bool,
    salt_len: usize,
    store: bool,
    r: (String, bool),
)
    requires
        call_ensures(Config::set_salt, (set, salt, hashed), store),
        *old(got) == *final(set),
        call_ensures(Config::get_salt, (got, hashed, salt_len), r),
        salt@.len() > 0,
    ensures
        !hashed || old(set).salt@.len() == 0 ==> r.0@ == salt@,
        hashed && old(set).salt@.len() > 0 ==> r.0@ == old(set).salt@ && !store,
        !r.1,
        store == (final(set).salt@ != old(set).salt@),
{
}

/// A permanent password in the current form that comes with its salt is taken over, and taking it
/// over again changes nothing.
pub proof fn law_password_is_taken_over(
    first: &mut Config,
    second: &mut Config,
    storage: &str,
    salt: &str,
    one: Result<bool, ConfigError>,
    two: Result<bool, ConfigError>,
)
    requires
        call_ensures(
            Config::set_permanent_password_storage_for_sync,
            (first, storage, salt, true),
            one,
        ),
        *old(second) == *final(first),
        call_ensures(
            Config::set_permanent_password_storage_for_sync,
            (second, storage, salt, true),
            two,
        ),
        storage@.len() > 0,
        salt@.len() > 0,
    ensures
        final(first).password@ == storage@,
        final(first).salt@ == salt@,
        one == Ok::<bool, ConfigError>(
            old(first).password@ != storage@ || old(first).salt@ != salt@,
        ),
        two == Ok::<bool, ConfigError>(false),
{
}

/// A permanent password that comes without its salt, or in another form than the current one, is
/// refused, and changes nothing.
pub proof fn law_incomplete_password_is_not_taken_over(
    config: &mut Config,
    storage: &str,
    salt: &str,
    is_current: bool,
    r: Result<bool, ConfigError>,
)
    requires
        call_ensures(
            Config::set_permanent_password_storage_for_sync,
            (config, storage, salt, is_current),
            r,
        ),
        storage@.len() > 0,
        salt@.len() == 0 || !is_current,
    ensures
        r is Err,
        final(config).password@ == old(config).password@,
        final(config).salt@ == old(config).salt@,
{
}

/// A permanent password that is not a hash in the current form is never stored as it is: it is
/// stored as it was sealed, anew or before. The device id is not stored at all.
pub proof fn law_password_is_stored_sealed(
    config: Config,
    stored_password: &str,
    opened: &Opened,
    sealed: String,
    r: Config,
)
    requires
        call_ensures(Config::store, (config, false, stored_password, opened, sealed), r),
        config.password@.len() > 0,
    ensures
        r.password@ == sealed@ || (r.password@ == stored_password@ && opened.decrypted
            && opened.text@ == config.password@),
        !opened.decrypted || opened.text@ != config.password@ ==> r.password@ == sealed@,
        r.id@.len() == 0,
        r.enc_id@.len() == 0,
        r.salt@ == config.salt@,
{
}

// ---------------------------------------------------------------------------------------------
// Hosts in the LAN
// ---------------------------------------------------------------------------------------------

/// Two hosts that both have a fingerprint are the same where the fingerprints have the same length
/// and differ at no place in more than the case of an ASCII letter, and only there.
pub proof fn law_same_host_by_fingerprint(a: &DiscoveryPeer, b: &DiscoveryPeer, r: bool)
    requires
        call_ensures(DiscoveryPeer::is_same_peer, (a, b), r),
        a.fingerprint@.len() > 0,
        b.fingerprint@.len() > 0,
    ensures
        r <==> a.fingerprint@.len() == b.fingerprint@.len() && forall|i: int|
            0 <= i < a.fingerprint@.len() ==> {
                ||| #[trigger] a.fingerprint@[i] == b.fingerprint@[i]
                ||| 'A' <= a.fingerprint@[i] <= 'Z' && b.fingerprint@[i] as int
                    == a.fingerprint@[i] as int + 32
                ||| 'A' <= b.fingerprint@[i] <= 'Z' && a.fingerprint@[i] as int
                    == b.fingerprint@[i] as int + 32
            },
{
}

/// Where one of two hosts has no fingerprint, they are the same where both the id and the user
/// are, and only there.
pub proof fn law_same_host_by_id_and_user(a: &DiscoveryPeer, b: &DiscoveryPeer, r: bool)
    requires
        call_ensures(DiscoveryPeer::is_same_peer, (a, b), r),
        a.fingerprint@.len() == 0 || b.fingerprint@.len() == 0,
    ensures
        r <==> a.id@ == b.id@ && a.username@ == b.username@,
{
}

/// A host that was found is online for less than half a minute from then on, and after that, or
/// where the clock has gone back, nothing is known of it.
pub proof fn law_found_host_is_online(
    host: &mut DiscoveryPeer,
    later: &DiscoveryPeer,
    then: i64,
    now: i64,
    r: Option<bool>,
)
    requires
        call_ensures(DiscoveryPeer::mark_seen, (host, then), ()),
        *later == *final(host),
        call_ensures(DiscoveryPeer::online_state, (later, now), r),
        then > 0,
    ensures
        then <= now < then + 30_000 ==> r == Some(true),
        now < then || now >= then + 30_000 ==> r is None,
{
}

/// A host that was missed is not online, and is offline only where that was the third miss in a
/// row or a later one, and the host was last found half a minute ago or more.
pub proof fn law_missed_host_is_not_there(
    host: &mut DiscoveryPeer,
    later: &DiscoveryPeer,
    then: i64,
    now: i64,
    r: Option<bool>,
)
    requires
        call_ensures(DiscoveryPeer::mark_missed, (host, then), ()),
        *later == *final(host),
        call_ensures(DiscoveryPeer::online_state, (later, now), r),
    ensures
        r != Some(true),
        old(host).missed_discoveries < 2 ==> r is None,
        now < old(host).last_seen + 30_000 ==> r is None,
        old(host).missed_discoveries >= 2 && old(host).last_checked <= then
            < old(host).last_checked + 30_000 && then <= now < then + 30_000 && 0 < old(host).last_seen <= then && now >= old(host).last_seen + 30_000 ==> r == Some(false),
{
}

// ---------------------------------------------------------------------------------------------
// What is kept for a host
// ---------------------------------------------------------------------------------------------

/// Each secret of a host that is set is stored as it was sealed, and nothing else changes.
pub proof fn law_secrets_are_sealed_when_stored(
    config: PeerConfig,
    secrets: SealedSecrets,
    r: PeerConfig,
    k: Seq<char>,
)
    requires
        call_ensures(PeerConfig::store, (config, secrets), r),
    ensures
        r.password == secrets.password,
        config.options@.contains_key("rdp_password"@) ==> r.options@["rdp_password"@]
            == secrets.rdp_password@,
        config.options@.contains_key("os-username"@) ==> r.options@["os-username"@]
            == secrets.os_username@,
        config.options@.contains_key("os-password"@) ==> r.options@["os-password"@]
            == secrets.os_password@,
        r.options@.contains_key(k) == config.options@.contains_key(k),
        k != "rdp_password"@ && k != "os-username"@ && k != "os-password"@ ==> r.options@[k]
            == config.options@[k],
        r == (PeerConfig { password: r.password, options: r.options, ..config }),
{
}

/// Each secret of a host that is set is, when it is read, as it was opened, and nothing else
/// changes.
pub proof fn law_secrets_are_opened_when_read(
    config: PeerConfig,
    secrets: OpenedSecrets,
    defaults: &Defaults,
    r: (PeerConfig, bool),
    k: Seq<char>,
)
    requires
        call_ensures(PeerConfig::load, (Some((config, secrets)), defaults), r),
    ensures
        r.0.password == secrets.password,
        config.options@.contains_key("rdp_password"@) ==> r.0.options@["rdp_password"@]
            == secrets.rdp_password.text@,
        config.options@.contains_key("os-username"@) ==> r.0.options@["os-username"@]
            == secrets.os_username.text@,
        config.options@.contains_key("os-password"@) ==> r.0.options@["os-password"@]
            == secrets.os_password.text@,
        r.0.options@.contains_key(k) == config.options@.contains_key(k),
        k != "rdp_password"@ && k != "os-username"@ && k != "os-password"@ ==> r.0.options@[k]
            == config.options@[k],
        r.0 == (PeerConfig { password: r.0.password, options: r.0.options, ..config }),
{
}

/// What is stored for a host and read again, with its secrets opened as they were before they were
/// sealed, holds the same options.
pub proof fn law_host_is_read_as_it_was_stored(
    config: PeerConfig,
    sealed: SealedSecrets,
    stored: PeerConfig,
    opened: OpenedSecrets,
    defaults: &Defaults,
    r: (PeerConfig, bool),
)
    requires
        call_ensures(PeerConfig::store, (config, sealed), stored),
        call_ensures(PeerConfig::load, (Some((stored, opened)), defaults), r),
        config.options@.contains_key("rdp_password"@) ==> opened.rdp_password.text@
            == config.options@["rdp_password"@],
        config.options@.contains_key("os-username"@) ==> opened.os_username.text@
            == config.options@["os-username"@],
        config.options@.contains_key("os-password"@) ==> opened.os_password.text@
            == config.options@["os-password"@],
        opened.password == config.password,
    ensures
        r.0.options@ == config.options@,
        r.0 == (PeerConfig { options: r.0.options, ..config }),
{
    assert(r.0.options@ =~= config.options@);
}

/// Numbers within their bounds are read as they are: the image quality from 10 to 4095, the speed
/// of the trackpad from 10 to 1000 and the thickness of the edge from 20 to 150.
pub proof fn law_numbers_within_bounds_are_read(
    defaults: &Defaults,
    quality: Vec<i32>,
    n: i32,
    read_quality: Vec<i32>,
    speed: i32,
    edge: i32,
)
    requires
        call_ensures(
            PeerConfig::deserialize_custom_image_quality,
            (defaults, quality),
            read_quality,
        ),
        call_ensures(PeerConfig::deserialize_trackpad_speed, (defaults, n), speed),
        call_ensures(PeerConfig::deserialize_edge_scroll_edge_thickness, (defaults, n), edge),
    ensures
        quality@.len() == 1 && 10 <= quality@[0] <= 4095 ==> read_quality@ == quality@,
        read_quality@.len() == 1,
        10 <= n <= 1000 ==> speed == n,
        20 <= n <= 150 ==> edge == n,
        10 <= speed <= 1000,
        20 <= edge <= 150,
{
    crate::peer_config::law_chosen_numbers_are_within_bounds(*defaults);
}

// ---------------------------------------------------------------------------------------------
// Switches and defaults
// ---------------------------------------------------------------------------------------------

/// Every switch is on at `Y` and off at `N`; one that begins with `enable-` is off at nothing
/// else, and one that begins with `allow-` is on at nothing else.
pub proof fn law_switches(option: &str, value: &str, r: bool)
    requires
        call_ensures(option2bool, (option, value), r),
    ensures
        value@ == "Y"@ ==> r,
        value@ == "N"@ ==> !r,
        "enable-"@.is_prefix_of(option@) ==> (r <==> value@ != "N"@),
        "allow-"@.is_prefix_of(option@) ==> (r <==> value@ == "Y"@),
{
}

/// What the user has set for the image quality, the styles and the codec is given, where it is one
/// of the values that the option has, and the default of the option is given otherwise.
pub proof fn law_choices_of_the_user(
    user: &UserDefaultConfig,
    settings: &Settings,
    key: &str,
    mobile: bool,
    number: Option<String>,
    r: String,
    v: Seq<char>,
)
    requires
        call_ensures(UserDefaultConfig::get, (user, settings, key, mobile, number), r),
        !settings.overwrite_display_settings@.contains_key(key@),
        user.options@.contains_key(key@),
        user.options@[key@] == v,
    ensures
        key@ == "image_quality"@ ==> r@ == (if v == "best"@ || v == "balanced"@ || v == "low"@ {
            v
        } else {
            "custom"@
        }),
        key@ == "view_style"@ && (v == "original"@ || v == "adaptive"@) ==> r@ == v,
        key@ == "scroll_style"@ ==> r@ == (if v == "scrolledge"@ || v == "scrollbar"@ {
            v
        } else {
            "scrollauto"@
        }),
        key@ == "codec-preference"@ ==> r@ == (if v == "vp8"@ || v == "vp9"@ || v == "av1"@ || v
            == "h264"@ || v == "h265"@ {
            v
        } else {
            "auto"@
        }),
{
    let said = crate::options::said(number);
    crate::user_defaults::law_image_quality_is_as_set(mobile, Some(v), said);
    crate::user_defaults::law_view_style_is_as_set(mobile, Some(v), said);
    crate::user_defaults::law_scroll_style_is_as_set(mobile, Some(v), said);
    crate::user_defaults::law_codec_is_as_set(mobile, Some(v), said);
}

// ---------------------------------------------------------------------------------------------
// The keys of this device
// ---------------------------------------------------------------------------------------------

/// The device goes on using the keys that it has used, whatever is stored in between; new ones
/// are a secret key of 64 bytes that ends in the public key of 32 bytes.
pub proof fn law_keys_stay(
    first: &mut Option<KeyPair>,
    second: &mut Option<KeyPair>,
    stored: KeyPair,
    stored_later: KeyPair,
    one: (KeyPair, bool),
    two: (KeyPair, bool),
)
    requires
        call_ensures(Config::get_key_pair, (first, stored), one),
        *old(second) == *final(first),
        call_ensures(Config::get_key_pair, (second, stored_later), two),
    ensures
        two.0.0@ == one.0.0@,
        two.0.1@ == one.0.1@,
        !two.1,
        one.1 ==> one.0.0@.len() == 64 && one.0.1@.len() == 32 && one.0.0@.skip(32) == one.0.1@,
        one.1 <==> *old(first) is None && stored.0@.len() == 0,
        *old(first) is None && stored.0@.len() > 0 ==> one.0.0@ == stored.0@ && one.0.1@
            == stored.1@,
{
}

// ---------------------------------------------------------------------------------------------
// Options
// ---------------------------------------------------------------------------------------------

/// An option that was set is read back, unless it is overwritten or obsolete; every other option is
/// read as before.
pub proof fn law_option_that_was_set_is_read(
    settings: &Settings,
    config: &mut Config2,
    before: &Config2,
    after: &Config2,
    k: String,
    v: String,
    key: &str,
    other: &str,
    store: bool,
    read: String,
    other_before: String,
    other_after: String,
)
    requires
        *before == *old(config),
        call_ensures(Config::set_option, (settings, config, k, v), store),
        *after == *final(config),
        key@ == k@,
        call_ensures(Config::get_option, (settings, after, key), read),
        other@ != k@,
        call_ensures(Config::get_option, (settings, before, other), other_before),
        call_ensures(Config::get_option, (settings, after, other), other_after),
    ensures
        !settings.overwrite_settings@.contains_key(k@) && !obsolete(k@) && v@.len() > 0 ==> read@
            == v@,
        settings.overwrite_settings@.contains_key(k@) && !obsolete(k@) ==> read@
            == settings.overwrite_settings@[k@],
        obsolete(k@) ==> read@.len() == 0,
        !settings.overwrite_settings@.contains_key(k@) && !obsolete(k@) && v@.len() == 0
            && settings.default_settings@.contains_key(k@) ==> read@
            == settings.default_settings@[k@],
        other_after@ == other_before@,
        store == (final(config).options@ != old(config).options@),
        final(config).unlock_pin == old(config).unlock_pin,
{
}

/// A switch that was set is as it was set, unless it is overwritten or obsolete.
pub proof fn law_switch_that_was_set_is_read(
    settings: &Settings,
    config: &mut Config2,
    after: &Config2,
    k: String,
    v: String,
    key: &str,
    store: bool,
    on: bool,
)
    requires
        call_ensures(Config::set_option, (settings, config, k, v), store),
        *after == *final(config),
        key@ == k@,
        call_ensures(Config::get_bool_option, (settings, after, key), on),
        !settings.overwrite_settings@.contains_key(k@),
        !obsolete(k@),
    ensures
        v@ == "Y"@ ==> on,
        v@ == "N"@ ==> !on,
{
    reveal_strlit("Y");
    reveal_strlit("N");
    crate::options::law_yes_is_on_and_no_is_off(k@);
    crate::config::law_option_is_read_back(
        settings.overwrite_settings@,
        settings.default_settings@,
        old(config).options@,
        k@,
        v@,
    );
}

/// Of the options that are set at once those are kept that are neither overwritten nor obsolete nor
/// at their default, and each of them is read as it was set.
pub proof fn law_options_that_were_set_are_read(
    settings: &Settings,
    config: &mut Config2,
    after: &Config2,
    v: TextMap<String>,
    key: &str,
    store: bool,
    read: String,
)
    requires
        call_ensures(Config::set_options, (settings, config, v), store),
        *after == *final(config),
        call_ensures(Config::get_option, (settings, after, key), read),
        !settings.overwrite_settings@.contains_key(key@),
        !obsolete(key@),
    ensures
        v@.contains_key(key@) ==> read@ == v@[key@],
        !v@.contains_key(key@) && settings.default_settings@.contains_key(key@) ==> read@
            == settings.default_settings@[key@],
        !v@.contains_key(key@) && !settings.default_settings@.contains_key(key@) ==> read@.len()
            == 0,
{
}

/// An option of this user that was set is read back, unless it is overwritten; the default language
/// is read as the empty text.
pub proof fn law_local_option_that_was_set_is_read(
    config: &mut LocalConfig,
    after: &LocalConfig,
    settings: &Settings,
    k: String,
    v: String,
    key: &str,
    store: bool,
    read: String,
)
    requires
        call_ensures(LocalConfig::set_option, (config, settings, k, v), store),
        *after == *final(config),
        key@ == k@,
        call_ensures(LocalConfig::get_option, (after, settings, key), read),
    ensures
        settings.overwrite_local_settings@.contains_key(k@) ==> read@
            == settings.overwrite_local_settings@[k@],
        !settings.overwrite_local_settings@.contains_key(k@) && v@.len() > 0 && (k@ != "lang"@ || v@
            != "default"@) ==> read@ == v@,
        !settings.overwrite_local_settings@.contains_key(k@)
            && !settings.default_local_settings@.contains_key(k@) && k@ == "lang"@ && v@
            == "default"@ ==> read@.len() == 0,
        !settings.overwrite_local_settings@.contains_key(k@)
            && !settings.default_local_settings@.contains_key(k@) && v@.len() == 0 ==> read@.len()
            == 0,
{
    reveal_strlit("default");
}

/// An option of the user interface that was set is read back, unless it is overwritten.
pub proof fn law_flutter_option_that_was_set_is_read(
    config: &mut LocalConfig,
    after: &LocalConfig,
    settings: &Settings,
    k: String,
    v: String,
    key: &str,
    store: bool,
    read: String,
)
    requires
        call_ensures(LocalConfig::set_flutter_option, (config, k, v), store),
        *after == *final(config),
        key@ == k@,
        call_ensures(LocalConfig::get_flutter_option, (after, settings, key), read),
        !settings.overwrite_local_settings@.contains_key(k@),
    ensures
        v@.len() > 0 ==> read@ == v@,
        v@.len() == 0 && !settings.default_local_settings@.contains_key(k@) ==> read@.len() == 0,
{
}

/// A default of the user that was set is read back, unless it is overwritten.
pub proof fn law_default_that_was_set_is_read(
    user: &mut UserDefaultConfig,
    after: &UserDefaultConfig,
    settings: &Settings,
    k: String,
    v: String,
    key: &str,
    store: bool,
    read: Option<String>,
)
    requires
        call_ensures(UserDefaultConfig::set, (user, settings, k, v), store),
        *after == *final(user),
        key@ == k@,
        call_ensures(UserDefaultConfig::get_after, (after, settings, key), read),
        !settings.overwrite_display_settings@.contains_key(k@),
        v@.len() > 0,
    ensures
        read matches Some(s) && s@ == v@,
{
}

/// A PIN that was set is the one that is read, unless PINs are disabled; then it is neither set nor
/// read.
pub proof fn law_pin_that_was_set_is_read(
    settings: &Settings,
    config: &mut Config2,
    after: &Config2,
    pin: &str,
    store: bool,
    read: String,
)
    requires
        call_ensures(Config::set_unlock_pin, (settings, config, pin), store),
        *after == *final(config),
        call_ensures(Config::get_unlock_pin, (settings, after), read),
    ensures
        ({
            let disabled = settings.builtin_settings@.contains_key("disable-unlock-pin"@)
                && settings.builtin_settings@["disable-unlock-pin"@] == "Y"@;
            &&& !disabled ==> read@ == pin@ && store == (pin@ != old(config).unlock_pin@)
            &&& disabled ==> read@.len() == 0 && !store && final(config).unlock_pin@ == old(config).unlock_pin@
        }),
        final(config).options == old(config).options,
{
}

/// No build takes incoming connections only and makes outgoing ones only.
pub proof fn law_one_kind_of_connections_only(settings: &Settings, incoming: bool, outgoing: bool)
    requires
        call_ensures(is_incoming_only, (settings,), incoming),
        call_ensures(is_outgoing_only, (settings,), outgoing),
    ensures
        !(incoming && outgoing),
        incoming <==> settings.hard_settings@.contains_key("conn-type"@)
            && settings.hard_settings@["conn-type"@] == "incoming"@,
        outgoing <==> settings.hard_settings@.contains_key("conn-type"@)
            && settings.hard_settings@["conn-type"@] == "outgoing"@,
{
    reveal_strlit("incoming");
    reveal_strlit("outgoing");
    assert("incoming"@[0] != "outgoing"@[0]);
}

/// A value that was set is read back.
pub proof fn law_value_that_was_set_is_read(
    status: &mut Status,
    after: &Status,
    k: &str,
    v: String,
    store: bool,
    read: String,
)
    requires
        call_ensures(Status::set, (status, k, v), store),
        *after == *final(status),
        call_ensures(Status::get, (after, k), read),
    ensures
        read@ == v@,
{
}

// ---------------------------------------------------------------------------------------------
// Configurations
// ---------------------------------------------------------------------------------------------

/// A configuration that was read or set keeps the keys, the credentials and the trusted hosts, and
/// nothing of other modes; it is stored where that has changed it.
pub proof fn law_configuration_is_for_the_lan(loaded: Config, r: (Config, bool))
    requires
        call_ensures(Config::load, (loaded,), r),
    ensures
        r.0.id@.len() == 0,
        r.0.enc_id@.len() == 0,
        r.0.password@.len() == 0,
        r.0.salt@.len() == 0,
        !r.0.key_confirmed,
        r.0.keys_confirmed@.dom() == Set::<Seq<char>>::empty(),
        r.0.lan_schema_version == 1,
        r.0.key_pair.0@ == loaded.key_pair.0@,
        r.0.key_pair.1@ == loaded.key_pair.1@,
        r.0.access_username@ == loaded.access_username@,
        r.0.access_password_hash@ == loaded.access_password_hash@,
        r.0.credential_revision == loaded.credential_revision,
        r.0.trusted_lan_endpoints@ == loaded.trusted_lan_endpoints@,
        loaded.id@.len() > 0 || loaded.enc_id@.len() > 0 || loaded.password@.len() > 0
            || loaded.salt@.len() > 0 || loaded.key_confirmed || loaded.lan_schema_version != 1
            ==> r.1,
{
    assert(r.0@.keys_confirmed.dom() =~= Set::<Seq<char>>::empty());
    assert(r.0@.id == r.0.id@ && r.0@.enc_id == r.0.enc_id@);
    assert(loaded@.id == loaded.id@ && loaded@.enc_id == loaded.enc_id@);
}

/// A configuration that was set is stored where it differs, without what belongs to other modes,
/// from the one that was there, and setting it again stores nothing.
pub proof fn law_configuration_that_was_set_is_kept(
    first: &mut Config,
    second: &mut Config,
    cfg: Config,
    one: bool,
    two: bool,
)
    requires
        call_ensures(Config::set, (first, cfg), one),
        *old(second) == *final(first),
        call_ensures(Config::set, (second, cfg), two),
    ensures
        !two,
        final(first).access_username@ == cfg.access_username@,
        final(first).access_password_hash@ == cfg.access_password_hash@,
        final(first).trusted_lan_endpoints@ == cfg.trusted_lan_endpoints@,
        final(first).key_pair.0@ == cfg.key_pair.0@,
        final(first).password@.len() == 0,
        old(first).access_username@ != cfg.access_username@ ==> one,
        old(first).access_password_hash@ != cfg.access_password_hash@ ==> one,
        old(first).trusted_lan_endpoints@ != cfg.trusted_lan_endpoints@ ==> one,
{
    assert(old(first)@.access_username == old(first).access_username@);
    assert(old(first)@.access_password_hash == old(first).access_password_hash@);
    assert(old(first)@.trusted_lan_endpoints == old(first).trusted_lan_endpoints@);
}

/// Options that were read have their PIN opened, and no server, proxy or obsolete option.
pub proof fn law_options_are_for_the_lan(
    loaded: Config2,
    pin: Opened,
    r: (Config2, bool),
    k: Seq<char>,
)
    requires
        call_ensures(Config2::load, (loaded, pin), r),
    ensures
        r.0.unlock_pin@ == pin.text@,
        r.0.rendezvous_server@.len() == 0,
        r.0.nat_type == 0,
        r.0.trusted_devices@.len() == 0,
        r.0.socks is None,
        r.0.serial == loaded.serial,
        r.0.options@.contains_key(k) <==> loaded.options@.contains_key(k) && !obsolete(k),
        r.0.options@.contains_key(k) ==> r.0.options@[k] == loaded.options@[k],
        pin.should_store ==> r.1,
        loaded.socks is Some ==> r.1,
        loaded.options@.contains_key(k) && obsolete(k) ==> r.1,
{
    assert(r.0@.options == r.0.options@ && loaded@.options == loaded.options@);
    assert(loaded.socks is Some ==> loaded@.socks is Some);
}

/// The PIN and the password of the proxy are stored sealed: as they were where they have not
/// changed and were encrypted, and anew otherwise.
pub proof fn law_pin_is_stored_sealed(
    config: &Config2,
    stored: &Config2,
    socks_password: &Opened,
    sealed_socks_password: String,
    pin: &Opened,
    sealed_pin: String,
    r: Config2,
)
    requires
        call_ensures(
            Config2::store,
            (config, stored, socks_password, sealed_socks_password, pin, sealed_pin),
            r,
        ),
    ensures
        pin.decrypted && pin.text@ == config.unlock_pin@ ==> r.unlock_pin@ == stored.unlock_pin@,
        !pin.decrypted || pin.text@ != config.unlock_pin@ ==> r.unlock_pin@ == sealed_pin@,
        config.socks matches Some(socks) ==> (!socks_password.decrypted || socks_password.text@
            != socks.password@ ==> (r.socks matches Some(now) && now.password@
            == sealed_socks_password@ && now.proxy@ == socks.proxy@ && now.username@
            == socks.username@)),
        r.options@ == config.options@,
        r.serial == config.serial,
{
    assert(config.socks is Some ==> config@.socks == Some(config.socks->Some_0@));
    assert(r.socks is Some ==> r@.socks == Some(r.socks->Some_0@));
    assert(r.socks is None ==> r@.socks is None);
}

// ---------------------------------------------------------------------------------------------
// Trusted hosts
// ---------------------------------------------------------------------------------------------

/// A fingerprint of 64 hexadecimal digits that was trusted is the one at its endpoint, in lower
/// case, and is trusted in whatever case; any other text is refused and changes nothing.
pub proof fn law_fingerprint_is_trusted(
    config: &mut Config,
    after: &Config,
    endpoint: String,
    at: &str,
    fingerprint: &str,
    other_case: &str,
    r: Result<(), ConfigError>,
    found: Option<String>,
    is_trusted: bool,
)
    requires
        call_ensures(
            Config::trust_lan_fingerprint,
            (config, Ok::<String, ConfigError>(endpoint), fingerprint),
            r,
        ),
        *after == *final(config),
        at@ == endpoint@,
        call_ensures(Config::get_trusted_lan_fingerprint, (after, at), found),
        ascii_lower(other_case@) == ascii_lower(fingerprint@),
        call_ensures(Config::is_trusted_lan_fingerprint, (after, other_case), is_trusted),
    ensures
        ({
            let valid = fingerprint@.len() == 64 && forall|i: int|
                0 <= i < 64 ==> ('0' <= #[trigger] fingerprint@[i] <= '9' || 'a' <= fingerprint@[i]
                    <= 'f' || 'A' <= fingerprint@[i] <= 'F');
            &&& valid ==> r is Ok && is_trusted && (found matches Some(s) && s@ == ascii_lower(
                fingerprint@,
            ))
            &&& !valid ==> r == Err::<(), ConfigError>(ConfigError::InvalidFingerprint)
                && *final(config) == *old(config)
        }),
{
    crate::text::law_fingerprint_is_64_hexadecimal_digits(fingerprint@);
    crate::config::law_trusted_fingerprint_is_found(
        old(config).trusted_lan_endpoints@,
        endpoint@,
        fingerprint@,
        other_case@,
    );
}

/// Trusting a fingerprint at an endpoint leaves the other endpoints as they were.
pub proof fn law_other_endpoints_keep_their_fingerprints(
    config: &mut Config,
    endpoint: String,
    fingerprint: &str,
    r: Result<(), ConfigError>,
    k: Seq<char>,
)
    requires
        call_ensures(
            Config::trust_lan_fingerprint,
            (config, Ok::<String, ConfigError>(endpoint), fingerprint),
            r,
        ),
        k != endpoint@,
    ensures
        final(config).trusted_lan_endpoints@.contains_key(k) == old(config).trusted_lan_endpoints@.contains_key(k),
        old(config).trusted_lan_endpoints@.contains_key(k) ==> final(config).trusted_lan_endpoints@[k] == old(config).trusted_lan_endpoints@[k],
        final(config)@.key_pair == old(config)@.key_pair,
{
    assert(final(config)@.trusted_lan_endpoints == final(config).trusted_lan_endpoints@);
    assert(old(config)@.trusted_lan_endpoints == old(config).trusted_lan_endpoints@);
}

/// After a fingerprint was forgotten, none is trusted at its endpoint, and there was something to
/// store where one was.
pub proof fn law_fingerprint_is_forgotten(
    config: &mut Config,
    after: &Config,
    endpoint: String,
    at: &str,
    r: Result<bool, ConfigError>,
    found: Option<String>,
)
    requires
        call_ensures(
            Config::forget_lan_fingerprint,
            (config, Ok::<String, ConfigError>(endpoint)),
            r,
        ),
        *after == *final(config),
        at@ == endpoint@,
        call_ensures(Config::get_trusted_lan_fingerprint, (after, at), found),
    ensures
        found is None,
        r == Ok::<bool, ConfigError>(old(config).trusted_lan_endpoints@.contains_key(endpoint@)),
{
    assert(old(config)@.trusted_lan_endpoints == old(config).trusted_lan_endpoints@);
}

/// What was said of the key of a host is what is known of it, and taking back the confirmation of
/// the key of this device takes back that of every host.
pub proof fn law_confirmation_of_keys(
    config: &mut Config,
    after: &Config,
    taken_back: &mut Config,
    then: &Config,
    host: &str,
    v: bool,
    store: bool,
    confirmed: bool,
    store_then: bool,
    confirmed_then: bool,
)
    requires
        call_ensures(Config::set_host_key_confirmed, (config, host, v), store),
        *after == *final(config),
        call_ensures(Config::get_host_key_confirmed, (after, host), confirmed),
        old(taken_back).key_confirmed,
        call_ensures(Config::set_key_confirmed, (taken_back, false), store_then),
        *then == *final(taken_back),
        call_ensures(Config::get_host_key_confirmed, (then, host), confirmed_then),
    ensures
        confirmed == v,
        store_then,
        !final(taken_back).key_confirmed,
        !confirmed_then,
{
    assert(final(taken_back)@.key_confirmed == final(taken_back).key_confirmed);
    assert(final(taken_back)@.keys_confirmed == final(taken_back).keys_confirmed@);
}

// ---------------------------------------------------------------------------------------------
// Credentials for access
// ---------------------------------------------------------------------------------------------

/// The name and the password that were set give access, and another name gives none; the number
/// of the credentials grows.
pub proof fn law_credentials_give_access(
    config: &mut Config,
    after: &Config,
    username: String,
    other: String,
    password: &[u8],
    set: Result<u64, ConfigError>,
    r: Result<bool, ConfigError>,
    r_other: Result<bool, ConfigError>,
)
    requires
        call_ensures(
            Config::set_lan_credentials,
            (config, Ok::<String, ConfigError>(username), Ok::<(), ConfigError>(()), password),
            set,
        ),
        *after == *final(config),
        call_ensures(
            Config::verify_lan_credentials,
            (after, Ok::<String, ConfigError>(username), Ok::<(), ConfigError>(()), password),
            r,
        ),
        call_ensures(
            Config::verify_lan_credentials,
            (after, Ok::<String, ConfigError>(other), Ok::<(), ConfigError>(()), password),
            r_other,
        ),
        username@.len() > 0,
        other@ != username@,
        password@.len() <= 0xFFFF_FFFF,
    ensures
        set is Ok,
        r == Ok::<bool, ConfigError>(true),
        r_other == Ok::<bool, ConfigError>(false),
        final(config).access_username@ == username@,
        old(config).credential_revision < u64::MAX ==> set == Ok::<u64, ConfigError>(
            (old(config).credential_revision + 1) as u64,
        ),
        set == Ok::<u64, ConfigError>(final(config).credential_revision),
{
    crate::credentials::law_credentials_that_were_set_give_access(
        final(config).access_password_hash@,
        username,
        password@,
        r,
    );
}

/// After the credentials were cleared, no name and no password give access, and there are none.
pub proof fn law_cleared_credentials(
    config: &mut Config,
    after: &Config,
    username: String,
    password: &[u8],
    revision: u64,
    configured: bool,
    r: Result<bool, ConfigError>,
)
    requires
        call_ensures(Config::clear_lan_credentials, (config,), revision),
        *after == *final(config),
        call_ensures(Config::lan_credentials_configured, (after,), configured),
        call_ensures(
            Config::verify_lan_credentials,
            (after, Ok::<String, ConfigError>(username), Ok::<(), ConfigError>(()), password),
            r,
        ),
    ensures
        !configured,
        r == Ok::<bool, ConfigError>(false),
        old(config).credential_revision < u64::MAX ==> revision > old(config).credential_revision,
        revision == final(config).credential_revision,
{
}

/// A name or a password that did not pass its check is refused with the reason, and changes
/// nothing.
pub proof fn law_refused_credentials_change_nothing(
    config: &mut Config,
    username: Result<String, ConfigError>,
    checked: Result<(), ConfigError>,
    password: &[u8],
    r: Result<u64, ConfigError>,
)
    requires
        call_ensures(Config::set_lan_credentials, (config, username, checked, password), r),
        username is Err || checked is Err,
    ensures
        *final(config) == *old(config),
        username matches Err(e) ==> r == Err::<u64, ConfigError>(e),
        username is Ok ==> (checked matches Err(e) ==> r == Err::<u64, ConfigError>(e)),
{
}

// ---------------------------------------------------------------------------------------------
// Identities and recent hosts
// ---------------------------------------------------------------------------------------------

/// A host that was bound to an identity uses it, whatever the case of the fingerprint and whatever
/// the default identity is; a host that was unbound uses the default one.
pub proof fn law_bound_identity_is_used(
    config: &mut LocalConfig,
    after: &LocalConfig,
    fingerprint: &str,
    other_case: &str,
    id: &str,
    r: Result<bool, ConfigError>,
    used: String,
)
    requires
        call_ensures(LocalConfig::bind_lan_identity, (config, fingerprint, id), r),
        *after == *final(config),
        ascii_lower(other_case@) == ascii_lower(fingerprint@),
        call_ensures(LocalConfig::resolve_lan_identity_id, (after, other_case), used),
    ensures
        r is Ok && id@.len() > 0 ==> used@ == id@,
        r is Ok && id@.len() == 0 && old(config).lan_identities@.contains_key(
            old(config).default_lan_identity_id@,
        ) ==> used@ == old(config).default_lan_identity_id@,
        r is Err ==> *final(config) == *old(config),
        id@.len() > 0 && !old(config).lan_identities@.contains_key(id@) ==> r is Err,
{
}

/// After an identity was removed, it is not found, no host uses it, and it is not the default one.
pub proof fn law_identity_is_removed(
    config: &mut LocalConfig,
    after: &LocalConfig,
    id: &str,
    fingerprint: &str,
    r: bool,
    found: Option<LanIdentity>,
    used: String,
    default_id: String,
)
    requires
        call_ensures(LocalConfig::remove_lan_identity, (config, id), r),
        *after == *final(config),
        call_ensures(LocalConfig::get_lan_identity, (after, id), found),
        call_ensures(LocalConfig::resolve_lan_identity_id, (after, fingerprint), used),
        call_ensures(LocalConfig::get_default_lan_identity_id, (after,), default_id),
        old(config).lan_identities@.contains_key(id@),
        id@.len() > 0,
    ensures
        r,
        found is None,
        used@ != id@,
        default_id@ != id@,
{
}

/// An identity that was stored is found under its id, and its name is taken in whatever case, but
/// not for itself.
pub proof fn law_identity_is_stored(
    config: &mut LocalConfig,
    after: &LocalConfig,
    identity: LanIdentity,
    id: &str,
    name: &str,
    found: Option<LanIdentity>,
    taken: bool,
)
    requires
        call_ensures(LocalConfig::store_lan_identity, (config, identity), ()),
        *after == *final(config),
        id@ == identity.id@,
        call_ensures(LocalConfig::get_lan_identity, (after, id), found),
        ascii_lower(name@) == ascii_lower(identity.name@),
        call_ensures(LocalConfig::lan_identity_name_exists, (after, name, None::<&str>), taken),
    ensures
        found matches Some(i) && i.id@ == identity.id@ && i.name@ == identity.name@ && i.username@
            == identity.username@ && i.created_at == identity.created_at && i.updated_at
            == identity.updated_at,
        taken,
{
    assert(final(config).lan_identities@.contains_key(identity.id@));
    assert(final(config).lan_identities@[identity.id@] == identity@);
    if found is Some {
        assert(found->Some_0@ == identity@);
    }
}

/// An identity that exists can be made the default one, and is used by hosts that are not bound;
/// one that does not exist is refused.
pub proof fn law_default_identity_is_set(
    config: &mut LocalConfig,
    after: &LocalConfig,
    id: &str,
    fingerprint: &str,
    r: Result<bool, ConfigError>,
    used: String,
)
    requires
        call_ensures(LocalConfig::set_default_lan_identity_id, (config, id), r),
        *after == *final(config),
        call_ensures(LocalConfig::resolve_lan_identity_id, (after, fingerprint), used),
        id@.len() > 0,
        !old(config).lan_identity_bindings@.contains_key(ascii_lower(fingerprint@)),
    ensures
        r is Ok <==> old(config).lan_identities@.contains_key(id@),
        r is Ok ==> used@ == id@,
        r is Err ==> *final(config) == *old(config),
{
}

/// A host that was connected to is remembered under its fingerprint, as the one that was used
/// last, with the white space round its names taken away.
pub proof fn law_host_is_remembered(
    config: &mut LocalConfig,
    after: &LocalConfig,
    endpoint: String,
    username: String,
    hostname: &str,
    platform: &str,
    fingerprint: &str,
    now: i64,
    r: Result<(), ConfigError>,
    last: String,
)
    requires
        call_ensures(
            LocalConfig::record_recent_lan_endpoint,
            (
                config,
                Ok::<String, ConfigError>(endpoint),
                Ok::<String, ConfigError>(username),
                hostname,
                platform,
                fingerprint,
                now,
            ),
            r,
        ),
        *after == *final(config),
        call_ensures(LocalConfig::get_remote_id, (after,), last),
    ensures
        r is Ok <==> crate::text::is_fingerprint(fingerprint@),
        r is Err ==> *final(config) == *old(config),
        r is Ok ==> last@ == endpoint@,
        r is Ok ==> ({
            let recents = final(config).recent_lan_endpoints@;
            let k = ascii_lower(fingerprint@);
            &&& recents.contains_key(k)
            &&& recents[k].endpoint == endpoint@
            &&& recents[k].username == username@
            &&& recents[k].hostname == crate::text::trimmed(hostname@)
            &&& recents[k].platform == crate::text::trimmed(platform@)
            &&& recents[k].fingerprint == k
            &&& recents[k].last_connected_at == now
            &&& forall|other: Seq<char>|
                other != k ==> (#[trigger] recents.contains_key(other) == old(config).recent_lan_endpoints@.contains_key(other))
        }),
{
}

/// A host that is forgotten by its endpoint is in the list of hosts no more, and neither is its
/// binding kept.
pub proof fn law_host_is_forgotten(
    config: &mut LocalConfig,
    named: &str,
    store: bool,
    k: Seq<char>,
)
    requires
        call_ensures(LocalConfig::remove_recent_lan_endpoint, (config, named), store),
        old(config).recent_lan_endpoints@.contains_key(k),
    ensures
        old(config).recent_lan_endpoints@[k].endpoint == named@ || k == ascii_lower(named@)
            ==> !final(config).recent_lan_endpoints@.contains_key(k) && store && !final(config).lan_identity_bindings@.contains_key(k),
        old(config).recent_lan_endpoints@[k].endpoint != named@ && ascii_lower(k) != ascii_lower(
            named@,
        ) ==> final(config).recent_lan_endpoints@.contains_key(k) && final(config).recent_lan_endpoints@[k] == old(config).recent_lan_endpoints@[k] && final(config).lan_identity_bindings@.contains_key(k) == old(config).lan_identity_bindings@.contains_key(
            k,
        ),
{
    crate::text::lemma_lower_twice(named@);
}

/// The list of hosts holds each host that is remembered, and nothing else, and the one that was
/// connected to last stands first.
pub proof fn law_hosts_are_listed(config: &LocalConfig, r: Vec<RecentLanEndpoint>, k: Seq<char>)
    requires
        call_ensures(LocalConfig::get_recent_lan_endpoints, (config,), r),
    ensures
        r@.len() == config.recent_lan_endpoints@.dom().len(),
        config.recent_lan_endpoints@.contains_key(k) ==> exists|i: int|
            0 <= i < r@.len() && (#[trigger] r@[i])@ == config.recent_lan_endpoints@[k],
        forall|i: int, j: int|
            0 <= i < j < r@.len() ==> (#[trigger] r@[i]).last_connected_at >= (
            #[trigger] r@[j]).last_connected_at,
{
    let m = config.recent_lan_endpoints@;
    let list = views(r@);
    crate::ranking::law_list_has_all_values(m, list);
    if m.contains_key(k) {
        assert(list.contains(m[k]));
        let i = choose|i: int| 0 <= i < list.len() && list[i] == m[k];
        assert(r@[i]@ == m[k]);
    }
}

/// What was set is read back: the favourites, the host that was used last, and the layout of the
/// keyboard. A window of at least 300 by 300 is kept as it was set, and a smaller one is not.
pub proof fn law_what_the_user_has_set_is_read(
    fav: &mut LocalConfig,
    fav_after: &LocalConfig,
    list: Vec<String>,
    fav_store: bool,
    fav_read: Vec<String>,
    remote: &mut LocalConfig,
    remote_after: &LocalConfig,
    id: &str,
    remote_store: bool,
    remote_read: String,
    size: &mut LocalConfig,
    size_after: &LocalConfig,
    x: i32,
    y: i32,
    w: i32,
    h: i32,
    size_store: bool,
    size_read: (i32, i32, i32, i32),
)
    requires
        call_ensures(LocalConfig::set_fav, (fav, list), fav_store),
        *fav_after == *final(fav),
        call_ensures(LocalConfig::get_fav, (fav_after,), fav_read),
        call_ensures(LocalConfig::set_remote_id, (remote, id), remote_store),
        *remote_after == *final(remote),
        call_ensures(LocalConfig::get_remote_id, (remote_after,), remote_read),
        call_ensures(LocalConfig::set_size, (size, x, y, w, h), size_store),
        *size_after == *final(size),
        call_ensures(LocalConfig::get_size, (size_after,), size_read),
    ensures
        fav_read@.len() == list@.len(),
        forall|i: int| 0 <= i < list@.len() ==> (#[trigger] fav_read@[i])@ == list@[i]@,
        remote_read@ == id@,
        w >= 300 && h >= 300 ==> size_read == (x, y, w, h),
        w < 300 || h < 300 ==> size_read == old(size).size && !size_store,
{
    let said = crate::text::texts(list@);
    assert(crate::text::texts(fav_read@) == said);
    assert(crate::text::texts(fav_read@).len() == said.len());
    assert forall|i: int| 0 <= i < list@.len() implies (#[trigger] fav_read@[i])@ == list@[i]@ by {
        assert(crate::text::texts(fav_read@)[i] == said[i]);
    }
}

} // verus!
