//! What is kept for each host that was connected to.

use vstd::prelude::*;
use crate::keys;
use crate::local_config::Size;
use crate::options::{layered, said, Options, Settings};
use crate::peer_flags::{
    AllowSwapKey, DisableAudio, DisableClipboard, EnableFileCopyPaste, FollowRemoteCursor, FollowRemoteWindow, LockAfterSessionEnd, PrivacyMode, ShowMyCursor, ShowQualityMonitor, ShowRemoteCursor, SyncInitClipboard, TerminalPersistent, ViewOnly,
};
use crate::storage::Opened;
use crate::text::{
    before_dot, parse_i32, parsed_i32, same_text, signed_decimal, text_before_dot,
};
use crate::text_map::{Entry, TextMap};
use crate::user_defaults::{user_default, UserDefaultConfig};

verus! {

/// The options of a host that are kept secret.
pub const RDP_PASSWORD: &'static str = "rdp_password";

pub const OS_USERNAME: &'static str = "os-username";

pub const OS_PASSWORD: &'static str = "os-password";

// ---------------------------------------------------------------------------------------------
// What the user has chosen for all connections
// ---------------------------------------------------------------------------------------------

/// What the user has chosen for all connections.
pub struct Defaults {
    pub user: UserDefaultConfig,
    pub settings: Settings,
    /// Whether this is a mobile device.
    pub mobile: bool,
    /// The chosen image quality as a number, as far as it is one within its bounds.
    pub image_quality: Option<String>,
    /// The chosen frame rate as a number, as far as it is one within its bounds.
    pub fps: Option<String>,
}

impl Defaults {
    /// The value that was chosen for an option.
    pub open spec fn value(self, key: Seq<char>) -> Seq<char> {
        user_default(
            key,
            self.mobile,
            layered(
                self.settings.overwrite_display_settings@,
                self.user.options@,
                self.settings.default_display_settings@,
                key,
            ),
            if key == keys::OPTION_CUSTOM_IMAGE_QUALITY@ {
                said(self.image_quality)
            } else if key == keys::OPTION_CUSTOM_FPS@ {
                said(self.fps)
            } else {
                None
            },
        )
    }

    /// Whether a switch was chosen to be on.
    pub open spec fn on(self, key: Seq<char>) -> bool {
        self.value(key) == "Y"@
    }

    /// The whole number that was chosen for an option.
    pub open spec fn number(self, key: Seq<char>) -> i32 {
        match parsed_i32(self.value(key)) {
            Some(n) => n,
            None => 100,
        }
    }

    /// The value that was chosen for an option.
    pub fn read(&self, key: &str) -> (r: String)
        ensures
            r@ == self.value(key@),
    {
        let number = if same_text(key, keys::OPTION_CUSTOM_IMAGE_QUALITY) {
            copy_maybe(&self.image_quality)
        } else if same_text(key, keys::OPTION_CUSTOM_FPS) {
            copy_maybe(&self.fps)
        } else {
            None
        };
        self.user.get(&self.settings, key, self.mobile, number)
    }

    /// Whether a switch was chosen to be on.
    pub fn is_on(&self, key: &str) -> (r: bool)
        ensures
            r == self.on(key@),
    {
        let v = self.read(key);
        same_text(v.as_str(), "Y")
    }

    /// The whole number that was chosen for an option.
    pub fn read_number(&self, key: &str) -> (r: i32)
        ensures
            r == self.number(key@),
    {
        let v = self.read(key);
        match parse_i32(v.as_str()) {
            Some(n) => n,
            None => 100,
        }
    }
}

fn copy_maybe(o: &Option<String>) -> (r: Option<String>)
    ensures
        said(r) == said(*o),
{
    match o {
        Some(s) => Some(s.clone()),
        None => None,
    }
}

// ---------------------------------------------------------------------------------------------
// Parts
// ---------------------------------------------------------------------------------------------

/// The size of a screen.
#[derive(Debug, Clone, Copy, PartialEq)]
pub struct Resolution {
    pub w: i32,
    pub h: i32,
}

impl View for Resolution {
    type V = Resolution;

    open spec fn view(&self) -> Resolution {
        *self
    }
}

impl Default for Resolution {
    fn default() -> (r: Self)
        ensures
            r.w == 0,
            r.h == 0,
    {
        Resolution { w: 0, h: 0 }
    }
}

impl Entry for Resolution {
    fn copy(&self) -> (r: Self) {
        *self
    }

    fn same(&self, other: &Self) -> (r: bool) {
        self.w == other.w && self.h == other.h
    }
}

/// What is known of a host.
#[derive(Debug, PartialEq)]
pub struct PeerInfoSerde {
    pub username: String,
    pub hostname: String,
    pub platform: String,
}

impl Default for PeerInfoSerde {
    fn default() -> (r: Self)
        ensures
            r.username@.len() == 0,
            r.hostname@.len() == 0,
            r.platform@.len() == 0,
    {
        PeerInfoSerde {
            username: String::new(),
            hostname: String::new(),
            platform: String::new(),
        }
    }
}

/// File transfers that have not finished.
#[derive(Debug, PartialEq)]
pub struct TransferSerde {
    pub write_jobs: Vec<String>,
    pub read_jobs: Vec<String>,
}

impl Default for TransferSerde {
    fn default() -> (r: Self)
        ensures
            r.write_jobs@.len() == 0,
            r.read_jobs@.len() == 0,
    {
        TransferSerde { write_jobs: Vec::new(), read_jobs: Vec::new() }
    }
}

// ---------------------------------------------------------------------------------------------
// Secrets
// ---------------------------------------------------------------------------------------------

/// What came out when the secrets of a host were opened. What is said of an option that is not
/// set does not matter.
pub struct OpenedSecrets {
    pub password: Vec<u8>,
    /// Whether the password is stored in a form that has to be stored anew.
    pub should_store: bool,
    pub rdp_password: Opened,
    pub os_username: Opened,
    pub os_password: Opened,
}

/// The secrets of a host, sealed. What is said of an option that is not set does not matter.
pub struct SealedSecrets {
    pub password: Vec<u8>,
    pub rdp_password: String,
    pub os_username: String,
    pub os_password: String,
}

/// The options with another value for one of them, where it is set.
pub open spec fn replaced(m: Options, k: Seq<char>, v: Seq<char>) -> Options {
    if m.contains_key(k) {
        m.insert(k, v)
    } else {
        m
    }
}

/// The options with other values for the secret ones that are set.
pub open spec fn with_secrets(
    m: Options,
    rdp_password: Seq<char>,
    os_username: Seq<char>,
    os_password: Seq<char>,
) -> Options {
    replaced(
        replaced(replaced(m, RDP_PASSWORD@, rdp_password), OS_USERNAME@, os_username),
        OS_PASSWORD@,
        os_password,
    )
}

/// Whether one of the secrets that are set is stored in a form that has to be stored anew.
pub open spec fn stale(m: Options, secrets: OpenedSecrets) -> bool {
    ||| secrets.should_store
    ||| m.contains_key(RDP_PASSWORD@) && secrets.rdp_password.should_store
    ||| m.contains_key(OS_USERNAME@) && secrets.os_username.should_store
    ||| m.contains_key(OS_PASSWORD@) && secrets.os_password.should_store
}

fn replace(m: &mut TextMap<String>, k: &str, v: String) -> (r: bool)
    ensures
        final(m)@ == replaced(old(m)@, k@, v@),
        r == old(m)@.contains_key(k@),
{
    if m.contains_key(k) {
        m.insert(k.to_owned(), v);
        return true;
    }
    false
}

// ---------------------------------------------------------------------------------------------
// The configuration
// ---------------------------------------------------------------------------------------------

/// What is kept for a host.
pub struct PeerConfig {
    pub password: Vec<u8>,
    pub size: Size,
    pub size_ft: Size,
    pub size_pf: Size,
    pub view_style: String,
    pub scroll_style: String,
    pub edge_scroll_edge_thickness: i32,
    pub image_quality: String,
    pub custom_image_quality: Vec<i32>,
    pub show_remote_cursor: ShowRemoteCursor,
    pub lock_after_session_end: LockAfterSessionEnd,
    pub terminal_persistent: TerminalPersistent,
    pub privacy_mode: PrivacyMode,
    pub allow_swap_key: AllowSwapKey,
    pub disable_audio: DisableAudio,
    pub disable_clipboard: DisableClipboard,
    pub enable_file_copy_paste: EnableFileCopyPaste,
    pub show_quality_monitor: ShowQualityMonitor,
    pub follow_remote_cursor: FollowRemoteCursor,
    pub follow_remote_window: FollowRemoteWindow,
    pub view_only: ViewOnly,
    pub show_my_cursor: ShowMyCursor,
    pub sync_init_clipboard: SyncInitClipboard,
    pub port_forwards: Vec<(i32, String, i32)>,
    pub direct_failures: i32,
    pub keyboard_mode: String,
    pub reverse_mouse_wheel: String,
    pub displays_as_individual_windows: String,
    pub use_all_my_displays_for_the_remote_session: String,
    pub trackpad_speed: i32,
    pub custom_resolutions: TextMap<Resolution>,
    pub options: TextMap<String>,
    pub ui_flutter: TextMap<String>,
    pub info: PeerInfoSerde,
    pub transfer: TransferSerde,
}

/// The options that the user has chosen for all connections.
pub open spec fn chosen_options(defaults: Defaults) -> Options {
    Options::empty().insert(
        keys::OPTION_CODEC_PREFERENCE@,
        defaults.value(keys::OPTION_CODEC_PREFERENCE@),
    ).insert(keys::OPTION_CUSTOM_FPS@, defaults.value(keys::OPTION_CUSTOM_FPS@)).insert(
        keys::OPTION_ZOOM_CURSOR@,
        defaults.value(keys::OPTION_ZOOM_CURSOR@),
    ).insert(keys::OPTION_I444@, defaults.value(keys::OPTION_I444@)).insert(
        keys::OPTION_SWAP_LEFT_RIGHT_MOUSE@,
        defaults.value(keys::OPTION_SWAP_LEFT_RIGHT_MOUSE@),
    ).insert(keys::OPTION_COLLAPSE_TOOLBAR@, defaults.value(keys::OPTION_COLLAPSE_TOOLBAR@))
}

/// The image quality that the user has chosen for all connections: the whole part of the number.
pub open spec fn chosen_quality(defaults: Defaults) -> i32 {
    match parsed_i32(before_dot(defaults.value(keys::OPTION_CUSTOM_IMAGE_QUALITY@))) {
        Some(n) => n,
        None => 100,
    }
}

/// Whether an image quality is a single number within its bounds.
pub open spec fn quality_is_valid(v: Seq<i32>) -> bool {
    v.len() == 1 && 10 <= v[0] <= 0xFFF
}

/// Whether what is kept for a host is as the user has chosen for all connections, with nothing
/// known of the host.
pub open spec fn as_chosen(r: PeerConfig, defaults: Defaults) -> bool {
    &&& r.password@.len() == 0
    &&& r.size == (0i32, 0i32, 0i32, 0i32)
    &&& r.size_ft == (0i32, 0i32, 0i32, 0i32)
    &&& r.size_pf == (0i32, 0i32, 0i32, 0i32)
    &&& r.view_style@ == defaults.value(keys::OPTION_VIEW_STYLE@)
    &&& r.scroll_style@ == defaults.value(keys::OPTION_SCROLL_STYLE@)
    &&& r.edge_scroll_edge_thickness == defaults.number(
        keys::OPTION_EDGE_SCROLL_EDGE_THICKNESS@,
    )
    &&& r.image_quality@ == defaults.value(keys::OPTION_IMAGE_QUALITY@)
    &&& r.custom_image_quality@ == seq![chosen_quality(defaults)]
    &&& r.show_remote_cursor.v == defaults.on("show_remote_cursor"@)
    &&& r.lock_after_session_end.v == defaults.on("lock_after_session_end"@)
    &&& r.terminal_persistent.v == defaults.on("terminal-persistent"@)
    &&& r.privacy_mode.v == defaults.on("privacy_mode"@)
    &&& r.allow_swap_key.v == defaults.on("allow_swap_key"@)
    &&& r.disable_audio.v == defaults.on("disable_audio"@)
    &&& r.disable_clipboard.v == defaults.on("disable_clipboard"@)
    &&& r.enable_file_copy_paste.v == defaults.on("enable-file-copy-paste"@)
    &&& r.show_quality_monitor.v == defaults.on("show_quality_monitor"@)
    &&& r.follow_remote_cursor.v == defaults.on("follow_remote_cursor"@)
    &&& r.follow_remote_window.v == defaults.on("follow_remote_window"@)
    &&& r.view_only.v == defaults.on("view_only"@)
    &&& r.show_my_cursor.v == defaults.on("show_my_cursor"@)
    &&& r.sync_init_clipboard.v == defaults.on("sync-init-clipboard"@)
    &&& r.port_forwards@.len() == 0
    &&& r.direct_failures == 0
    &&& r.keyboard_mode@.len() == 0
    &&& r.reverse_mouse_wheel@ == defaults.value(keys::OPTION_REVERSE_MOUSE_WHEEL@)
    &&& r.displays_as_individual_windows@ == defaults.value(
        keys::OPTION_DISPLAYS_AS_INDIVIDUAL_WINDOWS@,
    )
    &&& r.use_all_my_displays_for_the_remote_session@ == defaults.value(
        keys::OPTION_USE_ALL_MY_DISPLAYS_FOR_THE_REMOTE_SESSION@,
    )
    &&& r.trackpad_speed == defaults.number(keys::OPTION_TRACKPAD_SPEED@)
    &&& r.custom_resolutions@ == Map::<Seq<char>, Resolution>::empty()
    &&& r.options@ == chosen_options(defaults)
    &&& r.ui_flutter@ == Options::empty()
    &&& r.info.username@.len() == 0
    &&& r.info.hostname@.len() == 0
    &&& r.info.platform@.len() == 0
    &&& r.transfer.write_jobs@.len() == 0
    &&& r.transfer.read_jobs@.len() == 0
}

impl PeerConfig {
    /// What is kept for a host of which nothing is known yet.
    pub fn new(defaults: &Defaults) -> (r: PeerConfig)
        ensures
            as_chosen(r, *defaults),
    {
        PeerConfig {
            password: Vec::new(),
            size: (0, 0, 0, 0),
            size_ft: (0, 0, 0, 0),
            size_pf: (0, 0, 0, 0),
            view_style: defaults.read(keys::OPTION_VIEW_STYLE),
            scroll_style: defaults.read(keys::OPTION_SCROLL_STYLE),
            edge_scroll_edge_thickness: Self::default_edge_scroll_edge_thickness(defaults),
            image_quality: defaults.read(keys::OPTION_IMAGE_QUALITY),
            custom_image_quality: Self::default_custom_image_quality(defaults),
            show_remote_cursor: ShowRemoteCursor { v: ShowRemoteCursor::default_show_remote_cursor(defaults) },
            lock_after_session_end: LockAfterSessionEnd { v: LockAfterSessionEnd::default_lock_after_session_end(defaults) },
            terminal_persistent: TerminalPersistent { v: TerminalPersistent::default_terminal_persistent(defaults) },
            privacy_mode: PrivacyMode { v: PrivacyMode::default_privacy_mode(defaults) },
            allow_swap_key: AllowSwapKey { v: AllowSwapKey::default_allow_swap_key(defaults) },
            disable_audio: DisableAudio { v: DisableAudio::default_disable_audio(defaults) },
            disable_clipboard: DisableClipboard { v: DisableClipboard::default_disable_clipboard(defaults) },
            enable_file_copy_paste: EnableFileCopyPaste { v: EnableFileCopyPaste::default_enable_file_copy_paste(defaults) },
            show_quality_monitor: ShowQualityMonitor { v: ShowQualityMonitor::default_show_quality_monitor(defaults) },
            follow_remote_cursor: FollowRemoteCursor { v: FollowRemoteCursor::default_follow_remote_cursor(defaults) },
            follow_remote_window: FollowRemoteWindow { v: FollowRemoteWindow::default_follow_remote_window(defaults) },
            view_only: ViewOnly { v: ViewOnly::default_view_only(defaults) },
            show_my_cursor: ShowMyCursor { v: ShowMyCursor::default_show_my_cursor(defaults) },
            sync_init_clipboard: SyncInitClipboard { v: SyncInitClipboard::default_sync_init_clipboard(defaults) },
            port_forwards: Vec::new(),
            direct_failures: 0,
            keyboard_mode: String::new(),
            reverse_mouse_wheel: defaults.read(keys::OPTION_REVERSE_MOUSE_WHEEL),
            displays_as_individual_windows: defaults.read(
                keys::OPTION_DISPLAYS_AS_INDIVIDUAL_WINDOWS,
            ),
            use_all_my_displays_for_the_remote_session: defaults.read(
                keys::OPTION_USE_ALL_MY_DISPLAYS_FOR_THE_REMOTE_SESSION,
            ),
            trackpad_speed: Self::default_trackpad_speed(defaults),
            custom_resolutions: TextMap::new(),
            options: Self::default_options(defaults),
            ui_flutter: TextMap::new(),
            info: PeerInfoSerde::default(),
            transfer: TransferSerde::default(),
        }
    }

    /// What is kept for a host, as it was just read, with its secrets opened; as the user has
    /// chosen where it could not be read. The second result tells whether it has to be stored
    /// again.
    pub fn load(loaded: Option<(PeerConfig, OpenedSecrets)>, defaults: &Defaults) -> (r: (
        PeerConfig,
        bool,
    ))
        ensures
            match loaded {
                Some((config, secrets)) => {
                    &&& r.0 == (PeerConfig {
                        password: secrets.password,
                        options: r.0.options,
                        ..config
                    })
                    &&& r.0.options@ == with_secrets(
                        config.options@,
                        secrets.rdp_password.text@,
                        secrets.os_username.text@,
                        secrets.os_password.text@,
                    )
                    &&& r.1 == stale(config.options@, secrets)
                },
                None => as_chosen(r.0, *defaults) && !r.1,
            },
            loaded matches Some((config, secrets)) ==> {
                &&& config.options@.contains_key("rdp_password"@)
                    ==> r.0.options@["rdp_password"@] == secrets.rdp_password.text@
                &&& config.options@.contains_key("os-username"@) ==> r.0.options@["os-username"@]
                    == secrets.os_username.text@
                &&& config.options@.contains_key("os-password"@) ==> r.0.options@["os-password"@]
                    == secrets.os_password.text@
            },
    {
        proof {
            lemma_secret_options_differ();
        }
        let (mut config, secrets) = match loaded {
            Some(loaded) => loaded,
            None => return (Self::new(defaults), false),
        };
        config.password = secrets.password;
        let mut store = secrets.should_store;
        if replace(&mut config.options, RDP_PASSWORD, secrets.rdp_password.text) {
            store = store || secrets.rdp_password.should_store;
        }
        if replace(&mut config.options, OS_USERNAME, secrets.os_username.text) {
            store = store || secrets.os_username.should_store;
        }
        if replace(&mut config.options, OS_PASSWORD, secrets.os_password.text) {
            store = store || secrets.os_password.should_store;
        }
        (config, store)
    }

    /// The form in which what is kept for a host is stored, with its secrets sealed.
    pub fn store(self, secrets: SealedSecrets) -> (r: PeerConfig)
        ensures
            r == (PeerConfig { password: secrets.password, options: r.options, ..self }),
            r.options@ == with_secrets(
                self.options@,
                secrets.rdp_password@,
                secrets.os_username@,
                secrets.os_password@,
            ),
            self.options@.contains_key("rdp_password"@) ==> r.options@["rdp_password"@]
                == secrets.rdp_password@,
            self.options@.contains_key("os-username"@) ==> r.options@["os-username"@]
                == secrets.os_username@,
            self.options@.contains_key("os-password"@) ==> r.options@["os-password"@]
                == secrets.os_password@,
    {
        proof {
            lemma_secret_options_differ();
        }
        let mut config = self;
        config.password = secrets.password;
        replace(&mut config.options, RDP_PASSWORD, secrets.rdp_password);
        replace(&mut config.options, OS_USERNAME, secrets.os_username);
        replace(&mut config.options, OS_PASSWORD, secrets.os_password);
        config
    }

    /// Whether the host is listed. One of which not even the platform is known is not.
    pub fn is_listed(&self) -> (r: bool)
        ensures
            r == (self.info.platform@.len() > 0),
    {
        !self.info.platform.as_str().is_empty()
    }

    /// A text that was read for an option, or what the user has chosen where there is none.
    pub fn text_or_default(defaults: &Defaults, key: &str, read: Option<String>) -> (r: String)
        ensures
            r@ == (match read {
                Some(s) => if s@.len() > 0 {
                    s@
                } else {
                    defaults.value(key@)
                },
                None => defaults.value(key@),
            }),
    {
        if let Some(s) = read {
            if !s.as_str().is_empty() {
                return s;
            }
        }
        defaults.read(key)
    }

    /// The image quality that the user has chosen.
    pub fn default_custom_image_quality(defaults: &Defaults) -> (r: Vec<i32>)
        ensures
            r@ == seq![chosen_quality(*defaults)],
    {
        let v = defaults.read(keys::OPTION_CUSTOM_IMAGE_QUALITY);
        let whole = text_before_dot(v.as_str());
        let n: i32 = match parse_i32(whole.as_str()) {
            Some(n) => n,
            None => 100,
        };
        let mut r: Vec<i32> = Vec::new();
        r.push(n);
        assert(r@ =~= seq![chosen_quality(*defaults)]);
        r
    }

    /// An image quality that was read, or the one that the user has chosen where it is not valid.
    pub fn deserialize_custom_image_quality(defaults: &Defaults, v: Vec<i32>) -> (r: Vec<i32>)
        ensures
            r@ == (if quality_is_valid(v@) {
                v@
            } else {
                seq![chosen_quality(*defaults)]
            }),
            v@.len() == 1 && 10 <= v@[0] <= 4095 ==> r@ == v@,
            v@.len() != 1 || v@[0] < 10 || v@[0] > 4095 ==> r@ == seq![chosen_quality(*defaults)],
    {
        if v.len() == 1 && v[0] >= 10 && v[0] <= 0xFFF {
            v
        } else {
            Self::default_custom_image_quality(defaults)
        }
    }

    /// The options that the user has chosen for all connections.
    pub fn default_options(defaults: &Defaults) -> (r: TextMap<String>)
        ensures
            r@ == chosen_options(*defaults),
    {
        let mut mp: TextMap<String> = TextMap::new();
        mp.insert(
            keys::OPTION_CODEC_PREFERENCE.to_owned(),
            defaults.read(keys::OPTION_CODEC_PREFERENCE),
        );
        mp.insert(keys::OPTION_CUSTOM_FPS.to_owned(), defaults.read(keys::OPTION_CUSTOM_FPS));
        mp.insert(keys::OPTION_ZOOM_CURSOR.to_owned(), defaults.read(keys::OPTION_ZOOM_CURSOR));
        mp.insert(keys::OPTION_I444.to_owned(), defaults.read(keys::OPTION_I444));
        mp.insert(
            keys::OPTION_SWAP_LEFT_RIGHT_MOUSE.to_owned(),
            defaults.read(keys::OPTION_SWAP_LEFT_RIGHT_MOUSE),
        );
        mp.insert(
            keys::OPTION_COLLAPSE_TOOLBAR.to_owned(),
            defaults.read(keys::OPTION_COLLAPSE_TOOLBAR),
        );
        mp
    }

    /// The speed of the trackpad that the user has chosen.
    pub fn default_trackpad_speed(defaults: &Defaults) -> (r: i32)
        ensures
            r == defaults.number(keys::OPTION_TRACKPAD_SPEED@),
    {
        defaults.read_number(keys::OPTION_TRACKPAD_SPEED)
    }

    /// A speed of the trackpad that was read, or the one that the user has chosen where it is out
    /// of bounds.
    pub fn deserialize_trackpad_speed(defaults: &Defaults, v: i32) -> (r: i32)
        ensures
            r == (if 10 <= v <= 1000 {
                v
            } else {
                defaults.number(keys::OPTION_TRACKPAD_SPEED@)
            }),
    {
        if v >= 10 && v <= 1000 {
            v
        } else {
            Self::default_trackpad_speed(defaults)
        }
    }

    /// The thickness of the edge that scrolls that the user has chosen.
    pub fn default_edge_scroll_edge_thickness(defaults: &Defaults) -> (r: i32)
        ensures
            r == defaults.number(keys::OPTION_EDGE_SCROLL_EDGE_THICKNESS@),
    {
        defaults.read_number(keys::OPTION_EDGE_SCROLL_EDGE_THICKNESS)
    }

    /// A thickness of the edge that scrolls that was read, or the one that the user has chosen
    /// where it is out of bounds.
    pub fn deserialize_edge_scroll_edge_thickness(defaults: &Defaults, v: i32) -> (r: i32)
        ensures
            r == (if 20 <= v <= 150 {
                v
            } else {
                defaults.number(keys::OPTION_EDGE_SCROLL_EDGE_THICKNESS@)
            }),
    {
        if v >= 20 && v <= 150 {
            v
        } else {
            Self::default_edge_scroll_edge_thickness(defaults)
        }
    }
}

// ---------------------------------------------------------------------------------------------
// Laws
// ---------------------------------------------------------------------------------------------

/// Secrets that were sealed for storing and are opened again when they are read leave the options
/// as they were.
pub proof fn law_secrets_survive_storage(
    m: Options,
    rdp_password: Seq<char>,
    os_username: Seq<char>,
    os_password: Seq<char>,
)
    ensures
        with_secrets(
            with_secrets(m, rdp_password, os_username, os_password),
            m[RDP_PASSWORD@],
            m[OS_USERNAME@],
            m[OS_PASSWORD@],
        ) == m,
{
    lemma_secret_options_differ();
    assert(with_secrets(
        with_secrets(m, rdp_password, os_username, os_password),
        m[RDP_PASSWORD@],
        m[OS_USERNAME@],
        m[OS_PASSWORD@],
    ) =~= m);
}

/// Sealing and opening secrets changes no other option, and sets none.
pub proof fn law_secrets_are_all_that_changes(
    m: Options,
    rdp_password: Seq<char>,
    os_username: Seq<char>,
    os_password: Seq<char>,
    k: Seq<char>,
)
    ensures
        ({
            let after = with_secrets(m, rdp_password, os_username, os_password);
            &&& after.contains_key(k) == m.contains_key(k)
            &&& k != RDP_PASSWORD@ && k != OS_USERNAME@ && k != OS_PASSWORD@ ==> after[k] == m[k]
        }),
{
}

proof fn lemma_secret_options_differ()
    ensures
        RDP_PASSWORD@ != OS_USERNAME@,
        RDP_PASSWORD@ != OS_PASSWORD@,
        OS_USERNAME@ != OS_PASSWORD@,
{
    reveal_strlit("rdp_password");
    reveal_strlit("os-username");
    reveal_strlit("os-password");
    assert(RDP_PASSWORD@[0] != OS_USERNAME@[0]);
    assert(RDP_PASSWORD@[0] != OS_PASSWORD@[0]);
    assert(OS_USERNAME@[3] != OS_PASSWORD@[3]);
}

/// Whatever was chosen, the trackpad speed and the thickness of the edge of a new host are within
/// their bounds.
pub proof fn law_chosen_numbers_are_within_bounds(defaults: Defaults)
    ensures
        10 <= defaults.number(keys::OPTION_TRACKPAD_SPEED@) <= 1000,
        20 <= defaults.number(keys::OPTION_EDGE_SCROLL_EDGE_THICKNESS@) <= 150,
{
    reveal_strlit("view_style");
    reveal_strlit("scroll_style");
    reveal_strlit("image_quality");
    reveal_strlit("codec-preference");
    reveal_strlit("custom_image_quality");
    reveal_strlit("custom-fps");
    reveal_strlit("enable-file-copy-paste");
    reveal_strlit("edge-scroll-edge-thickness");
    reveal_strlit("trackpad-speed");
    let trackpad = keys::OPTION_TRACKPAD_SPEED@;
    let edge = keys::OPTION_EDGE_SCROLL_EDGE_THICKNESS@;
    let set_trackpad = layered(
        defaults.settings.overwrite_display_settings@,
        defaults.user.options@,
        defaults.settings.default_display_settings@,
        trackpad,
    );
    let set_edge = layered(
        defaults.settings.overwrite_display_settings@,
        defaults.user.options@,
        defaults.settings.default_display_settings@,
        edge,
    );
    crate::user_defaults::law_whole_number_is_within_bounds(set_trackpad, 100, 10, 1000);
    crate::user_defaults::law_whole_number_is_within_bounds(set_edge, 100, 20, 150);
    assert(trackpad.len() == 14);
    assert(edge.len() == 26);
    assert(keys::OPTION_VIEW_STYLE@.len() == 10);
    assert(keys::OPTION_SCROLL_STYLE@.len() == 12);
    assert(keys::OPTION_IMAGE_QUALITY@.len() == 13);
    assert(keys::OPTION_CODEC_PREFERENCE@.len() == 16);
    assert(keys::OPTION_CUSTOM_IMAGE_QUALITY@.len() == 20);
    assert(keys::OPTION_CUSTOM_FPS@.len() == 10);
    assert(keys::OPTION_ENABLE_FILE_COPY_PASTE@.len() == 22);
}

/// Each of the three secret options that is set has the text that was given for it, sealed when it
/// is stored and opened when it is read.
pub proof fn law_each_secret_is_replaced(
    m: Options,
    rdp_password: Seq<char>,
    os_username: Seq<char>,
    os_password: Seq<char>,
)
    ensures
        ({
            let after = with_secrets(m, rdp_password, os_username, os_password);
            &&& m.contains_key("rdp_password"@) ==> after.contains_key("rdp_password"@)
                && after["rdp_password"@] == rdp_password
            &&& m.contains_key("os-username"@) ==> after.contains_key("os-username"@)
                && after["os-username"@] == os_username
            &&& m.contains_key("os-password"@) ==> after.contains_key("os-password"@)
                && after["os-password"@] == os_password
        }),
{
    lemma_secret_options_differ();
}

/// A secret that is set and stored in an old form makes the whole to be stored anew; what is said
/// of one that is not set does not matter, and without any such secret nothing has to be stored.
pub proof fn law_old_forms_are_stored_anew(m: Options, secrets: OpenedSecrets)
    ensures
        secrets.should_store ==> stale(m, secrets),
        m.contains_key("rdp_password"@) && secrets.rdp_password.should_store ==> stale(m, secrets),
        m.contains_key("os-username"@) && secrets.os_username.should_store ==> stale(m, secrets),
        m.contains_key("os-password"@) && secrets.os_password.should_store ==> stale(m, secrets),
        !secrets.should_store && m == Options::empty() ==> !stale(m, secrets),
        !secrets.should_store && !(m.contains_key("rdp_password"@)
            && secrets.rdp_password.should_store) && !(m.contains_key("os-username"@)
            && secrets.os_username.should_store) && !(m.contains_key("os-password"@)
            && secrets.os_password.should_store) ==> !stale(m, secrets),
{
}

/// Replacing a value sets no option that was not set, and changes no other one.
pub proof fn law_replacing_sets_nothing(
    m: Options,
    k: Seq<char>,
    v: Seq<char>,
    other: Seq<char>,
)
    ensures
        replaced(m, k, v).contains_key(other) == m.contains_key(other),
        m.contains_key(k) ==> replaced(m, k, v)[k] == v,
        other != k && m.contains_key(other) ==> replaced(m, k, v)[other] == m[other],
{
}

/// A host of which nothing is known yet has what the user has chosen for all connections, option
/// by option, and is otherwise empty.
pub proof fn law_new_host_has_what_was_chosen(r: PeerConfig, defaults: Defaults)
    requires
        as_chosen(r, defaults),
    ensures
        r.view_style@ == defaults.value("view_style"@),
        r.scroll_style@ == defaults.value("scroll_style"@),
        r.image_quality@ == defaults.value("image_quality"@),
        r.reverse_mouse_wheel@ == defaults.value("reverse_mouse_wheel"@),
        r.displays_as_individual_windows@ == defaults.value("displays_as_individual_windows"@),
        r.use_all_my_displays_for_the_remote_session@ == defaults.value("use_all_my_displays_for_the_remote_session"@),
        r.edge_scroll_edge_thickness == defaults.number("edge-scroll-edge-thickness"@),
        r.trackpad_speed == defaults.number("trackpad-speed"@),
        r.custom_image_quality@ == seq![chosen_quality(defaults)],
        r.options@ == chosen_options(defaults),
        r.show_remote_cursor.v <==> defaults.value("show_remote_cursor"@) == "Y"@,
        r.lock_after_session_end.v <==> defaults.value("lock_after_session_end"@) == "Y"@,
        r.terminal_persistent.v <==> defaults.value("terminal-persistent"@) == "Y"@,
        r.privacy_mode.v <==> defaults.value("privacy_mode"@) == "Y"@,
        r.allow_swap_key.v <==> defaults.value("allow_swap_key"@) == "Y"@,
        r.disable_audio.v <==> defaults.value("disable_audio"@) == "Y"@,
        r.disable_clipboard.v <==> defaults.value("disable_clipboard"@) == "Y"@,
        r.enable_file_copy_paste.v <==> defaults.value("enable-file-copy-paste"@) == "Y"@,
        r.show_quality_monitor.v <==> defaults.value("show_quality_monitor"@) == "Y"@,
        r.follow_remote_cursor.v <==> defaults.value("follow_remote_cursor"@) == "Y"@,
        r.follow_remote_window.v <==> defaults.value("follow_remote_window"@) == "Y"@,
        r.view_only.v <==> defaults.value("view_only"@) == "Y"@,
        r.show_my_cursor.v <==> defaults.value("show_my_cursor"@) == "Y"@,
        r.sync_init_clipboard.v <==> defaults.value("sync-init-clipboard"@) == "Y"@,
        r.password@.len() == 0,
        r.keyboard_mode@.len() == 0,
        r.port_forwards@.len() == 0,
        r.direct_failures == 0,
        r.size == (0i32, 0i32, 0i32, 0i32),
        r.size_ft == r.size,
        r.size_pf == r.size,
        r.custom_resolutions@.dom() == Set::<Seq<char>>::empty(),
        r.ui_flutter@.dom() == Set::<Seq<char>>::empty(),
        r.info.username@.len() == 0,
        r.info.hostname@.len() == 0,
        r.info.platform@.len() == 0,
        r.transfer.write_jobs@.len() == 0,
        r.transfer.read_jobs@.len() == 0,
{
    assert(r.custom_resolutions@.dom() =~= Set::<Seq<char>>::empty());
    assert(r.ui_flutter@.dom() =~= Set::<Seq<char>>::empty());
}

/// The options of a new host are the six that can be chosen for all connections, each as it was
/// chosen.
pub proof fn law_options_of_a_new_host(defaults: Defaults, k: Seq<char>)
    ensures
        chosen_options(defaults).contains_key(k) <==> k == "codec-preference"@ || k
            == "custom-fps"@ || k == "zoom-cursor"@ || k == "i444"@ || k
            == "swap-left-right-mouse"@ || k == "collapse_toolbar"@,
        chosen_options(defaults).contains_key(k) ==> chosen_options(defaults)[k] == defaults.value(
            k,
        ),
{
}

/// What was chosen for an option is what the settings of the build overwrite it with, else what
/// the user has set, else the default of the build, as far as the option allows it.
pub proof fn law_chosen_value_follows_the_layers(defaults: Defaults, key: Seq<char>)
    requires
        key != "custom_image_quality"@,
        key != "custom-fps"@,
    ensures
        ({
            let over = defaults.settings.overwrite_display_settings@;
            let own = defaults.user.options@;
            let build = defaults.settings.default_display_settings@;
            let set = if over.contains_key(key) {
                Some(over[key])
            } else if own.contains_key(key) {
                Some(own[key])
            } else if build.contains_key(key) {
                Some(build[key])
            } else {
                None
            };
            defaults.value(key) == user_default(key, defaults.mobile, set, None)
        }),
{
}

/// The two options that are fractions have the numbers that were chosen, as far as they are within
/// their bounds.
pub proof fn law_chosen_fractions(defaults: Defaults)
    ensures
        defaults.image_quality matches Some(n) ==> defaults.value("custom_image_quality"@) == n@,
        defaults.fps matches Some(n) ==> defaults.value("custom-fps"@) == n@,
        defaults.image_quality is None ==> parsed_i32(defaults.value("custom_image_quality"@))
            == Some(100i32),
        defaults.fps is None ==> parsed_i32(defaults.value("custom-fps"@)) == Some(60i32),
{
    let quality = "custom_image_quality"@;
    let fps = "custom-fps"@;
    reveal_strlit("custom_image_quality");
    reveal_strlit("custom-fps");
    assert(quality.len() != fps.len());
    crate::user_defaults::law_fractions_are_as_set(
        defaults.mobile,
        layered(
            defaults.settings.overwrite_display_settings@,
            defaults.user.options@,
            defaults.settings.default_display_settings@,
            quality,
        ),
        said(defaults.image_quality),
    );
    crate::user_defaults::law_fractions_are_as_set(
        defaults.mobile,
        layered(
            defaults.settings.overwrite_display_settings@,
            defaults.user.options@,
            defaults.settings.default_display_settings@,
            fps,
        ),
        said(defaults.fps),
    );
}

/// A switch is on where it was chosen to be `Y`, and a whole number is the one that was chosen, or
/// 100 where none was.
pub proof fn law_chosen_switches_and_numbers(defaults: Defaults, key: Seq<char>, n: i32)
    ensures
        defaults.on(key) <==> defaults.value(key) == "Y"@,
        defaults.value(key) == signed_decimal(n as int) ==> defaults.number(key) == n,
        parsed_i32(defaults.value(key)) is None ==> defaults.number(key) == 100,
{
    crate::text::law_number_text_round_trip(n);
}

/// The chosen image quality is the whole part of the number, whatever stands behind the dot, and
/// 100 where it does not begin with a number.
pub proof fn law_chosen_quality_is_the_whole_part(defaults: Defaults, n: i32, rest: Seq<char>)
    requires
        rest.len() == 0 || rest[0] == '.',
    ensures
        defaults.value("custom_image_quality"@) == signed_decimal(n as int) + rest
            ==> chosen_quality(defaults) == n,
        defaults.value("custom_image_quality"@) == rest ==> chosen_quality(defaults) == 100,
{
    let whole = signed_decimal(n as int);
    let s = whole + rest;
    crate::text::law_number_text_round_trip(n);
    crate::text::law_part_before_the_dot(s);
    crate::text::law_part_before_the_dot(rest);
    let b = before_dot(s);
    assert(!whole.contains('.')) by {
        let digits = if n < 0 {
            crate::text::lemma_decimal((-n) as nat);
            crate::text::decimal((-n) as nat)
        } else {
            crate::text::lemma_decimal(n as nat);
            crate::text::decimal(n as nat)
        };
        if whole.contains('.') {
            let i = choose|i: int| 0 <= i < whole.len() && whole[i] == '.';
            if n < 0 {
                assert(digits[i - 1] == '.');
            } else {
                assert(digits[i] == '.');
            }
        }
    }
    assert(b == s.subrange(0, b.len() as int));
    if b.len() < whole.len() {
        assert(whole[b.len() as int] == '.');
    }
    if b.len() > whole.len() {
        assert(b[whole.len() as int] == '.');
    }
    assert(b =~= whole);
    if rest.len() > 0 && before_dot(rest).len() > 0 {
        assert(before_dot(rest) == rest.subrange(0, before_dot(rest).len() as int));
        assert(before_dot(rest)[0] == '.');
    }
    crate::text::law_other_texts_are_no_numbers(before_dot(rest), 0);
}

/// An image quality is valid where it is a single number from 10 to 4095.
pub proof fn law_valid_image_qualities(n: i32, more: Seq<i32>)
    ensures
        quality_is_valid(seq![n]) <==> 10 <= n <= 4095,
        more.len() != 1 ==> !quality_is_valid(more),
{
}

} // verus!
