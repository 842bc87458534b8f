//! The option keys that the library itself refers to.

use vstd::prelude::*;

verus! {

pub const OPTION_COLLAPSE_TOOLBAR: &'static str = "collapse_toolbar";

pub const OPTION_ZOOM_CURSOR: &'static str = "zoom-cursor";

pub const OPTION_ENABLE_FILE_COPY_PASTE: &'static str = "enable-file-copy-paste";

pub const OPTION_I444: &'static str = "i444";

pub const OPTION_REVERSE_MOUSE_WHEEL: &'static str = "reverse_mouse_wheel";

pub const OPTION_SWAP_LEFT_RIGHT_MOUSE: &'static str = "swap-left-right-mouse";

pub const OPTION_DISPLAYS_AS_INDIVIDUAL_WINDOWS: &'static str = "displays_as_individual_windows";

pub const OPTION_USE_ALL_MY_DISPLAYS_FOR_THE_REMOTE_SESSION: &'static str = "use_all_my_displays_for_the_remote_session";

pub const OPTION_VIEW_STYLE: &'static str = "view_style";

pub const OPTION_SCROLL_STYLE: &'static str = "scroll_style";

pub const OPTION_EDGE_SCROLL_EDGE_THICKNESS: &'static str = "edge-scroll-edge-thickness";

pub const OPTION_IMAGE_QUALITY: &'static str = "image_quality";

pub const OPTION_CUSTOM_IMAGE_QUALITY: &'static str = "custom_image_quality";

pub const OPTION_CUSTOM_FPS: &'static str = "custom-fps";

pub const OPTION_CODEC_PREFERENCE: &'static str = "codec-preference";

pub const OPTION_LANGUAGE: &'static str = "lang";

pub const OPTION_ALLOW_NUMERNIC_ONE_TIME_PASSWORD: &'static str = "allow-numeric-one-time-password";

pub const OPTION_DIRECT_SERVER: &'static str = "direct-server";

pub const OPTION_ALLOW_WEBSOCKET: &'static str = "allow-websocket";

pub const OPTION_TRACKPAD_SPEED: &'static str = "trackpad-speed";

pub const OPTION_REGISTER_DEVICE: &'static str = "register-device";

pub const OPTION_RELAY_SERVER: &'static str = "relay-server";

pub const OPTION_ICE_SERVERS: &'static str = "ice-servers";

pub const OPTION_ALLOW_INSECURE_TLS_FALLBACK: &'static str = "allow-insecure-tls-fallback";

pub const OPTION_ALLOW_WEBRTC_CC: &'static str = "allow-webrtc-congestion-control";

pub const OPTION_ALLOW_HOSTNAME_AS_ID: &'static str = "allow-hostname-as-id";

pub const OPTION_DISABLE_CHANGE_PERMANENT_PASSWORD: &'static str = "disable-change-permanent-password";

pub const OPTION_DISABLE_CHANGE_ID: &'static str = "disable-change-id";

pub const OPTION_DISABLE_UNLOCK_PIN: &'static str = "disable-unlock-pin";

// proxy settings
// The following options are not real keys, they are just used for custom client advanced settings.
// The real keys are in Config2::socks.
pub const OPTION_PROXY_URL: &'static str = "proxy-url";

pub const OPTION_PROXY_USERNAME: &'static str = "proxy-username";

pub const OPTION_PROXY_PASSWORD: &'static str = "proxy-password";

} // verus!
