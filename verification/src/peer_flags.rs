//! The switches of a connection. Where a switch was not set, it is as the user has chosen for
//! all connections.

use vstd::prelude::*;
use crate::peer_config::Defaults;

verus! {

/// Whether the cursor of the other side is shown.
#[derive(Debug, Clone, Copy, PartialEq)]
pub struct ShowRemoteCursor {
    pub v: bool,
}

impl ShowRemoteCursor {
    /// What the user has chosen.
    pub fn default_show_remote_cursor(defaults: &Defaults) -> (r: bool)
        ensures
            r == defaults.on("show_remote_cursor"@),
    {
        defaults.is_on("show_remote_cursor")
    }
}

/// Whether the view follows the cursor of the other side.
#[derive(Debug, Clone, Copy, PartialEq)]
pub struct FollowRemoteCursor {
    pub v: bool,
}

impl FollowRemoteCursor {
    /// What the user has chosen.
    pub fn default_follow_remote_cursor(defaults: &Defaults) -> (r: bool)
        ensures
            r == defaults.on("follow_remote_cursor"@),
    {
        defaults.is_on("follow_remote_cursor")
    }
}

/// Whether the view follows the window of the other side.
#[derive(Debug, Clone, Copy, PartialEq)]
pub struct FollowRemoteWindow {
    pub v: bool,
}

impl FollowRemoteWindow {
    /// What the user has chosen.
    pub fn default_follow_remote_window(defaults: &Defaults) -> (r: bool)
        ensures
            r == defaults.on("follow_remote_window"@),
    {
        defaults.is_on("follow_remote_window")
    }
}

/// Whether the quality of the connection is shown.
#[derive(Debug, Clone, Copy, PartialEq)]
pub struct ShowQualityMonitor {
    pub v: bool,
}

impl ShowQualityMonitor {
    /// What the user has chosen.
    pub fn default_show_quality_monitor(defaults: &Defaults) -> (r: bool)
        ensures
            r == defaults.on("show_quality_monitor"@),
    {
        defaults.is_on("show_quality_monitor")
    }
}

/// Whether no sound is transmitted.
#[derive(Debug, Clone, Copy, PartialEq)]
pub struct DisableAudio {
    pub v: bool,
}

impl DisableAudio {
    /// What the user has chosen.
    pub fn default_disable_audio(defaults: &Defaults) -> (r: bool)
        ensures
            r == defaults.on("disable_audio"@),
    {
        defaults.is_on("disable_audio")
    }
}

/// Whether files can be copied and pasted.
#[derive(Debug, Clone, Copy, PartialEq)]
pub struct EnableFileCopyPaste {
    pub v: bool,
}

impl EnableFileCopyPaste {
    /// What the user has chosen.
    pub fn default_enable_file_copy_paste(defaults: &Defaults) -> (r: bool)
        ensures
            r == defaults.on("enable-file-copy-paste"@),
    {
        defaults.is_on("enable-file-copy-paste")
    }
}

/// Whether the clipboard is not shared.
#[derive(Debug, Clone, Copy, PartialEq)]
pub struct DisableClipboard {
    pub v: bool,
}

impl DisableClipboard {
    /// What the user has chosen.
    pub fn default_disable_clipboard(defaults: &Defaults) -> (r: bool)
        ensures
            r == defaults.on("disable_clipboard"@),
    {
        defaults.is_on("disable_clipboard")
    }
}

/// Whether the other side is locked after the session.
#[derive(Debug, Clone, Copy, PartialEq)]
pub struct LockAfterSessionEnd {
    pub v: bool,
}

impl LockAfterSessionEnd {
    /// What the user has chosen.
    pub fn default_lock_after_session_end(defaults: &Defaults) -> (r: bool)
        ensures
            r == defaults.on("lock_after_session_end"@),
    {
        defaults.is_on("lock_after_session_end")
    }
}

/// Whether a terminal goes on after the session.
#[derive(Debug, Clone, Copy, PartialEq)]
pub struct TerminalPersistent {
    pub v: bool,
}

impl TerminalPersistent {
    /// What the user has chosen.
    pub fn default_terminal_persistent(defaults: &Defaults) -> (r: bool)
        ensures
            r == defaults.on("terminal-persistent"@),
    {
        defaults.is_on("terminal-persistent")
    }
}

/// Whether the screen of the other side is blanked.
#[derive(Debug, Clone, Copy, PartialEq)]
pub struct PrivacyMode {
    pub v: bool,
}

impl PrivacyMode {
    /// What the user has chosen.
    pub fn default_privacy_mode(defaults: &Defaults) -> (r: bool)
        ensures
            r == defaults.on("privacy_mode"@),
    {
        defaults.is_on("privacy_mode")
    }
}

/// Whether Control and Command are swapped.
#[derive(Debug, Clone, Copy, PartialEq)]
pub struct AllowSwapKey {
    pub v: bool,
}

impl AllowSwapKey {
    /// What the user has chosen.
    pub fn default_allow_swap_key(defaults: &Defaults) -> (r: bool)
        ensures
            r == defaults.on("allow_swap_key"@),
    {
        defaults.is_on("allow_swap_key")
    }
}

/// Whether nothing is sent to the other side.
#[derive(Debug, Clone, Copy, PartialEq)]
pub struct ViewOnly {
    pub v: bool,
}

impl ViewOnly {
    /// What the user has chosen.
    pub fn default_view_only(defaults: &Defaults) -> (r: bool)
        ensures
            r == defaults.on("view_only"@),
    {
        defaults.is_on("view_only")
    }
}

/// Whether the other side sees the cursor.
#[derive(Debug, Clone, Copy, PartialEq)]
pub struct ShowMyCursor {
    pub v: bool,
}

impl ShowMyCursor {
    /// What the user has chosen.
    pub fn default_show_my_cursor(defaults: &Defaults) -> (r: bool)
        ensures
            r == defaults.on("show_my_cursor"@),
    {
        defaults.is_on("show_my_cursor")
    }
}

/// Whether the clipboard is sent at the start of the session.
#[derive(Debug, Clone, Copy, PartialEq)]
pub struct SyncInitClipboard {
    pub v: bool,
}

impl SyncInitClipboard {
    /// What the user has chosen.
    pub fn default_sync_init_clipboard(defaults: &Defaults) -> (r: bool)
        ensures
            r == defaults.on("sync-init-clipboard"@),
    {
        defaults.is_on("sync-init-clipboard")
    }
}

} // verus!
