//! The names of files, directories and channels between processes.
//!
//! Paths are texts in which `/` separates the names.

use vstd::prelude::*;
use crate::config::Config;
use crate::config2::Config2;
use crate::options::said;
use crate::text::{
    chars_of, decimal, join, join3, replace_all, replaced_all, same_text, starts_with,
    text_between, u32_text,
};

verus! {

/// What the library runs on.
#[derive(Debug, Clone, Copy, PartialEq, Eq)]
pub enum Platform {
    Windows,
    MacOs,
    Linux,
    Android,
    Other,
}

// ---------------------------------------------------------------------------------------------
// Configuration files
// ---------------------------------------------------------------------------------------------

/// A path without the separators, and the names of the present directory, at its end.
pub open spec fn path_end(p: Seq<char>) -> Seq<char>
    decreases p.len(),
{
    if p.len() > 0 && (p.last() == '/' || (p.last() == '.' && p.len() >= 2 && p[p.len() - 2]
        == '/')) {
        path_end(p.drop_last())
    } else {
        p
    }
}

/// Whether a path ends in the name of the directory above.
pub open spec fn ends_in_parent(p: Seq<char>) -> bool {
    p.len() >= 2 && p.last() == '.' && p[p.len() - 2] == '.' && (p.len() == 2 || p[p.len() - 3]
        == '/')
}

/// Whether a path ends in the name of a file.
pub open spec fn has_file_name(p: Seq<char>) -> bool {
    path_end(p).len() > 0 && path_end(p) != seq!['.'] && !ends_in_parent(path_end(p))
}

/// A path to which the extension of configuration files was added.
pub open spec fn with_toml(p: Seq<char>) -> Seq<char> {
    if has_file_name(p) {
        path_end(p) + ".toml"@
    } else {
        p
    }
}

/// A path and a name below it.
pub open spec fn below(dir: Seq<char>, name: Seq<char>) -> Seq<char> {
    if dir.len() == 0 || dir.last() == '/' {
        dir + name
    } else {
        dir + "/"@ + name
    }
}

/// A path and a name below it.
pub fn path_below(dir: &str, name: &str) -> (r: String)
    ensures
        r@ == below(dir@, name@),
{
    let chars = chars_of(dir);
    if chars.len() == 0 || chars[chars.len() - 1] == '/' {
        join(dir, name)
    } else {
        join3(dir, "/", name)
    }
}

/// A path seen from the directory of configuration files: below it, unless the path begins at the
/// root. Without such a directory it is empty.
pub open spec fn located(dir: Option<Seq<char>>, p: Seq<char>) -> Seq<char> {
    match dir {
        Some(dir) => if p.len() > 0 && p[0] == '/' {
            p
        } else {
            below(dir, p)
        },
        None => Seq::empty(),
    }
}

/// The configuration file of an application with the given suffix.
pub open spec fn config_file(
    dir: Option<Seq<char>>,
    app_name: Seq<char>,
    suffix: Seq<char>,
) -> Seq<char> {
    with_toml(located(dir, app_name + suffix))
}

/// What the directory of configuration files is called, where there is one.
pub open spec fn dir_text(dir: Option<&str>) -> Option<Seq<char>> {
    match dir {
        Some(dir) => Some(dir@),
        None => None,
    }
}

impl Config {
    /// A path to which the extension of configuration files was added. An extension that it has
    /// stays.
    pub fn with_extension(path: &str) -> (r: String)
        ensures
            r@ == with_toml(path@),
    {
        let chars = chars_of(path);
        let mut end: usize = chars.len();
        assert(path@.take(end as int) =~= path@);
        while end > 0 && (chars[end - 1] == '/' || (chars[end - 1] == '.' && end >= 2 && chars[end
            - 2] == '/'))
            invariant
                end <= chars.len(),
                chars@ == path@,
                path_end(path@) == path_end(path@.take(end as int)),
            decreases end,
        {
            assert(path@.take(end as int).drop_last() =~= path@.take(end - 1));
            end -= 1;
        }
        let ghost p = path@.take(end as int);
        assert(p == path_end(path@));
        let is_current = end == 1 && chars[0] == '.';
        assert(is_current == (p == seq!['.'])) by {
            if is_current {
                assert(p =~= seq!['.']);
            }
        }
        let is_parent = end >= 2 && chars[end - 1] == '.' && chars[end - 2] == '.' && (end == 2
            || chars[end - 3] == '/');
        if end == 0 || is_current || is_parent {
            return path.to_owned();
        }
        let name = text_between(&chars, 0, end);
        assert(name@ =~= p);
        join(name.as_str(), ".toml")
    }

    /// A path seen from the directory of configuration files: below it, unless the path begins at
    /// the root. Without such a directory it is empty.
    pub fn path(dir: Option<&str>, p: &str) -> (r: String)
        ensures
            r@ == located(dir_text(dir), p@),
    {
        let chars = chars_of(p);
        match dir {
            Some(dir) => if chars.len() > 0 && chars[0] == '/' {
                p.to_owned()
            } else {
                path_below(dir, p)
            },
            None => String::new(),
        }
    }

    /// The main configuration file.
    ///
    /// `dir` is the directory of configuration files, where there is one.
    pub fn file(dir: Option<&str>, app_name: &str) -> (r: String)
        ensures
            r@ == config_file(dir_text(dir), app_name@, ""@),
    {
        Self::file_(dir, app_name, "")
    }

    /// The configuration file with the given suffix.
    ///
    /// `dir` is the directory of configuration files, where there is one.
    pub fn file_(dir: Option<&str>, app_name: &str, suffix: &str) -> (r: String)
        ensures
            r@ == config_file(dir_text(dir), app_name@, suffix@),
    {
        let name = join(app_name, suffix);
        let path = Self::path(dir, name.as_str());
        Self::with_extension(path.as_str())
    }
}

impl Config2 {
    /// The configuration file.
    ///
    /// `dir` is the directory of configuration files, where there is one.
    pub fn file(dir: Option<&str>, app_name: &str) -> (r: String)
        ensures
            r@ == config_file(dir_text(dir), app_name@, "2"@),
    {
        Config::file_(dir, app_name, "2")
    }
}

// ---------------------------------------------------------------------------------------------
// Channels between processes
// ---------------------------------------------------------------------------------------------

/// Whether a channel is one of the service that runs for all users.
pub open spec fn service_channel(postfix: Seq<char>) -> bool {
    postfix == "_service"@ || "_uinput_"@.is_prefix_of(postfix)
}

/// Whether a channel is one of the service that runs for all users.
pub fn is_service_ipc_postfix(postfix: &str) -> (r: bool)
    ensures
        r == service_channel(postfix@),
{
    same_text(postfix, "_service") || starts_with(postfix, "_uinput_")
}

/// The directory of a channel on Linux and macOS: one for the service, and one for each user.
pub open spec fn channel_dir(app_name: Seq<char>, uid: u32, postfix: Seq<char>) -> Seq<char> {
    if service_channel(postfix) {
        "/tmp/"@ + app_name + "-service"@
    } else {
        "/tmp/"@ + app_name + ("-"@ + decimal(uid as nat))
    }
}

/// The directory of a channel on Linux and macOS.
pub fn ipc_parent_dir_for_uid(app_name: &str, uid: u32, postfix: &str) -> (r: String)
    ensures
        r@ == channel_dir(app_name@, uid, postfix@),
{
    if is_service_ipc_postfix(postfix) {
        join3("/tmp/", app_name, "-service")
    } else {
        let number = u32_text(uid);
        let end = join("-", number.as_str());
        join3("/tmp/", app_name, end.as_str())
    }
}

/// The path of a channel.
pub open spec fn channel(
    platform: Platform,
    app_name: Seq<char>,
    app_dir: Seq<char>,
    uid: u32,
    postfix: Seq<char>,
) -> Seq<char> {
    match platform {
        Platform::Windows => "\\\\.\\pipe\\"@ + app_name + ("\\query"@ + postfix),
        Platform::Android => below(app_dir + "/"@ + app_name, "ipc"@ + postfix),
        Platform::Linux => below(channel_dir(app_name, uid, postfix), "ipc"@ + postfix),
        Platform::MacOs => below(channel_dir(app_name, uid, postfix), "ipc"@ + postfix),
        Platform::Other => below("/tmp/"@ + app_name, "ipc"@ + postfix),
    }
}

/// The access rights to the directory of a channel on Android.
pub open spec fn channel_dir_mode(postfix: Seq<char>) -> u32 {
    if service_channel(postfix) {
        0o0711
    } else {
        0o0700
    }
}

/// The access rights to the directory of a channel on Android.
pub fn ipc_dir_mode(postfix: &str) -> (r: u32)
    ensures
        r == channel_dir_mode(postfix@),
{
    if is_service_ipc_postfix(postfix) {
        0o0711
    } else {
        0o0700
    }
}

impl Config {
    /// The path of a channel for the user with the given number.
    ///
    /// `app_dir` is the directory of the application, which matters on Android only.
    pub fn ipc_path(
        platform: Platform,
        app_name: &str,
        app_dir: &str,
        uid: u32,
        postfix: &str,
    ) -> (r: String)
        ensures
            r@ == channel(platform, app_name@, app_dir@, uid, postfix@),
    {
        let dir = match platform {
            Platform::Windows => {
                let end = join("\\query", postfix);
                return join3("\\\\.\\pipe\\", app_name, end.as_str());
            },
            Platform::Android => join3(app_dir, "/", app_name),
            Platform::Linux => ipc_parent_dir_for_uid(app_name, uid, postfix),
            Platform::MacOs => ipc_parent_dir_for_uid(app_name, uid, postfix),
            Platform::Other => join("/tmp/", app_name),
        };
        let name = join("ipc", postfix);
        path_below(dir.as_str(), name.as_str())
    }

    /// The path of a channel on Linux and macOS for the user with the given number.
    pub fn ipc_path_for_uid(app_name: &str, uid: u32, postfix: &str) -> (r: String)
        ensures
            r@ == channel_dir(app_name@, uid, postfix@) + "/ipc"@ + postfix@,
    {
        let parent = ipc_parent_dir_for_uid(app_name, uid, postfix);
        join3(parent.as_str(), "/ipc", postfix)
    }
}

// ---------------------------------------------------------------------------------------------
// Directories of the user
// ---------------------------------------------------------------------------------------------

/// Whether the directory of the user has to be looked up: it is that of root, which may be the
/// wrong one.
pub fn needs_home_lookup(platform: Platform, path: &str) -> (r: bool)
    ensures
        r == (platform is Linux && path@ == "/root"@),
{
    match platform {
        Platform::Linux => same_text(path, "/root"),
        _ => false,
    }
}

/// The command that finds the directory of a user, unless that is root.
pub fn home_command(user: &str) -> (r: Option<String>)
    ensures
        said(r) == (if user@ == "root"@ {
            None
        } else {
            Some("getent passwd '"@ + user@ + "' | awk -F':' '{print $6}'"@)
        }),
{
    if same_text(user, "root") {
        return None;
    }
    Some(join3("getent passwd '", user, "' | awk -F':' '{print $6}'"))
}

/// A directory of the user, mended where it is that of the system or of root.
pub open spec fn patched(
    platform: Platform,
    path: Seq<char>,
    user: Option<Seq<char>>,
    home: Option<Seq<char>>,
) -> Seq<char> {
    match platform {
        Platform::Windows => replaced_all(
            path,
            "system32\\config\\systemprofile"@,
            "ServiceProfiles\\LocalService"@,
        ),
        Platform::MacOs => replaced_all(path, "Application Support"@, "Preferences"@),
        Platform::Linux => match user {
            Some(user) => if path == "/root"@ && user != "root"@ {
                match home {
                    Some(home) => home,
                    None => "/home/"@ + user,
                }
            } else {
                path
            },
            None => path,
        },
        _ => path,
    }
}

/// A directory of the user, mended where it is that of the system or of root.
///
/// `user` is the name of the user and `home` what [`home_command`] has printed, as far as they
/// could be found out. They matter on Linux only.
pub fn patch(
    platform: Platform,
    path: &str,
    user: Option<String>,
    home: Option<String>,
) -> (r: String)
    ensures
        r@ == patched(
            platform,
            path@,
            said(user),
            said(home),
        ),
{
    match platform {
        Platform::Windows => {
            proof {
                reveal_strlit("system32\\config\\systemprofile");
            }
            replace_all(path, "system32\\config\\systemprofile", "ServiceProfiles\\LocalService")
        },
        Platform::MacOs => {
            proof {
                reveal_strlit("Application Support");
            }
            replace_all(path, "Application Support", "Preferences")
        },
        Platform::Linux => {
            if let Some(user) = user {
                if same_text(path, "/root") && !same_text(user.as_str(), "root") {
                    return match home {
                        Some(home) => home,
                        None => join("/home/", user.as_str()),
                    };
                }
            }
            path.to_owned()
        },
        _ => path.to_owned(),
    }
}

/// Where log files are kept.
pub enum LogPlace {
    /// At this path below the directory of the user.
    BelowHome(String),
    /// In the directory with this name beside that of the configuration files.
    BesideConfig(String),
    /// There is no place for them.
    Nowhere,
}

/// Where log files are kept.
///
/// `has_home` tells whether the directory of the user is known, which matters on macOS only, and
/// `has_parent` whether there is a directory above that of the configuration files.
pub fn log_place(platform: Platform, app_name: &str, has_home: bool, has_parent: bool) -> (r:
    LogPlace)
    ensures
        match (platform, has_home) {
            (Platform::MacOs, true) => r matches LogPlace::BelowHome(p) && p@ == "Library/Logs/"@
                + app_name@,
            (Platform::Linux, _) => r matches LogPlace::BelowHome(p) && p@ == ".local/share/logs/"@
                + app_name@,
            (Platform::Android, _) => r matches LogPlace::BelowHome(p) && p@ == app_name@
                + "/Logs"@,
            _ => if has_parent {
                r matches LogPlace::BesideConfig(p) && p@ == "log"@
            } else {
                r is Nowhere
            },
        },
{
    match (platform, has_home) {
        (Platform::MacOs, true) => LogPlace::BelowHome(join("Library/Logs/", app_name)),
        (Platform::Linux, _) => LogPlace::BelowHome(join(".local/share/logs/", app_name)),
        (Platform::Android, _) => LogPlace::BelowHome(join(app_name, "/Logs")),
        _ => if has_parent {
            LogPlace::BesideConfig("log".to_owned())
        } else {
            LogPlace::Nowhere
        },
    }
}

// ---------------------------------------------------------------------------------------------
// Laws
// ---------------------------------------------------------------------------------------------

/// All users share the channels of the service.
pub proof fn law_service_channels_are_shared(
    app_name: Seq<char>,
    one: u32,
    other: u32,
    postfix: Seq<char>,
)
    requires
        service_channel(postfix),
    ensures
        channel_dir(app_name, one, postfix) == channel_dir(app_name, other, postfix),
{
}

/// Two users share no other channel.
pub proof fn law_other_channels_are_not_shared(
    app_name: Seq<char>,
    one: u32,
    other: u32,
    postfix: Seq<char>,
)
    requires
        !service_channel(postfix),
        one != other,
    ensures
        channel_dir(app_name, one, postfix) != channel_dir(app_name, other, postfix),
        channel_dir(app_name, one, postfix) + "/ipc"@ + postfix != channel_dir(
            app_name,
            other,
            postfix,
        ) + "/ipc"@ + postfix,
{
    let start = "/tmp/"@ + app_name;
    let a = channel_dir(app_name, one, postfix);
    let b = channel_dir(app_name, other, postfix);
    crate::text::lemma_decimal(one as nat);
    crate::text::lemma_decimal(other as nat);
    if a == b {
        let n = start.len() as int + "-"@.len() as int;
        assert(a.skip(n) =~= decimal(one as nat));
        assert(b.skip(n) =~= decimal(other as nat));
    }
    let end = "/ipc"@ + postfix;
    assert(a + "/ipc"@ + postfix =~= a + end);
    assert(b + "/ipc"@ + postfix =~= b + end);
    if a + end == b + end {
        assert((a + end).len() == (b + end).len());
        assert((a + end).take(a.len() as int) =~= a);
        assert((b + end).take(b.len() as int) =~= b);
    }
}

/// On Linux and macOS the channel of the present user is the one that is found by the number of
/// that user.
pub proof fn law_channel_is_found_by_number(
    app_name: Seq<char>,
    app_dir: Seq<char>,
    uid: u32,
    postfix: Seq<char>,
)
    ensures
        channel(Platform::Linux, app_name, app_dir, uid, postfix) == channel_dir(
            app_name,
            uid,
            postfix,
        ) + "/ipc"@ + postfix,
        channel(Platform::MacOs, app_name, app_dir, uid, postfix) == channel(
            Platform::Linux,
            app_name,
            app_dir,
            uid,
            postfix,
        ),
{
    reveal_strlit("/ipc");
    reveal_strlit("ipc");
    reveal_strlit("/");
    reveal_strlit("-service");
    reveal_strlit("-");
    let dir = channel_dir(app_name, uid, postfix);
    crate::text::lemma_decimal(uid as nat);
    if service_channel(postfix) {
        assert(dir.last() == "-service"@.last());
    } else {
        assert(dir.last() == decimal(uid as nat).last());
    }
    assert("/ipc"@ =~= "/"@ + "ipc"@);
    assert(dir + "/"@ + ("ipc"@ + postfix) =~= dir + "/ipc"@ + postfix);
}

/// Adding the extension keeps the name: it is added behind what is there, and the file can be
/// told from every other one.
pub proof fn law_extension_is_added_at_the_end(one: Seq<char>, other: Seq<char>)
    requires
        has_file_name(one),
        has_file_name(other),
    ensures
        path_end(one).is_prefix_of(with_toml(one)),
        with_toml(one) == with_toml(other) ==> path_end(one) == path_end(other),
{
    assert(path_end(one) =~= with_toml(one).subrange(0, path_end(one).len() as int));
    if with_toml(one) == with_toml(other) {
        assert(with_toml(one).len() == path_end(one).len() + ".toml"@.len());
        assert(with_toml(other).len() == path_end(other).len() + ".toml"@.len());
        assert(path_end(one) =~= with_toml(one).take(path_end(one).len() as int));
        assert(path_end(other) =~= with_toml(other).take(path_end(other).len() as int));
    }
}

/// A configuration file whose name is an ordinary one is in the directory of configuration files,
/// under that name with the extension.
pub proof fn law_configuration_file_is_in_its_directory(
    dir: Seq<char>,
    app_name: Seq<char>,
    suffix: Seq<char>,
)
    requires
        (app_name + suffix).len() > 0,
        !(app_name + suffix).contains('/'),
        app_name + suffix != "."@,
        app_name + suffix != ".."@,
    ensures
        config_file(Some(dir), app_name, suffix) == below(dir, app_name + suffix) + ".toml"@,
{
    let name = app_name + suffix;
    let p = below(dir, name);
    let n = name.len() as int;
    let start = p.len() - n;
    reveal_strlit("/");
    reveal_strlit(".");
    reveal_strlit("..");
    assert(forall|i: int| 0 <= i < n ==> #[trigger] p[start + i] == name[i]);
    assert(forall|i: int| 0 <= i < n ==> name.contains(#[trigger] name[i]));
    assert(p.last() == p[start + (n - 1)]);
    if n == 1 {
        assert(name[0] != '.') by {
            if name[0] == '.' {
                assert(name =~= "."@);
            }
        }
    } else {
        assert(p[p.len() - 2] == p[start + (n - 2)]);
        if n == 2 {
            assert(name[0] != '.' || name[1] != '.') by {
                if name[0] == '.' && name[1] == '.' {
                    assert(name =~= ".."@);
                }
            }
        } else {
            assert(p[p.len() - 3] == p[start + (n - 3)]);
        }
    }
}

/// The end of a path is a beginning of it; a separator, or a separator and a dot, behind it do not
/// count, and anything else does.
pub proof fn law_end_of_a_path(p: Seq<char>)
    ensures
        path_end(p).is_prefix_of(p),
        path_end(p + seq!['/']) == path_end(p),
        path_end(p + seq!['/', '.']) == path_end(p),
        p.len() > 0 && p.last() != '/' && p.last() != '.' ==> path_end(p) == p,
        p.len() > 1 && p.last() == '.' && p[p.len() - 2] != '/' ==> path_end(p) == p,
        p == seq!['.'] ==> path_end(p) == p,
        path_end(p).len() > 0 ==> path_end(p).last() != '/',
    decreases p.len(),
{
    let slash = p + seq!['/'];
    let dot = p + seq!['/', '.'];
    assert(slash.drop_last() =~= p);
    assert(path_end(slash) == path_end(p));
    assert(dot.drop_last() =~= slash);
    assert(path_end(dot) == path_end(slash));
    if p.len() > 0 && (p.last() == '/' || (p.last() == '.' && p.len() >= 2 && p[p.len() - 2]
        == '/')) {
        let q = p.drop_last();
        law_end_of_a_path(q);
        let e = path_end(q);
        assert(e == q.subrange(0, e.len() as int));
        assert(e =~= p.subrange(0, e.len() as int));
    } else {
        assert(p =~= p.subrange(0, p.len() as int));
    }
}

/// The extension is added behind the last name of a path; separators behind it are dropped. A path
/// that is empty, is the present directory or ends in the directory above stays as it is.
pub proof fn law_where_the_extension_is_added(p: Seq<char>)
    ensures
        p.len() > 0 && p.last() != '/' && p.last() != '.' ==> with_toml(p) == p + ".toml"@,
        p.len() > 0 && p.last() != '/' && p.last() != '.' ==> with_toml(p + seq!['/']) == p
            + ".toml"@,
        with_toml(Seq::empty()).len() == 0,
        with_toml(seq!['/']) == seq!['/'],
        with_toml(seq!['.']) == seq!['.'],
        with_toml(seq!['.', '.']) == seq!['.', '.'],
        with_toml(p + seq!['/', '.', '.']) == p + seq!['/', '.', '.'],
{
    law_end_of_a_path(p);
    let dot = seq!['.'];
    let dots = seq!['.', '.'];
    let up = p + seq!['/', '.', '.'];
    assert(path_end(dots) == dots);
    assert(up.last() == '.' && up[up.len() - 2] == '.');
    assert(path_end(up) == up);
    assert(path_end(seq!['/']) =~= Seq::<char>::empty()) by {
        assert(seq!['/'].drop_last() =~= Seq::<char>::empty());
        assert(path_end(Seq::<char>::empty()) == Seq::<char>::empty());
    }
    if p.len() > 0 && p.last() != '/' && p.last() != '.' {
        assert(p != dot);
        assert(!ends_in_parent(p));
    }
}

/// A name below a directory stands at the end of the path, behind the directory and one separator,
/// which is added where the directory does not end in one.
pub proof fn law_names_below_a_directory(dir: Seq<char>, name: Seq<char>)
    ensures
        dir.len() == 0 ==> below(dir, name) == name,
        dir.len() > 0 && dir.last() == '/' ==> below(dir, name) == dir + name,
        dir.len() > 0 && dir.last() != '/' ==> below(dir, name) == dir + seq!['/'] + name,
{
    reveal_strlit("/");
    assert("/"@ =~= seq!['/']);
    if dir.len() == 0 {
        assert(dir + name =~= name);
    }
}

/// A path that begins at the root stays as it is, any other one is below the directory of
/// configuration files, and without that directory there is none.
pub proof fn law_where_paths_are(dir: Seq<char>, p: Seq<char>)
    ensures
        p.len() > 0 && p[0] == '/' ==> located(Some(dir), p) == p,
        p.len() == 0 || p[0] != '/' ==> located(Some(dir), p) == below(dir, p),
        located(None, p).len() == 0,
{
}

/// A configuration file has the extension of configuration files, behind the name of the
/// application and the suffix.
pub proof fn law_configuration_files(
    dir: Seq<char>,
    app_name: Seq<char>,
    suffix: Seq<char>,
    text: &str,
)
    ensures
        config_file(Some(dir), app_name, suffix) == with_toml(located(Some(dir), app_name + suffix)),
        config_file(None, app_name, suffix).len() == 0,
        dir_text(Some(text)) == Some(text@),
        dir_text(None) is None,
{
}

/// The channels of the service are the one named so and those for input devices, and no others.
pub proof fn law_which_channels_are_of_the_service(postfix: Seq<char>, rest: Seq<char>)
    ensures
        service_channel("_service"@),
        service_channel("_uinput_"@ + rest),
        postfix != "_service"@ && !"_uinput_"@.is_prefix_of(postfix) ==> !service_channel(postfix),
{
    let p = "_uinput_"@ + rest;
    assert("_uinput_"@ =~= p.subrange(0, "_uinput_"@.len() as int));
}

/// The directory of a channel is named after the application, with the service for the channels
/// of the service, and with the number of the user for all others.
pub proof fn law_directories_of_channels(app_name: Seq<char>, uid: u32, postfix: Seq<char>)
    ensures
        service_channel(postfix) ==> channel_dir(app_name, uid, postfix) == "/tmp/"@ + app_name
            + "-service"@,
        !service_channel(postfix) ==> channel_dir(app_name, uid, postfix) == "/tmp/"@ + app_name
            + "-"@ + decimal(uid as nat),
{
    let number = decimal(uid as nat);
    assert("/tmp/"@ + app_name + ("-"@ + number) =~= "/tmp/"@ + app_name + "-"@ + number);
}

/// Everywhere but on Windows a channel is the file `ipc` with the postfix, below a directory named
/// after the application; on Windows it is a pipe.
pub proof fn law_paths_of_channels(
    app_name: Seq<char>,
    app_dir: Seq<char>,
    uid: u32,
    postfix: Seq<char>,
)
    ensures
        channel(Platform::Windows, app_name, app_dir, uid, postfix) == "\\\\.\\pipe\\"@ + app_name
            + "\\query"@ + postfix,
        channel(Platform::Android, app_name, app_dir, uid, postfix) == below(
            app_dir + "/"@ + app_name,
            "ipc"@ + postfix,
        ),
        channel(Platform::Other, app_name, app_dir, uid, postfix) == below(
            "/tmp/"@ + app_name,
            "ipc"@ + postfix,
        ),
{
    assert("\\\\.\\pipe\\"@ + app_name + ("\\query"@ + postfix) =~= "\\\\.\\pipe\\"@ + app_name
        + "\\query"@ + postfix);
}

/// Others may pass through the directory of a channel of the service, but not through any other:
/// the owner has all rights, and the others the right to pass or none.
pub proof fn law_rights_to_directories_of_channels(postfix: Seq<char>)
    ensures
        service_channel(postfix) ==> channel_dir_mode(postfix) == 7 * 64 + 1 * 8 + 1,
        !service_channel(postfix) ==> channel_dir_mode(postfix) == 7 * 64,
{
}

/// On Linux a directory of the user is mended where it is that of root and the user is another
/// one: it is the one that was found, else the one named after the user. On Android and other
/// platforms it stays.
pub proof fn law_directories_that_are_mended(
    path: Seq<char>,
    user: Option<Seq<char>>,
    home: Option<Seq<char>>,
    name: Seq<char>,
    dir: Seq<char>,
)
    ensures
        path != "/root"@ ==> patched(Platform::Linux, path, user, home) == path,
        patched(Platform::Linux, path, None, home) == path,
        patched(Platform::Linux, path, Some("root"@), home) == path,
        name != "root"@ ==> patched(Platform::Linux, "/root"@, Some(name), Some(dir)) == dir,
        name != "root"@ ==> patched(Platform::Linux, "/root"@, Some(name), None) == "/home/"@ + name,
        patched(Platform::Android, path, user, home) == path,
        patched(Platform::Other, path, user, home) == path,
{
}

/// On Windows the profile of the local service takes the place of that of the system, and on macOS
/// the preferences that of the application support, wherever they first occur; a path without
/// them stays.
pub proof fn law_directories_of_the_system_are_mended(
    before: Seq<char>,
    behind: Seq<char>,
    user: Option<Seq<char>>,
    home: Option<Seq<char>>,
)
    requires
        forall|i: int|
            0 <= i < before.len() ==> !"system32\\config\\systemprofile"@.is_prefix_of(
                #[trigger] (before + "system32\\config\\systemprofile"@ + behind).skip(i),
            ),
        forall|i: int|
            0 <= i < before.len() ==> !"Application Support"@.is_prefix_of(
                #[trigger] (before + "Application Support"@ + behind).skip(i),
            ),
    ensures
        patched(
            Platform::Windows,
            before + "system32\\config\\systemprofile"@ + behind,
            user,
            home,
        ) == before + "ServiceProfiles\\LocalService"@ + patched(
            Platform::Windows,
            behind,
            user,
            home,
        ),
        patched(Platform::MacOs, before + "Application Support"@ + behind, user, home) == before
            + "Preferences"@ + patched(Platform::MacOs, behind, user, home),
{
    reveal_strlit("system32\\config\\systemprofile");
    reveal_strlit("Application Support");
    lemma_first_part_is_replaced(
        before,
        behind,
        "system32\\config\\systemprofile"@,
        "ServiceProfiles\\LocalService"@,
    );
    lemma_first_part_is_replaced(before, behind, "Application Support"@, "Preferences"@);
}

proof fn lemma_first_part_is_replaced(
    before: Seq<char>,
    behind: Seq<char>,
    pattern: Seq<char>,
    with: Seq<char>,
)
    requires
        pattern.len() > 0,
        forall|i: int|
            0 <= i < before.len() ==> !pattern.is_prefix_of(
                #[trigger] (before + pattern + behind).skip(i),
            ),
    ensures
        replaced_all(before + pattern + behind, pattern, with) == before + with + replaced_all(
            behind,
            pattern,
            with,
        ),
{
    let s = before + pattern + behind;
    let at = before.len() as int;
    assert(s.skip(at) =~= pattern + behind);
    assert(pattern =~= s.skip(at).subrange(0, pattern.len() as int));
    assert(s.skip(at + pattern.len()) =~= behind);
    assert(s.take(at) =~= before);
    crate::text::law_first_occurrence_is_replaced(s, at, pattern, with);
}

} // verus!
