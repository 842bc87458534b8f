use hbb_common::config::Config;
use hbb_common::config2::Config2;
use hbb_common::paths::{
    home_command, ipc_dir_mode, is_service_ipc_postfix, log_place, needs_home_lookup, patch, LogPlace,
    Platform,
};
use hbb_common::sh::{command_candidates, find_cmd_path, run_cmds_trim_newline};

#[test]
fn test_uinput_ipc_path_is_shared_across_uids() {
    const ROOT_UID: u32 = 0;
    const USER_UID: u32 = 1000;
    let app_name = "SubnetDesk";

    let path_root = Config::ipc_path_for_uid(app_name, ROOT_UID, "_uinput_keyboard");
    let path_user = Config::ipc_path_for_uid(app_name, USER_UID, "_uinput_keyboard");
    assert_eq!(path_root, path_user);

    assert!(
        path_root.starts_with(&format!("/tmp/{app_name}-service/")),
        "unexpected uinput ipc path: {}",
        path_root
    );

    let non_service_root = Config::ipc_path_for_uid(app_name, ROOT_UID, "");
    let non_service_user = Config::ipc_path_for_uid(app_name, USER_UID, "");
    assert_ne!(non_service_root, non_service_user);
}

#[test]
fn trims_one_trailing_newline() {
    assert_eq!(run_cmds_trim_newline(b"123"), "123");
    assert_eq!(run_cmds_trim_newline(b"123\n"), "123");
    assert_eq!(run_cmds_trim_newline(b"1\n\n"), "1\n");
    assert_eq!(run_cmds_trim_newline(b""), "");
}

#[test]
fn output_that_is_no_text_is_mended() {
    assert_eq!(run_cmds_trim_newline(b"a\xff\n"), "a\u{fffd}");
    assert_eq!(run_cmds_trim_newline("\u{e9}\n".as_bytes()), "\u{e9}");
}

#[test]
fn commands_are_found_where_they_are() {
    assert_eq!(
        command_candidates("sh"),
        ("/bin/sh".to_owned(), "/usr/bin/sh".to_owned())
    );
    assert_eq!(find_cmd_path("sh", true, true, None), "/bin/sh");
    assert_eq!(find_cmd_path("sh", false, true, None), "/usr/bin/sh");
    let printed = Some(b" /opt/bin/sh\n".to_vec());
    assert_eq!(find_cmd_path("sh", false, false, printed), "/opt/bin/sh");
    assert_eq!(find_cmd_path("sh", false, false, None), "sh");
}

#[test]
fn channels_differ_from_platform_to_platform() {
    let path = |platform: Platform, postfix: &str| {
        Config::ipc_path(platform, "App", "/data", 1000, postfix)
    };
    assert_eq!(path(Platform::Windows, "_x"), "\\\\.\\pipe\\App\\query_x");
    assert_eq!(path(Platform::Linux, ""), "/tmp/App-1000/ipc");
    assert_eq!(path(Platform::MacOs, "_x"), "/tmp/App-1000/ipc_x");
    assert_eq!(path(Platform::Linux, "_service"), "/tmp/App-service/ipc_service");
    assert_eq!(path(Platform::Android, "_x"), "/data/App/ipc_x");
    assert_eq!(path(Platform::Other, "_x"), "/tmp/App/ipc_x");
    assert_eq!(path(Platform::Linux, "_x"), Config::ipc_path_for_uid("App", 1000, "_x"));
    assert!(is_service_ipc_postfix("_service"));
    assert!(!is_service_ipc_postfix("_service2"));
    assert!(is_service_ipc_postfix("_uinput_"));
    assert!(!is_service_ipc_postfix(""));
    assert_eq!(ipc_dir_mode("_service"), 0o711);
    assert_eq!(ipc_dir_mode(""), 0o700);
}

#[test]
fn the_extension_is_added_to_what_is_there() {
    assert_eq!(Config::with_extension("a"), "a.toml");
    assert_eq!(Config::with_extension("a.b"), "a.b.toml");
    assert_eq!(Config::with_extension("a."), "a..toml");
    assert_eq!(Config::with_extension(".a"), ".a.toml");
    assert_eq!(Config::with_extension("d/a"), "d/a.toml");
    assert_eq!(Config::with_extension("d/a/"), "d/a.toml");
    assert_eq!(Config::with_extension("d/a/./"), "d/a.toml");
    assert_eq!(Config::with_extension("d/.."), "d/..");
    assert_eq!(Config::with_extension("d/..."), "d/....toml");
    assert_eq!(Config::with_extension(""), "");
    assert_eq!(Config::with_extension("."), ".");
    assert_eq!(Config::with_extension(".."), "..");
    assert_eq!(Config::with_extension("/"), "/");
}

#[test]
fn configuration_files_are_in_their_directory() {
    let dir = Some("/home/me/.config/app");
    assert_eq!(Config::file(dir, "App"), "/home/me/.config/app/App.toml");
    assert_eq!(Config2::file(dir, "App"), "/home/me/.config/app/App2.toml");
    assert_eq!(Config::file_(dir, "App", "_local"), "/home/me/.config/app/App_local.toml");
    assert_eq!(Config::file(Some("d/"), "a.b"), "d/a.b.toml");
    assert_eq!(Config::file(dir, ""), "/home/me/.config/app.toml");
    assert_eq!(Config::file(dir, "."), "/home/me/.config/app.toml");
    assert_eq!(Config::file(dir, ".."), "/home/me/.config/app/..");
    assert_eq!(Config::file(dir, "/etc/App"), "/etc/App.toml");
    assert_eq!(Config::file(Some(""), "App"), "App.toml");
    assert_eq!(Config::file(Some(""), ""), "");
    assert_eq!(Config::file_(None, "App", "_local"), "");
    assert_eq!(Config::path(dir, "x"), "/home/me/.config/app/x");
    assert_eq!(Config::path(dir, ""), "/home/me/.config/app/");
    assert_eq!(Config::path(None, "x"), "");
}

#[test]
fn configuration_files_are_where_the_standard_library_puts_them() {
    for dir in ["/", "/c", "/c/", "c", "c.d", "/c/.d", ""] {
        for name in ["", ".", "..", "a", "a.b", "a/", "/a", "/", "a/.", "...", ".a"] {
            let path = std::path::PathBuf::from(dir).join(name);
            assert_eq!(Config::path(Some(dir), name), path.to_str().unwrap());
            let expected = match path.extension() {
                Some(ext) => path.with_extension(format!("{}.toml", ext.to_string_lossy())),
                None => path.with_extension("toml"),
            };
            assert_eq!(Config::file(Some(dir), name), expected.to_str().unwrap(), "{dir} {name}");
        }
    }
}

#[test]
fn the_extension_is_added_as_the_standard_library_adds_it() {
    for name in ["a", "a.b", "a.", ".a", "d/a", "d/a/", "d/a/./", "d/..", "d/...", "a..b", "d/.b."] {
        let path = std::path::PathBuf::from(name);
        let expected = match path.extension() {
            Some(ext) => path.with_extension(format!("{}.toml", ext.to_string_lossy())),
            None => path.with_extension("toml"),
        };
        assert_eq!(Config::with_extension(name), expected.to_str().unwrap(), "{name}");
    }
}

#[test]
fn directories_of_the_user_are_mended() {
    let windows = "C:\\Windows\\system32\\config\\systemprofile\\AppData";
    assert_eq!(
        patch(Platform::Windows, windows, None, None),
        "C:\\Windows\\ServiceProfiles\\LocalService\\AppData"
    );
    assert_eq!(
        patch(Platform::MacOs, "/u/Library/Application Support/x", None, None),
        "/u/Library/Preferences/x"
    );
    let user = |name: &str| Some(name.to_owned());
    assert!(needs_home_lookup(Platform::Linux, "/root"));
    assert!(!needs_home_lookup(Platform::Linux, "/root/x"));
    assert!(!needs_home_lookup(Platform::MacOs, "/root"));
    assert_eq!(patch(Platform::Linux, "/root", None, None), "/root");
    assert_eq!(patch(Platform::Linux, "/root", user("root"), user("/h")), "/root");
    assert_eq!(patch(Platform::Linux, "/root", user("me"), user("/h")), "/h");
    assert_eq!(patch(Platform::Linux, "/root", user("me"), None), "/home/me");
    assert_eq!(patch(Platform::Linux, "/home/x", user("me"), user("/h")), "/home/x");
    assert_eq!(
        home_command("me"),
        Some("getent passwd 'me' | awk -F':' '{print $6}'".to_owned())
    );
    assert_eq!(home_command("root"), None);
}

#[test]
fn log_files_have_a_place() {
    let below = |platform: Platform, home: bool| match log_place(platform, "App", home, true) {
        LogPlace::BelowHome(path) => path,
        LogPlace::BesideConfig(name) => format!("../{name}"),
        LogPlace::Nowhere => String::new(),
    };
    assert_eq!(below(Platform::MacOs, true), "Library/Logs/App");
    assert_eq!(below(Platform::MacOs, false), "../log");
    assert_eq!(below(Platform::Linux, false), ".local/share/logs/App");
    assert_eq!(below(Platform::Android, false), "App/Logs");
    assert_eq!(below(Platform::Windows, true), "../log");
    assert!(matches!(log_place(Platform::Other, "App", true, false), LogPlace::Nowhere));
}
