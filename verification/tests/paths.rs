use tauri_leptos_core::paths::{
    app_dir_from_env, explicit_app_dir, first_entry, systemd_entry, AppPaths, BaseDirs, PathsError,
    Platform,
};

fn no_env(_: &str) -> Option<String> {
    None
}

#[test]
fn from_root_puts_everything_under_one_folder() {
    let paths = AppPaths::from_root("/tmp/app");
    assert_eq!(paths.app_config_dir, "/tmp/app/config");
    assert_eq!(paths.app_data_dir, "/tmp/app/data");
    assert_eq!(paths.app_local_data_dir, "/tmp/app/data");
    assert_eq!(paths.app_cache_dir, "/tmp/app/cache");
    assert_eq!(paths.app_log_dir, "/tmp/app/logs");
}

#[test]
fn systemd_overrides_replace_matching_dirs() {
    let paths = AppPaths::from_root("/base").with_systemd_overrides(|var: &str| match var {
        "CONFIGURATION_DIRECTORY" => Some("/etc/app".into()),
        "STATE_DIRECTORY" => Some("/var/lib/app".into()),
        "LOGS_DIRECTORY" => Some("/var/log/app".into()),
        _ => None,
    });
    assert_eq!(paths.app_config_dir, "/etc/app");
    assert_eq!(paths.app_data_dir, "/var/lib/app");
    assert_eq!(paths.app_local_data_dir, "/var/lib/app");
    assert_eq!(paths.app_cache_dir, "/base/cache");
    assert_eq!(paths.app_log_dir, "/var/log/app");
}

#[test]
fn systemd_override_takes_first_entry_and_ignores_empty() {
    let paths = AppPaths::from_root("/base").with_systemd_overrides(|var: &str| match var {
        "STATE_DIRECTORY" => Some("/var/lib/a:/var/lib/b".into()),
        "CACHE_DIRECTORY" => Some(String::new()),
        _ => None,
    });
    assert_eq!(paths.app_data_dir, "/var/lib/a");
    assert_eq!(paths.app_cache_dir, "/base/cache");
}

#[test]
fn explicit_app_dir_wins_over_everything() {
    let paths = AppPaths::resolve_standalone(Some("/tmp/pinned"), Platform::Linux, |_: &str| {
        Some("/should/not/be/used".to_owned())
    })
    .expect("from_root cannot fail");
    assert_eq!(paths, AppPaths::from_root("/tmp/pinned"));
}

#[test]
fn systemd_without_variables_keeps_layout() {
    let base = AppPaths::from_root("/base");
    assert_eq!(base.clone().with_systemd_overrides(no_env), base);
}

#[test]
fn systemd_blank_first_entry_is_unset() {
    let paths = AppPaths::from_root("/base").with_systemd_overrides(|var: &str| match var {
        "LOGS_DIRECTORY" => Some("  :/var/log/b".into()),
        "CONFIGURATION_DIRECTORY" => Some("\u{3000}\t".into()),
        _ => None,
    });
    assert_eq!(paths.app_log_dir, "/base/logs");
    assert_eq!(paths.app_config_dir, "/base/config");
}

#[test]
fn systemd_cache_override_only_touches_cache() {
    let paths = AppPaths::from_root("/base").with_systemd_overrides(|var: &str| match var {
        "CACHE_DIRECTORY" => Some("/var/cache/app".into()),
        _ => None,
    });
    assert_eq!(paths.app_cache_dir, "/var/cache/app");
    assert_eq!(paths.app_config_dir, "/base/config");
    assert_eq!(paths.app_data_dir, "/base/data");
    assert_eq!(paths.app_log_dir, "/base/logs");
}

#[test]
fn from_root_with_relative_and_trailing_slash_roots() {
    let paths = AppPaths::from_root("appdir/");
    assert_eq!(paths.app_config_dir, "appdir/config");
    assert_eq!(paths.app_log_dir, "appdir/logs");
    let paths = AppPaths::from_root("");
    assert_eq!(paths.app_cache_dir, "cache");
    let paths = AppPaths::from_root("/");
    assert_eq!(paths.app_data_dir, "/data");
}

#[test]
fn first_entry_splits_at_first_colon() {
    assert_eq!(first_entry("/a:/b:/c"), "/a");
    assert_eq!(first_entry("/only"), "/only");
    assert_eq!(first_entry(":/b"), "");
    assert_eq!(first_entry(""), "");
    assert_eq!(systemd_entry(Some(":/b".to_owned())), None);
    assert_eq!(systemd_entry(Some("/a:".to_owned())), Some("/a".to_owned()));
    assert_eq!(systemd_entry(None), None);
}

#[test]
fn app_dir_env_blank_acts_as_unset() {
    assert_eq!(app_dir_from_env(None), None);
    assert_eq!(app_dir_from_env(Some(String::new())), None);
    assert_eq!(app_dir_from_env(Some(" \t\n".to_owned())), None);
    assert_eq!(app_dir_from_env(Some("\u{a0}\u{2028}".to_owned())), None);
    assert_eq!(
        app_dir_from_env(Some(" /tmp/x ".to_owned())),
        Some(" /tmp/x ".to_owned())
    );
}

fn dirs_all(home: Option<&str>) -> BaseDirs {
    BaseDirs {
        config: Some("/home/u/.config".to_owned()),
        data: Some("/home/u/.local/share".to_owned()),
        data_local: Some("/home/u/.local/share".to_owned()),
        cache: Some("/home/u/.cache".to_owned()),
        home: home.map(|h| h.to_owned()),
    }
}

#[test]
fn base_dirs_map_to_the_tauri_layout() {
    let paths = AppPaths::from_base_dirs(dirs_all(None), Platform::Linux).expect("linux layout");
    assert_eq!(paths.app_config_dir, "/home/u/.config/com.nick.tauri-leptos");
    assert_eq!(paths.app_data_dir, "/home/u/.local/share/com.nick.tauri-leptos");
    assert_eq!(
        paths.app_local_data_dir,
        "/home/u/.local/share/com.nick.tauri-leptos"
    );
    assert_eq!(paths.app_cache_dir, "/home/u/.cache/com.nick.tauri-leptos");
    assert_eq!(
        paths.app_log_dir,
        "/home/u/.local/share/com.nick.tauri-leptos/logs"
    );
}

#[test]
fn macos_log_dir_lands_in_library_logs_of_home() {
    let paths =
        AppPaths::from_base_dirs(dirs_all(Some("/Users/u")), Platform::MacOs).expect("macos");
    assert_eq!(paths.app_log_dir, "/Users/u/Library/Logs/com.nick.tauri-leptos");
    assert_eq!(
        AppPaths::from_base_dirs(dirs_all(None), Platform::MacOs),
        Err(PathsError::UnknownBaseDirs)
    );
}

#[test]
fn missing_base_dir_is_an_error() {
    let mut dirs = dirs_all(None);
    dirs.cache = None;
    let err = AppPaths::from_base_dirs(dirs, Platform::Other).unwrap_err();
    assert_eq!(err, PathsError::UnknownBaseDirs);
    assert_eq!(err.message(), "platform base directories are unavailable");
}

#[test]
fn default_site_root_per_platform() {
    assert_eq!(
        AppPaths::default_site_root(Platform::Linux),
        "/usr/local/share/tauri-leptos/site"
    );
    assert_eq!(AppPaths::default_site_root(Platform::MacOs), "target/site");
    assert_eq!(AppPaths::default_site_root(Platform::Other), "target/site");
}

#[test]
fn standalone_without_app_dir_uses_platform_then_systemd() {
    let result = AppPaths::resolve_standalone(None, Platform::Linux, |var: &str| match var {
        "CONFIGURATION_DIRECTORY" => Some("/etc/app".into()),
        _ => None,
    });
    if let Ok(paths) = result {
        assert_eq!(paths.app_config_dir, "/etc/app");
        assert!(paths.app_cache_dir.ends_with("/com.nick.tauri-leptos"));
    }
}

#[test]
fn app_dir_flag_beats_env() {
    assert_eq!(
        explicit_app_dir(Some("/flag".to_owned()), Some("/env".to_owned())),
        Some("/flag".to_owned())
    );
    assert_eq!(
        explicit_app_dir(None, Some("/env".to_owned())),
        Some("/env".to_owned())
    );
    assert_eq!(explicit_app_dir(None, Some(" ".to_owned())), None);
    assert_eq!(explicit_app_dir(None, None), None);
}
