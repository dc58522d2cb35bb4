use tauri_leptos_core::bootstrap::{tauri_app_dir, BootstrapError, Ctx, Host};
use tauri_leptos_core::config::{AppConfig, ConfigError, IpAddress, Ipv4Octets, ListenAddr};
use tauri_leptos_core::paths::{AppPaths, PathsError};

#[test]
fn standalone_binds_the_configured_address() {
    let ctx = Ctx::standalone(
        AppPaths::from_root("/tmp/app"),
        AppConfig::default(),
        None,
        Some(8080),
        true,
    );
    assert_eq!(ctx.host, Host::Standalone);
    assert_eq!(
        ctx.listen(),
        ListenAddr::V4 {
            octets: Ipv4Octets(127, 0, 0, 1),
            port: 8080
        }
    );
    assert!(ctx.config.log_to_file);
    assert!(!ctx.proxies_pages());
}

#[test]
fn standalone_host_override() {
    let ctx = Ctx::standalone(
        AppPaths::from_root("/tmp/app"),
        AppConfig::default(),
        Some(IpAddress::V4(Ipv4Octets(0, 0, 0, 0))),
        None,
        false,
    );
    assert_eq!(
        ctx.listen(),
        ListenAddr::V4 {
            octets: Ipv4Octets(0, 0, 0, 0),
            port: 3000
        }
    );
    assert!(!ctx.config.log_to_file);
}

#[test]
fn shell_binds_an_ephemeral_loopback_port() {
    for dev in [false, true] {
        let mut config = AppConfig::default();
        config.listen = ListenAddr::V4 {
            octets: Ipv4Octets(0, 0, 0, 0),
            port: 9999,
        };
        let ctx = Ctx::tauri(AppPaths::from_root("/tmp/app"), config, dev);
        assert_eq!(
            ctx.listen(),
            ListenAddr::V4 {
                octets: Ipv4Octets(127, 0, 0, 1),
                port: 0
            }
        );
        assert_eq!(ctx.proxies_pages(), dev);
    }
}

#[test]
fn only_dev_shell_runs_honor_the_app_dir() {
    assert_eq!(
        tauri_app_dir(Some("appdir".to_owned()), true),
        Some("appdir".to_owned())
    );
    assert_eq!(tauri_app_dir(Some("appdir".to_owned()), false), None);
    assert_eq!(tauri_app_dir(None, true), None);
    assert_eq!(tauri_app_dir(Some("  ".to_owned()), true), None);
}

#[test]
fn bootstrap_errors_describe_their_cause() {
    assert_eq!(
        BootstrapError::Paths(PathsError::UnknownBaseDirs).message(),
        "platform base directories are unavailable"
    );
    let e = BootstrapError::Config(ConfigError::Parse {
        path: "/x/config.toml".to_owned(),
        detail: "bad".to_owned(),
    });
    assert_eq!(e.message(), "/x/config.toml: bad");
}
