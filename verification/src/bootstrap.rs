//! The shared bootstrap: resolved paths, loaded config and the host.
//! Where the app runs is fixed here and decides, at runtime, which address
//! is bound and whether pages are served or proxied.
use vstd::prelude::*;

use crate::config::{with_ip, with_port, AppConfig, ConfigError, IpAddress, Ipv4Octets, ListenAddr};
use crate::paths::{app_dir_from_env, nonblank_value, AppPaths, PathsError};

verus! {

/// Where the app runs.
#[derive(Clone, Copy, Debug, PartialEq, Eq, Structural)]
pub enum Host {
    /// The headless server.
    Standalone,
    /// Inside the Tauri shell; `dev` for the shell's dev runs.
    Tauri { dev: bool },
}

/// The address the shell binds: 127.0.0.1 on an ephemeral port.
pub open spec fn ephemeral_loopback() -> ListenAddr {
    ListenAddr::V4 { octets: Ipv4Octets(127, 0, 0, 1), port: 0 }
}

/// The address to bind under `host` when `configured` is the configured
/// listen address.
pub open spec fn bind_addr(host: Host, configured: ListenAddr) -> ListenAddr {
    match host {
        Host::Standalone => configured,
        Host::Tauri { .. } => ephemeral_loopback(),
    }
}

/// Resolved paths + loaded config + host: what every entrypoint starts
/// from.
#[derive(Debug, Clone, PartialEq, Eq)]
pub struct Ctx {
    pub paths: AppPaths,
    pub config: AppConfig,
    pub host: Host,
}

impl Ctx {
    /// Standalone bootstrap: the resolved `paths` and loaded `config`, with
    /// the command-line `host`/`port` overriding the configured bind and
    /// `log_to_file` ORed into the configured flag.
    pub fn standalone(
        paths: AppPaths,
        config: AppConfig,
        host: Option<IpAddress>,
        port: Option<u16>,
        log_to_file: bool,
    ) -> (r: Self)
        ensures
            r.paths == paths,
            r.config.listen == (match port {
                Some(p) => with_port(
                    match host {
                        Some(h) => with_ip(config.listen, h),
                        None => config.listen,
                    },
                    p,
                ),
                None => match host {
                    Some(h) => with_ip(config.listen, h),
                    None => config.listen,
                },
            }),
            r.config.log_to_file == (config.log_to_file || log_to_file),
            r.config.site_root == config.site_root,
            r.config.api_base == config.api_base,
            r.config.cors_origins == config.cors_origins,
            r.config.dev == config.dev,
            r.host == Host::Standalone,
    {
        let mut config = config;
        config.apply_cli(host, port, log_to_file);
        Ctx { paths, config, host: Host::Standalone }
    }

    /// Bootstrap inside the Tauri shell; `dev` is the shell's dev flag.
    pub fn tauri(paths: AppPaths, config: AppConfig, dev: bool) -> (r: Self)
        ensures
            r.paths == paths,
            r.config == config,
            r.host == (Host::Tauri { dev }),
    {
        Ctx { paths, config, host: Host::Tauri { dev } }
    }

    /// The address to bind: the configured listen address standalone, an
    /// ephemeral loopback port in the Tauri shell.
    pub fn listen(&self) -> (r: ListenAddr)
        ensures
            r == bind_addr(self.host, self.config.listen),
            self.host is Tauri ==> r == (ListenAddr::V4 { octets: Ipv4Octets(127, 0, 0, 1), port: 0 }),
            self.host is Standalone ==> r == self.config.listen,
    {
        match self.host {
            Host::Standalone => self.config.listen,
            Host::Tauri { .. } => ListenAddr::V4 { octets: Ipv4Octets(127, 0, 0, 1), port: 0 },
        }
    }

    /// Whether pages are reverse-proxied from the watch server instead of
    /// rendered here: only in the shell's dev runs.
    pub fn proxies_pages(&self) -> (r: bool)
        ensures
            r == (self.host == Host::Tauri { dev: true }),
    {
        match self.host {
            Host::Tauri { dev } => dev,
            Host::Standalone => false,
        }
    }
}

/// The app-dir override of a shell run, from the app-dir environment
/// variable's value: dev runs honor it (so the shell and the watch share
/// one config store); release runs use the platform paths.
pub fn tauri_app_dir(env_value: Option<String>, dev: bool) -> (r: Option<String>)
    ensures
        r == (if dev {
            nonblank_value(env_value)
        } else {
            None
        }),
{
    if dev {
        app_dir_from_env(env_value)
    } else {
        None
    }
}

/// Why the bootstrap failed.
#[derive(Debug, Clone, PartialEq, Eq)]
pub enum BootstrapError {
    Paths(PathsError),
    Config(ConfigError),
}

impl BootstrapError {
    /// The human-readable description: that of the underlying error.
    pub fn message(&self) -> (r: String)
        ensures
            r@ == (match self {
                BootstrapError::Paths(_) => "platform base directories are unavailable"@,
                BootstrapError::Config(ConfigError::Io { path, detail }) => path@ + ": "@
                    + detail@,
                BootstrapError::Config(ConfigError::Parse { path, detail }) => path@ + ": "@
                    + detail@,
            }),
    {
        match self {
            BootstrapError::Paths(e) => e.message(),
            BootstrapError::Config(e) => e.message(),
        }
    }
}

} // verus!

verus! {

/// In the Tauri shell the bind address is always 127.0.0.1 on an ephemeral
/// port, whatever the configured listen address and the dev flag;
/// standalone it is the configured address itself.
pub proof fn shell_binds_ephemeral_loopback_whatever_configured(
    dev: bool,
    configured: ListenAddr,
)
    ensures
        bind_addr(Host::Tauri { dev }, configured) == (ListenAddr::V4 {
            octets: Ipv4Octets(127, 0, 0, 1),
            port: 0,
        }),
        bind_addr(Host::Standalone, configured) == configured,
{
}

} // verus!
