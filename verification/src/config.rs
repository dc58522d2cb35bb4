//! The configuration stored as `config.toml` in the app config dir: its
//! model and defaults, the semantic checks beyond the TOML shape, the
//! command-line overrides, and the first-run loading protocol.
use vstd::prelude::*;

use crate::paths::{absolute_path, join, joined_path, path_is_absolute, AppPaths};
use crate::text::{concat3, str_eq};

verus! {

/// File name of the configuration inside the app config dir.
pub const CONFIG_FILE: &'static str = "config.toml";

/// The four octets of an IPv4 address.
#[derive(Clone, Copy, Debug, PartialEq, Eq, Structural)]
pub struct Ipv4Octets(pub u8, pub u8, pub u8, pub u8);

/// An IP address: IPv4 by its octets, IPv6 by its 128 bits.
#[derive(Clone, Copy, Debug, PartialEq, Eq, Structural)]
pub enum IpAddress {
    V4(Ipv4Octets),
    V6(u128),
}

/// A socket address to listen on; the IPv6 form keeps its flow
/// information and scope id.
#[derive(Clone, Copy, Debug, PartialEq, Eq, Structural)]
pub enum ListenAddr {
    V4 { octets: Ipv4Octets, port: u16 },
    V6 { bits: u128, port: u16, flowinfo: u32, scope_id: u32 },
}

/// The address `a` with its IP replaced by `ip`: within one family only
/// the IP changes; across families the result is a fresh address of the
/// new family on the same port.
pub open spec fn with_ip(a: ListenAddr, ip: IpAddress) -> ListenAddr {
    match (a, ip) {
        (ListenAddr::V4 { port, .. }, IpAddress::V4(o)) => ListenAddr::V4 { octets: o, port },
        (ListenAddr::V6 { port, flowinfo, scope_id, .. }, IpAddress::V6(b)) => ListenAddr::V6 {
            bits: b,
            port,
            flowinfo,
            scope_id,
        },
        (_, IpAddress::V4(o)) => ListenAddr::V4 { octets: o, port: listen_port(a) },
        (_, IpAddress::V6(b)) => ListenAddr::V6 {
            bits: b,
            port: listen_port(a),
            flowinfo: 0,
            scope_id: 0,
        },
    }
}

/// The port of `a`.
pub open spec fn listen_port(a: ListenAddr) -> u16 {
    match a {
        ListenAddr::V4 { port, .. } => port,
        ListenAddr::V6 { port, .. } => port,
    }
}

/// The address `a` with its port replaced by `port`.
pub open spec fn with_port(a: ListenAddr, port: u16) -> ListenAddr {
    match a {
        ListenAddr::V4 { octets, .. } => ListenAddr::V4 { octets, port },
        ListenAddr::V6 { bits, flowinfo, scope_id, .. } => ListenAddr::V6 {
            bits,
            port,
            flowinfo,
            scope_id,
        },
    }
}

impl ListenAddr {
    /// The IP part of the address.
    pub fn ip(&self) -> (r: IpAddress)
        ensures
            r == (match *self {
                ListenAddr::V4 { octets, .. } => IpAddress::V4(octets),
                ListenAddr::V6 { bits, .. } => IpAddress::V6(bits),
            }),
    {
        match *self {
            ListenAddr::V4 { octets, .. } => IpAddress::V4(octets),
            ListenAddr::V6 { bits, .. } => IpAddress::V6(bits),
        }
    }

    /// The port part of the address.
    pub fn port(&self) -> (r: u16)
        ensures
            r == listen_port(*self),
    {
        match *self {
            ListenAddr::V4 { port, .. } => port,
            ListenAddr::V6 { port, .. } => port,
        }
    }

    /// Replace the IP, keeping the port.
    pub fn set_ip(&mut self, ip: IpAddress)
        ensures
            *final(self) == with_ip(*old(self), ip),
    {
        let port = self.port();
        *self = match (*self, ip) {
            (ListenAddr::V4 { .. }, IpAddress::V4(o)) => ListenAddr::V4 { octets: o, port },
            (ListenAddr::V6 { flowinfo, scope_id, .. }, IpAddress::V6(b)) => ListenAddr::V6 {
                bits: b,
                port,
                flowinfo,
                scope_id,
            },
            (_, IpAddress::V4(o)) => ListenAddr::V4 { octets: o, port },
            (_, IpAddress::V6(b)) => ListenAddr::V6 { bits: b, port, flowinfo: 0, scope_id: 0 },
        };
    }

    /// Replace the port, keeping everything else.
    pub fn set_port(&mut self, port: u16)
        ensures
            *final(self) == with_port(*old(self), port),
    {
        *self = match *self {
            ListenAddr::V4 { octets, .. } => ListenAddr::V4 { octets, port },
            ListenAddr::V6 { bits, flowinfo, scope_id, .. } => ListenAddr::V6 {
                bits,
                port,
                flowinfo,
                scope_id,
            },
        };
    }
}

/// Dev settings (the tauri shell's dev runs).
#[derive(Debug, Clone, PartialEq, Eq)]
pub struct DevConfig {
    /// The `cargo leptos watch` server the dev proxy forwards to.
    pub upstream: String,
}

/// The application configuration.
#[derive(Debug, Clone, PartialEq, Eq)]
pub struct AppConfig {
    /// Address the server listens on (SSR + api + ws, one origin).
    pub listen: ListenAddr,
    /// Frontend bundle directory for `site` builds; `None` = the platform
    /// default.
    pub site_root: Option<String>,
    /// Origin the client sends api/ws requests to; `None` = same origin.
    pub api_base: Option<String>,
    /// Origins allowed to call `/api` cross-origin. Empty = no CORS
    /// layer; `"*"` = any origin.
    pub cors_origins: Vec<String>,
    /// Also write logs to a daily-rolling file in the app log dir.
    pub log_to_file: bool,
    /// Dev settings.
    pub dev: DevConfig,
}

/// The default listen address, 127.0.0.1:3000.
pub open spec fn default_listen() -> ListenAddr {
    ListenAddr::V4 { octets: Ipv4Octets(127, 0, 0, 1), port: 3000 }
}

/// The default dev upstream.
pub open spec fn default_upstream() -> Seq<char> {
    "http://127.0.0.1:3001"@
}

/// `c` is the default configuration.
pub open spec fn is_default_config(c: AppConfig) -> bool {
    &&& c.listen == default_listen()
    &&& c.site_root is None
    &&& c.api_base is None
    &&& c.cors_origins@.len() == 0
    &&& !c.log_to_file
    &&& c.dev.upstream@ == default_upstream()
}

impl Default for DevConfig {
    fn default() -> (r: Self)
        ensures
            r.upstream@ == default_upstream(),
    {
        DevConfig { upstream: String::from_str("http://127.0.0.1:3001") }
    }
}

impl Default for AppConfig {
    fn default() -> (r: Self)
        ensures
            is_default_config(r),
    {
        AppConfig {
            listen: ListenAddr::V4 { octets: Ipv4Octets(127, 0, 0, 1), port: 3000 },
            site_root: None,
            api_base: None,
            cors_origins: Vec::new(),
            log_to_file: false,
            dev: DevConfig::default(),
        }
    }
}

/// The scheme that parsing `text` as an HTTP URI finds (`None` for a
/// URI without one), or the message of the parse error.
pub uninterp spec fn http_uri_scheme(text: Seq<char>) -> Result<Option<Seq<char>>, Seq<char>>;

/// The contents of a scheme-or-error outcome.
pub open spec fn scheme_outcome(r: Result<Option<String>, String>) -> Result<
    Option<Seq<char>>,
    Seq<char>,
> {
    match r {
        Ok(Some(s)) => Ok(Some(s@)),
        Ok(None) => Ok(None),
        Err(e) => Err(e@),
    }
}

/// Parses `text` with `axum::http::Uri`'s `FromStr` and reports the
/// scheme (`Uri::scheme_str`) or the `Display` text of the parse error.
/// The contract only names the outcome: what the http crate accepts is
/// its own grammar.
#[verifier::external_body]
fn parse_uri_scheme(text: &str) -> (r: Result<Option<String>, String>)
    ensures
        scheme_outcome(r) == http_uri_scheme(text@),
{
    match text.parse::<axum::http::Uri>() {
        Ok(uri) => Ok(uri.scheme_str().map(|s| s.to_owned())),
        Err(e) => Err(e.to_string()),
    }
}

/// The message prefix that names the offending upstream.
pub open spec fn upstream_label(upstream: Seq<char>) -> Seq<char> {
    "dev.upstream `"@ + upstream + "`: "@
}

/// The verdict on a dev upstream whose URI parse gave `parsed`: only a
/// well-formed `http` URI passes.
pub open spec fn upstream_verdict(
    upstream: Seq<char>,
    parsed: Result<Option<Seq<char>>, Seq<char>>,
) -> Result<(), Seq<char>> {
    match parsed {
        Err(e) => Err(upstream_label(upstream) + e),
        Ok(scheme) => if scheme == Some("http"@) {
            Ok(())
        } else {
            Err(
                upstream_label(upstream)
                    + "must be an http:// URL (the dev proxy speaks plain http to the watch)"@,
            )
        },
    }
}

/// The contents of a unit-or-message outcome.
pub open spec fn check_outcome(r: Result<(), String>) -> Result<(), Seq<char>> {
    match r {
        Ok(()) => Ok(()),
        Err(e) => Err(e@),
    }
}

/// Decide on a dev upstream from the outcome of parsing it as a URI.
pub fn check_upstream(upstream: &str, parsed: Result<Option<String>, String>) -> (r: Result<
    (),
    String,
>)
    ensures
        check_outcome(r) == upstream_verdict(upstream@, scheme_outcome(parsed)),
{
    let label = concat3("dev.upstream `", upstream, "`: ");
    match parsed {
        Err(e) => {
            let mut msg = label;
            msg.append(e.as_str());
            Err(msg)
        },
        Ok(scheme) => {
            let is_http = match &scheme {
                Some(s) => str_eq(s.as_str(), "http"),
                None => false,
            };
            proof {
                if scheme is Some {
                    assert(is_http == (scheme_outcome(Ok(scheme)) == Ok::<
                        Option<Seq<char>>,
                        Seq<char>,
                    >(Some("http"@))));
                }
            }
            if is_http {
                Ok(())
            } else {
                let mut msg = label;
                msg.append("must be an http:// URL (the dev proxy speaks plain http to the watch)");
                Err(msg)
            }
        },
    }
}

/// Where a configuration is read from and seeded to: `config.toml` in the
/// app config dir.
pub fn config_path(paths: &AppPaths) -> (r: String)
    ensures
        r@ == joined_path(paths.app_config_dir@, CONFIG_FILE@),
{
    join(paths.app_config_dir.as_str(), CONFIG_FILE)
}

impl AppConfig {
    /// Semantic checks beyond the TOML shape, so that a bad value fails at
    /// load time: `dev.upstream` must be an `http://` URI.
    pub fn validate(&self) -> (r: Result<(), String>)
        ensures
            check_outcome(r) == upstream_verdict(
                self.dev.upstream@,
                http_uri_scheme(self.dev.upstream@),
            ),
    {
        let parsed = parse_uri_scheme(self.dev.upstream.as_str());
        check_upstream(self.dev.upstream.as_str(), parsed)
    }

    /// Resolve `site_root` by convention: absolute paths as-is, relative
    /// paths against `base`, absent -> `default`.
    pub fn site_root_resolved(&self, base: &str, default: &str) -> (r: String)
        ensures
            r@ == (match self.site_root {
                Some(p) => if absolute_path(p@) {
                    p@
                } else {
                    joined_path(base@, p@)
                },
                None => default@,
            }),
    {
        match &self.site_root {
            Some(p) => if path_is_absolute(p.as_str()) {
                p.clone()
            } else {
                join(base, p.as_str())
            },
            None => String::from_str(default),
        }
    }

    /// Apply the command-line overrides: `host` and `port` replace the
    /// configured bind, `log_to_file` ORs into the configured flag.
    pub fn apply_cli(&mut self, host: Option<IpAddress>, port: Option<u16>, log_to_file: bool)
        ensures
            final(self).listen == (match port {
                Some(p) => with_port(
                    match host {
                        Some(h) => with_ip(old(self).listen, h),
                        None => old(self).listen,
                    },
                    p,
                ),
                None => match host {
                    Some(h) => with_ip(old(self).listen, h),
                    None => old(self).listen,
                },
            }),
            final(self).log_to_file == (old(self).log_to_file || log_to_file),
            final(self).site_root == old(self).site_root,
            final(self).api_base == old(self).api_base,
            final(self).cors_origins == old(self).cors_origins,
            final(self).dev == old(self).dev,
    {
        if let Some(h) = host {
            self.listen.set_ip(h);
        }
        if let Some(p) = port {
            self.listen.set_port(p);
        }
        self.log_to_file = self.log_to_file || log_to_file;
    }
}

/// A configuration that could not be loaded.
#[derive(Debug, Clone, PartialEq, Eq)]
pub enum ConfigError {
    /// The file at `path` could not be read; `detail` is the I/O error.
    Io { path: String, detail: String },
    /// The file at `path` is not a valid configuration; `detail` says why.
    Parse { path: String, detail: String },
}

impl ConfigError {
    /// The human-readable description: `<path>: <detail>`.
    pub fn message(&self) -> (r: String)
        ensures
            r@ == (match self {
                ConfigError::Io { path, detail } => path@ + ": "@ + detail@,
                ConfigError::Parse { path, detail } => path@ + ": "@ + detail@,
            }),
    {
        match self {
            ConfigError::Io { path, detail } => concat3(path.as_str(), ": ", detail.as_str()),
            ConfigError::Parse { path, detail } => concat3(path.as_str(), ": ", detail.as_str()),
        }
    }
}

/// Where loading the configuration file stands.
#[derive(Clone, Copy, Debug, PartialEq, Eq, Structural)]
pub enum LoadPhase {
    /// The first read of the file.
    FirstRead,
    /// Writing the defaults to a file that did not exist.
    Seeding,
    /// Reading the file another process seeded first.
    Reread,
}

/// How the last file operation went.
#[derive(Clone, Copy, Debug, PartialEq, Eq, Structural)]
pub enum IoOutcome {
    Done,
    NotFound,
    AlreadyExists,
    OtherError,
}

/// What to do next while loading the configuration.
#[derive(Clone, Copy, Debug, PartialEq, Eq, Structural)]
pub enum LoadAction {
    /// Parse the text just read; its verdict is the result.
    ParseText,
    /// Write the defaults to the file, refusing to overwrite
    /// (phase `Seeding` follows).
    WriteDefaults,
    /// Read the file again (phase `Reread` follows).
    ReadAgain,
    /// The result is the default configuration; `written` says whether
    /// the file now holds it.
    UseDefaults { written: bool },
    /// The result is an I/O error of the last operation.
    FailIo,
}

/// The loading protocol: a missing file is seeded with the defaults (best
/// effort); a lost seeding race rereads what the other process wrote; an
/// unreadable file is an error.
pub open spec fn load_transition(phase: LoadPhase, outcome: IoOutcome) -> LoadAction {
    match phase {
        LoadPhase::FirstRead => match outcome {
            IoOutcome::Done => LoadAction::ParseText,
            IoOutcome::NotFound => LoadAction::WriteDefaults,
            _ => LoadAction::FailIo,
        },
        LoadPhase::Seeding => match outcome {
            IoOutcome::Done => LoadAction::UseDefaults { written: true },
            IoOutcome::AlreadyExists => LoadAction::ReadAgain,
            _ => LoadAction::UseDefaults { written: false },
        },
        LoadPhase::Reread => match outcome {
            IoOutcome::Done => LoadAction::ParseText,
            _ => LoadAction::FailIo,
        },
    }
}

/// The phase an action leads to, if loading goes on.
pub open spec fn phase_after(action: LoadAction) -> Option<LoadPhase> {
    match action {
        LoadAction::WriteDefaults => Some(LoadPhase::Seeding),
        LoadAction::ReadAgain => Some(LoadPhase::Reread),
        _ => None,
    }
}

impl LoadAction {
    /// The phase this action leads to, or `None` when loading is over.
    pub fn next_phase(&self) -> (r: Option<LoadPhase>)
        ensures
            r == phase_after(*self),
    {
        match self {
            LoadAction::WriteDefaults => Some(LoadPhase::Seeding),
            LoadAction::ReadAgain => Some(LoadPhase::Reread),
            _ => None,
        }
    }
}

/// One step of loading: what to do after `outcome` in `phase`.
pub fn load_step(phase: LoadPhase, outcome: IoOutcome) -> (r: LoadAction)
    ensures
        r == load_transition(phase, outcome),
{
    match phase {
        LoadPhase::FirstRead => match outcome {
            IoOutcome::Done => LoadAction::ParseText,
            IoOutcome::NotFound => LoadAction::WriteDefaults,
            _ => LoadAction::FailIo,
        },
        LoadPhase::Seeding => match outcome {
            IoOutcome::Done => LoadAction::UseDefaults { written: true },
            IoOutcome::AlreadyExists => LoadAction::ReadAgain,
            _ => LoadAction::UseDefaults { written: false },
        },
        LoadPhase::Reread => match outcome {
            IoOutcome::Done => LoadAction::ParseText,
            _ => LoadAction::FailIo,
        },
    }
}

} // verus!

verus! {

/// The IP of `a`.
pub open spec fn listen_ip(a: ListenAddr) -> IpAddress {
    match a {
        ListenAddr::V4 { octets, .. } => IpAddress::V4(octets),
        ListenAddr::V6 { bits, .. } => IpAddress::V6(bits),
    }
}

/// Overriding the port keeps the IP; overriding the IP keeps the port.
pub proof fn cli_overrides_are_independent(a: ListenAddr, ip: IpAddress, port: u16)
    ensures
        listen_ip(with_port(a, port)) == listen_ip(a),
        listen_port(with_port(a, port)) == port,
        listen_ip(with_ip(a, ip)) == ip,
        listen_port(with_ip(a, ip)) == listen_port(a),
{
}

/// A dev upstream passes validation exactly when it parses as a URI whose
/// scheme is `http`.
pub proof fn upstream_valid_iff_http(
    upstream: Seq<char>,
    parsed: Result<Option<Seq<char>>, Seq<char>>,
)
    ensures
        upstream_verdict(upstream, parsed) is Ok <==> parsed == Ok::<
            Option<Seq<char>>,
            Seq<char>,
        >(Some("http"@)),
{
}

/// Loading never loops: after at most three file operations (read, seed,
/// reread) it has ended, whatever each operation reports.
pub proof fn load_ends_within_three_steps(o1: IoOutcome, o2: IoOutcome, o3: IoOutcome)
    ensures
        phase_after(load_transition(LoadPhase::FirstRead, o1)) matches Some(p2) ==> (
        phase_after(load_transition(p2, o2)) matches Some(p3) ==> phase_after(
            load_transition(p3, o3),
        ) is None),
{
}

/// An existing but unreadable file is an error, never replaced by the
/// defaults; an existing readable one is always parsed.
pub proof fn existing_file_is_never_defaulted(phase: LoadPhase, o: IoOutcome)
    requires
        phase != LoadPhase::Seeding,
        o != IoOutcome::NotFound || phase == LoadPhase::Reread,
    ensures
        !(load_transition(phase, o) is UseDefaults),
        o == IoOutcome::Done ==> load_transition(phase, o) == LoadAction::ParseText,
{
}

/// A missing file is seeded with the defaults, and a failed seeding still
/// starts on the defaults, except when another process seeded first: then
/// its file is read.
pub proof fn missing_file_is_seeded(o2: IoOutcome)
    ensures
        load_transition(LoadPhase::FirstRead, IoOutcome::NotFound) == LoadAction::WriteDefaults,
        o2 == IoOutcome::AlreadyExists <==> load_transition(LoadPhase::Seeding, o2)
            == LoadAction::ReadAgain,
        o2 != IoOutcome::AlreadyExists ==> load_transition(LoadPhase::Seeding, o2)
            == (LoadAction::UseDefaults { written: o2 == IoOutcome::Done }),
{
}

} // verus!
