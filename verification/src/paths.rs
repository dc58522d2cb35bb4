//! Application directories, named after the Tauri v2 path API.
//!
//! Paths are held as strings and joined with `std::path::Path::join`, so
//! the path syntax (separators, roots, Windows prefixes) is that of the
//! target the crate is built for. A platform directory whose name is not
//! valid UTF-8 is carried as text, with U+FFFD in place of the bytes that
//! are not.
use vstd::prelude::*;

use crate::text::{is_blank, str_is_blank};
use crate::APP_IDENTIFIER;

verus! {

/// Whether `std::path::Path::is_absolute` holds of `p` on the build
/// target (on Unix: it starts with `/`; on Windows: it has a prefix and a
/// root, as in `c:\windows`).
pub uninterp spec fn absolute_path(p: Seq<char>) -> bool;

/// The path that `std::path::Path::join` makes of `base` and `tail` on the
/// build target.
pub uninterp spec fn joined_path(base: Seq<char>, tail: Seq<char>) -> Seq<char>;

/// `Path::new(p).is_absolute()`. The result is named: what counts as
/// absolute is the build target's path syntax.
#[verifier::external_body]
pub(crate) fn path_is_absolute(p: &str) -> (r: bool)
    ensures
        r == absolute_path(p@),
{
    std::path::Path::new(p).is_absolute()
}

/// `Path::new(base).join(tail)`, as a string (both arguments are text, so
/// the joined path is text too). The result is named; the one fact stated
/// is the documented one that an absolute `tail` replaces the base.
#[verifier::external_body]
pub(crate) fn join(base: &str, tail: &str) -> (r: String)
    ensures
        r@ == joined_path(base@, tail@),
        absolute_path(tail@) ==> r@ == tail@,
{
    std::path::Path::new(base).join(tail).to_string_lossy().into_owned()
}

/// The platform the process runs on, as far as the directory layout
/// depends on it.
#[derive(Clone, Copy, Debug, PartialEq, Eq, Structural)]
pub enum Platform {
    Linux,
    MacOs,
    Other,
}

/// The app's directories, one field per Tauri path-API name.
#[derive(Debug, Clone, PartialEq, Eq)]
pub struct AppPaths {
    pub app_config_dir: String,
    pub app_data_dir: String,
    pub app_local_data_dir: String,
    pub app_cache_dir: String,
    pub app_log_dir: String,
}

/// Why the directories could not be resolved.
#[derive(Debug, Clone, Copy, PartialEq, Eq, Structural)]
pub enum PathsError {
    /// The platform home/base directories could not be determined.
    UnknownBaseDirs,
}

impl PathsError {
    /// The human-readable description of the error.
    pub fn message(&self) -> (r: String)
        ensures
            r@ == "platform base directories are unavailable"@,
    {
        match self {
            PathsError::UnknownBaseDirs => String::from_str(
                "platform base directories are unavailable",
            ),
        }
    }
}

/// The per-user base directories of the platform (`dirs` crate names);
/// `None` where the platform could not tell.
#[derive(Debug, Clone, PartialEq, Eq)]
pub struct BaseDirs {
    pub config: Option<String>,
    pub data: Option<String>,
    pub data_local: Option<String>,
    pub cache: Option<String>,
    pub home: Option<String>,
}

/// The layout that puts every directory under `root`.
pub open spec fn paths_under(root: Seq<char>, p: AppPaths) -> bool {
    &&& p.app_config_dir@ == joined_path(root, "config"@)
    &&& p.app_data_dir@ == joined_path(root, "data"@)
    &&& p.app_local_data_dir@ == joined_path(root, "data"@)
    &&& p.app_cache_dir@ == joined_path(root, "cache"@)
    &&& p.app_log_dir@ == joined_path(root, "logs"@)
}

/// The contents of an optional string.
pub open spec fn opt_view(o: Option<String>) -> Option<Seq<char>> {
    match o {
        Some(s) => Some(s@),
        None => None,
    }
}

/// The directories that the standalone layout needs are all known: the
/// four base directories, and the home directory on macOS.
pub open spec fn base_dirs_known(d: BaseDirs, platform: Platform) -> bool {
    &&& d.config is Some && d.data is Some && d.data_local is Some && d.cache is Some
    &&& platform == Platform::MacOs ==> d.home is Some
}

/// `p` is Tauri's per-platform layout over the base directories `d`
/// (which `base_dirs_known` requires to be present): each directory is
/// the base joined with the app identifier; logs go to
/// `~/Library/Logs/<id>` on macOS and `<local data>/<id>/logs` elsewhere.
pub open spec fn platform_layout(d: BaseDirs, platform: Platform, p: AppPaths) -> bool {
    let id = APP_IDENTIFIER@;
    &&& base_dirs_known(d, platform)
    &&& p.app_config_dir@ == joined_path(d.config->0@, id)
    &&& p.app_data_dir@ == joined_path(d.data->0@, id)
    &&& p.app_local_data_dir@ == joined_path(d.data_local->0@, id)
    &&& p.app_cache_dir@ == joined_path(d.cache->0@, id)
    &&& p.app_log_dir@ == if platform == Platform::MacOs {
        joined_path(joined_path(d.home->0@, "Library/Logs"@), id)
    } else {
        joined_path(joined_path(d.data_local->0@, id), "logs"@)
    }
}

/// `r` is what the standalone layout gives over the base directories `d`:
/// the layout when they are known, `UnknownBaseDirs` otherwise.
pub open spec fn base_dirs_outcome(
    d: BaseDirs,
    platform: Platform,
    r: Result<AppPaths, PathsError>,
) -> bool {
    if base_dirs_known(d, platform) {
        r matches Ok(p) && platform_layout(d, platform, p)
    } else {
        r == Err::<AppPaths, PathsError>(PathsError::UnknownBaseDirs)
    }
}

/// The part of a systemd `*_DIRECTORY` value before its first `:`.
pub open spec fn first_list_entry(v: Seq<char>) -> Seq<char> {
    match v.index_of_first(':') {
        Some(i) => v.take(i),
        None => v,
    }
}

/// What a systemd `*_DIRECTORY` variable contributes: its first entry,
/// unless that entry is blank or the variable is unset.
pub open spec fn systemd_dir(v: Option<Seq<char>>) -> Option<Seq<char>> {
    match v {
        Some(s) => if is_blank(first_list_entry(s)) {
            None
        } else {
            Some(first_list_entry(s))
        },
        None => None,
    }
}

/// `dir` replaces `old` when present.
pub open spec fn overridden(old: Seq<char>, dir: Option<Seq<char>>) -> Seq<char> {
    match dir {
        Some(d) => d,
        None => old,
    }
}

/// `p` is `base` with the systemd directory variables `conf`, `state`,
/// `cache` and `logs` applied.
pub open spec fn systemd_applied(
    base: AppPaths,
    conf: Option<Seq<char>>,
    state: Option<Seq<char>>,
    cache: Option<Seq<char>>,
    logs: Option<Seq<char>>,
    p: AppPaths,
) -> bool {
    &&& p.app_config_dir@ == overridden(base.app_config_dir@, systemd_dir(conf))
    &&& p.app_data_dir@ == overridden(base.app_data_dir@, systemd_dir(state))
    &&& p.app_local_data_dir@ == overridden(base.app_local_data_dir@, systemd_dir(state))
    &&& p.app_cache_dir@ == overridden(base.app_cache_dir@, systemd_dir(cache))
    &&& p.app_log_dir@ == overridden(base.app_log_dir@, systemd_dir(logs))
}

/// `p` is `base` with the systemd directory variables applied, each read
/// through `lookup`.
pub open spec fn systemd_overridden<F: Fn(&str) -> Option<String>>(
    base: AppPaths,
    lookup: F,
    p: AppPaths,
) -> bool {
    exists|c: Option<String>, s: Option<String>, k: Option<String>, l: Option<String>|
        {
            &&& call_ensures(lookup, ("CONFIGURATION_DIRECTORY",), c)
            &&& call_ensures(lookup, ("STATE_DIRECTORY",), s)
            &&& call_ensures(lookup, ("CACHE_DIRECTORY",), k)
            &&& call_ensures(lookup, ("LOGS_DIRECTORY",), l)
            &&& systemd_applied(base, opt_view(c), opt_view(s), opt_view(k), opt_view(l), p)
        }
}

/// The part of `v` before its first `:` (all of it when there is none).
pub fn first_entry(v: &str) -> (r: String)
    ensures
        r@ == first_list_entry(v@),
{
    let n = v.unicode_len();
    let mut i: usize = 0;
    while i < n
        invariant
            n == v@.len(),
            i <= n,
            forall|j: int| 0 <= j < i ==> v@[j] != ':',
        decreases n - i,
    {
        if v.get_char(i) == ':' {
            proof {
                v@.index_of_first_ensures(':');
                assert(v@.contains(':'));
                let k = v@.index_of_first(':')->0;
                assert(k == i);
            }
            return String::from_str(v.substring_char(0, i));
        }
        i = i + 1;
    }
    proof {
        v@.index_of_first_ensures(':');
        if v@.contains(':') {
            let k = choose|k: int| 0 <= k < v@.len() && v@[k] == ':';
            assert(v@[k] != ':');
        }
    }
    String::from_str(v)
}

/// The directory a systemd `*_DIRECTORY` value names, if any.
pub fn systemd_entry(value: Option<String>) -> (r: Option<String>)
    ensures
        opt_view(r) == systemd_dir(opt_view(value)),
{
    match value {
        Some(v) => {
            let first = first_entry(v.as_str());
            if str_is_blank(first.as_str()) {
                None
            } else {
                Some(first)
            }
        },
        None => None,
    }
}

/// An environment value that names a directory: unset and blank values
/// count as unset.
pub open spec fn nonblank_value(value: Option<String>) -> Option<String> {
    match value {
        Some(v) => if is_blank(v@) {
            None
        } else {
            Some(v)
        },
        None => None,
    }
}

/// The value of the app-dir environment variable, if it names a
/// directory: an unset or blank value counts as unset.
pub fn app_dir_from_env(value: Option<String>) -> (r: Option<String>)
    ensures
        r == nonblank_value(value),
{
    match value {
        Some(v) => {
            if str_is_blank(v.as_str()) {
                None
            } else {
                Some(v)
            }
        },
        None => None,
    }
}

/// The explicit app dir of a standalone run: the `--app-dir` flag, else
/// the app-dir environment variable (`env_value`, blank = unset).
pub fn explicit_app_dir(flag: Option<String>, env_value: Option<String>) -> (r: Option<String>)
    ensures
        r == (if flag is Some {
            flag
        } else {
            nonblank_value(env_value)
        }),
{
    match flag {
        Some(dir) => Some(dir),
        None => app_dir_from_env(env_value),
    }
}

/// `dirs::config_dir`, as a string (`to_string_lossy`: bytes that are not
/// UTF-8 become U+FFFD; the same for the four wrappers below); what it
/// returns depends on the environment of the process, so nothing is
/// stated of it.
#[verifier::external_body]
fn platform_config_dir() -> (r: Option<String>) {
    dirs::config_dir().map(|p| p.to_string_lossy().into_owned())
}

/// `dirs::data_dir`, as a string; environment-dependent, nothing stated.
#[verifier::external_body]
fn platform_data_dir() -> (r: Option<String>) {
    dirs::data_dir().map(|p| p.to_string_lossy().into_owned())
}

/// `dirs::data_local_dir`, as a string; environment-dependent, nothing
/// stated.
#[verifier::external_body]
fn platform_data_local_dir() -> (r: Option<String>) {
    dirs::data_local_dir().map(|p| p.to_string_lossy().into_owned())
}

/// `dirs::cache_dir`, as a string; environment-dependent, nothing stated.
#[verifier::external_body]
fn platform_cache_dir() -> (r: Option<String>) {
    dirs::cache_dir().map(|p| p.to_string_lossy().into_owned())
}

/// `dirs::home_dir`, as a string; environment-dependent, nothing stated.
#[verifier::external_body]
fn platform_home_dir() -> (r: Option<String>) {
    dirs::home_dir().map(|p| p.to_string_lossy().into_owned())
}

impl AppPaths {
    /// Every directory under one root: the reproducible dev/test layout
    /// selected by `--app-dir` or the app-dir env var.
    pub fn from_root(root: &str) -> (r: Self)
        ensures
            paths_under(root@, r),
    {
        let data = join(root, "data");
        AppPaths {
            app_config_dir: join(root, "config"),
            app_data_dir: data.clone(),
            app_local_data_dir: data,
            app_cache_dir: join(root, "cache"),
            app_log_dir: join(root, "logs"),
        }
    }

    /// Tauri's per-platform mapping, from the platform base directories.
    pub fn from_base_dirs(dirs: BaseDirs, platform: Platform) -> (r: Result<Self, PathsError>)
        ensures
            base_dirs_outcome(dirs, platform, r),
            r matches Ok(p) ==> {
                &&& p.app_config_dir@ == joined_path(dirs.config->0@, APP_IDENTIFIER@)
                &&& p.app_data_dir@ == joined_path(dirs.data->0@, APP_IDENTIFIER@)
                &&& p.app_local_data_dir@ == joined_path(dirs.data_local->0@, APP_IDENTIFIER@)
                &&& p.app_cache_dir@ == joined_path(dirs.cache->0@, APP_IDENTIFIER@)
            },
    {
        let ghost d = dirs;
        let config = match dirs.config {
            Some(c) => c,
            None => return Err(PathsError::UnknownBaseDirs),
        };
        let data = match dirs.data {
            Some(c) => c,
            None => return Err(PathsError::UnknownBaseDirs),
        };
        let local_data = match dirs.data_local {
            Some(c) => c,
            None => return Err(PathsError::UnknownBaseDirs),
        };
        let cache = match dirs.cache {
            Some(c) => c,
            None => return Err(PathsError::UnknownBaseDirs),
        };
        let log = match platform {
            Platform::MacOs => match dirs.home {
                Some(home) => join(join(home.as_str(), "Library/Logs").as_str(), APP_IDENTIFIER),
                None => return Err(PathsError::UnknownBaseDirs),
            },
            _ => join(join(local_data.as_str(), APP_IDENTIFIER).as_str(), "logs"),
        };
        Ok(AppPaths {
            app_config_dir: join(config.as_str(), APP_IDENTIFIER),
            app_data_dir: join(data.as_str(), APP_IDENTIFIER),
            app_local_data_dir: join(local_data.as_str(), APP_IDENTIFIER),
            app_cache_dir: join(cache.as_str(), APP_IDENTIFIER),
            app_log_dir: log,
        })
    }

    /// Tauri's per-platform mapping, from the base directories the
    /// platform reports for this process.
    pub fn platform_defaults(platform: Platform) -> (r: Result<Self, PathsError>)
        ensures
            exists|d: BaseDirs| base_dirs_outcome(d, platform, r),
    {
        let dirs = BaseDirs {
            config: platform_config_dir(),
            data: platform_data_dir(),
            data_local: platform_data_local_dir(),
            cache: platform_cache_dir(),
            home: match platform {
                Platform::MacOs => platform_home_dir(),
                _ => None,
            },
        };
        let ghost d = dirs;
        let r = Self::from_base_dirs(dirs, platform);
        assert(base_dirs_outcome(d, platform, r));
        r
    }

    /// Resolution for processes running without Tauri (the headless
    /// server). Precedence: explicit `app_dir` (CLI flag or env, resolved
    /// by the caller) > systemd directory variables (read through
    /// `lookup`) > platform defaults.
    pub fn resolve_standalone<F: Fn(&str) -> Option<String>>(
        app_dir: Option<&str>,
        platform: Platform,
        lookup: F,
    ) -> (r: Result<Self, PathsError>)
        requires
            forall|var: &str| call_requires(lookup, (var,)),
        ensures
            app_dir matches Some(root) ==> r matches Ok(p) && paths_under(root@, p),
            app_dir is None ==> (r matches Ok(p) ==> exists|q: AppPaths, d: BaseDirs|
                platform_layout(d, platform, q) && systemd_overridden(q, lookup, p)),
            r matches Err(e) ==> app_dir is None && e == PathsError::UnknownBaseDirs,
    {
        match app_dir {
            Some(root) => Ok(Self::from_root(root)),
            None => {
                let base = Self::platform_defaults(platform)?;
                Ok(base.with_systemd_overrides(lookup))
            },
        }
    }

    /// Apply systemd's `*_DIRECTORY` variables (`ConfigurationDirectory=`,
    /// `StateDirectory=`, ...), read through `lookup`. Each may hold a
    /// colon-separated list; the first entry wins. Blank values act as
    /// unset.
    pub fn with_systemd_overrides<F: Fn(&str) -> Option<String>>(self, lookup: F) -> (r: Self)
        requires
            forall|var: &str| call_requires(lookup, (var,)),
        ensures
            systemd_overridden(self, lookup, r),
            decided_by(lookup, "CONFIGURATION_DIRECTORY", self.app_config_dir@, r.app_config_dir@),
            decided_by(lookup, "STATE_DIRECTORY", self.app_data_dir@, r.app_data_dir@),
            decided_by(
                lookup,
                "STATE_DIRECTORY",
                self.app_local_data_dir@,
                r.app_local_data_dir@,
            ),
            decided_by(lookup, "CACHE_DIRECTORY", self.app_cache_dir@, r.app_cache_dir@),
            decided_by(lookup, "LOGS_DIRECTORY", self.app_log_dir@, r.app_log_dir@),
    {
        let c = lookup("CONFIGURATION_DIRECTORY");
        let s = lookup("STATE_DIRECTORY");
        let k = lookup("CACHE_DIRECTORY");
        let l = lookup("LOGS_DIRECTORY");
        let ghost (cv, sv, kv, lv) = (c, s, k, l);
        let mut p = self;
        if let Some(dir) = systemd_entry(c) {
            p.app_config_dir = dir;
        }
        if let Some(dir) = systemd_entry(s) {
            p.app_data_dir = dir.clone();
            p.app_local_data_dir = dir;
        }
        if let Some(dir) = systemd_entry(k) {
            p.app_cache_dir = dir;
        }
        if let Some(dir) = systemd_entry(l) {
            p.app_log_dir = dir;
        }
        assert(systemd_applied(self, opt_view(cv), opt_view(sv), opt_view(kv), opt_view(lv), p));
        proof {
            each_dir_is_read_from_its_own_variable(self, lookup, p);
        }
        p
    }

    /// Default frontend bundle location for the standalone full server:
    /// the FHS share dir for manual installs on Linux, the cargo-leptos
    /// output elsewhere (dev).
    pub fn default_site_root(platform: Platform) -> (r: String)
        ensures
            r@ == if platform == Platform::Linux {
                "/usr/local/share/tauri-leptos/site"@
            } else {
                "target/site"@
            },
    {
        match platform {
            Platform::Linux => String::from_str("/usr/local/share/tauri-leptos/site"),
            _ => String::from_str("target/site"),
        }
    }
}

} // verus!

verus! {

/// Without systemd directory variables the layout is unchanged.
pub proof fn systemd_unset_keeps_layout(base: AppPaths, p: AppPaths)
    requires
        systemd_applied(base, None, None, None, None, p),
    ensures
        p.app_config_dir@ == base.app_config_dir@,
        p.app_data_dir@ == base.app_data_dir@,
        p.app_local_data_dir@ == base.app_local_data_dir@,
        p.app_cache_dir@ == base.app_cache_dir@,
        p.app_log_dir@ == base.app_log_dir@,
{
}

/// `STATE_DIRECTORY` moves the data and the local data directory together.
pub proof fn state_dir_moves_data_dirs_together(
    base: AppPaths,
    conf: Option<Seq<char>>,
    state: Option<Seq<char>>,
    cache: Option<Seq<char>>,
    logs: Option<Seq<char>>,
    p: AppPaths,
)
    requires
        systemd_applied(base, conf, state, cache, logs, p),
        systemd_dir(state) is Some,
    ensures
        p.app_data_dir@ == p.app_local_data_dir@,
        p.app_data_dir@ == systemd_dir(state)->0,
{
}

/// Of a colon-separated list, the first entry wins.
pub proof fn systemd_first_entry_wins(first: Seq<char>, rest: Seq<char>)
    requires
        !first.contains(':'),
        !is_blank(first),
    ensures
        systemd_dir(Some(first + seq![':'] + rest)) == Some(first),
{
    let v = first + seq![':'] + rest;
    assert(v[first.len() as int] == ':');
    assert(v.contains(':'));
    v.index_of_first_ensures(':');
    let i = v.index_of_first(':')->0;
    if i < first.len() {
        assert(first[i] == v[i]);
        assert(first.contains(':'));
    }
    assert(v.take(first.len() as int) =~= first);
}

/// A blank value (or a blank first entry) counts as unset.
pub proof fn systemd_blank_is_unset(v: Seq<char>)
    requires
        is_blank(first_list_entry(v)),
    ensures
        systemd_dir(Some(v)) is None,
{
}

} // verus!

verus! {

/// Each systemd variable moves only its own directories: an unset or
/// blank variable leaves its directory as it was, whatever the other
/// variables hold, and a set one puts its first entry there.
pub proof fn each_dir_moves_only_with_its_own_variable(
    base: AppPaths,
    conf: Option<Seq<char>>,
    state: Option<Seq<char>>,
    cache: Option<Seq<char>>,
    logs: Option<Seq<char>>,
    p: AppPaths,
)
    requires
        systemd_applied(base, conf, state, cache, logs, p),
    ensures
        systemd_dir(conf) is None ==> p.app_config_dir@ == base.app_config_dir@,
        systemd_dir(state) is None ==> p.app_data_dir@ == base.app_data_dir@
            && p.app_local_data_dir@ == base.app_local_data_dir@,
        systemd_dir(cache) is None ==> p.app_cache_dir@ == base.app_cache_dir@,
        systemd_dir(logs) is None ==> p.app_log_dir@ == base.app_log_dir@,
        systemd_dir(conf) matches Some(d) ==> p.app_config_dir@ == d,
        systemd_dir(state) matches Some(d) ==> p.app_data_dir@ == d && p.app_local_data_dir@ == d,
        systemd_dir(cache) matches Some(d) ==> p.app_cache_dir@ == d,
        systemd_dir(logs) matches Some(d) ==> p.app_log_dir@ == d,
{
}

/// Two override runs over the same base that agree on one variable agree
/// on that variable's directories, however the other variables differ.
pub proof fn overrides_are_independent(
    base: AppPaths,
    c1: Option<Seq<char>>,
    s1: Option<Seq<char>>,
    k1: Option<Seq<char>>,
    l1: Option<Seq<char>>,
    p1: AppPaths,
    c2: Option<Seq<char>>,
    s2: Option<Seq<char>>,
    k2: Option<Seq<char>>,
    l2: Option<Seq<char>>,
    p2: AppPaths,
)
    requires
        systemd_applied(base, c1, s1, k1, l1, p1),
        systemd_applied(base, c2, s2, k2, l2, p2),
    ensures
        c1 == c2 ==> p1.app_config_dir@ == p2.app_config_dir@,
        s1 == s2 ==> p1.app_data_dir@ == p2.app_data_dir@ && p1.app_local_data_dir@
            == p2.app_local_data_dir@,
        k1 == k2 ==> p1.app_cache_dir@ == p2.app_cache_dir@,
        l1 == l2 ==> p1.app_log_dir@ == p2.app_log_dir@,
{
}

/// In the platform layout each directory is its own base directory joined
/// with the app identifier (logs: under the local data directory, or
/// `Library/Logs` of the home directory on macOS).
pub proof fn layout_dirs_come_from_their_own_base(d: BaseDirs, platform: Platform, p: AppPaths)
    requires
        platform_layout(d, platform, p),
    ensures
        p.app_config_dir@ == joined_path(d.config->0@, APP_IDENTIFIER@),
        p.app_data_dir@ == joined_path(d.data->0@, APP_IDENTIFIER@),
        p.app_local_data_dir@ == joined_path(d.data_local->0@, APP_IDENTIFIER@),
        p.app_cache_dir@ == joined_path(d.cache->0@, APP_IDENTIFIER@),
        platform != Platform::MacOs ==> p.app_log_dir@ == joined_path(
            joined_path(d.data_local->0@, APP_IDENTIFIER@),
            "logs"@,
        ),
        platform == Platform::MacOs ==> p.app_log_dir@ == joined_path(
            joined_path(d.home->0@, "Library/Logs"@),
            APP_IDENTIFIER@,
        ),
{
}

/// Two layouts whose base directories agree on one base agree on the
/// directories built from it: the local data directory follows only the
/// local data base, the data directory only the data base, and so on.
pub proof fn layout_dirs_depend_only_on_their_base(
    d1: BaseDirs,
    p1: AppPaths,
    d2: BaseDirs,
    p2: AppPaths,
    platform: Platform,
)
    requires
        platform_layout(d1, platform, p1),
        platform_layout(d2, platform, p2),
    ensures
        d1.config == d2.config ==> p1.app_config_dir@ == p2.app_config_dir@,
        d1.data == d2.data ==> p1.app_data_dir@ == p2.app_data_dir@,
        d1.data_local == d2.data_local ==> p1.app_local_data_dir@ == p2.app_local_data_dir@,
        d1.cache == d2.cache ==> p1.app_cache_dir@ == p2.app_cache_dir@,
        platform != Platform::MacOs && d1.data_local == d2.data_local ==> p1.app_log_dir@
            == p2.app_log_dir@,
        platform == Platform::MacOs && d1.home == d2.home ==> p1.app_log_dir@
            == p2.app_log_dir@,
{
}

} // verus!

verus! {

/// What `lookup` gives for `var` decides `dir` against `old`: some value
/// the lookup can give for `var` is either unset or blank and `dir` is
/// `old`, or names `dir` by its first entry.
pub open spec fn decided_by<F: Fn(&str) -> Option<String>>(
    lookup: F,
    var: &str,
    old: Seq<char>,
    dir: Seq<char>,
) -> bool {
    exists|v: Option<String>|
        #[trigger] call_ensures(lookup, (var,), v) && (if systemd_dir(opt_view(v)) is None {
            dir == old
        } else {
            systemd_dir(opt_view(v)) == Some(dir)
        })
}

/// Under the overrides, the config dir is decided by what the lookup gives
/// for `CONFIGURATION_DIRECTORY`, the data dirs by `STATE_DIRECTORY`, the
/// cache dir by `CACHE_DIRECTORY`, and the log dir by `LOGS_DIRECTORY`.
pub proof fn each_dir_is_read_from_its_own_variable<F: Fn(&str) -> Option<String>>(
    base: AppPaths,
    lookup: F,
    p: AppPaths,
)
    requires
        systemd_overridden(base, lookup, p),
    ensures
        decided_by(lookup, "CONFIGURATION_DIRECTORY", base.app_config_dir@, p.app_config_dir@),
        decided_by(lookup, "STATE_DIRECTORY", base.app_data_dir@, p.app_data_dir@),
        decided_by(lookup, "STATE_DIRECTORY", base.app_local_data_dir@, p.app_local_data_dir@),
        decided_by(lookup, "CACHE_DIRECTORY", base.app_cache_dir@, p.app_cache_dir@),
        decided_by(lookup, "LOGS_DIRECTORY", base.app_log_dir@, p.app_log_dir@),
{
    let (c, s, k, l) = choose|c: Option<String>, s: Option<String>, k: Option<String>, l: Option<
        String,
    >|
        {
            &&& call_ensures(lookup, ("CONFIGURATION_DIRECTORY",), c)
            &&& call_ensures(lookup, ("STATE_DIRECTORY",), s)
            &&& call_ensures(lookup, ("CACHE_DIRECTORY",), k)
            &&& call_ensures(lookup, ("LOGS_DIRECTORY",), l)
            &&& systemd_applied(base, opt_view(c), opt_view(s), opt_view(k), opt_view(l), p)
        };
    assert(call_ensures(lookup, ("CONFIGURATION_DIRECTORY",), c));
    assert(call_ensures(lookup, ("STATE_DIRECTORY",), s));
    assert(call_ensures(lookup, ("CACHE_DIRECTORY",), k));
    assert(call_ensures(lookup, ("LOGS_DIRECTORY",), l));
}

} // verus!
