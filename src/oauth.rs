//! Which kind of credentials the backend already holds for a provider, read
//! from its auth-state file, and where that file lives.

use vstd::prelude::*;

use crate::error::{AuthSyncError, ErrorLocation};
use crate::field_normalizer::Json;
use crate::text::{joined, owned, same_text};

verus! {

broadcast use vstd::string::group_string_axioms;

/// OAuth detection result.
#[derive(Debug, Clone, PartialEq, Eq)]
pub enum OAuthStatus {
    /// OAuth is configured for this provider.
    Configured,
    /// API key auth is configured (not OAuth).
    ApiKeyConfigured,
    /// WellKnown auth is configured (not OAuth).
    WellKnownConfigured,
    /// No auth configured for this provider.
    NotConfigured,
    /// Could not determine the status.
    Unknown { reason: String },
}

impl OAuthStatus {
    /// API key sync is skipped for providers with OAuth configured.
    pub fn should_skip_api_key_sync(&self) -> (r: bool)
        ensures
            r == (*self is Configured),
    {
        match self {
            OAuthStatus::Configured => true,
            _ => false,
        }
    }

    /// Is this status definitive (not unknown)?
    pub fn is_definitive(&self) -> (r: bool)
        ensures
            r == !(*self is Unknown),
    {
        match self {
            OAuthStatus::Unknown { .. } => false,
            _ => true,
        }
    }
}

/// What reading the backend's auth-state file gave.
#[derive(Debug)]
pub enum AuthFile {
    /// The data directory could not be determined.
    NoDataDir,
    /// There is no file.
    Missing,
    /// Reading it was refused; the OS error's text.
    PermissionDenied(String),
    /// Reading it failed otherwise; the OS error's text.
    ReadFailed(String),
    /// Its text is not JSON; the parser's message.
    Unparsable(String),
    /// Its content.
    Content(Json),
}

/// The kinds of auth entries the backend writes.
pub enum AuthKind {
    OAuth,
    ApiKey,
    WellKnown,
}

/// The entry of an object under a key: the first one so named.
pub open spec fn entry_at(es: Seq<(String, Json)>, key: Seq<char>) -> Option<Json>
    decreases es.len(),
{
    if es.len() == 0 {
        None
    } else if es[0].0@ == key {
        Some(es[0].1)
    } else {
        entry_at(es.drop_first(), key)
    }
}

/// The object's field under a key holds a string.
pub open spec fn string_field(es: Seq<(String, Json)>, key: Seq<char>) -> bool {
    entry_at(es, key) is Some && entry_at(es, key)->0 is Str
}

/// The kind of a well-formed auth entry: an object whose `type` is
/// `oauth` (with string `access` and `refresh` and a numeric `expires`),
/// `api` (with a string `key`) or `wellknown` (with string `key` and
/// `token`).
pub open spec fn auth_kind(v: Json) -> Option<AuthKind> {
    match v {
        Json::Object(es) => {
            let es = es@;
            if entry_at(es, "type"@) is Some && entry_at(es, "type"@)->0 is Str {
                let t = entry_at(es, "type"@)->0->Str_0@;
                if t == "oauth"@ && string_field(es, "access"@) && string_field(es, "refresh"@)
                    && entry_at(es, "expires"@) is Some && entry_at(es, "expires"@)->0 is Number {
                    Some(AuthKind::OAuth)
                } else if t == "api"@ && string_field(es, "key"@) {
                    Some(AuthKind::ApiKey)
                } else if t == "wellknown"@ && string_field(es, "key"@) && string_field(es, "token"@) {
                    Some(AuthKind::WellKnown)
                } else {
                    None
                }
            } else {
                None
            }
        },
        _ => None,
    }
}

fn lookup<'a>(es: &'a Vec<(String, Json)>, key: &str) -> (r: Option<&'a Json>)
    ensures
        r is Some <==> entry_at(es@, key@) is Some,
        r is Some ==> *r->0 == entry_at(es@, key@)->0,
{
    let mut i: usize = 0;
    proof {
        assert(es@.subrange(0, es@.len() as int) =~= es@);
    }
    while i < es.len()
        invariant
            i <= es@.len(),
            entry_at(es@, key@) == entry_at(es@.subrange(i as int, es@.len() as int), key@),
        decreases es@.len() - i,
    {
        proof {
            assert(es@.subrange(i as int, es@.len() as int).drop_first() =~= es@.subrange(i + 1, es@.len() as int));
        }
        if same_text(es[i].0.as_str(), key) {
            return Some(&es[i].1);
        }
        i = i + 1;
    }
    None
}

fn has_string(es: &Vec<(String, Json)>, key: &str) -> (r: bool)
    ensures
        r == string_field(es@, key@),
{
    match lookup(es, key) {
        Some(Json::Str(_)) => true,
        _ => false,
    }
}

fn kind_of_entry(v: &Json) -> (r: Option<AuthKind>)
    ensures
        r == auth_kind(*v),
{
    proof {
        reveal_strlit("oauth");
        reveal_strlit("api");
        reveal_strlit("wellknown");
        assert("oauth"@[0] != "api"@[0]);
        assert("oauth"@.len() != "wellknown"@.len());
        assert("api"@.len() != "wellknown"@.len());
    }
    let es = match v {
        Json::Object(es) => es,
        _ => return None,
    };
    let t = match lookup(es, "type") {
        Some(Json::Str(t)) => t.as_str(),
        _ => return None,
    };
    if same_text(t, "oauth") && has_string(es, "access") && has_string(es, "refresh") {
        if let Some(Json::Number(_)) = lookup(es, "expires") {
            return Some(AuthKind::OAuth);
        }
        return None;
    }
    if same_text(t, "api") && has_string(es, "key") {
        return Some(AuthKind::ApiKey);
    }
    if same_text(t, "wellknown") && has_string(es, "key") && has_string(es, "token") {
        return Some(AuthKind::WellKnown);
    }
    None
}

/// The status a provider's entry stands for, in the single-provider check.
pub open spec fn status_of_entry(entry: Option<Json>, status: OAuthStatus) -> bool {
    match entry {
        None => status is NotConfigured,
        Some(v) => match auth_kind(v) {
            Some(AuthKind::OAuth) => status is Configured,
            Some(AuthKind::ApiKey) => status is ApiKeyConfigured,
            Some(AuthKind::WellKnown) => status is WellKnownConfigured,
            None => status is Unknown,
        },
    }
}

/// The status of one provider given what reading the file gave: unknown
/// when the directory, the read or the parse failed; not configured when
/// the file or the provider's entry is missing; otherwise the entry's kind,
/// or unknown for an entry of no known shape.
pub open spec fn oauth_status_of(file: AuthFile, provider: Seq<char>, status: OAuthStatus) -> bool {
    match file {
        AuthFile::NoDataDir => status is Unknown,
        AuthFile::Missing => status is NotConfigured,
        AuthFile::PermissionDenied(_) => status is Unknown,
        AuthFile::ReadFailed(_) => status is Unknown,
        AuthFile::Unparsable(_) => status is Unknown,
        AuthFile::Content(v) => match v {
            Json::Object(es) => status_of_entry(entry_at(es@, provider), status),
            _ => status is Unknown,
        },
    }
}

fn unknown(reason: String) -> (r: OAuthStatus)
    ensures
        r == (OAuthStatus::Unknown { reason }),
{
    OAuthStatus::Unknown { reason }
}

fn status_for(entry: Option<&Json>, reason: &str) -> (r: OAuthStatus)
    ensures
        status_of_entry(match entry { Some(v) => Some(*v), None => None }, r),
{
    match entry {
        None => OAuthStatus::NotConfigured,
        Some(v) => match kind_of_entry(v) {
            Some(AuthKind::OAuth) => OAuthStatus::Configured,
            Some(AuthKind::ApiKey) => OAuthStatus::ApiKeyConfigured,
            Some(AuthKind::WellKnown) => OAuthStatus::WellKnownConfigured,
            None => unknown(reason.to_owned()),
        },
    }
}

/// Check the auth status of one provider, from what reading the backend's
/// auth-state file gave. Never an error: what cannot be determined is
/// `Unknown`, with the reason.
pub fn check_oauth_status(file: &AuthFile, provider: &str) -> (r: OAuthStatus)
    ensures
        oauth_status_of(*file, provider@, r),
{
    match file {
        AuthFile::NoDataDir => unknown("Cannot determine OpenCode data directory".to_string()),
        AuthFile::Missing => OAuthStatus::NotConfigured,
        AuthFile::PermissionDenied(e) => unknown(joined("Permission denied: ", e.as_str())),
        AuthFile::ReadFailed(e) => unknown(joined("Read error: ", e.as_str())),
        AuthFile::Unparsable(e) => unknown(joined("Parse error: ", e.as_str())),
        AuthFile::Content(Json::Object(es)) => status_for(
            lookup(es, provider),
            "Auth info parse error: unrecognized auth entry",
        ),
        AuthFile::Content(_) => unknown("Parse error: the auth file is not a JSON object".to_string()),
    }
}

/// The status of one provider in the batch check, which reads the file
/// once: the same as the single-provider check.
pub open spec fn batch_status_of(file: AuthFile, provider: Seq<char>, status: OAuthStatus) -> bool {
    oauth_status_of(file, provider, status)
}

/// Check many providers against one reading of the file; one status per
/// provider, in the order given, each as the single-provider check gives
/// it.
pub fn check_oauth_status_batch(file: &AuthFile, providers: &Vec<String>) -> (r: Vec<(String, OAuthStatus)>)
    ensures
        r@.len() == providers@.len(),
        forall|i: int| 0 <= i < r@.len() ==> (#[trigger] r@[i]).0@ == providers@[i]@
            && batch_status_of(*file, providers@[i]@, r@[i].1),
{
    let mut out: Vec<(String, OAuthStatus)> = Vec::new();
    let mut i: usize = 0;
    while i < providers.len()
        invariant
            i <= providers@.len(),
            out@.len() == i,
            forall|j: int| 0 <= j < i ==> (#[trigger] out@[j]).0@ == providers@[j]@
                && batch_status_of(*file, providers@[j]@, out@[j].1),
        decreases providers@.len() - i,
    {
        let p = providers[i].as_str();
        let status = check_oauth_status(file, p);
        out.push((owned(p), status));
        i = i + 1;
    }
    out
}

/// How the data directory was determined.
#[derive(Debug, Clone, Copy, PartialEq, Eq, Structural)]
pub enum PathSource {
    /// Set via the `OPENCODE_DATA_DIR` environment variable.
    EnvVar,
    /// The platform's data directory.
    PlatformDefault,
    /// `~/.local/share/opencode`.
    LinuxFallback,
    /// `~/Library/Application Support/opencode`.
    MacOSFallback,
    /// `%APPDATA%/opencode`.
    WindowsFallback,
}

/// The backend's data directory and auth-state file.
#[derive(Debug, Clone)]
pub struct OpenCodePaths {
    pub data_dir: String,
    pub auth_file: String,
    pub source: PathSource,
}

/// `dir` followed by `name`, with one `/` between them; `name` alone when
/// `dir` is empty.
pub open spec fn path_join(dir: Seq<char>, name: Seq<char>) -> Seq<char> {
    if dir.len() == 0 {
        name
    } else if dir.last() == '/' {
        dir + name
    } else {
        dir + seq!['/'] + name
    }
}

/// `dir` followed by `name`, with one `/` between them.
pub fn join_path(dir: &str, name: &str) -> (r: String)
    ensures
        r@ == path_join(dir@, name@),
{
    proof {
        reveal_strlit("/");
    }
    let n = dir.unicode_len();
    if n == 0 {
        return name.to_owned();
    }
    if dir.get_char(n - 1) == '/' {
        joined(dir, name)
    } else {
        let d = joined(dir, "/");
        joined(d.as_str(), name)
    }
}

fn paths_in(data_dir: String, source: PathSource) -> (r: OpenCodePaths)
    ensures
        r.data_dir == data_dir,
        r.auth_file@ == path_join(data_dir@, "auth.json"@),
        r.source == source,
{
    let auth_file = join_path(data_dir.as_str(), "auth.json");
    OpenCodePaths { data_dir, auth_file, source }
}

/// The operating system the fallback paths are chosen for.
#[derive(Debug, Clone, Copy, PartialEq, Eq, Structural)]
pub enum Platform {
    Linux,
    MacOS,
    Windows,
    Other,
}

/// Locate the backend's data directory: the explicit override first, then
/// `<platform data dir>/opencode`, then the platform's fallback:
/// `<home>/.local/share/opencode` on Linux,
/// `<home>/Library/Application Support/opencode` on macOS,
/// `<appdata>/opencode` on Windows.
pub fn detect_opencode_paths(
    env_override: Option<String>,
    platform_data_dir: Option<String>,
    platform: Platform,
    home: Option<String>,
    appdata: Option<String>,
) -> (r: Result<OpenCodePaths, AuthSyncError>)
    ensures
        env_override is Some ==> r is Ok && r->Ok_0.data_dir@ == env_override->0@
            && r->Ok_0.source == PathSource::EnvVar,
        env_override is None && platform_data_dir is Some ==> r is Ok
            && r->Ok_0.data_dir@ == path_join(platform_data_dir->0@, "opencode"@)
            && r->Ok_0.source == PathSource::PlatformDefault,
        env_override is None && platform_data_dir is None && platform == Platform::Linux && home is Some ==> r is Ok
            && r->Ok_0.data_dir@ == path_join(home->0@, ".local/share/opencode"@)
            && r->Ok_0.source == PathSource::LinuxFallback,
        env_override is None && platform_data_dir is None && platform == Platform::MacOS && home is Some ==> r is Ok
            && r->Ok_0.data_dir@ == path_join(home->0@, "Library/Application Support/opencode"@)
            && r->Ok_0.source == PathSource::MacOSFallback,
        env_override is None && platform_data_dir is None && platform == Platform::Windows && appdata is Some ==> r is Ok
            && r->Ok_0.data_dir@ == path_join(appdata->0@, "opencode"@)
            && r->Ok_0.source == PathSource::WindowsFallback,
        (r is Err) <==> (env_override is None && platform_data_dir is None && !(
            (platform == Platform::Linux && home is Some) || (platform == Platform::MacOS && home is Some)
            || (platform == Platform::Windows && appdata is Some))),
        r is Err ==> r->Err_0 is AuthPathDetection,
        r is Ok ==> r->Ok_0.auth_file@ == path_join(r->Ok_0.data_dir@, "auth.json"@),
{
    if let Some(dir) = env_override {
        return Ok(paths_in(dir, PathSource::EnvVar));
    }
    if let Some(base) = platform_data_dir {
        return Ok(paths_in(join_path(base.as_str(), "opencode"), PathSource::PlatformDefault));
    }
    match (platform, home, appdata) {
        (Platform::Linux, Some(h), _) => {
            return Ok(paths_in(join_path(h.as_str(), ".local/share/opencode"), PathSource::LinuxFallback));
        },
        (Platform::MacOS, Some(h), _) => {
            return Ok(paths_in(join_path(h.as_str(), "Library/Application Support/opencode"), PathSource::MacOSFallback));
        },
        (Platform::Windows, _, Some(a)) => {
            return Ok(paths_in(join_path(a.as_str(), "opencode"), PathSource::WindowsFallback));
        },
        _ => {},
    }
    Err(AuthSyncError::auth_path_detection(
        "Cannot determine OpenCode data directory. Set OPENCODE_DATA_DIR environment variable.".to_string(),
        ErrorLocation::raised_in("oauth"),
    ))
}

} // verus!
