//! User config bootstrap: which Spotify settings are required, how a loaded
//! file becomes a startup state, and the status text shown for it.
//!
//! Reading the file and parsing TOML happen in the application shell; what
//! came of them reaches this module as a [`ConfigLoad`].

use vstd::prelude::*;

use crate::text::{is_blank_text, join2, join3, owned, text_is_blank};

verus! {

/// Directory name, under the XDG config home, that holds this app's files.
pub const APP_CONFIG_DIR: &'static str = "spotuify";

/// Primary user config file name resolved under the XDG config directory.
pub const CONFIG_FILE_NAME: &'static str = "config.toml";

/// Application configuration loaded from the user's config file.
#[derive(Debug, Clone, PartialEq, Eq)]
pub struct AppConfig {
    /// Spotify-specific configuration required by the auth flow.
    pub spotify: SpotifyConfig,
}

/// Spotify settings used to start the authorization flow.
#[derive(Debug, Clone, PartialEq, Eq)]
pub struct SpotifyConfig {
    /// Spotify application client ID.
    pub client_id: Option<String>,
    /// Redirect URI registered for the Spotify application.
    pub redirect_uri: Option<String>,
}

/// Required Spotify config fields.
#[derive(Debug, Clone, Copy, PartialEq, Eq, Structural)]
pub enum RequiredConfigField {
    /// `spotify.client_id`
    SpotifyClientId,
    /// `spotify.redirect_uri`
    SpotifyRedirectUri,
}

/// Reason startup cannot use the current config.
#[derive(Debug, Clone, PartialEq, Eq)]
pub enum ConfigIssue {
    /// The expected config file does not exist.
    MissingFile,
    /// The expected config file path could not be resolved.
    PathUnavailable(String),
    /// The config file exists but cannot be read.
    ReadFailed(String),
    /// The config file is not valid TOML for the app config schema.
    ParseFailed(String),
    /// One or more required Spotify fields are absent or blank.
    MissingRequiredFields(Vec<RequiredConfigField>),
}

/// Startup config bootstrap state.
#[derive(Debug, Clone, PartialEq, Eq)]
#[allow(inconsistent_fields)]
pub enum ConfigBootstrap {
    /// Config loaded successfully and has the required Spotify settings.
    Ready {
        /// Path used to load the config file.
        path: String,
        /// Parsed and validated config.
        config: AppConfig,
    },
    /// Startup needs to route through setup before auth can continue.
    NeedsSetup {
        /// Expected config path, when it can be resolved.
        path: Option<String>,
        /// Reason setup is required.
        issue: ConfigIssue,
    },
}

/// What reading and parsing the config file came to.
#[derive(Debug, Clone, PartialEq, Eq)]
pub enum ConfigLoad {
    /// The file does not exist.
    NotFound,
    /// The file exists but reading it failed; the text describes the failure.
    ReadFailed(String),
    /// The file was read but is not valid TOML for the schema.
    ParseFailed(String),
    /// The file was read and parsed.
    Parsed(AppConfig),
}

/// A required value is blank when it is absent or trims to nothing.
pub open spec fn is_blank_value(value: Option<String>) -> bool {
    match value {
        None => true,
        Some(s) => is_blank_text(s@),
    }
}

/// The TOML key of a required field.
pub open spec fn field_key(field: RequiredConfigField) -> Seq<char> {
    match field {
        RequiredConfigField::SpotifyClientId => "spotify.client_id"@,
        RequiredConfigField::SpotifyRedirectUri => "spotify.redirect_uri"@,
    }
}

/// Field keys joined with `", "`.
pub open spec fn joined_keys(fields: Seq<RequiredConfigField>) -> Seq<char>
    decreases fields.len(),
{
    if fields.len() == 0 {
        Seq::empty()
    } else if fields.len() == 1 {
        field_key(fields[0])
    } else {
        joined_keys(fields.drop_last()) + ", "@ + field_key(fields.last())
    }
}

/// The user-facing text of a config issue.
pub open spec fn issue_text(issue: ConfigIssue) -> Seq<char> {
    match issue {
        ConfigIssue::MissingFile => "missing config file; setup required"@,
        ConfigIssue::PathUnavailable(m) => "could not resolve config path: "@ + m@,
        ConfigIssue::ReadFailed(m) => "could not read config: "@ + m@,
        ConfigIssue::ParseFailed(m) => "invalid config TOML: "@ + m@,
        ConfigIssue::MissingRequiredFields(fields) => "missing required config fields: "@
            + joined_keys(fields@),
    }
}

/// The status line shown for a bootstrap state.
pub open spec fn status_text(bootstrap: ConfigBootstrap) -> Seq<char> {
    match bootstrap {
        ConfigBootstrap::Ready { path, config } => "loaded "@ + path@
            + "; Spotify settings complete for "@ + match config.spotify.redirect_uri {
            Some(uri) => uri@,
            None => "configured redirect URI"@,
        },
        ConfigBootstrap::NeedsSetup { path, issue } => issue_text(issue) + " ("@ + match path {
            Some(p) => p@,
            None => "unresolved config path"@,
        } + ")"@,
    }
}

/// `r` is the bootstrap state that a config file at `path` leads to.
pub open spec fn loaded_from(r: ConfigBootstrap, path: String, load: ConfigLoad) -> bool {
    match load {
        ConfigLoad::NotFound => r == (ConfigBootstrap::NeedsSetup {
            path: Some(path),
            issue: ConfigIssue::MissingFile,
        }),
        ConfigLoad::ReadFailed(m) => r == (ConfigBootstrap::NeedsSetup {
            path: Some(path),
            issue: ConfigIssue::ReadFailed(m),
        }),
        ConfigLoad::ParseFailed(m) => r == (ConfigBootstrap::NeedsSetup {
            path: Some(path),
            issue: ConfigIssue::ParseFailed(m),
        }),
        ConfigLoad::Parsed(config) => if config.missing_fields().len() == 0 {
            r == (ConfigBootstrap::Ready { path, config })
        } else {
            r matches ConfigBootstrap::NeedsSetup {
                path: Some(p),
                issue: ConfigIssue::MissingRequiredFields(fields),
            } && p == path && fields@ == config.missing_fields()
        },
    }
}

impl AppConfig {
    /// Every required field that is absent or blank, in declaration order.
    pub open spec fn missing_fields(&self) -> Seq<RequiredConfigField> {
        (if is_blank_value(self.spotify.client_id) {
            seq![RequiredConfigField::SpotifyClientId]
        } else {
            Seq::empty()
        }) + (if is_blank_value(self.spotify.redirect_uri) {
            seq![RequiredConfigField::SpotifyRedirectUri]
        } else {
            Seq::empty()
        })
    }

    /// Returns every required field that is absent or blank.
    pub fn missing_required_fields(&self) -> (r: Vec<RequiredConfigField>)
        ensures
            r@ == self.missing_fields(),
    {
        let mut missing = Vec::new();
        if is_blank(opt_str(&self.spotify.client_id)) {
            missing.push(RequiredConfigField::SpotifyClientId);
        }
        if is_blank(opt_str(&self.spotify.redirect_uri)) {
            missing.push(RequiredConfigField::SpotifyRedirectUri);
        }
        assert(missing@ =~= self.missing_fields());
        missing
    }
}

/// Borrows the text of an optional string, as `Option::as_deref` does.
pub fn opt_str(value: &Option<String>) -> (r: Option<&str>)
    ensures
        r is Some <==> value is Some,
        r matches Some(s) ==> s@ == value->0@,
{
    match value {
        Some(s) => Some(s.as_str()),
        None => None,
    }
}

/// Returns true when a required string field is missing or all whitespace.
pub fn is_blank(value: Option<&str>) -> (r: bool)
    ensures
        r == match value {
            None => true,
            Some(s) => is_blank_text(s@),
        },
{
    match value {
        None => true,
        Some(s) => text_is_blank(s),
    }
}

impl RequiredConfigField {
    /// Returns the TOML key for the required field.
    pub fn key(self) -> (r: &'static str)
        ensures
            r@ == field_key(self),
    {
        match self {
            RequiredConfigField::SpotifyClientId => "spotify.client_id",
            RequiredConfigField::SpotifyRedirectUri => "spotify.redirect_uri",
        }
    }
}

impl ConfigIssue {
    /// The user-facing text of the issue.
    pub fn to_string(&self) -> (r: String)
        ensures
            r@ == issue_text(*self),
    {
        match self {
            ConfigIssue::MissingFile => owned("missing config file; setup required"),
            ConfigIssue::PathUnavailable(m) => join2("could not resolve config path: ", m.as_str()),
            ConfigIssue::ReadFailed(m) => join2("could not read config: ", m.as_str()),
            ConfigIssue::ParseFailed(m) => join2("invalid config TOML: ", m.as_str()),
            ConfigIssue::MissingRequiredFields(fields) => {
                let keys = join_field_keys(fields);
                join2("missing required config fields: ", keys.as_str())
            },
        }
    }
}

/// Joins the TOML keys of `fields` with `", "`.
fn join_field_keys(fields: &Vec<RequiredConfigField>) -> (r: String)
    ensures
        r@ == joined_keys(fields@),
{
    let mut out = String::new();
    let mut i: usize = 0;
    assert(fields@.subrange(0, 0) =~= Seq::<RequiredConfigField>::empty());
    while i < fields.len()
        invariant
            i <= fields.len(),
            out@ == joined_keys(fields@.subrange(0, i as int)),
        decreases fields.len() - i,
    {
        let key = fields[i].key();
        proof {
            let next = fields@.subrange(0, i + 1);
            assert(next.drop_last() =~= fields@.subrange(0, i as int));
            assert(next.last() == fields@[i as int]);
        }
        if i > 0 {
            out.append(", ");
        }
        out.append(key);
        i = i + 1;
    }
    assert(fields@.subrange(0, fields.len() as int) =~= fields@);
    out
}

impl ConfigBootstrap {
    /// The bootstrap state for a config file at `path`, given what reading and
    /// parsing it came to.
    pub fn from_load(path: String, load: ConfigLoad) -> (r: Self)
        ensures
            loaded_from(r, path, load),
    {
        match load {
            ConfigLoad::NotFound => ConfigBootstrap::NeedsSetup {
                path: Some(path),
                issue: ConfigIssue::MissingFile,
            },
            ConfigLoad::ReadFailed(m) => ConfigBootstrap::NeedsSetup {
                path: Some(path),
                issue: ConfigIssue::ReadFailed(m),
            },
            ConfigLoad::ParseFailed(m) => ConfigBootstrap::NeedsSetup {
                path: Some(path),
                issue: ConfigIssue::ParseFailed(m),
            },
            ConfigLoad::Parsed(config) => {
                let missing = config.missing_required_fields();
                if missing.len() == 0 {
                    ConfigBootstrap::Ready { path, config }
                } else {
                    ConfigBootstrap::NeedsSetup {
                        path: Some(path),
                        issue: ConfigIssue::MissingRequiredFields(missing),
                    }
                }
            },
        }
    }

    /// The startup state: `located` is the resolved config path with what
    /// loading the file there came to, or `None` when no path could be resolved.
    pub fn load(located: Option<(String, ConfigLoad)>) -> (r: Self)
        ensures
            match located {
                None => r matches ConfigBootstrap::NeedsSetup {
                    path: None,
                    issue: ConfigIssue::PathUnavailable(m),
                } && m@ == "$HOME is not set"@,
                Some((path, load)) => loaded_from(r, path, load),
            },
    {
        match located {
            Some((path, load)) => ConfigBootstrap::from_load(path, load),
            None => ConfigBootstrap::NeedsSetup {
                path: None,
                issue: ConfigIssue::PathUnavailable(owned("$HOME is not set")),
            },
        }
    }

    /// Reports whether startup can proceed directly to auth.
    pub fn is_ready(&self) -> (r: bool)
        ensures
            r == (*self is Ready),
    {
        match self {
            ConfigBootstrap::Ready { .. } => true,
            ConfigBootstrap::NeedsSetup { .. } => false,
        }
    }

    /// Builds a concise user-facing config status for the current shell.
    pub fn status_label(&self) -> (r: String)
        ensures
            r@ == status_text(*self),
    {
        match self {
            ConfigBootstrap::Ready { path, config } => {
                let redirect_uri = match &config.spotify.redirect_uri {
                    Some(uri) => uri.as_str(),
                    None => "configured redirect URI",
                };
                let mut s = join3("loaded ", path.as_str(), "; Spotify settings complete for ");
                s.append(redirect_uri);
                s
            },
            ConfigBootstrap::NeedsSetup { path, issue } => {
                let path_text = match path {
                    Some(p) => p.as_str(),
                    None => "unresolved config path",
                };
                let issue_text = issue.to_string();
                let mut s = join3(issue_text.as_str(), " (", path_text);
                s.append(")");
                s
            },
        }
    }
}

impl Default for ConfigBootstrap {
    /// Startup state before any config has been looked for.
    fn default() -> (r: Self)
        ensures
            r == (ConfigBootstrap::NeedsSetup { path: None, issue: ConfigIssue::MissingFile }),
    {
        ConfigBootstrap::NeedsSetup { path: None, issue: ConfigIssue::MissingFile }
    }
}

/// Startup is ready exactly when the file was read and parsed and no required
/// field is blank; every other outcome keeps the path it looked at.
pub proof fn law_ready_iff_required_fields_present(
    r: ConfigBootstrap,
    path: String,
    load: ConfigLoad,
)
    requires
        loaded_from(r, path, load),
    ensures
        r is Ready <==> (load matches ConfigLoad::Parsed(c) && c.missing_fields().len() == 0),
        r matches ConfigBootstrap::NeedsSetup { path: p, .. } ==> p == Some(path),
        r matches ConfigBootstrap::Ready { path: p, .. } ==> p == path,
{
}

/// A field is reported missing exactly when it is blank, and a missing-fields
/// issue is never empty.
pub proof fn law_missing_fields_match_blank_values(config: AppConfig)
    ensures
        config.missing_fields().contains(RequiredConfigField::SpotifyClientId) <==> is_blank_value(
            config.spotify.client_id,
        ),
        config.missing_fields().contains(RequiredConfigField::SpotifyRedirectUri)
            <==> is_blank_value(config.spotify.redirect_uri),
        config.missing_fields().len() <= 2,
{
    let m = config.missing_fields();
    if is_blank_value(config.spotify.client_id) {
        assert(m[0] == RequiredConfigField::SpotifyClientId);
    }
    if is_blank_value(config.spotify.redirect_uri) {
        assert(m[m.len() - 1] == RequiredConfigField::SpotifyRedirectUri);
    }
}

/// The config path that the XDG layout gives for `file_name` under `prefix`,
/// as text.
///
/// Calls `xdg::BaseDirectories::with_prefix(prefix).get_config_file(file_name)`.
/// The answer depends on `$XDG_CONFIG_HOME` and `$HOME`, so only what holds of
/// every answer is claimed: when `prefix` is a single non-empty path component
/// and `file_name` holds no `/`, a resolved path ends with
/// `/{prefix}/{file_name}` (xdg joins the config home, the prefix and the
/// file name with `/`). `None` comes when neither variable yields a config home.
#[verifier::external_body]
fn xdg_config_file(prefix: &str, file_name: &str) -> (r: Option<String>)
    ensures
        r matches Some(p) ==> (prefix@.len() > 0 && !prefix@.contains('/') && !file_name@.contains(
            '/',
        ) ==> ("/"@ + prefix@ + "/"@ + file_name@).is_suffix_of(p@)),
{
    match xdg::BaseDirectories::with_prefix(prefix).get_config_file(file_name) {
        Some(path) => Some(path.to_string_lossy().into_owned()),
        None => None,
    }
}

/// Resolves a file path inside the application's XDG config directory.
pub fn app_config_file_path(file_name: &str) -> (r: Option<String>)
    ensures
        r matches Some(p) ==> (!file_name@.contains('/') ==> ("/spotuify/"@
            + file_name@).is_suffix_of(p@)),
{
    let r = xdg_config_file(APP_CONFIG_DIR, file_name);
    proof {
        reveal_strlit("spotuify");
        reveal_strlit("/spotuify/");
        reveal_strlit("/");
        assert(!APP_CONFIG_DIR@.contains('/')) by {
            assert(forall|i: int| 0 <= i < APP_CONFIG_DIR@.len() ==> APP_CONFIG_DIR@[i] != '/');
        }
        assert("/"@ + APP_CONFIG_DIR@ + "/"@ =~= "/spotuify/"@);
    }
    r
}

/// Resolves the expected user config file path.
pub fn expected_config_path() -> (r: Option<String>)
    ensures
        r matches Some(p) ==> "/spotuify/config.toml"@.is_suffix_of(p@),
{
    let r = app_config_file_path(CONFIG_FILE_NAME);
    proof {
        reveal_strlit("config.toml");
        reveal_strlit("/spotuify/");
        reveal_strlit("/spotuify/config.toml");
        assert(!CONFIG_FILE_NAME@.contains('/')) by {
            assert(forall|i: int| 0 <= i < CONFIG_FILE_NAME@.len() ==> CONFIG_FILE_NAME@[i] != '/');
        }
        assert("/spotuify/"@ + CONFIG_FILE_NAME@ =~= "/spotuify/config.toml"@);
    }
    r
}

} // verus!
