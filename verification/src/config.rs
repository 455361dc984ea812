//! Settings: five optional text values, read from a user-wide file and
//! optionally overridden, value by value, by a file in the project.

use crate::text::{owned, str_eq};
use vstd::prelude::*;
use vstd::string::*;

verus! {

/// Service address used when none is configured.
pub const DEFAULT_API_BASE_URL: &'static str = "https://api.openai.com";

/// Model used when none is configured.
pub const DEFAULT_MODEL: &'static str = "gpt-3.5-turbo";

/// Instructions given to the model when none are configured.
pub const DEFAULT_SYSTEM_PROMPT: &'static str = "You are an expert at writing clear and concise commit messages. \
    Follow these rules strictly:\n\n\
    1. Start with a type: feat, fix, docs, style, refactor, perf, test, build, ci, chore, or revert\n\
    2. Add a scope in parentheses when the change affects a specific component/module\n\
    3. Write a brief description in imperative mood (e.g., 'add' not 'added')\n\
    4. Keep the first line under 72 characters\n\
    5. For simple changes (single file, small modifications), use only the subject line\n\
    6. For complex changes (multiple files, new features, breaking changes):\n\
       - Add a body explaining what and why\n\
       - Use numbered points (1., 2., 3., etc.) to list distinct changes\n\
       - Organize points in order of importance\n\
    Examples:\n\
    Simple: fix(parser): correct string interpolation logic\n\
    Complex: feat(auth): implement OAuth2 authentication system\n\n\
    This commit adds comprehensive OAuth2 support:\n\n\
    1. Implement Google and GitHub OAuth2 providers\n\
    2. Create secure token storage and refresh mechanism\n\
    3. Add middleware for protected route authentication\n\
    4. Update user model to store OAuth identifiers";

/// Request template used when none is configured; `{}` marks the place of the diff.
pub const DEFAULT_USER_PROMPT: &'static str = "Generate a commit message for the following changes. First analyze the complexity of the diff.\n\n\
    For simple changes, provide only a subject line.\n\n\
    For complex changes, include a body with numbered points (1., 2., 3.) that clearly outline\n\
    each distinct modification or feature. Organize these points by importance.\n\n\
    Look for patterns like new features, bug fixes, or configuration changes to determine\n\
    the appropriate type and scope:\n\n\
    ```diff\n{}\n```";

/// Name of the user-wide settings file inside the settings directory.
pub const GLOBAL_CONFIG_FILENAME: &'static str = "config.toml";

/// Name of the settings file looked for in the project.
pub const PROJECT_CONFIG_FILENAME: &'static str = ".aic.toml";

/// The five settings. `None` means "not set here".
#[derive(Debug, PartialEq, Eq)]
pub struct Config {
    pub api_token: Option<String>,
    pub api_base_url: Option<String>,
    pub model: Option<String>,
    pub system_prompt: Option<String>,
    pub user_prompt: Option<String>,
}

/// One of the five settings.
#[derive(Clone, Copy, Debug, PartialEq, Eq, Structural)]
pub enum ConfigKey {
    ApiToken,
    ApiBaseUrl,
    Model,
    SystemPrompt,
    UserPrompt,
}

/// Why a settings operation was refused.
#[derive(Debug, PartialEq, Eq)]
pub enum ConfigError {
    /// The name is none of the five settings.
    UnknownKey(String),
    /// No access token is set.
    TokenMissing,
    /// The user has no home directory to keep settings in.
    HomeNotFound,
}

/// Mathematical model of [`Config`]: each value as a sequence of characters.
pub struct ConfigView {
    pub api_token: Option<Seq<char>>,
    pub api_base_url: Option<Seq<char>>,
    pub model: Option<Seq<char>>,
    pub system_prompt: Option<Seq<char>>,
    pub user_prompt: Option<Seq<char>>,
}

/// Mathematical model of [`ConfigError`].
pub enum ConfigErrorView {
    UnknownKey(Seq<char>),
    TokenMissing,
    HomeNotFound,
}

impl View for Config {
    type V = ConfigView;

    open spec fn view(&self) -> ConfigView {
        ConfigView {
            api_token: self.api_token.deep_view(),
            api_base_url: self.api_base_url.deep_view(),
            model: self.model.deep_view(),
            system_prompt: self.system_prompt.deep_view(),
            user_prompt: self.user_prompt.deep_view(),
        }
    }
}

impl View for ConfigError {
    type V = ConfigErrorView;

    open spec fn view(&self) -> ConfigErrorView {
        match self {
            ConfigError::UnknownKey(name) => ConfigErrorView::UnknownKey(name@),
            ConfigError::TokenMissing => ConfigErrorView::TokenMissing,
            ConfigError::HomeNotFound => ConfigErrorView::HomeNotFound,
        }
    }
}

/// The setting that `name` spells, if any. Names are matched exactly.
pub open spec fn key_named(name: Seq<char>) -> Option<ConfigKey> {
    if name == "api_token"@ {
        Some(ConfigKey::ApiToken)
    } else if name == "api_base_url"@ {
        Some(ConfigKey::ApiBaseUrl)
    } else if name == "model"@ {
        Some(ConfigKey::Model)
    } else if name == "system_prompt"@ {
        Some(ConfigKey::SystemPrompt)
    } else if name == "user_prompt"@ {
        Some(ConfigKey::UserPrompt)
    } else {
        None
    }
}

/// `over` where it is set, else `base`.
pub open spec fn or_else(over: Option<Seq<char>>, base: Option<Seq<char>>) -> Option<Seq<char>> {
    if over is Some {
        over
    } else {
        base
    }
}

impl ConfigView {
    /// The settings a fresh installation starts with.
    pub open spec fn initial() -> ConfigView {
        ConfigView {
            api_token: None,
            api_base_url: Some(DEFAULT_API_BASE_URL@),
            model: Some(DEFAULT_MODEL@),
            system_prompt: Some(DEFAULT_SYSTEM_PROMPT@),
            user_prompt: Some(DEFAULT_USER_PROMPT@),
        }
    }

    /// The value stored under `key`.
    pub open spec fn value(self, key: ConfigKey) -> Option<Seq<char>> {
        match key {
            ConfigKey::ApiToken => self.api_token,
            ConfigKey::ApiBaseUrl => self.api_base_url,
            ConfigKey::Model => self.model,
            ConfigKey::SystemPrompt => self.system_prompt,
            ConfigKey::UserPrompt => self.user_prompt,
        }
    }

    /// These settings with `value` stored under `key`.
    pub open spec fn with(self, key: ConfigKey, value: Option<Seq<char>>) -> ConfigView {
        match key {
            ConfigKey::ApiToken => ConfigView { api_token: value, ..self },
            ConfigKey::ApiBaseUrl => ConfigView { api_base_url: value, ..self },
            ConfigKey::Model => ConfigView { model: value, ..self },
            ConfigKey::SystemPrompt => ConfigView { system_prompt: value, ..self },
            ConfigKey::UserPrompt => ConfigView { user_prompt: value, ..self },
        }
    }

    /// The value found under the name `name`: `None` for an unset value and
    /// for a name that is no setting.
    pub open spec fn lookup(self, name: Seq<char>) -> Option<Seq<char>> {
        match key_named(name) {
            Some(key) => self.value(key),
            None => None,
        }
    }

    /// `self` overridden, value by value, by what `over` sets.
    pub open spec fn overridden_by(self, over: ConfigView) -> ConfigView {
        ConfigView {
            api_token: or_else(over.api_token, self.api_token),
            api_base_url: or_else(over.api_base_url, self.api_base_url),
            model: or_else(over.model, self.model),
            system_prompt: or_else(over.system_prompt, self.system_prompt),
            user_prompt: or_else(over.user_prompt, self.user_prompt),
        }
    }

    /// The service address in effect.
    pub open spec fn effective_api_base_url(self) -> Seq<char> {
        match self.api_base_url {
            Some(url) => url,
            None => DEFAULT_API_BASE_URL@,
        }
    }

    /// The model in effect.
    pub open spec fn effective_model(self) -> Seq<char> {
        match self.model {
            Some(model) => model,
            None => DEFAULT_MODEL@,
        }
    }

    /// The instructions in effect.
    pub open spec fn effective_system_prompt(self) -> Seq<char> {
        match self.system_prompt {
            Some(prompt) => prompt,
            None => DEFAULT_SYSTEM_PROMPT@,
        }
    }

    /// The request template in effect.
    pub open spec fn effective_user_prompt(self) -> Seq<char> {
        match self.user_prompt {
            Some(prompt) => prompt,
            None => DEFAULT_USER_PROMPT@,
        }
    }
}

impl ConfigKey {
    /// Reads a setting's name.
    pub fn parse(name: &str) -> (r: Option<ConfigKey>)
        ensures
            r == key_named(name@),
    {
        if str_eq(name, "api_token") {
            Some(ConfigKey::ApiToken)
        } else if str_eq(name, "api_base_url") {
            Some(ConfigKey::ApiBaseUrl)
        } else if str_eq(name, "model") {
            Some(ConfigKey::Model)
        } else if str_eq(name, "system_prompt") {
            Some(ConfigKey::SystemPrompt)
        } else if str_eq(name, "user_prompt") {
            Some(ConfigKey::UserPrompt)
        } else {
            None
        }
    }

    /// The name under which the setting is stored.
    pub open spec fn spec_name(self) -> Seq<char> {
        match self {
            ConfigKey::ApiToken => "api_token"@,
            ConfigKey::ApiBaseUrl => "api_base_url"@,
            ConfigKey::Model => "model"@,
            ConfigKey::SystemPrompt => "system_prompt"@,
            ConfigKey::UserPrompt => "user_prompt"@,
        }
    }

    /// The name under which the setting is stored.
    pub fn name(self) -> (r: &'static str)
        ensures
            r@ == self.spec_name(),
    {
        match self {
            ConfigKey::ApiToken => "api_token",
            ConfigKey::ApiBaseUrl => "api_base_url",
            ConfigKey::Model => "model",
            ConfigKey::SystemPrompt => "system_prompt",
            ConfigKey::UserPrompt => "user_prompt",
        }
    }
}

impl Default for Config {
    fn default() -> (r: Config)
        ensures
            r@ == ConfigView::initial(),
    {
        Config {
            api_token: None,
            api_base_url: Some(owned(DEFAULT_API_BASE_URL)),
            model: Some(owned(DEFAULT_MODEL)),
            system_prompt: Some(owned(DEFAULT_SYSTEM_PROMPT)),
            user_prompt: Some(owned(DEFAULT_USER_PROMPT)),
        }
    }
}

impl Clone for Config {
    fn clone(&self) -> (r: Config)
        ensures
            r == *self,
    {
        Config {
            api_token: self.api_token.clone(),
            api_base_url: self.api_base_url.clone(),
            model: self.model.clone(),
            system_prompt: self.system_prompt.clone(),
            user_prompt: self.user_prompt.clone(),
        }
    }
}

impl Config {
    /// Settings with nothing set.
    pub fn empty() -> (r: Config)
        ensures
            r@ == nothing_set(),
    {
        Config { api_token: None, api_base_url: None, model: None, system_prompt: None, user_prompt: None }
    }

    /// Lays `override_config` over `base`: every value that the override sets
    /// wins, every other value comes from `base`.
    pub fn merge(base: Config, override_config: Config) -> (r: Config)
        ensures
            r@ == base@.overridden_by(override_config@),
    {
        Config {
            api_token: pick(override_config.api_token, base.api_token),
            api_base_url: pick(override_config.api_base_url, base.api_base_url),
            model: pick(override_config.model, base.model),
            system_prompt: pick(override_config.system_prompt, base.system_prompt),
            user_prompt: pick(override_config.user_prompt, base.user_prompt),
        }
    }

    /// Stores `value` under `key`; `None` unsets it.
    pub fn replace(&mut self, key: ConfigKey, value: Option<String>)
        ensures
            final(self)@ == old(self)@.with(key, value.deep_view()),
            final(self).field(key) == value,
            forall|other: ConfigKey| other != key ==> final(self).field(other) == old(self).field(other),
    {
        match key {
            ConfigKey::ApiToken => {
                self.api_token = value;
            },
            ConfigKey::ApiBaseUrl => {
                self.api_base_url = value;
            },
            ConfigKey::Model => {
                self.model = value;
            },
            ConfigKey::SystemPrompt => {
                self.system_prompt = value;
            },
            ConfigKey::UserPrompt => {
                self.user_prompt = value;
            },
        }
    }

    /// The value stored under `key`, if it is set.
    pub fn value(&self, key: ConfigKey) -> (r: Option<&String>)
        ensures
            r.deep_view() == self@.value(key),
            match r {
                Some(value) => self.field(key) == Some(*value),
                None => self.field(key) is None,
            },
    {
        match key {
            ConfigKey::ApiToken => self.api_token.as_ref(),
            ConfigKey::ApiBaseUrl => self.api_base_url.as_ref(),
            ConfigKey::Model => self.model.as_ref(),
            ConfigKey::SystemPrompt => self.system_prompt.as_ref(),
            ConfigKey::UserPrompt => self.user_prompt.as_ref(),
        }
    }

    /// Stores `value` under the setting called `key`; `None` unsets it.
    ///
    /// A name that is none of the five settings is refused and changes nothing.
    pub fn set(&mut self, key: &str, value: Option<String>) -> (r: Result<(), ConfigError>)
        ensures
            r is Ok <==> key_named(key@) is Some,
            r is Ok ==> final(self)@ == old(self)@.with(key_named(key@)->0, value.deep_view()),
            r matches Err(e) ==> e@ == ConfigErrorView::UnknownKey(key@),
            r is Err ==> *final(self) == *old(self),
    {
        match ConfigKey::parse(key) {
            Some(known) => {
                self.replace(known, value);
                Ok(())
            },
            None => Err(ConfigError::UnknownKey(owned(key))),
        }
    }

    /// The value stored under the setting called `key`, if the name is a
    /// setting and the setting is set.
    pub fn get(&self, key: &str) -> (r: Option<&String>)
        ensures
            r.deep_view() == self@.lookup(key@),
            match r {
                Some(value) => self.stored(key@) == Some(*value),
                None => self.stored(key@) is None,
            },
    {
        match ConfigKey::parse(key) {
            Some(known) => self.value(known),
            None => None,
        }
    }

    /// The field that holds `key`.
    pub open spec fn field(&self, key: ConfigKey) -> Option<String> {
        match key {
            ConfigKey::ApiToken => self.api_token,
            ConfigKey::ApiBaseUrl => self.api_base_url,
            ConfigKey::Model => self.model,
            ConfigKey::SystemPrompt => self.system_prompt,
            ConfigKey::UserPrompt => self.user_prompt,
        }
    }

    /// The field found under the name `name`, if the name is a setting.
    pub open spec fn stored(&self, name: Seq<char>) -> Option<String> {
        match key_named(name) {
            Some(key) => self.field(key),
            None => None,
        }
    }

    /// The access token, which has no default.
    pub fn get_api_token(&self) -> (r: Result<&String, ConfigError>)
        ensures
            match r {
                Ok(token) => self.api_token == Some(*token),
                Err(e) => self.api_token is None && e@ == ConfigErrorView::TokenMissing,
            },
    {
        match &self.api_token {
            Some(token) => Ok(token),
            None => Err(ConfigError::TokenMissing),
        }
    }

    /// The service address: the configured one, else the default.
    pub fn get_api_base_url(&self) -> (r: &str)
        ensures
            r@ == self@.effective_api_base_url(),
    {
        match &self.api_base_url {
            Some(url) => url.as_str(),
            None => DEFAULT_API_BASE_URL,
        }
    }

    /// The model: the configured one, else the default.
    pub fn get_model(&self) -> (r: &str)
        ensures
            r@ == self@.effective_model(),
    {
        match &self.model {
            Some(model) => model.as_str(),
            None => DEFAULT_MODEL,
        }
    }

    /// The instructions for the model: the configured ones, else the default.
    pub fn get_system_prompt(&self) -> (r: &str)
        ensures
            r@ == self@.effective_system_prompt(),
    {
        match &self.system_prompt {
            Some(prompt) => prompt.as_str(),
            None => DEFAULT_SYSTEM_PROMPT,
        }
    }

    /// The request template: the configured one, else the default.
    pub fn get_user_prompt(&self) -> (r: &str)
        ensures
            r@ == self@.effective_user_prompt(),
    {
        match &self.user_prompt {
            Some(prompt) => prompt.as_str(),
            None => DEFAULT_USER_PROMPT,
        }
    }
}

/// The user-wide settings as first read.
pub struct GlobalConfig {
    /// The settings to go on with.
    pub config: Config,
    /// Whether they are fresh defaults, still to be written to the file.
    pub created: bool,
}

/// A place below the user's home directory.
pub struct Location<P> {
    /// The home directory, handed through as it came.
    pub home: P,
    /// The names to descend through from there, outermost first.
    pub components: Vec<String>,
}

/// What one directory on the way up from the working directory holds.
#[derive(Clone, Copy, Debug, PartialEq, Eq, Structural)]
pub struct DirProbe {
    /// A project settings file is there.
    pub has_config: bool,
    /// A `.git` entry is there: the directory is the repository's root.
    pub has_git: bool,
}

/// The names from the home directory down to the settings directory.
pub open spec fn dir_components(windows: bool) -> Seq<Seq<char>> {
    if windows {
        seq!["AppData"@, "Roaming"@, "aic"@]
    } else {
        seq![".config"@, "aic"@]
    }
}

/// Whether the search for a project file ends at directory `i` by finding
/// one: the file is there, and no directory before it held either a file or
/// the repository's root.
pub open spec fn project_config_found_at(probes: Seq<DirProbe>, i: int) -> bool {
    &&& 0 <= i < probes.len()
    &&& probes[i].has_config
    &&& forall|j: int| 0 <= j < i ==> !probes[j].has_config && !probes[j].has_git
}

/// Settings with nothing set.
pub open spec fn nothing_set() -> ConfigView {
    ConfigView { api_token: None, api_base_url: None, model: None, system_prompt: None, user_prompt: None }
}

/// Every setting is found again under its own name, and under no other.
pub proof fn lemma_key_names(key: ConfigKey, name: Seq<char>)
    ensures
        key_named(key.spec_name()) == Some(key),
        key_named(name) == Some(key) ==> name == key.spec_name(),
{
    reveal_strlit("api_token");
    reveal_strlit("api_base_url");
    reveal_strlit("model");
    reveal_strlit("system_prompt");
    reveal_strlit("user_prompt");
    assert("api_token"@.len() == 9);
    assert("api_base_url"@.len() == 12);
    assert("model"@.len() == 5);
    assert("system_prompt"@.len() == 13);
    assert("user_prompt"@.len() == 11);
}

/// What is stored under a key is what is found there, and storing it leaves
/// every other key alone.
pub proof fn lemma_store_then_find(
    config: ConfigView,
    key: ConfigKey,
    value: Option<Seq<char>>,
    other: ConfigKey,
)
    ensures
        config.with(key, value).value(key) == value,
        other != key ==> config.with(key, value).value(other) == config.value(other),
        config.with(key, config.value(key)) == config,
        config.with(key, value).lookup(key.spec_name()) == value,
{
    lemma_key_names(key, key.spec_name());
}

/// Overriding is a layering: an override that sets nothing changes nothing,
/// nothing overridden is the override itself, an override wins wherever it
/// sets a value and nowhere else, and layers may be grouped either way.
pub proof fn lemma_override_laws(a: ConfigView, b: ConfigView, c: ConfigView, key: ConfigKey)
    ensures
        a.overridden_by(nothing_set()) == a,
        nothing_set().overridden_by(b) == b,
        a.overridden_by(a) == a,
        a.overridden_by(b).value(key) == (if b.value(key) is Some {
            b.value(key)
        } else {
            a.value(key)
        }),
        a.overridden_by(b).overridden_by(c) == a.overridden_by(b.overridden_by(c)),
{
}

/// The search for the project file has at most one answer.
pub proof fn lemma_project_config_unique(probes: Seq<DirProbe>, i: int, j: int)
    requires
        project_config_found_at(probes, i),
        project_config_found_at(probes, j),
    ensures
        i == j,
{
    if i < j {
        assert(!probes[i].has_config);
    } else if j < i {
        assert(!probes[j].has_config);
    }
}

impl ConfigError {
    /// The refusal in words.
    pub open spec fn spec_message(self) -> Seq<char> {
        match self {
            ConfigError::UnknownKey(name) => "Unknown configuration key: "@ + name@,
            ConfigError::TokenMissing =>
                "API token not found. Please set it using 'aic config set api_token YOUR_TOKEN'"@,
            ConfigError::HomeNotFound => "Could not find home directory"@,
        }
    }

    /// The refusal in words.
    pub fn message(&self) -> (r: String)
        ensures
            r@ == self.spec_message(),
    {
        match self {
            ConfigError::UnknownKey(name) => {
                let mut text = owned("Unknown configuration key: ");
                text.append(name.as_str());
                text
            },
            ConfigError::TokenMissing => owned(
                "API token not found. Please set it using 'aic config set api_token YOUR_TOKEN'",
            ),
            ConfigError::HomeNotFound => owned("Could not find home directory"),
        }
    }
}

impl Config {
    /// The settings directory below `home`: `.config/aic`, or
    /// `AppData/Roaming/aic` on Windows. Without a home directory there is none.
    pub fn config_dir<P>(home: Option<P>, windows: bool) -> (r: Result<Location<P>, ConfigError>)
        ensures
            match home {
                Some(h) => r matches Ok(place) && place.home == h && place.components.deep_view()
                    == dir_components(windows),
                None => r matches Err(e) && e@ == ConfigErrorView::HomeNotFound,
            },
    {
        match home {
            Some(h) => {
                let mut components: Vec<String> = Vec::new();
                if windows {
                    components.push(owned("AppData"));
                    components.push(owned("Roaming"));
                } else {
                    components.push(owned(".config"));
                }
                components.push(owned("aic"));
                assert(components.deep_view() =~= dir_components(windows));
                Ok(Location { home: h, components })
            },
            None => Err(ConfigError::HomeNotFound),
        }
    }

    /// The user-wide settings file: `config.toml` in the settings directory.
    pub fn config_path<P>(home: Option<P>, windows: bool) -> (r: Result<Location<P>, ConfigError>)
        ensures
            match home {
                Some(h) => r matches Ok(place) && place.home == h && place.components.deep_view()
                    == dir_components(windows).push(GLOBAL_CONFIG_FILENAME@),
                None => r matches Err(e) && e@ == ConfigErrorView::HomeNotFound,
            },
    {
        match Config::config_dir(home, windows) {
            Ok(dir) => {
                let Location { home, mut components } = dir;
                let ghost before = components.deep_view();
                components.push(owned(GLOBAL_CONFIG_FILENAME));
                assert(components.deep_view() =~= before.push(GLOBAL_CONFIG_FILENAME@));
                Ok(Location { home, components })
            },
            Err(e) => Err(e),
        }
    }

    /// Finds the project settings file. `probes` describes the working
    /// directory and then each of its ancestors, nearest first. The search
    /// walks up, takes the first directory that holds a file, and gives up
    /// after the repository's root or the last directory.
    pub fn find_project_config(probes: &[DirProbe]) -> (r: Option<usize>)
        ensures
            r matches Some(i) ==> project_config_found_at(probes@, i as int),
            r is None ==> forall|i: int| !project_config_found_at(probes@, i),
    {
        let mut i: usize = 0;
        while i < probes.len()
            invariant
                i <= probes@.len(),
                forall|j: int| 0 <= j < i ==> !probes@[j].has_config && !probes@[j].has_git,
            decreases probes@.len() - i,
        {
            if probes[i].has_config {
                return Some(i);
            }
            if probes[i].has_git {
                assert forall|k: int| !project_config_found_at(probes@, k) by {
                    if project_config_found_at(probes@, k) {
                        assert(k > i);
                        assert(!probes@[i as int].has_git);
                    }
                }
                return None;
            }
            i = i + 1;
        }
        None
    }

    /// The user-wide settings: what the file held, or, where there was no
    /// file, the defaults, marked as still to be written.
    pub fn load_global_config(stored: Option<Config>) -> (r: GlobalConfig)
        ensures
            r.created == (stored is None),
            match stored {
                Some(config) => r.config == config,
                None => r.config@ == ConfigView::initial(),
            },
    {
        match stored {
            Some(config) => GlobalConfig { config, created: false },
            None => GlobalConfig { config: Config::default(), created: true },
        }
    }

    /// The settings in effect: the user-wide ones, overridden value by value
    /// by the project's where the project has a file.
    pub fn load(global: Config, project: Option<Config>) -> (r: Config)
        ensures
            r@ == (match project {
                Some(over) => global@.overridden_by(over@),
                None => global@,
            }),
    {
        match project {
            Some(over) => Config::merge(global, over),
            None => global,
        }
    }
}

/// `over` if it is set, else `base`.
fn pick(over: Option<String>, base: Option<String>) -> (r: Option<String>)
    ensures
        r == (if over is Some { over } else { base }),
{
    match over {
        Some(value) => Some(value),
        None => base,
    }
}

} // verus!
