use aic::config::{
    Config, ConfigError, ConfigKey, DirProbe, DEFAULT_API_BASE_URL, DEFAULT_MODEL,
    DEFAULT_SYSTEM_PROMPT, DEFAULT_USER_PROMPT, GLOBAL_CONFIG_FILENAME, PROJECT_CONFIG_FILENAME,
};

#[test]
fn test_default_config() {
    let config: Config = Config::default();
    assert!(config.api_token.is_none());
    assert_eq!(
        config.api_base_url.as_deref(),
        Some("https://api.openai.com")
    );
    assert_eq!(config.model.as_deref(), Some("gpt-3.5-turbo"));
    assert!(config.system_prompt.is_some());
    assert!(config.user_prompt.is_some());
}

#[test]
fn test_getter_methods() {
    let config = Config {
        api_token: Some("test-token".to_string()),
        api_base_url: Some("https://test-api.com".to_string()),
        model: Some("test-model".to_string()),
        system_prompt: Some("test system prompt".to_string()),
        user_prompt: Some("test user prompt".to_string()),
    };

    assert_eq!(config.get_api_token().unwrap(), "test-token");
    assert_eq!(config.get_api_base_url(), "https://test-api.com");
    assert_eq!(config.get_model(), "test-model");
    assert_eq!(config.get_system_prompt(), "test system prompt");
    assert_eq!(config.get_user_prompt(), "test user prompt");

    // Test defaults when values are None
    let empty_config = Config {
        api_token: None,
        api_base_url: None,
        model: None,
        system_prompt: None,
        user_prompt: None,
    };

    assert!(empty_config.get_api_token().is_err());
    assert_eq!(empty_config.get_api_base_url(), "https://api.openai.com");
    assert_eq!(empty_config.get_model(), "gpt-3.5-turbo");
    assert_eq!(empty_config.get_system_prompt(), DEFAULT_SYSTEM_PROMPT);
    assert_eq!(empty_config.get_user_prompt(), DEFAULT_USER_PROMPT);
}

#[test]
fn test_handle_config_command_invalid_key() {
    let mut config = Config::default();
    assert!(config
        .set("random_key", Some("random_value".to_string()))
        .is_err());
}

#[test]
fn test_set_and_get() {
    let mut config = Config::default();

    config.set("api_token", Some("test_token".to_string())).unwrap();
    config.set("model", Some("gpt-4".to_string())).unwrap();

    assert_eq!(config.get("api_token").unwrap(), "test_token");
    assert_eq!(config.get("model").unwrap(), "gpt-4");

    config.set("api_token", None).unwrap();
    assert!(config.get("api_token").is_none());

    assert!(config.set("invalid_key", Some("value".to_string())).is_err());
    assert!(config.get("invalid_key").is_none());
}

#[test]
fn unknown_key_is_reported_and_changes_nothing() {
    let mut config = Config::default();
    let before = config.clone();
    assert_eq!(
        config.set("API_TOKEN", Some("x".to_string())),
        Err(ConfigError::UnknownKey("API_TOKEN".to_string()))
    );
    assert_eq!(config, before);
    assert_eq!(
        ConfigError::UnknownKey("API_TOKEN".to_string()).message(),
        "Unknown configuration key: API_TOKEN"
    );
}

#[test]
fn every_key_is_stored_in_its_own_field() {
    let names = ["api_token", "api_base_url", "model", "system_prompt", "user_prompt"];
    for (i, name) in names.iter().enumerate() {
        let mut config = Config::empty();
        config.set(name, Some(format!("v{}", i))).unwrap();
        let expected = Some(format!("v{}", i));
        assert_eq!(config.api_token, if i == 0 { expected.clone() } else { None });
        assert_eq!(config.api_base_url, if i == 1 { expected.clone() } else { None });
        assert_eq!(config.model, if i == 2 { expected.clone() } else { None });
        assert_eq!(config.system_prompt, if i == 3 { expected.clone() } else { None });
        assert_eq!(config.user_prompt, if i == 4 { expected.clone() } else { None });
        assert_eq!(config.get(name), expected.as_ref());
        let key = ConfigKey::parse(name).unwrap();
        assert_eq!(key.name(), *name);
        assert_eq!(config.value(key), expected.as_ref());
    }
    assert_eq!(ConfigKey::parse("default_prompt"), None);
    assert_eq!(ConfigKey::parse(""), None);
}

#[test]
fn default_values_are_exact() {
    assert_eq!(DEFAULT_API_BASE_URL, "https://api.openai.com");
    assert_eq!(DEFAULT_MODEL, "gpt-3.5-turbo");
    assert_eq!(GLOBAL_CONFIG_FILENAME, "config.toml");
    assert_eq!(PROJECT_CONFIG_FILENAME, ".aic.toml");
    assert!(DEFAULT_SYSTEM_PROMPT.starts_with(
        "You are an expert at writing clear and concise commit messages. Follow these rules strictly:\n\n1. Start with a type: feat,"
    ));
    assert!(DEFAULT_SYSTEM_PROMPT.contains(
        "6. For complex changes (multiple files, new features, breaking changes):\n- Add a body explaining what and why\n- Use numbered points"
    ));
    assert!(DEFAULT_SYSTEM_PROMPT.ends_with("4. Update user model to store OAuth identifiers"));
    assert_eq!(DEFAULT_SYSTEM_PROMPT.chars().count(), 1066);
    assert_eq!(DEFAULT_USER_PROMPT.chars().count(), 447);
    assert!(DEFAULT_USER_PROMPT.starts_with(
        "Generate a commit message for the following changes. First analyze the complexity of the diff.\n\nFor simple changes,"
    ));
    assert!(DEFAULT_USER_PROMPT.ends_with("the appropriate type and scope:\n\n```diff\n{}\n```"));
    let config = Config::default();
    assert_eq!(config.system_prompt.as_deref(), Some(DEFAULT_SYSTEM_PROMPT));
    assert_eq!(config.user_prompt.as_deref(), Some(DEFAULT_USER_PROMPT));
    assert_eq!(config.get_api_token(), Err(ConfigError::TokenMissing));
    assert_eq!(
        ConfigError::TokenMissing.message(),
        "API token not found. Please set it using 'aic config set api_token YOUR_TOKEN'"
    );
}

fn global() -> Config {
    Config {
        api_token: Some("global-token".to_string()),
        api_base_url: Some("https://global-api.com".to_string()),
        model: Some("global-model".to_string()),
        system_prompt: Some("global system prompt".to_string()),
        user_prompt: Some("global user prompt".to_string()),
    }
}

fn project() -> Config {
    Config {
        api_token: Some("project-token".to_string()),
        api_base_url: None,
        model: Some("project-model".to_string()),
        system_prompt: Some("project system prompt".to_string()),
        user_prompt: None,
    }
}

#[test]
fn test_project_config() {
    // Test the search: the project file lies in the working directory
    let found = Config::find_project_config(&[probe(true, false)]);
    assert!(found.is_some());
    assert_eq!(found.unwrap(), 0);

    let loaded_project_config = project();
    assert_eq!(
        loaded_project_config.api_token,
        Some("project-token".to_string())
    );
    assert_eq!(loaded_project_config.api_base_url, None);
    assert_eq!(
        loaded_project_config.model,
        Some("project-model".to_string())
    );
    assert_eq!(
        loaded_project_config.system_prompt,
        Some("project system prompt".to_string())
    );
    assert_eq!(loaded_project_config.user_prompt, None);

    // Load global config for merging
    let loaded_global_config = Config::load_global_config(Some(global())).config;

    // Test merging configs
    let merged_config = Config::merge(loaded_global_config, loaded_project_config);

    assert_eq!(merged_config.api_token, Some("project-token".to_string()));
    assert_eq!(
        merged_config.api_base_url,
        Some("https://global-api.com".to_string())
    );
    assert_eq!(merged_config.model, Some("project-model".to_string()));
    assert_eq!(
        merged_config.system_prompt,
        Some("project system prompt".to_string())
    );
    assert_eq!(
        merged_config.user_prompt,
        Some("global user prompt".to_string())
    );
}

#[test]
fn merge_with_nothing_set_changes_nothing() {
    assert_eq!(Config::merge(global(), Config::empty()), global());
    assert_eq!(Config::merge(Config::empty(), project()), project());
    assert_eq!(Config::merge(Config::empty(), Config::empty()), Config::empty());
}

#[test]
fn an_empty_override_value_still_overrides() {
    let mut over = Config::empty();
    over.model = Some(String::new());
    assert_eq!(Config::merge(global(), over).model, Some(String::new()));
}

#[test]
fn load_without_project_file_is_the_global_config() {
    assert_eq!(Config::load(global(), None), global());
    assert_eq!(Config::load(global(), Some(project())), Config::merge(global(), project()));
}

#[test]
fn missing_global_file_gives_defaults_to_write() {
    let fresh = Config::load_global_config(None);
    assert!(fresh.created);
    assert_eq!(fresh.config, Config::default());

    let kept = Config::load_global_config(Some(project()));
    assert!(!kept.created);
    assert_eq!(kept.config, project());
}

#[test]
fn settings_directory_below_home() {
    let place = Config::config_dir(Some("/home/u"), false).unwrap();
    assert_eq!(place.home, "/home/u");
    assert_eq!(place.components, vec![".config".to_string(), "aic".to_string()]);

    let place = Config::config_dir(Some(7u8), true).unwrap();
    assert_eq!(place.home, 7u8);
    assert_eq!(
        place.components,
        vec!["AppData".to_string(), "Roaming".to_string(), "aic".to_string()]
    );

    let place = Config::config_path(Some("/home/u"), false).unwrap();
    assert_eq!(
        place.components,
        vec![".config".to_string(), "aic".to_string(), "config.toml".to_string()]
    );
    let place = Config::config_path(Some(()), true).unwrap();
    assert_eq!(
        place.components,
        vec![
            "AppData".to_string(),
            "Roaming".to_string(),
            "aic".to_string(),
            "config.toml".to_string()
        ]
    );
}

#[test]
fn no_home_no_settings_directory() {
    assert_eq!(
        Config::config_dir(None::<String>, false).err(),
        Some(ConfigError::HomeNotFound)
    );
    assert_eq!(
        Config::config_path(None::<String>, true).err(),
        Some(ConfigError::HomeNotFound)
    );
    assert_eq!(ConfigError::HomeNotFound.message(), "Could not find home directory");
}

fn probe(has_config: bool, has_git: bool) -> DirProbe {
    DirProbe { has_config, has_git }
}

#[test]
fn project_file_in_the_working_directory_is_found() {
    assert_eq!(Config::find_project_config(&[probe(true, false), probe(false, true)]), Some(0));
}

#[test]
fn project_file_is_found_on_the_way_up() {
    let probes = [probe(false, false), probe(false, false), probe(true, true), probe(true, false)];
    assert_eq!(Config::find_project_config(&probes), Some(2));
}

#[test]
fn search_stops_at_the_repository_root() {
    let probes = [probe(false, false), probe(false, true), probe(true, false)];
    assert_eq!(Config::find_project_config(&probes), None);
}

#[test]
fn search_ends_at_the_last_directory() {
    assert_eq!(Config::find_project_config(&[]), None);
    assert_eq!(Config::find_project_config(&[probe(false, false), probe(false, false)]), None);
}

#[test]
fn overrides_layer_in_either_grouping() {
    let mut top = Config::empty();
    top.user_prompt = Some("top prompt".to_string());
    top.model = Some("top-model".to_string());
    let left = Config::merge(Config::merge(global(), project()), top.clone());
    let right = Config::merge(global(), Config::merge(project(), top));
    assert_eq!(left, right);
    assert_eq!(left.model, Some("top-model".to_string()));
    assert_eq!(left.api_token, Some("project-token".to_string()));
    assert_eq!(left.api_base_url, Some("https://global-api.com".to_string()));
    assert_eq!(Config::merge(global(), global()), global());
}

#[test]
fn storing_leaves_the_other_keys_alone() {
    let keys = [
        ConfigKey::ApiToken,
        ConfigKey::ApiBaseUrl,
        ConfigKey::Model,
        ConfigKey::SystemPrompt,
        ConfigKey::UserPrompt,
    ];
    for key in keys {
        let mut config = global();
        config.replace(key, Some("new".to_string()));
        for other in keys {
            if other == key {
                assert_eq!(config.value(other), Some(&"new".to_string()));
            } else {
                assert_eq!(config.value(other), global().value(other));
            }
        }
        assert_eq!(config.get(key.name()), Some(&"new".to_string()));
    }
}
