use aic::cli::ConfigCommands;
use aic::commands::{handle_config_command, is_displayable, opening, ConfigReport, ConfigStep};
use aic::config::{Config, ConfigError, ConfigKey, DEFAULT_SYSTEM_PROMPT};
use aic::ui::config_rows;

fn saved(step: &ConfigStep) -> &Config {
    match step {
        ConfigStep::Save(config) => config,
        other => panic!("expected a save, found {:?}", other),
    }
}

fn last_saved(steps: &[ConfigStep]) -> Option<&Config> {
    steps.iter().rev().find_map(|step| match step {
        ConfigStep::Save(config) => Some(config),
        _ => None,
    })
}

#[test]
fn test_handle_config_command_get() {
    // Test getting a default key
    let result = handle_config_command(
        &ConfigCommands::Get { key: "system_prompt".to_string() },
        Config::default(),
    );
    assert!(result.is_ok());
    assert_eq!(
        result.unwrap(),
        vec![ConfigStep::Tell(ConfigReport::Value {
            name: "system_prompt".to_string(),
            value: Some(DEFAULT_SYSTEM_PROMPT.to_string()),
        })]
    );

    // Test getting a non-existent key
    let result = handle_config_command(
        &ConfigCommands::Get { key: "non_existent".to_string() },
        Config::default(),
    );
    assert!(result.is_ok());
    assert_eq!(
        result.unwrap(),
        vec![ConfigStep::Tell(ConfigReport::Value {
            name: "non_existent".to_string(),
            value: None,
        })]
    );
}

#[test]
fn test_handle_config_command_set() {
    // Test setting a value
    let result = handle_config_command(
        &ConfigCommands::SetKey { key: "model".to_string(), value: Some("test_model".to_string()) },
        Config::default(),
    );
    assert!(result.is_ok());
    let steps = result.unwrap();

    // Verify the value was set
    let config = saved(&steps[0]).clone();
    assert_eq!(config.get("model"), Some(&"test_model".to_string()));
    assert_eq!(
        steps[1],
        ConfigStep::Tell(ConfigReport::Stored {
            key: ConfigKey::Model,
            shown: "test_model".to_string()
        })
    );
    assert_eq!(steps.len(), 2);

    // Test unsetting a value
    let result = handle_config_command(
        &ConfigCommands::SetKey { key: "model".to_string(), value: None },
        config,
    );
    assert!(result.is_ok());
    let steps = result.unwrap();

    // Verify the value was unset
    let config = saved(&steps[0]);
    assert_eq!(config.get("model"), None);
    assert_eq!(steps[1], ConfigStep::Tell(ConfigReport::Cleared { key: ConfigKey::Model }));
    assert_eq!(steps.len(), 2);
}

#[test]
fn test_handle_config_command_setup() {
    // Test setting multiple values
    let result = handle_config_command(
        &ConfigCommands::Setup {
            api_token: Some("test_token".to_string()),
            api_base_url: Some("https://test.api".to_string()),
            model: Some("test-model".to_string()),
            system_prompt: Some("test system prompt".to_string()),
            user_prompt: Some("test user prompt".to_string()),
        },
        Config::default(),
    );
    assert!(result.is_ok());
    let steps = result.unwrap();

    // Verify the values were set
    let config = last_saved(&steps).unwrap().clone();
    assert_eq!(config.get("api_token"), Some(&"test_token".to_string()));
    assert_eq!(config.get("api_base_url"), Some(&"https://test.api".to_string()));
    assert_eq!(config.get("model"), Some(&"test-model".to_string()));
    assert_eq!(config.get("system_prompt"), Some(&"test system prompt".to_string()));
    assert_eq!(config.get("user_prompt"), Some(&"test user prompt".to_string()));

    // Test setup with no values (should not error)
    let result = handle_config_command(
        &ConfigCommands::Setup {
            api_token: None,
            api_base_url: None,
            model: None,
            system_prompt: None,
            user_prompt: None,
        },
        config,
    );
    assert!(result.is_ok());
    assert_eq!(result.unwrap(), vec![ConfigStep::Tell(ConfigReport::NoChanges)]);
}

#[test]
fn test_handle_config_command_list() {
    // Create a test config with some values
    let mut config = Config::default();
    config.set("model", Some("test_model".to_string())).unwrap();
    let rows = config_rows(&config);

    // Test listing configuration
    let result = handle_config_command(&ConfigCommands::List, config);
    assert!(result.is_ok());
    assert_eq!(result.unwrap(), vec![ConfigStep::ShowSources, ConfigStep::ShowTable(rows)]);
}

#[test]
fn test_handle_config_command_show() {
    // the settings in effect: a global file overridden by a project file
    let global_config = Config {
        api_token: Some("global-token".to_string()),
        api_base_url: Some("https://global-api.com".to_string()),
        model: Some("global-model".to_string()),
        system_prompt: Some("global system prompt".to_string()),
        user_prompt: Some("global user prompt".to_string()),
    };
    let project_config = Config {
        api_token: None,
        api_base_url: None,
        model: Some("project-model".to_string()),
        system_prompt: Some("project system prompt".to_string()),
        user_prompt: None,
    };
    let config = Config::load(global_config, Some(project_config));

    let result = handle_config_command(&ConfigCommands::Show, config);
    assert!(result.is_ok());
    let steps = result.unwrap();
    assert_eq!(steps.len(), 2);
    assert_eq!(steps[0], ConfigStep::ShowSources);
    match &steps[1] {
        ConfigStep::ShowTable(rows) => {
            let shown: Vec<(&str, &str)> =
                rows.iter().map(|r| (r.setting.as_str(), r.value.as_str())).collect();
            assert_eq!(
                shown,
                vec![
                    ("Setting", "Value"),
                    ("api_token", "glob•••••"),
                    ("api_base_url", "https://global-api.com"),
                    ("model", "project-model"),
                    ("system_prompt", "project system prompt"),
                    ("user_prompt", "global user prompt"),
                ]
            );
        }
        other => panic!("expected a table, found {:?}", other),
    }
}

#[test]
fn setting_an_unknown_key_plans_nothing() {
    let result = handle_config_command(
        &ConfigCommands::SetKey {
            key: "random_key".to_string(),
            value: Some("random_value".to_string()),
        },
        Config::default(),
    );
    assert_eq!(result, Err(ConfigError::UnknownKey("random_key".to_string())));
}

#[test]
fn set_shows_the_token_in_full_but_setup_masks_it() {
    let steps = handle_config_command(
        &ConfigCommands::SetKey {
            key: "api_token".to_string(),
            value: Some("abcd1234567890".to_string()),
        },
        Config::empty(),
    )
    .unwrap();
    assert_eq!(
        steps[1],
        ConfigStep::Tell(ConfigReport::Stored {
            key: ConfigKey::ApiToken,
            shown: "abcd1234567890".to_string()
        })
    );

    let steps = handle_config_command(
        &ConfigCommands::Setup {
            api_token: Some("abcd1234567890".to_string()),
            api_base_url: None,
            model: None,
            system_prompt: None,
            user_prompt: None,
        },
        Config::empty(),
    )
    .unwrap();
    assert_eq!(steps.len(), 3);
    assert_eq!(saved(&steps[0]).api_token, Some("abcd1234567890".to_string()));
    assert_eq!(
        steps[1],
        ConfigStep::Tell(ConfigReport::Stored {
            key: ConfigKey::ApiToken,
            shown: "abcd•••••".to_string()
        })
    );
    assert_eq!(steps[2], ConfigStep::Tell(ConfigReport::Updated));
}

#[test]
fn setup_saves_after_every_value_in_the_fixed_order() {
    let steps = handle_config_command(
        &ConfigCommands::Setup {
            api_token: Some("short".to_string()),
            api_base_url: None,
            model: Some("m".to_string()),
            system_prompt: None,
            user_prompt: Some("u {}".to_string()),
        },
        Config::empty(),
    )
    .unwrap();

    let mut first = Config::empty();
    first.api_token = Some("short".to_string());
    let mut second = first.clone();
    second.model = Some("m".to_string());
    let mut third = second.clone();
    third.user_prompt = Some("u {}".to_string());

    assert_eq!(
        steps,
        vec![
            ConfigStep::Save(first),
            ConfigStep::Tell(ConfigReport::Stored {
                key: ConfigKey::ApiToken,
                shown: "•••••••".to_string()
            }),
            ConfigStep::Save(second),
            ConfigStep::Tell(ConfigReport::Stored {
                key: ConfigKey::Model,
                shown: "m".to_string()
            }),
            ConfigStep::Save(third),
            ConfigStep::Tell(ConfigReport::Stored {
                key: ConfigKey::UserPrompt,
                shown: "u {}".to_string()
            }),
            ConfigStep::Tell(ConfigReport::Updated),
        ]
    );
}

#[test]
fn setup_keeps_what_it_is_not_given() {
    let mut config = Config::default();
    config.api_token = Some("kept-token".to_string());
    let steps = handle_config_command(
        &ConfigCommands::Setup {
            api_token: None,
            api_base_url: None,
            model: Some("new".to_string()),
            system_prompt: None,
            user_prompt: None,
        },
        config.clone(),
    )
    .unwrap();
    let stored = last_saved(&steps).unwrap();
    assert_eq!(stored.api_token, Some("kept-token".to_string()));
    assert_eq!(stored.model, Some("new".to_string()));
    assert_eq!(stored.api_base_url, config.api_base_url);
    assert_eq!(stored.system_prompt, config.system_prompt);
    assert_eq!(stored.user_prompt, config.user_prompt);
}

#[test]
fn only_setup_announces_itself() {
    let setup = ConfigCommands::Setup {
        api_token: None,
        api_base_url: None,
        model: None,
        system_prompt: None,
        user_prompt: None,
    };
    assert_eq!(opening(&setup), vec![ConfigReport::Updating]);
    assert_eq!(opening(&ConfigCommands::Show), vec![]);
    assert_eq!(opening(&ConfigCommands::List), vec![]);
    assert_eq!(opening(&ConfigCommands::Get { key: "model".to_string() }), vec![]);
    assert_eq!(
        opening(&ConfigCommands::SetKey { key: "model".to_string(), value: None }),
        vec![]
    );
}

#[test]
fn commands_that_display_a_token_need_one_that_can_be_masked() {
    let broken = "aaa€aaaaa".to_string();
    let mut config = Config::empty();
    config.api_token = Some(broken.clone());

    assert!(!is_displayable(&ConfigCommands::Show, &config));
    assert!(!is_displayable(&ConfigCommands::List, &config));
    assert!(is_displayable(&ConfigCommands::Get { key: "api_token".to_string() }, &config));
    assert!(is_displayable(
        &ConfigCommands::SetKey { key: "api_token".to_string(), value: Some(broken.clone()) },
        &Config::empty()
    ));

    let setup = ConfigCommands::Setup {
        api_token: Some(broken),
        api_base_url: None,
        model: None,
        system_prompt: None,
        user_prompt: None,
    };
    assert!(!is_displayable(&setup, &Config::empty()));
    assert!(is_displayable(&ConfigCommands::Show, &Config::default()));
}
