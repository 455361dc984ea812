use aic::cli::{parse_args, Cli, CliError, Commands, ConfigCommands};

#[test]
fn test_basic_command() {
    let args = Cli::parse_from(&["program"]);
    assert!(args.command.is_none());
    assert!(!args.auto_commit);
    assert!(!args.auto_add);
    assert!(!args.auto_push);
}

#[test]
fn test_auto_flags() {
    let args = Cli::parse_from(&["program", "-a", "-c", "-p"]);
    assert!(args.auto_add);
    assert!(args.auto_commit);
    assert!(args.auto_push);
}

#[test]
fn test_config_get() {
    let args = Cli::parse_from(&["program", "config", "get", "api_token"]);
    assert!(!args.auto_add);
    assert!(!args.auto_commit);
    assert!(!args.auto_push);

    match args.command {
        Some(Commands::Config(ConfigCommands::Get { key })) => {
            assert_eq!(key, "api_token");
        }
        _ => panic!("Expected Config Get command"),
    }
}

#[test]
fn test_config_set() {
    let args = Cli::parse_from(&["program", "config", "set", "api_token", "test-token"]);
    assert!(!args.auto_add);
    assert!(!args.auto_commit);
    assert!(!args.auto_push);

    match args.command {
        Some(Commands::Config(ConfigCommands::SetKey { key, value })) => {
            assert_eq!(key, "api_token");
            assert_eq!(value, Some("test-token".to_string()));
        }
        _ => panic!("Expected Config Set command"),
    }
}

#[test]
fn test_config_setup() {
    let args = Cli::parse_from(&[
        "program",
        "config",
        "setup",
        "--api-token",
        "test-token",
        "--model",
        "gpt-4",
        "--api-base-url",
        "https://api.example.com",
        "--system-prompt",
        "Test system prompt",
        "--user-prompt",
        "Test user prompt",
    ]);
    assert!(!args.auto_add);
    assert!(!args.auto_commit);
    assert!(!args.auto_push);

    match args.command {
        Some(Commands::Config(ConfigCommands::Setup {
            api_token,
            model,
            api_base_url,
            system_prompt,
            user_prompt,
        })) => {
            assert_eq!(api_token, Some("test-token".to_string()));
            assert_eq!(model, Some("gpt-4".to_string()));
            assert_eq!(api_base_url, Some("https://api.example.com".to_string()));
            assert_eq!(system_prompt, Some("Test system prompt".to_string()));
            assert_eq!(user_prompt, Some("Test user prompt".to_string()));
        }
        _ => panic!("Expected Config Setup command"),
    }
}

fn run(flags: (bool, bool, bool), command: Option<Commands>) -> Result<Cli, CliError> {
    Ok(Cli { auto_add: flags.0, auto_commit: flags.1, auto_push: flags.2, command })
}

#[test]
fn empty_argument_list_is_a_plain_run() {
    assert_eq!(parse_args(&[]), run((false, false, false), None));
}

#[test]
fn long_switches_and_bundles() {
    assert_eq!(parse_args(&["aic", "--add", "--push"]), run((true, false, true), None));
    assert_eq!(parse_args(&["aic", "-acp"]), run((true, true, true), None));
    assert_eq!(parse_args(&["aic", "-pc", "--add"]), run((true, true, true), None));
    assert_eq!(parse_args(&["aic", "-c", "ping"]), run((false, true, false), Some(Commands::Ping)));
}

#[test]
fn repeated_switch_is_refused_at_its_position() {
    assert_eq!(parse_args(&["aic", "-a", "--add"]), Err(CliError::RepeatedArgument(2)));
    assert_eq!(parse_args(&["aic", "-aa"]), Err(CliError::RepeatedArgument(1)));
    assert_eq!(parse_args(&["aic", "-c", "-p", "-c"]), Err(CliError::RepeatedArgument(3)));
}

#[test]
fn help_and_version() {
    assert_eq!(parse_args(&["aic", "--help"]), Err(CliError::HelpRequested));
    assert_eq!(parse_args(&["aic", "-h"]), Err(CliError::HelpRequested));
    assert_eq!(parse_args(&["aic", "help"]), Err(CliError::HelpRequested));
    assert_eq!(parse_args(&["aic", "-ah"]), Err(CliError::HelpRequested));
    assert_eq!(parse_args(&["aic", "--version"]), Err(CliError::VersionRequested));
    assert_eq!(parse_args(&["aic", "-V"]), Err(CliError::VersionRequested));
    assert_eq!(parse_args(&["aic", "ping", "--help"]), Err(CliError::HelpRequested));
    assert_eq!(parse_args(&["aic", "config", "-h"]), Err(CliError::HelpRequested));
    assert_eq!(parse_args(&["aic", "config", "help"]), Err(CliError::HelpRequested));
    assert_eq!(parse_args(&["aic", "config", "get", "--help"]), Err(CliError::HelpRequested));
    assert_eq!(parse_args(&["aic", "config", "setup", "-h"]), Err(CliError::HelpRequested));
    // the version switch belongs to the top level only
    assert_eq!(parse_args(&["aic", "ping", "-V"]), Err(CliError::UnexpectedArgument(2)));
}

#[test]
fn unexpected_arguments_name_their_position() {
    assert_eq!(parse_args(&["aic", "commit"]), Err(CliError::UnexpectedArgument(1)));
    assert_eq!(parse_args(&["aic", "-a", "-x"]), Err(CliError::UnexpectedArgument(2)));
    assert_eq!(parse_args(&["aic", "--add=true"]), Err(CliError::UnexpectedArgument(1)));
    assert_eq!(parse_args(&["aic", "--help=now"]), Err(CliError::UnexpectedArgument(1)));
    assert_eq!(parse_args(&["aic", "-"]), Err(CliError::UnexpectedArgument(1)));
    assert_eq!(parse_args(&["aic", ""]), Err(CliError::UnexpectedArgument(1)));
    assert_eq!(parse_args(&["aic", "ping", "now"]), Err(CliError::UnexpectedArgument(2)));
    assert_eq!(parse_args(&["aic", "ping", "-a"]), Err(CliError::UnexpectedArgument(2)));
    assert_eq!(parse_args(&["aic", "config", "drop"]), Err(CliError::UnexpectedArgument(2)));
    assert_eq!(
        parse_args(&["aic", "config", "get", "a", "b"]),
        Err(CliError::UnexpectedArgument(4))
    );
    assert_eq!(
        parse_args(&["aic", "config", "set", "a", "b", "c"]),
        Err(CliError::UnexpectedArgument(5))
    );
    assert_eq!(
        parse_args(&["aic", "config", "setup", "model"]),
        Err(CliError::UnexpectedArgument(3))
    );
    assert_eq!(
        parse_args(&["aic", "config", "setup", "--api_token", "x"]),
        Err(CliError::UnexpectedArgument(3))
    );
}

#[test]
fn double_dash_ends_the_switches() {
    assert_eq!(parse_args(&["aic", "-a", "--"]), run((true, false, false), None));
    assert_eq!(parse_args(&["aic", "--", "ping"]), Err(CliError::UnexpectedArgument(2)));
    assert_eq!(parse_args(&["aic", "ping", "--"]), run((false, false, false), Some(Commands::Ping)));
    assert_eq!(parse_args(&["aic", "config", "--"]), Err(CliError::MissingSubcommand));
    assert_eq!(
        parse_args(&["aic", "config", "get", "--", "--key"]),
        run(
            (false, false, false),
            Some(Commands::Config(ConfigCommands::Get { key: "--key".to_string() }))
        )
    );
    assert_eq!(
        parse_args(&["aic", "config", "set", "model", "--", "-x"]),
        run(
            (false, false, false),
            Some(Commands::Config(ConfigCommands::SetKey {
                key: "model".to_string(),
                value: Some("-x".to_string())
            }))
        )
    );
    assert_eq!(
        parse_args(&["aic", "config", "get", "--", "--"]),
        run(
            (false, false, false),
            Some(Commands::Config(ConfigCommands::Get { key: "--".to_string() }))
        )
    );
}

#[test]
fn config_needs_a_subcommand_and_get_a_key() {
    assert_eq!(parse_args(&["aic", "config"]), Err(CliError::MissingSubcommand));
    assert_eq!(parse_args(&["aic", "config", "get"]), Err(CliError::MissingArgument));
    assert_eq!(parse_args(&["aic", "config", "set"]), Err(CliError::MissingArgument));
    assert_eq!(parse_args(&["aic", "config", "get", "--"]), Err(CliError::MissingArgument));
}

#[test]
fn set_without_value_unsets() {
    assert_eq!(
        parse_args(&["aic", "config", "set", "model"]),
        run(
            (false, false, false),
            Some(Commands::Config(ConfigCommands::SetKey { key: "model".to_string(), value: None }))
        )
    );
}

#[test]
fn values_may_be_a_lone_dash_or_empty() {
    assert_eq!(
        parse_args(&["aic", "config", "set", "-", ""]),
        run(
            (false, false, false),
            Some(Commands::Config(ConfigCommands::SetKey {
                key: "-".to_string(),
                value: Some("".to_string())
            }))
        )
    );
    assert_eq!(
        parse_args(&["aic", "config", "get", "-k"]),
        Err(CliError::UnexpectedArgument(3))
    );
}

fn setup(
    api_token: Option<&str>,
    api_base_url: Option<&str>,
    model: Option<&str>,
    system_prompt: Option<&str>,
    user_prompt: Option<&str>,
) -> Result<Cli, CliError> {
    run(
        (false, false, false),
        Some(Commands::Config(ConfigCommands::Setup {
            api_token: api_token.map(str::to_string),
            api_base_url: api_base_url.map(str::to_string),
            model: model.map(str::to_string),
            system_prompt: system_prompt.map(str::to_string),
            user_prompt: user_prompt.map(str::to_string),
        })),
    )
}

#[test]
fn setup_takes_attached_and_detached_values() {
    assert_eq!(parse_args(&["aic", "config", "setup"]), setup(None, None, None, None, None));
    assert_eq!(
        parse_args(&["aic", "config", "setup", "--model=gpt-4", "--api-token", "t"]),
        setup(Some("t"), None, Some("gpt-4"), None, None)
    );
    assert_eq!(
        parse_args(&["aic", "config", "setup", "--model="]),
        setup(None, None, Some(""), None, None)
    );
    assert_eq!(
        parse_args(&["aic", "config", "setup", "--user-prompt=a=b"]),
        setup(None, None, None, None, Some("a=b"))
    );
    assert_eq!(
        parse_args(&["aic", "config", "setup", "--system-prompt", "-"]),
        setup(None, None, None, Some("-"), None)
    );
    assert_eq!(
        parse_args(&["aic", "config", "setup", "--api-base-url", "ping"]),
        setup(None, Some("ping"), None, None, None)
    );
}

#[test]
fn setup_refuses_missing_and_repeated_values() {
    assert_eq!(
        parse_args(&["aic", "config", "setup", "--model"]),
        Err(CliError::MissingValue(3))
    );
    assert_eq!(
        parse_args(&["aic", "config", "setup", "--model", "--api-token", "t"]),
        Err(CliError::MissingValue(3))
    );
    assert_eq!(
        parse_args(&["aic", "config", "setup", "--model", "-5"]),
        Err(CliError::MissingValue(3))
    );
    assert_eq!(
        parse_args(&["aic", "config", "setup", "--model", "a", "--model=b"]),
        Err(CliError::RepeatedArgument(5))
    );
    assert_eq!(
        parse_args(&["aic", "config", "setup", "--model", "a", "--", "b"]),
        Err(CliError::UnexpectedArgument(6))
    );
}

#[test]
fn switches_after_the_subcommand_are_refused() {
    assert_eq!(parse_args(&["aic", "ping", "--add"]), Err(CliError::UnexpectedArgument(2)));
    assert_eq!(
        parse_args(&["aic", "config", "show", "-p"]),
        Err(CliError::UnexpectedArgument(3))
    );
    assert_eq!(
        parse_args(&["aic", "-a", "config", "list"]),
        run((true, false, false), Some(Commands::Config(ConfigCommands::List)))
    );
    assert_eq!(
        parse_args(&["aic", "config", "show"]),
        run((false, false, false), Some(Commands::Config(ConfigCommands::Show)))
    );
}

#[test]
fn non_ascii_arguments_are_handled_by_character() {
    assert_eq!(
        parse_args(&["aic", "config", "setup", "--system-prompt=编写提交信息"]),
        setup(None, None, None, Some("编写提交信息"), None)
    );
    assert_eq!(parse_args(&["aic", "-é"]), Err(CliError::UnexpectedArgument(1)));
}

/// Writes a command down the way the grammar is sure to read it back.
fn line_of(program: &str, cli: &Cli) -> Vec<String> {
    let mut line = vec![program.to_string()];
    if cli.auto_add {
        line.push("-a".to_string());
    }
    if cli.auto_commit {
        line.push("-c".to_string());
    }
    if cli.auto_push {
        line.push("-p".to_string());
    }
    match &cli.command {
        None => {}
        Some(Commands::Ping) => line.push("ping".to_string()),
        Some(Commands::Config(inner)) => {
            line.push("config".to_string());
            match inner {
                ConfigCommands::Get { key } => {
                    line.extend(["get".to_string(), "--".to_string(), key.clone()]);
                }
                ConfigCommands::SetKey { key, value } => {
                    line.extend(["set".to_string(), "--".to_string(), key.clone()]);
                    line.extend(value.clone());
                }
                ConfigCommands::Setup {
                    api_token,
                    api_base_url,
                    model,
                    system_prompt,
                    user_prompt,
                } => {
                    line.push("setup".to_string());
                    let options = [
                        ("api-token", api_token),
                        ("api-base-url", api_base_url),
                        ("model", model),
                        ("system-prompt", system_prompt),
                        ("user-prompt", user_prompt),
                    ];
                    for (name, value) in options {
                        if let Some(value) = value {
                            line.push(format!("--{}={}", name, value));
                        }
                    }
                }
                ConfigCommands::Show => line.push("show".to_string()),
                ConfigCommands::List => line.push("list".to_string()),
            }
        }
    }
    line
}

#[test]
fn every_command_has_a_line() {
    let awkward = ["", "-", "--", "-x", "--help", "help", "a=b", "=", "ping", "编写 提交", "--model=x"];
    let mut commands: Vec<Option<Commands>> = vec![
        None,
        Some(Commands::Ping),
        Some(Commands::Config(ConfigCommands::Show)),
        Some(Commands::Config(ConfigCommands::List)),
    ];
    for a in awkward {
        commands.push(Some(Commands::Config(ConfigCommands::Get { key: a.to_string() })));
        commands.push(Some(Commands::Config(ConfigCommands::SetKey {
            key: a.to_string(),
            value: None,
        })));
        for b in awkward {
            commands.push(Some(Commands::Config(ConfigCommands::SetKey {
                key: a.to_string(),
                value: Some(b.to_string()),
            })));
            commands.push(Some(Commands::Config(ConfigCommands::Setup {
                api_token: Some(a.to_string()),
                api_base_url: None,
                model: Some(b.to_string()),
                system_prompt: None,
                user_prompt: Some(a.to_string()),
            })));
        }
    }
    commands.push(Some(Commands::Config(ConfigCommands::Setup {
        api_token: None,
        api_base_url: Some("https://x.io/".to_string()),
        model: None,
        system_prompt: Some("-s".to_string()),
        user_prompt: None,
    })));

    let mut checked = 0;
    for command in commands {
        for flags in 0..8 {
            let cli = Cli {
                auto_add: flags & 1 != 0,
                auto_commit: flags & 2 != 0,
                auto_push: flags & 4 != 0,
                command: match &command {
                    None => None,
                    Some(Commands::Ping) => Some(Commands::Ping),
                    Some(Commands::Config(inner)) => Some(Commands::Config(match inner {
                        ConfigCommands::Get { key } => ConfigCommands::Get { key: key.clone() },
                        ConfigCommands::SetKey { key, value } => {
                            ConfigCommands::SetKey { key: key.clone(), value: value.clone() }
                        }
                        ConfigCommands::Setup {
                            api_token,
                            api_base_url,
                            model,
                            system_prompt,
                            user_prompt,
                        } => ConfigCommands::Setup {
                            api_token: api_token.clone(),
                            api_base_url: api_base_url.clone(),
                            model: model.clone(),
                            system_prompt: system_prompt.clone(),
                            user_prompt: user_prompt.clone(),
                        },
                        ConfigCommands::Show => ConfigCommands::Show,
                        ConfigCommands::List => ConfigCommands::List,
                    })),
                },
            };
            for program in ["aic", "", "--help"] {
                let line = line_of(program, &cli);
                let borrowed: Vec<&str> = line.iter().map(String::as_str).collect();
                assert_eq!(parse_args(&borrowed).as_ref(), Ok(&cli), "on {:?}", line);
                checked += 1;
            }
        }
    }
    assert_eq!(checked, (4 + 11 * 2 + 11 * 11 * 2 + 1) * 8 * 3);
}

#[test]
fn the_program_name_does_not_count() {
    for rest in [
        vec!["-a", "ping"],
        vec!["config", "get"],
        vec!["--bogus"],
        vec!["config", "setup", "--model", "m"],
        vec![],
    ] {
        let mut one = vec!["aic"];
        one.extend(rest.iter());
        let mut other = vec!["config"];
        other.extend(rest.iter());
        assert_eq!(parse_args(&one), parse_args(&other));
    }
}
