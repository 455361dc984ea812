use aic::cli::{parse_args, Cli, CliError, Commands, ConfigCommands};
use clap::error::ErrorKind;
use clap::{Arg, ArgAction, ArgMatches, Command};

/// The same command line, described to clap.
fn reference() -> Command {
    fn switch(id: &'static str, short: char, long: &'static str) -> Arg {
        Arg::new(id).short(short).long(long).action(ArgAction::SetTrue)
    }
    fn option(id: &'static str, long: &'static str) -> Arg {
        Arg::new(id).long(long).action(ArgAction::Set)
    }
    Command::new("aic")
        .version("0.1.0")
        .arg(switch("auto_add", 'a', "add"))
        .arg(switch("auto_commit", 'c', "commit"))
        .arg(switch("auto_push", 'p', "push"))
        .subcommand(Command::new("ping"))
        .subcommand(
            Command::new("config")
                .subcommand_required(true)
                .arg_required_else_help(true)
                .subcommand(Command::new("get").arg(Arg::new("key").required(true)))
                .subcommand(
                    Command::new("set")
                        .arg(Arg::new("key").required(true))
                        .arg(Arg::new("value")),
                )
                .subcommand(
                    Command::new("setup")
                        .arg(option("api_token", "api-token"))
                        .arg(option("api_base_url", "api-base-url"))
                        .arg(option("model", "model"))
                        .arg(option("system_prompt", "system-prompt"))
                        .arg(option("user_prompt", "user-prompt")),
                )
                .subcommand(Command::new("show"))
                .subcommand(Command::new("list")),
        )
}

fn one(matches: &ArgMatches, id: &str) -> Option<String> {
    matches.get_one::<String>(id).cloned()
}

fn read(matches: &ArgMatches) -> Cli {
    let command = match matches.subcommand() {
        None => None,
        Some(("ping", _)) => Some(Commands::Ping),
        Some(("config", config)) => Some(Commands::Config(match config.subcommand() {
            Some(("get", m)) => ConfigCommands::Get { key: one(m, "key").unwrap() },
            Some(("set", m)) => {
                ConfigCommands::SetKey { key: one(m, "key").unwrap(), value: one(m, "value") }
            }
            Some(("setup", m)) => ConfigCommands::Setup {
                api_token: one(m, "api_token"),
                api_base_url: one(m, "api_base_url"),
                model: one(m, "model"),
                system_prompt: one(m, "system_prompt"),
                user_prompt: one(m, "user_prompt"),
            },
            Some(("show", _)) => ConfigCommands::Show,
            Some(("list", _)) => ConfigCommands::List,
            other => panic!("unknown subcommand of config: {:?}", other),
        })),
        other => panic!("unknown subcommand: {:?}", other),
    };
    Cli {
        auto_add: matches.get_flag("auto_add"),
        auto_commit: matches.get_flag("auto_commit"),
        auto_push: matches.get_flag("auto_push"),
        command,
    }
}

/// How clap's refusals are grouped here: usage wanted, version wanted, or a
/// line that is wrong.
#[derive(Debug, PartialEq)]
enum Refusal {
    Help,
    Version,
    Wrong,
}

fn expected(args: &[&str]) -> Result<Cli, Refusal> {
    match reference().try_get_matches_from(args) {
        Ok(matches) => Ok(read(&matches)),
        Err(e) => Err(match e.kind() {
            ErrorKind::DisplayHelp => Refusal::Help,
            ErrorKind::DisplayVersion => Refusal::Version,
            _ => Refusal::Wrong,
        }),
    }
}

fn actual(args: &[&str]) -> Result<Cli, Refusal> {
    parse_args(args).map_err(|e| match e {
        CliError::HelpRequested => Refusal::Help,
        CliError::VersionRequested => Refusal::Version,
        _ => Refusal::Wrong,
    })
}

fn agree(args: &[&str]) {
    assert_eq!(actual(args), expected(args), "on {:?}", args);
}

/// Every line of up to `depth` words from `words` after `prefix`.
fn sweep(prefix: &[&'static str], words: &[&'static str], depth: usize) -> usize {
    fn go(line: &mut Vec<&'static str>, words: &[&'static str], depth: usize, count: &mut usize) {
        agree(line);
        *count += 1;
        if depth == 0 {
            return;
        }
        for word in words {
            line.push(word);
            go(line, words, depth - 1, count);
            line.pop();
        }
    }
    let mut line: Vec<&'static str> = prefix.to_vec();
    let mut count = 0;
    go(&mut line, words, depth, &mut count);
    count
}

#[test]
fn agrees_with_clap_on_the_top_level() {
    let words = [
        "-a", "-c", "-p", "-ac", "-pa", "--add", "--commit", "--push", "--", "-", "", "-h",
        "--help", "-V", "--version", "ping", "config", "show", "-x", "-ax", "-ah", "--bogus",
        "--add=1", "--ad", "word", "-aV",
    ];
    assert_eq!(sweep(&["aic"], &words, 3), 1 + 26 + 26 * 26 + 26 * 26 * 26);
}

#[test]
fn agrees_with_clap_on_the_help_subcommand() {
    let words = [
        "help", "ping", "config", "get", "set", "setup", "show", "list", "-a", "-h", "--help",
        "--", "x", "", "-V",
    ];
    sweep(&["aic", "help"], &words, 3);
    sweep(&["aic", "-a", "help"], &words, 2);
    sweep(&["aic", "config", "help"], &words, 3);
}

#[test]
fn agrees_with_clap_below_config() {
    let words = [
        "get", "set", "setup", "show", "list", "--", "-h", "--help", "-V", "-a", "key", "",
        "-", "--model", "--model=x", "ping", "config",
    ];
    sweep(&["aic", "config"], &words, 3);
    sweep(&["aic", "-a", "config"], &words, 2);
}

#[test]
fn agrees_with_clap_on_get_and_set() {
    let words = [
        "key", "value", "", "-", "--", "-h", "--help", "-k", "--key", "-5", "get", "a=b",
        "--model", "-V", "--version",
    ];
    sweep(&["aic", "config", "get"], &words, 3);
    sweep(&["aic", "config", "set"], &words, 4);
}

#[test]
fn agrees_with_clap_on_setup() {
    let words = [
        "--api-token", "--api-token=t", "--api-base-url", "--model", "--model=", "--model=a=b",
        "--system-prompt", "--user-prompt=u", "value", "", "-", "--", "-h", "--help", "-5",
        "--bogus", "--api_token", "--mod", "-m", "setup",
    ];
    sweep(&["aic", "config", "setup"], &words, 3);
    sweep(&["aic", "config", "setup", "--model", "m"], &words, 2);
}

#[test]
fn agrees_with_clap_after_ping_show_and_list() {
    let words = ["--", "-h", "--help", "-V", "-a", "--add", "x", "", "-", "ping", "help"];
    sweep(&["aic", "ping"], &words, 3);
    sweep(&["aic", "config", "show"], &words, 3);
    sweep(&["aic", "-acp", "config", "list"], &words, 2);
}

#[test]
fn agrees_with_clap_on_lines_seen_in_use() {
    agree(&[]);
    agree(&["program"]);
    agree(&["program", "-a", "-c", "-p"]);
    agree(&["program", "config", "get", "api_token"]);
    agree(&["program", "config", "set", "api_token", "test-token"]);
    agree(&[
        "program",
        "config",
        "setup",
        "--api-token",
        "test-token",
        "--model",
        "gpt-4",
        "--api-base-url",
        "https://api.example.com",
        "--system-prompt",
        "Test system prompt",
        "--user-prompt",
        "Test user prompt",
    ]);
    agree(&["aic", "config", "setup", "--system-prompt=编写提交信息"]);
    agree(&["aic", "-é"]);
    agree(&["aic", "config", "set", "model", "--", "-x"]);
}
