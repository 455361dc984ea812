//! The command line: its grammar as a function from the argument list to a
//! parsed command, and a parser proved to compute that function.
//!
//! ```text
//! aic [-a|--add] [-c|--commit] [-p|--push]
//! aic ping
//! aic config get <KEY>
//! aic config set <KEY> [VALUE]
//! aic config setup [--api-token <V>] [--api-base-url <V>] [--model <V>]
//!                  [--system-prompt <V>] [--user-prompt <V>]
//! aic config show | list
//! ```
//!
//! Short switches may be bundled (`-acp`), an option's value may be attached
//! (`--model=gpt-4`), and `--` ends the switches, so that what follows is
//! taken as a value even where it starts with a dash. Arguments are read from
//! left to right, and the first one that cannot be placed decides the error.

use crate::config::{nothing_set, Config, ConfigKey, ConfigView};
use crate::text::{chars_of, find_char, index_from, owned, str_eq};
use vstd::prelude::*;
use vstd::string::*;

verus! {

/// A parsed command line.
#[derive(Debug, PartialEq, Eq)]
pub struct Cli {
    /// Stage all changes before looking at the diff.
    pub auto_add: bool,
    /// Commit without asking.
    pub auto_commit: bool,
    /// Push after a commit.
    pub auto_push: bool,
    /// The subcommand; without one a commit message is generated.
    pub command: Option<Commands>,
}

/// The subcommands.
#[derive(Debug, PartialEq, Eq)]
pub enum Commands {
    /// Try the service with the current settings.
    Ping,
    /// Read or change settings.
    Config(ConfigCommands),
}

/// The subcommands of `config`.
#[derive(Debug, PartialEq, Eq)]
pub enum ConfigCommands {
    /// Print one setting.
    Get { key: String },
    /// Store one setting, or unset it where no value is given.
    SetKey { key: String, value: Option<String> },
    /// Store several settings at once.
    Setup {
        api_token: Option<String>,
        api_base_url: Option<String>,
        model: Option<String>,
        system_prompt: Option<String>,
        user_prompt: Option<String>,
    },
    /// Print the settings in effect and where they come from.
    Show,
    /// The same as `Show`.
    List,
}

/// Why a command line was not accepted. Positions count from the program's
/// name, which is argument 0.
#[derive(Clone, Copy, Debug, PartialEq, Eq, Structural)]
pub enum CliError {
    /// `-h`, `--help` or `help` was given: usage is wanted, not a run.
    HelpRequested,
    /// `-V` or `--version` was given.
    VersionRequested,
    /// The argument at this position has no place in the grammar.
    UnexpectedArgument(usize),
    /// The argument at this position repeats a switch or an option.
    RepeatedArgument(usize),
    /// The option at this position is not followed by a value.
    MissingValue(usize),
    /// `config get` or `config set` was given no key.
    MissingArgument,
    /// `config` was given no subcommand.
    MissingSubcommand,
}

/// The three switches of the top level.
#[derive(Clone, Copy, Debug, PartialEq, Eq, Structural)]
pub struct Switches {
    pub add: bool,
    pub commit: bool,
    pub push: bool,
}

/// Which subcommands the word after `help` may name.
#[derive(Clone, Copy, Debug, PartialEq, Eq, Structural)]
pub enum HelpTopic {
    /// Those of the top level.
    Top,
    /// Those of `config`.
    OfConfig,
    /// None: a subcommand without subcommands was named.
    Leaf,
}

/// Mathematical model of [`Cli`].
pub struct CliView {
    pub auto_add: bool,
    pub auto_commit: bool,
    pub auto_push: bool,
    pub command: Option<CommandsView>,
}

/// Mathematical model of [`Commands`].
pub enum CommandsView {
    Ping,
    Config(ConfigCommandsView),
}

/// Mathematical model of [`ConfigCommands`]. The values of `setup` are
/// modelled as settings of which only the given ones are set.
pub enum ConfigCommandsView {
    Get { key: Seq<char> },
    SetKey { key: Seq<char>, value: Option<Seq<char>> },
    Setup { values: ConfigView },
    Show,
    List,
}

impl View for ConfigCommands {
    type V = ConfigCommandsView;

    open spec fn view(&self) -> ConfigCommandsView {
        match self {
            ConfigCommands::Get { key } => ConfigCommandsView::Get { key: key@ },
            ConfigCommands::SetKey { key, value } => ConfigCommandsView::SetKey {
                key: key@,
                value: value.deep_view(),
            },
            ConfigCommands::Setup { api_token, api_base_url, model, system_prompt, user_prompt } =>
                ConfigCommandsView::Setup {
                    values: ConfigView {
                        api_token: api_token.deep_view(),
                        api_base_url: api_base_url.deep_view(),
                        model: model.deep_view(),
                        system_prompt: system_prompt.deep_view(),
                        user_prompt: user_prompt.deep_view(),
                    },
                },
            ConfigCommands::Show => ConfigCommandsView::Show,
            ConfigCommands::List => ConfigCommandsView::List,
        }
    }
}

impl View for Commands {
    type V = CommandsView;

    open spec fn view(&self) -> CommandsView {
        match self {
            Commands::Ping => CommandsView::Ping,
            Commands::Config(inner) => CommandsView::Config(inner@),
        }
    }
}

impl View for Cli {
    type V = CliView;

    open spec fn view(&self) -> CliView {
        CliView {
            auto_add: self.auto_add,
            auto_commit: self.auto_commit,
            auto_push: self.auto_push,
            command: match self.command {
                Some(command) => Some(command@),
                None => None,
            },
        }
    }
}

/// The arguments as sequences of characters.
pub open spec fn texts(args: Seq<&str>) -> Seq<Seq<char>> {
    args.map_values(|arg: &str| arg@)
}

/// The model of a parser's answer.
pub open spec fn outcome(r: Result<Cli, CliError>) -> Result<CliView, CliError> {
    match r {
        Ok(cli) => Ok(cli@),
        Err(e) => Err(e),
    }
}

// ---------------------------------------------------------------------
// The grammar
// ---------------------------------------------------------------------
/// An argument that is read as a switch, an option or `--` rather than as a
/// value: at least two characters, the first a dash. A lone `-` is a value.
pub open spec fn is_dashed(a: Seq<char>) -> bool {
    a.len() >= 2 && a[0] == '-'
}

/// The argument `--`.
pub open spec fn is_escape(a: Seq<char>) -> bool {
    a.len() == 2 && a[0] == '-' && a[1] == '-'
}

/// An argument of the form `--name` or `--name=value`.
pub open spec fn is_long(a: Seq<char>) -> bool {
    a.len() > 2 && a[0] == '-' && a[1] == '-'
}

/// An argument of the form `-x` or `-xyz`.
pub open spec fn is_short(a: Seq<char>) -> bool {
    a.len() >= 2 && a[0] == '-' && a[1] != '-'
}

/// The name in `--name` or `--name=value`: what stands between the two
/// dashes and the first `=`.
pub open spec fn long_name(a: Seq<char>) -> Seq<char> {
    a.subrange(2, index_from(a, '=', 2))
}

/// The value in `--name=value`: what follows the first `=`, if there is one.
pub open spec fn long_value(a: Seq<char>) -> Option<Seq<char>> {
    let at = index_from(a, '=', 2);
    if at < a.len() {
        Some(a.subrange(at + 1, a.len() as int))
    } else {
        None
    }
}

/// Whether the argument asks for usage: `--help`, or a bundle that starts
/// with `-h`.
pub open spec fn asks_help(a: Seq<char>) -> bool {
    ||| is_long(a) && long_name(a) == "help"@ && long_value(a) is None
    ||| is_short(a) && a[1] == 'h'
}

/// The error for an argument at position `i` that nothing but the help
/// switch could make sense of.
pub open spec fn refusal(a: Seq<char>, i: int) -> CliError {
    if asks_help(a) {
        CliError::HelpRequested
    } else {
        CliError::UnexpectedArgument(i as usize)
    }
}

/// The setting that an option of `config setup` stores, by the option's name.
pub open spec fn option_named(name: Seq<char>) -> Option<ConfigKey> {
    if name == "api-token"@ {
        Some(ConfigKey::ApiToken)
    } else if name == "api-base-url"@ {
        Some(ConfigKey::ApiBaseUrl)
    } else if name == "model"@ {
        Some(ConfigKey::Model)
    } else if name == "system-prompt"@ {
        Some(ConfigKey::SystemPrompt)
    } else if name == "user-prompt"@ {
        Some(ConfigKey::UserPrompt)
    } else {
        None
    }
}

/// The switches of one bundle `-xyz`, read from character `j` on, added to
/// `on`. `i` is the bundle's position on the command line.
pub open spec fn bundle(a: Seq<char>, j: int, on: Switches, i: int) -> Result<Switches, CliError>
    decreases a.len() - j,
{
    if j >= a.len() {
        Ok(on)
    } else if a[j] == 'a' {
        if on.add {
            Err(CliError::RepeatedArgument(i as usize))
        } else {
            bundle(a, j + 1, Switches { add: true, ..on }, i)
        }
    } else if a[j] == 'c' {
        if on.commit {
            Err(CliError::RepeatedArgument(i as usize))
        } else {
            bundle(a, j + 1, Switches { commit: true, ..on }, i)
        }
    } else if a[j] == 'p' {
        if on.push {
            Err(CliError::RepeatedArgument(i as usize))
        } else {
            bundle(a, j + 1, Switches { push: true, ..on }, i)
        }
    } else if a[j] == 'h' {
        Err(CliError::HelpRequested)
    } else if a[j] == 'V' {
        Err(CliError::VersionRequested)
    } else {
        Err(CliError::UnexpectedArgument(i as usize))
    }
}

/// What a long switch `--name` at position `i` of the top level does to `on`.
pub open spec fn long_switch(a: Seq<char>, on: Switches, i: int) -> Result<Switches, CliError> {
    let name = long_name(a);
    if long_value(a) is Some {
        Err(CliError::UnexpectedArgument(i as usize))
    } else if name == "add"@ {
        if on.add {
            Err(CliError::RepeatedArgument(i as usize))
        } else {
            Ok(Switches { add: true, ..on })
        }
    } else if name == "commit"@ {
        if on.commit {
            Err(CliError::RepeatedArgument(i as usize))
        } else {
            Ok(Switches { commit: true, ..on })
        }
    } else if name == "push"@ {
        if on.push {
            Err(CliError::RepeatedArgument(i as usize))
        } else {
            Ok(Switches { push: true, ..on })
        }
    } else if name == "help"@ {
        Err(CliError::HelpRequested)
    } else if name == "version"@ {
        Err(CliError::VersionRequested)
    } else {
        Err(CliError::UnexpectedArgument(i as usize))
    }
}

/// The topic that `word` leads to from `topic`, if it names a subcommand
/// there.
pub open spec fn help_topic(topic: HelpTopic, word: Seq<char>) -> Option<HelpTopic> {
    match topic {
        HelpTopic::Top => if word == "config"@ {
            Some(HelpTopic::OfConfig)
        } else if word == "ping"@ || word == "help"@ {
            Some(HelpTopic::Leaf)
        } else {
            None
        },
        HelpTopic::OfConfig => if word == "get"@ || word == "set"@ || word == "setup"@ || word
            == "show"@ || word == "list"@ || word == "help"@ {
            Some(HelpTopic::Leaf)
        } else {
            None
        },
        HelpTopic::Leaf => None,
    }
}

/// What follows the subcommand `help`, from position `i` on: the words must
/// name a subcommand, then one of its subcommands, and so on. A line with
/// `help` is never run: usage is wanted, or a word is out of place.
pub open spec fn parse_help(args: Seq<Seq<char>>, i: int, topic: HelpTopic) -> CliError
    decreases args.len() - i,
{
    if i >= args.len() {
        CliError::HelpRequested
    } else {
        match help_topic(topic, args[i]) {
            Some(next) => parse_help(args, i + 1, next),
            None => CliError::UnexpectedArgument(i as usize),
        }
    }
}

/// The rest of the line after a subcommand that takes nothing (`ping`,
/// `config show`, `config list`), from position `i` on.
pub open spec fn parse_nothing(args: Seq<Seq<char>>, i: int) -> Result<(), CliError> {
    if i >= args.len() {
        Ok(())
    } else if is_escape(args[i]) {
        if i + 1 < args.len() {
            Err(CliError::UnexpectedArgument((i + 1) as usize))
        } else {
            Ok(())
        }
    } else {
        Err(refusal(args[i], i))
    }
}

/// The values of a subcommand that takes up to `max` of them, from position
/// `i` on, added to `taken`. After `--` (`escaped`) every argument is a value.
pub open spec fn parse_values(
    args: Seq<Seq<char>>,
    i: int,
    taken: Seq<Seq<char>>,
    max: nat,
    escaped: bool,
) -> Result<Seq<Seq<char>>, CliError>
    decreases args.len() - i,
{
    if i >= args.len() {
        Ok(taken)
    } else if !escaped && is_escape(args[i]) {
        parse_values(args, i + 1, taken, max, true)
    } else if !escaped && is_dashed(args[i]) {
        Err(refusal(args[i], i))
    } else if taken.len() < max {
        parse_values(args, i + 1, taken.push(args[i]), max, escaped)
    } else {
        Err(CliError::UnexpectedArgument(i as usize))
    }
}

/// `config get`, from position `i` on.
pub open spec fn parse_get(args: Seq<Seq<char>>, i: int) -> Result<ConfigCommandsView, CliError> {
    match parse_values(args, i, Seq::empty(), 1, false) {
        Ok(values) => if values.len() >= 1 {
            Ok(ConfigCommandsView::Get { key: values[0] })
        } else {
            Err(CliError::MissingArgument)
        },
        Err(e) => Err(e),
    }
}

/// `config set`, from position `i` on.
pub open spec fn parse_set(args: Seq<Seq<char>>, i: int) -> Result<ConfigCommandsView, CliError> {
    match parse_values(args, i, Seq::empty(), 2, false) {
        Ok(values) => if values.len() >= 2 {
            Ok(ConfigCommandsView::SetKey { key: values[0], value: Some(values[1]) })
        } else if values.len() == 1 {
            Ok(ConfigCommandsView::SetKey { key: values[0], value: None })
        } else {
            Err(CliError::MissingArgument)
        },
        Err(e) => Err(e),
    }
}

/// The options of `config setup`, from position `i` on, added to `values`.
pub open spec fn parse_setup(args: Seq<Seq<char>>, i: int, values: ConfigView) -> Result<
    ConfigView,
    CliError,
>
    decreases args.len() - i,
{
    if i >= args.len() {
        Ok(values)
    } else if is_escape(args[i]) {
        if i + 1 < args.len() {
            Err(CliError::UnexpectedArgument((i + 1) as usize))
        } else {
            Ok(values)
        }
    } else if is_long(args[i]) && option_named(long_name(args[i])) is Some {
        let key = option_named(long_name(args[i]))->0;
        if values.value(key) is Some {
            Err(CliError::RepeatedArgument(i as usize))
        } else if long_value(args[i]) is Some {
            parse_setup(args, i + 1, values.with(key, long_value(args[i])))
        } else if i + 1 < args.len() && !is_dashed(args[i + 1]) {
            parse_setup(args, i + 2, values.with(key, Some(args[i + 1])))
        } else {
            Err(CliError::MissingValue(i as usize))
        }
    } else {
        Err(refusal(args[i], i))
    }
}

/// What follows `config`, from position `i` on.
pub open spec fn parse_config(args: Seq<Seq<char>>, i: int) -> Result<ConfigCommandsView, CliError> {
    if i >= args.len() {
        Err(CliError::MissingSubcommand)
    } else if args[i] == "get"@ {
        parse_get(args, i + 1)
    } else if args[i] == "set"@ {
        parse_set(args, i + 1)
    } else if args[i] == "setup"@ {
        match parse_setup(args, i + 1, nothing_set()) {
            Ok(values) => Ok(ConfigCommandsView::Setup { values }),
            Err(e) => Err(e),
        }
    } else if args[i] == "show"@ {
        match parse_nothing(args, i + 1) {
            Ok(_) => Ok(ConfigCommandsView::Show),
            Err(e) => Err(e),
        }
    } else if args[i] == "list"@ {
        match parse_nothing(args, i + 1) {
            Ok(_) => Ok(ConfigCommandsView::List),
            Err(e) => Err(e),
        }
    } else if args[i] == "help"@ {
        Err(parse_help(args, i + 1, HelpTopic::OfConfig))
    } else if is_escape(args[i]) {
        if i + 1 < args.len() {
            Err(CliError::UnexpectedArgument((i + 1) as usize))
        } else {
            Err(CliError::MissingSubcommand)
        }
    } else {
        Err(refusal(args[i], i))
    }
}

/// The line without a subcommand, with the switches `on`.
pub open spec fn plain_run(on: Switches) -> CliView {
    CliView { auto_add: on.add, auto_commit: on.commit, auto_push: on.push, command: None }
}

/// The line with a subcommand, with the switches `on`.
pub open spec fn run_of(on: Switches, command: CommandsView) -> CliView {
    CliView { auto_add: on.add, auto_commit: on.commit, auto_push: on.push, command: Some(command) }
}

/// The top level, from position `i` on, with the switches `on` seen so far.
pub open spec fn parse_top(args: Seq<Seq<char>>, i: int, on: Switches) -> Result<CliView, CliError>
    decreases args.len() - i,
{
    if i >= args.len() {
        Ok(plain_run(on))
    } else if args[i] == "ping"@ {
        match parse_nothing(args, i + 1) {
            Ok(_) => Ok(run_of(on, CommandsView::Ping)),
            Err(e) => Err(e),
        }
    } else if args[i] == "config"@ {
        match parse_config(args, i + 1) {
            Ok(command) => Ok(run_of(on, CommandsView::Config(command))),
            Err(e) => Err(e),
        }
    } else if args[i] == "help"@ {
        Err(parse_help(args, i + 1, HelpTopic::Top))
    } else if is_escape(args[i]) {
        if i + 1 < args.len() {
            Err(CliError::UnexpectedArgument((i + 1) as usize))
        } else {
            Ok(plain_run(on))
        }
    } else if is_long(args[i]) {
        match long_switch(args[i], on, i) {
            Ok(next) => parse_top(args, i + 1, next),
            Err(e) => Err(e),
        }
    } else if is_short(args[i]) {
        match bundle(args[i], 1, on, i) {
            Ok(next) => parse_top(args, i + 1, next),
            Err(e) => Err(e),
        }
    } else {
        Err(CliError::UnexpectedArgument(i as usize))
    }
}

/// The grammar: what a whole argument list means. Argument 0 is the
/// program's name and is not looked at; an empty list is a run without
/// switches.
pub open spec fn parse(args: Seq<Seq<char>>) -> Result<CliView, CliError> {
    parse_top(args, 1, Switches { add: false, commit: false, push: false })
}

// ---------------------------------------------------------------------
// What holds of the grammar
// ---------------------------------------------------------------------
/// Two argument lists of one length that hold the same arguments from
/// position `from` on.
pub open spec fn same_from(a: Seq<Seq<char>>, b: Seq<Seq<char>>, from: int) -> bool {
    a.len() == b.len() && forall|k: int| from <= k < a.len() ==> a[k] == b[k]
}

/// Reading values from position `i` on looks at nothing before `i`.
proof fn lemma_values_local(
    a: Seq<Seq<char>>,
    b: Seq<Seq<char>>,
    i: int,
    taken: Seq<Seq<char>>,
    max: nat,
    escaped: bool,
)
    requires
        0 <= i,
        same_from(a, b, i),
    ensures
        parse_values(a, i, taken, max, escaped) == parse_values(b, i, taken, max, escaped),
    decreases a.len() - i,
{
    if i < a.len() {
        if !escaped && is_escape(a[i]) {
            lemma_values_local(a, b, i + 1, taken, max, true);
        } else if !escaped && is_dashed(a[i]) {
        } else if taken.len() < max {
            lemma_values_local(a, b, i + 1, taken.push(a[i]), max, escaped);
        }
    }
}

/// Reading options from position `i` on looks at nothing before `i`.
proof fn lemma_setup_local(a: Seq<Seq<char>>, b: Seq<Seq<char>>, i: int, values: ConfigView)
    requires
        0 <= i,
        same_from(a, b, i),
    ensures
        parse_setup(a, i, values) == parse_setup(b, i, values),
    decreases a.len() - i,
{
    if i < a.len() && !is_escape(a[i]) && is_long(a[i]) && option_named(long_name(a[i])) is Some {
        let key = option_named(long_name(a[i]))->0;
        if values.value(key) is Some {
        } else if long_value(a[i]) is Some {
            lemma_setup_local(a, b, i + 1, values.with(key, long_value(a[i])));
        } else if i + 1 < a.len() && !is_dashed(a[i + 1]) {
            lemma_setup_local(a, b, i + 2, values.with(key, Some(a[i + 1])));
        }
    }
}

/// Reading the words after `help` looks at nothing before them.
proof fn lemma_help_local(a: Seq<Seq<char>>, b: Seq<Seq<char>>, i: int, topic: HelpTopic)
    requires
        0 <= i,
        same_from(a, b, i),
    ensures
        parse_help(a, i, topic) == parse_help(b, i, topic),
    decreases a.len() - i,
{
    if i < a.len() {
        match help_topic(topic, a[i]) {
            Some(next) => {
                lemma_help_local(a, b, i + 1, next);
            },
            None => {},
        }
    }
}

/// Reading what follows `config` looks at nothing before it.
proof fn lemma_config_local(a: Seq<Seq<char>>, b: Seq<Seq<char>>, i: int)
    requires
        0 <= i,
        same_from(a, b, i),
    ensures
        parse_config(a, i) == parse_config(b, i),
{
    if i < a.len() {
        lemma_values_local(a, b, i + 1, Seq::empty(), 1, false);
        lemma_values_local(a, b, i + 1, Seq::empty(), 2, false);
        lemma_setup_local(a, b, i + 1, nothing_set());
        lemma_help_local(a, b, i + 1, HelpTopic::OfConfig);
    }
}

/// Reading the top level from position `i` on looks at nothing before `i`.
proof fn lemma_top_local(a: Seq<Seq<char>>, b: Seq<Seq<char>>, i: int, on: Switches)
    requires
        0 <= i,
        same_from(a, b, i),
    ensures
        parse_top(a, i, on) == parse_top(b, i, on),
    decreases a.len() - i,
{
    if i < a.len() {
        lemma_config_local(a, b, i + 1);
        lemma_help_local(a, b, i + 1, HelpTopic::Top);
        if a[i] == "ping"@ || a[i] == "config"@ || a[i] == "help"@ || is_escape(a[i]) {
        } else if is_long(a[i]) {
            match long_switch(a[i], on, i) {
                Ok(next) => {
                    lemma_top_local(a, b, i + 1, next);
                },
                Err(_) => {},
            }
        } else if is_short(a[i]) {
            match bundle(a[i], 1, on, i) {
                Ok(next) => {
                    lemma_top_local(a, b, i + 1, next);
                },
                Err(_) => {},
            }
        }
    }
}

/// The program's name does not count: two lines that differ in argument 0
/// only mean the same.
pub proof fn lemma_program_name_ignored(a: Seq<Seq<char>>, b: Seq<Seq<char>>)
    requires
        same_from(a, b, 1),
    ensures
        parse(a) == parse(b),
{
    lemma_top_local(a, b, 1, Switches { add: false, commit: false, push: false });
}

/// A line of nothing but the program's name, and the empty line, are a run
/// without switches.
pub proof fn lemma_bare_line(args: Seq<Seq<char>>)
    requires
        args.len() <= 1,
    ensures
        parse(args) == Ok::<CliView, CliError>(
            plain_run(Switches { add: false, commit: false, push: false }),
        ),
{
}

/// How many switches are on.
pub open spec fn switches_on(on: Switches) -> nat {
    (if on.add {
        1nat
    } else {
        0nat
    }) + (if on.commit {
        1nat
    } else {
        0nat
    }) + (if on.push {
        1nat
    } else {
        0nat
    })
}

/// An accepted bundle holds nothing but the letters `a`, `c` and `p`, each
/// of its letters turns one more switch on, and no switch goes off: so an
/// accepted bundle has at most three letters, all different.
pub proof fn lemma_accepted_bundle(a: Seq<char>, j: int, on: Switches, i: int)
    requires
        0 <= j <= a.len(),
        bundle(a, j, on, i) is Ok,
    ensures
        forall|k: int| j <= k < a.len() ==> a[k] == 'a' || a[k] == 'c' || a[k] == 'p',
        switches_on(bundle(a, j, on, i)->Ok_0) == switches_on(on) + (a.len() - j),
        on.add ==> bundle(a, j, on, i)->Ok_0.add,
        on.commit ==> bundle(a, j, on, i)->Ok_0.commit,
        on.push ==> bundle(a, j, on, i)->Ok_0.push,
    decreases a.len() - j,
{
    if j < a.len() {
        if a[j] == 'a' {
            lemma_accepted_bundle(a, j + 1, Switches { add: true, ..on }, i);
        } else if a[j] == 'c' {
            lemma_accepted_bundle(a, j + 1, Switches { commit: true, ..on }, i);
        } else if a[j] == 'p' {
            lemma_accepted_bundle(a, j + 1, Switches { push: true, ..on }, i);
        }
    }
}

// ---------------------------------------------------------------------
// The parser
// ---------------------------------------------------------------------
/// The two parts of `--name` or `--name=value`.
fn split_long<'a>(arg: &'a str, chars: &Vec<char>) -> (r: (&'a str, Option<&'a str>))
    requires
        chars@ == arg@,
        is_long(arg@),
    ensures
        r.0@ == long_name(arg@),
        r.1.deep_view() == long_value(arg@),
{
    let at = find_char(chars, '=', 2);
    let name = arg.substring_char(2, at);
    if at < chars.len() {
        (name, Some(arg.substring_char(at + 1, chars.len())))
    } else {
        (name, None)
    }
}

/// Whether the argument asks for usage.
fn wants_help(arg: &str, chars: &Vec<char>) -> (r: bool)
    requires
        chars@ == arg@,
    ensures
        r == asks_help(arg@),
{
    if chars.len() >= 2 && chars[0] == '-' {
        if chars[1] == '-' {
            if chars.len() > 2 {
                let (name, value) = split_long(arg, chars);
                value.is_none() && str_eq(name, "help")
            } else {
                false
            }
        } else {
            chars[1] == 'h'
        }
    } else {
        false
    }
}

/// The error for an argument that nothing but the help switch could make
/// sense of.
fn refuse(arg: &str, chars: &Vec<char>, i: usize) -> (r: CliError)
    requires
        chars@ == arg@,
    ensures
        r == refusal(arg@, i as int),
{
    if wants_help(arg, chars) {
        CliError::HelpRequested
    } else {
        CliError::UnexpectedArgument(i)
    }
}

/// Reads the name of an option of `config setup`.
fn option_key(name: &str) -> (r: Option<ConfigKey>)
    ensures
        r == option_named(name@),
{
    if str_eq(name, "api-token") {
        Some(ConfigKey::ApiToken)
    } else if str_eq(name, "api-base-url") {
        Some(ConfigKey::ApiBaseUrl)
    } else if str_eq(name, "model") {
        Some(ConfigKey::Model)
    } else if str_eq(name, "system-prompt") {
        Some(ConfigKey::SystemPrompt)
    } else if str_eq(name, "user-prompt") {
        Some(ConfigKey::UserPrompt)
    } else {
        None
    }
}

/// Reads one bundle of short switches.
fn read_bundle(chars: &Vec<char>, on: Switches, i: usize) -> (r: Result<Switches, CliError>)
    requires
        chars@.len() >= 1,
    ensures
        r == bundle(chars@, 1, on, i as int),
{
    let mut now = on;
    let mut j: usize = 1;
    while j < chars.len()
        invariant
            1 <= j <= chars@.len(),
            bundle(chars@, 1, on, i as int) == bundle(chars@, j as int, now, i as int),
        decreases chars@.len() - j,
    {
        let c = chars[j];
        if c == 'a' {
            if now.add {
                return Err(CliError::RepeatedArgument(i));
            }
            now = Switches { add: true, commit: now.commit, push: now.push };
        } else if c == 'c' {
            if now.commit {
                return Err(CliError::RepeatedArgument(i));
            }
            now = Switches { add: now.add, commit: true, push: now.push };
        } else if c == 'p' {
            if now.push {
                return Err(CliError::RepeatedArgument(i));
            }
            now = Switches { add: now.add, commit: now.commit, push: true };
        } else if c == 'h' {
            return Err(CliError::HelpRequested);
        } else if c == 'V' {
            return Err(CliError::VersionRequested);
        } else {
            return Err(CliError::UnexpectedArgument(i));
        }
        j = j + 1;
    }
    Ok(now)
}

/// Reads one long switch of the top level.
fn read_long_switch(arg: &str, chars: &Vec<char>, on: Switches, i: usize) -> (r: Result<
    Switches,
    CliError,
>)
    requires
        chars@ == arg@,
        is_long(arg@),
    ensures
        r == long_switch(arg@, on, i as int),
{
    let (name, value) = split_long(arg, chars);
    if value.is_some() {
        Err(CliError::UnexpectedArgument(i))
    } else if str_eq(name, "add") {
        if on.add {
            Err(CliError::RepeatedArgument(i))
        } else {
            Ok(Switches { add: true, commit: on.commit, push: on.push })
        }
    } else if str_eq(name, "commit") {
        if on.commit {
            Err(CliError::RepeatedArgument(i))
        } else {
            Ok(Switches { add: on.add, commit: true, push: on.push })
        }
    } else if str_eq(name, "push") {
        if on.push {
            Err(CliError::RepeatedArgument(i))
        } else {
            Ok(Switches { add: on.add, commit: on.commit, push: true })
        }
    } else if str_eq(name, "help") {
        Err(CliError::HelpRequested)
    } else if str_eq(name, "version") {
        Err(CliError::VersionRequested)
    } else {
        Err(CliError::UnexpectedArgument(i))
    }
}

/// Follows one word after `help`.
fn next_help_topic(topic: HelpTopic, word: &str) -> (r: Option<HelpTopic>)
    ensures
        r == help_topic(topic, word@),
{
    match topic {
        HelpTopic::Top => {
            if str_eq(word, "config") {
                Some(HelpTopic::OfConfig)
            } else if str_eq(word, "ping") || str_eq(word, "help") {
                Some(HelpTopic::Leaf)
            } else {
                None
            }
        },
        HelpTopic::OfConfig => {
            if str_eq(word, "get") || str_eq(word, "set") || str_eq(word, "setup") || str_eq(
                word,
                "show",
            ) || str_eq(word, "list") || str_eq(word, "help") {
                Some(HelpTopic::Leaf)
            } else {
                None
            }
        },
        HelpTopic::Leaf => None,
    }
}

/// Reads what follows the subcommand `help`.
fn read_help(args: &[&str], start: usize, topic: HelpTopic) -> (r: CliError)
    requires
        start <= args@.len(),
    ensures
        r == parse_help(texts(args@), start as int, topic),
{
    let mut at = topic;
    let mut i: usize = start;
    while i < args.len()
        invariant
            start <= i <= args@.len(),
            parse_help(texts(args@), start as int, topic) == parse_help(texts(args@), i as int, at),
        decreases args@.len() - i,
    {
        match next_help_topic(at, args[i]) {
            Some(next) => {
                at = next;
            },
            None => {
                return CliError::UnexpectedArgument(i);
            },
        }
        i = i + 1;
    }
    CliError::HelpRequested
}

/// Reads the rest of the line after a subcommand that takes nothing.
fn read_nothing(args: &[&str], i: usize) -> (r: Result<(), CliError>)
    requires
        i <= args@.len(),
    ensures
        r == parse_nothing(texts(args@), i as int),
{
    if i >= args.len() {
        return Ok(());
    }
    let arg = args[i];
    let chars = chars_of(arg);
    if chars.len() == 2 && chars[0] == '-' && chars[1] == '-' {
        if i + 1 < args.len() {
            Err(CliError::UnexpectedArgument(i + 1))
        } else {
            Ok(())
        }
    } else {
        Err(refuse(arg, &chars, i))
    }
}

/// Reads up to `max` values.
fn read_values(args: &[&str], start: usize, max: usize) -> (r: Result<Vec<String>, CliError>)
    requires
        start <= args@.len(),
    ensures
        match r {
            Ok(values) => parse_values(texts(args@), start as int, Seq::empty(), max as nat, false)
                == Ok::<Seq<Seq<char>>, CliError>(values.deep_view()),
            Err(e) => parse_values(texts(args@), start as int, Seq::empty(), max as nat, false)
                == Err::<Seq<Seq<char>>, CliError>(e),
        },
{
    let mut taken: Vec<String> = Vec::new();
    let mut escaped = false;
    let mut i: usize = start;
    assert(taken.deep_view() =~= Seq::<Seq<char>>::empty());
    while i < args.len()
        invariant
            start <= i <= args@.len(),
            parse_values(texts(args@), start as int, Seq::empty(), max as nat, false)
                == parse_values(texts(args@), i as int, taken.deep_view(), max as nat, escaped),
        decreases args@.len() - i,
    {
        let arg = args[i];
        let chars = chars_of(arg);
        let dashed = chars.len() >= 2 && chars[0] == '-';
        if !escaped && dashed && chars.len() == 2 && chars[1] == '-' {
            escaped = true;
        } else if !escaped && dashed {
            return Err(refuse(arg, &chars, i));
        } else if taken.len() < max {
            let ghost before = taken.deep_view();
            taken.push(owned(arg));
            assert(taken.deep_view() =~= before.push(arg@));
        } else {
            return Err(CliError::UnexpectedArgument(i));
        }
        i = i + 1;
    }
    Ok(taken)
}

/// Reads `config get`.
fn read_get(args: &[&str], i: usize) -> (r: Result<ConfigCommands, CliError>)
    requires
        i <= args@.len(),
    ensures
        match r {
            Ok(command) => parse_get(texts(args@), i as int) == Ok::<ConfigCommandsView, CliError>(
                command@,
            ),
            Err(e) => parse_get(texts(args@), i as int) == Err::<ConfigCommandsView, CliError>(e),
        },
{
    match read_values(args, i, 1) {
        Ok(mut values) => {
            match values.pop() {
                Some(key) => {
                    proof {
                        lemma_values_bounded(texts(args@), i as int, Seq::empty(), 1, false);
                    }
                    Ok(ConfigCommands::Get { key })
                },
                None => Err(CliError::MissingArgument),
            }
        },
        Err(e) => Err(e),
    }
}

/// Reads `config set`.
fn read_set(args: &[&str], i: usize) -> (r: Result<ConfigCommands, CliError>)
    requires
        i <= args@.len(),
    ensures
        match r {
            Ok(command) => parse_set(texts(args@), i as int) == Ok::<ConfigCommandsView, CliError>(
                command@,
            ),
            Err(e) => parse_set(texts(args@), i as int) == Err::<ConfigCommandsView, CliError>(e),
        },
{
    match read_values(args, i, 2) {
        Ok(mut values) => {
            proof {
                lemma_values_bounded(texts(args@), i as int, Seq::empty(), 2, false);
            }
            let second = values.pop();
            let first = values.pop();
            match (first, second) {
                (Some(key), Some(value)) => Ok(ConfigCommands::SetKey { key, value: Some(value) }),
                (None, Some(key)) => Ok(ConfigCommands::SetKey { key, value: None }),
                _ => Err(CliError::MissingArgument),
            }
        },
        Err(e) => Err(e),
    }
}

/// No more values are taken than allowed.
proof fn lemma_values_bounded(
    args: Seq<Seq<char>>,
    i: int,
    taken: Seq<Seq<char>>,
    max: nat,
    escaped: bool,
)
    requires
        taken.len() <= max,
    ensures
        parse_values(args, i, taken, max, escaped) matches Ok(values) ==> values.len() <= max,
    decreases args.len() - i,
{
    if i >= args.len() {
    } else if !escaped && is_escape(args[i]) {
        lemma_values_bounded(args, i + 1, taken, max, true);
    } else if !escaped && is_dashed(args[i]) {
    } else if taken.len() < max {
        lemma_values_bounded(args, i + 1, taken.push(args[i]), max, escaped);
    }
}

/// Reads the options of `config setup`.
fn read_setup(args: &[&str], start: usize) -> (r: Result<ConfigCommands, CliError>)
    requires
        start <= args@.len(),
    ensures
        match r {
            Ok(command) => command is Setup && parse_setup(
                texts(args@),
                start as int,
                nothing_set(),
            ) == Ok::<ConfigView, CliError>(command@->values),
            Err(e) => parse_setup(texts(args@), start as int, nothing_set()) == Err::<
                ConfigView,
                CliError,
            >(e),
        },
{
    let mut values = Config::empty();
    let mut i: usize = start;
    while i < args.len()
        invariant
            start <= i <= args@.len(),
            parse_setup(texts(args@), start as int, nothing_set()) == parse_setup(
                texts(args@),
                i as int,
                values@,
            ),
        decreases args@.len() - i,
    {
        let arg = args[i];
        let chars = chars_of(arg);
        if chars.len() == 2 && chars[0] == '-' && chars[1] == '-' {
            if i + 1 < args.len() {
                return Err(CliError::UnexpectedArgument(i + 1));
            }
            i = i + 1;
        } else if chars.len() > 2 && chars[0] == '-' && chars[1] == '-' {
            let (name, attached) = split_long(arg, &chars);
            match option_key(name) {
                Some(key) => {
                    if values.value(key).is_some() {
                        return Err(CliError::RepeatedArgument(i));
                    }
                    match attached {
                        Some(value) => {
                            values.replace(key, Some(owned(value)));
                            i = i + 1;
                        },
                        None => {
                            if i + 1 >= args.len() {
                                return Err(CliError::MissingValue(i));
                            }
                            let next = args[i + 1];
                            let next_chars = chars_of(next);
                            if next_chars.len() >= 2 && next_chars[0] == '-' {
                                return Err(CliError::MissingValue(i));
                            }
                            values.replace(key, Some(owned(next)));
                            i = i + 2;
                        },
                    }
                },
                None => {
                    return Err(refuse(arg, &chars, i));
                },
            }
        } else {
            return Err(refuse(arg, &chars, i));
        }
    }
    let Config { api_token, api_base_url, model, system_prompt, user_prompt } = values;
    Ok(ConfigCommands::Setup { api_token, api_base_url, model, system_prompt, user_prompt })
}

/// Reads what follows `config`.
fn read_config(args: &[&str], i: usize) -> (r: Result<ConfigCommands, CliError>)
    requires
        i <= args@.len(),
    ensures
        match r {
            Ok(command) => parse_config(texts(args@), i as int) == Ok::<
                ConfigCommandsView,
                CliError,
            >(command@),
            Err(e) => parse_config(texts(args@), i as int) == Err::<ConfigCommandsView, CliError>(
                e,
            ),
        },
{
    if i >= args.len() {
        return Err(CliError::MissingSubcommand);
    }
    let arg = args[i];
    if str_eq(arg, "get") {
        read_get(args, i + 1)
    } else if str_eq(arg, "set") {
        read_set(args, i + 1)
    } else if str_eq(arg, "setup") {
        read_setup(args, i + 1)
    } else if str_eq(arg, "show") {
        match read_nothing(args, i + 1) {
            Ok(_) => Ok(ConfigCommands::Show),
            Err(e) => Err(e),
        }
    } else if str_eq(arg, "list") {
        match read_nothing(args, i + 1) {
            Ok(_) => Ok(ConfigCommands::List),
            Err(e) => Err(e),
        }
    } else if str_eq(arg, "help") {
        Err(read_help(args, i + 1, HelpTopic::OfConfig))
    } else {
        let chars = chars_of(arg);
        if chars.len() == 2 && chars[0] == '-' && chars[1] == '-' {
            if i + 1 < args.len() {
                Err(CliError::UnexpectedArgument(i + 1))
            } else {
                Err(CliError::MissingSubcommand)
            }
        } else {
            Err(refuse(arg, &chars, i))
        }
    }
}

/// Parses a command line. `args[0]` is the program's name.
///
/// The answer is the one the grammar [`parse`] gives: the parsed line, or the
/// error decided by the first argument that cannot be placed.
pub fn parse_args(args: &[&str]) -> (r: Result<Cli, CliError>)
    ensures
        outcome(r) == parse(texts(args@)),
{
    let mut on = Switches { add: false, commit: false, push: false };
    let mut i: usize = 1;
    while i < args.len()
        invariant
            1 <= i,
            parse(texts(args@)) == parse_top(texts(args@), i as int, on),
        decreases args@.len() - i,
    {
        let arg = args[i];
        if str_eq(arg, "ping") {
            return match read_nothing(args, i + 1) {
                Ok(_) => Ok(
                    Cli {
                        auto_add: on.add,
                        auto_commit: on.commit,
                        auto_push: on.push,
                        command: Some(Commands::Ping),
                    },
                ),
                Err(e) => Err(e),
            };
        } else if str_eq(arg, "config") {
            return match read_config(args, i + 1) {
                Ok(command) => Ok(
                    Cli {
                        auto_add: on.add,
                        auto_commit: on.commit,
                        auto_push: on.push,
                        command: Some(Commands::Config(command)),
                    },
                ),
                Err(e) => Err(e),
            };
        } else if str_eq(arg, "help") {
            return Err(read_help(args, i + 1, HelpTopic::Top));
        }
        let chars = chars_of(arg);
        if chars.len() >= 2 && chars[0] == '-' {
            if chars[1] == '-' {
                if chars.len() == 2 {
                    if i + 1 < args.len() {
                        return Err(CliError::UnexpectedArgument(i + 1));
                    }
                } else {
                    match read_long_switch(arg, &chars, on, i) {
                        Ok(next) => {
                            on = next;
                        },
                        Err(e) => {
                            return Err(e);
                        },
                    }
                }
            } else {
                match read_bundle(&chars, on, i) {
                    Ok(next) => {
                        on = next;
                    },
                    Err(e) => {
                        return Err(e);
                    },
                }
            }
        } else {
            return Err(CliError::UnexpectedArgument(i));
        }
        i = i + 1;
    }
    Ok(Cli { auto_add: on.add, auto_commit: on.commit, auto_push: on.push, command: None })
}

impl Cli {
    /// Parses a command line that the grammar accepts. `args[0]` is the
    /// program's name.
    pub fn parse_from(args: &[&str]) -> (r: Cli)
        requires
            parse(texts(args@)) is Ok,
        ensures
            Ok::<CliView, CliError>(r@) == parse(texts(args@)),
    {
        match parse_args(args) {
            Ok(cli) => cli,
            Err(_) => vstd::pervasive::unreached(),
        }
    }
}

} // verus!
