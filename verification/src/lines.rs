//! Every command can be written down: for each parsed command line there is
//! a list of arguments that the grammar reads back as exactly that command.

use crate::cli::{
    bundle, is_escape, is_long, is_short, long_name, long_value, option_named, parse,
    parse_config, parse_setup, parse_top, parse_values, CliError, CliView, CommandsView,
    ConfigCommandsView, Switches,
};
use crate::config::{nothing_set, ConfigKey, ConfigView};
use crate::text::index_from;
use vstd::prelude::*;

verus! {

/// The short switch with the letter `letter`.
pub open spec fn switch_word(letter: char) -> Seq<char> {
    seq!['-', letter]
}

/// The switches that are on, as words, in the order add, commit, push.
pub open spec fn switch_words(on: Switches) -> Seq<Seq<char>> {
    (if on.add {
        seq![switch_word('a')]
    } else {
        Seq::empty()
    }) + (if on.commit {
        seq![switch_word('c')]
    } else {
        Seq::empty()
    }) + (if on.push {
        seq![switch_word('p')]
    } else {
        Seq::empty()
    })
}

/// The name of the option of `config setup` that stores `key`.
pub open spec fn option_name(key: ConfigKey) -> Seq<char> {
    match key {
        ConfigKey::ApiToken => "api-token"@,
        ConfigKey::ApiBaseUrl => "api-base-url"@,
        ConfigKey::Model => "model"@,
        ConfigKey::SystemPrompt => "system-prompt"@,
        ConfigKey::UserPrompt => "user-prompt"@,
    }
}

/// The option that stores `value` under `key`, with the value attached:
/// `--name=value`.
pub open spec fn option_word(key: ConfigKey, value: Seq<char>) -> Seq<char> {
    seq!['-', '-'] + option_name(key) + seq!['='] + value
}

/// The option for `key` where `values` sets it, else nothing.
pub open spec fn option_words(key: ConfigKey, values: ConfigView) -> Seq<Seq<char>> {
    match values.value(key) {
        Some(value) => seq![option_word(key, value)],
        None => Seq::empty(),
    }
}

/// The options of `config setup` that store `values`, in the order of the
/// settings.
pub open spec fn setup_words(values: ConfigView) -> Seq<Seq<char>> {
    option_words(ConfigKey::ApiToken, values) + option_words(ConfigKey::ApiBaseUrl, values)
        + option_words(ConfigKey::Model, values) + option_words(ConfigKey::SystemPrompt, values)
        + option_words(ConfigKey::UserPrompt, values)
}

/// The words of a subcommand of `config`. Keys and values stand after `--`,
/// so that they may begin with a dash.
pub open spec fn config_words(command: ConfigCommandsView) -> Seq<Seq<char>> {
    match command {
        ConfigCommandsView::Get { key } => seq!["get"@, seq!['-', '-'], key],
        ConfigCommandsView::SetKey { key, value } => match value {
            Some(v) => seq!["set"@, seq!['-', '-'], key, v],
            None => seq!["set"@, seq!['-', '-'], key],
        },
        ConfigCommandsView::Setup { values } => seq!["setup"@] + setup_words(values),
        ConfigCommandsView::Show => seq!["show"@],
        ConfigCommandsView::List => seq!["list"@],
    }
}

/// The words of the subcommand, if there is one.
pub open spec fn command_words(command: Option<CommandsView>) -> Seq<Seq<char>> {
    match command {
        None => Seq::empty(),
        Some(CommandsView::Ping) => seq!["ping"@],
        Some(CommandsView::Config(inner)) => seq!["config"@] + config_words(inner),
    }
}

/// The switches of a command line.
pub open spec fn switches_of(cli: CliView) -> Switches {
    Switches { add: cli.auto_add, commit: cli.auto_commit, push: cli.auto_push }
}

/// A line that spells `cli`, for a program called `program`.
pub open spec fn line_of(program: Seq<char>, cli: CliView) -> Seq<Seq<char>> {
    seq![program] + switch_words(switches_of(cli)) + command_words(cli.command)
}

/// What is known of the words of the grammar.
proof fn lemma_words()
    ensures
        "ping"@.len() == 4 && "ping"@[0] == 'p',
        "config"@.len() == 6 && "config"@[0] == 'c',
        "help"@.len() == 4 && "help"@[0] == 'h',
        "get"@.len() == 3 && "get"@[0] == 'g',
        "set"@.len() == 3 && "set"@[0] == 's',
        "setup"@.len() == 5 && "setup"@[0] == 's',
        "show"@.len() == 4 && "show"@[0] == 's',
        "list"@.len() == 4 && "list"@[0] == 'l',
{
    reveal_strlit("ping");
    reveal_strlit("config");
    reveal_strlit("help");
    reveal_strlit("get");
    reveal_strlit("set");
    reveal_strlit("setup");
    reveal_strlit("show");
    reveal_strlit("list");
}

/// One short switch that is not on yet turns its switch on.
proof fn lemma_switch_step(args: Seq<Seq<char>>, i: int, on: Switches, letter: char)
    requires
        0 <= i < args.len(),
        args[i] == switch_word(letter),
        (letter == 'a' && !on.add) || (letter == 'c' && !on.commit) || (letter == 'p' && !on.push),
    ensures
        parse_top(args, i, on) == parse_top(
            args,
            i + 1,
            Switches {
                add: on.add || letter == 'a',
                commit: on.commit || letter == 'c',
                push: on.push || letter == 'p',
            },
        ),
{
    lemma_words();
    let a = args[i];
    assert(a.len() == 2 && a[0] == '-' && a[1] == letter);
    assert(is_short(a));
    reveal_with_fuel(bundle, 3);
    let after = Switches {
        add: on.add || letter == 'a',
        commit: on.commit || letter == 'c',
        push: on.push || letter == 'p',
    };
    assert(bundle(a, 1, on, i) == Ok::<Switches, CliError>(after));
}

/// The switch words turn on exactly their switches.
proof fn lemma_switches_read(args: Seq<Seq<char>>, on: Switches, rest: Seq<Seq<char>>)
    requires
        args.len() >= 1,
        args.subrange(1, args.len() as int) == switch_words(on) + rest,
    ensures
        parse_top(args, 1, Switches { add: false, commit: false, push: false }) == parse_top(
            args,
            1 + switch_words(on).len() as int,
            on,
        ),
{
    let tail = args.subrange(1, args.len() as int);
    let words = switch_words(on);
    assert(tail.len() == args.len() - 1);
    assert(tail.len() == words.len() + rest.len());
    assert forall|k: int| 0 <= k < words.len() implies args[1 + k] == words[k] by {
        assert(tail[k] == args[1 + k]);
        assert((words + rest)[k] == words[k]);
    }
    let none = Switches { add: false, commit: false, push: false };
    let i0 = 1int;
    let on1 = Switches { add: on.add, commit: false, push: false };
    let i1 = i0 + if on.add { 1int } else { 0 };
    if on.add {
        assert(words[0] == switch_word('a'));
        lemma_switch_step(args, i0, none, 'a');
    }
    assert(parse_top(args, 1, none) == parse_top(args, i1, on1));
    let on2 = Switches { add: on.add, commit: on.commit, push: false };
    let i2 = i1 + if on.commit { 1int } else { 0 };
    if on.commit {
        assert(words[i1 - 1] == switch_word('c'));
        lemma_switch_step(args, i1, on1, 'c');
    }
    assert(parse_top(args, i1, on1) == parse_top(args, i2, on2));
    if on.push {
        assert(words[i2 - 1] == switch_word('p'));
        lemma_switch_step(args, i2, on2, 'p');
    }
}

/// A search that starts in a stretch without `c` may as well start at the
/// stretch's end.
proof fn lemma_index_from_skips(s: Seq<char>, c: char, from: int, to: int)
    requires
        0 <= from <= to <= s.len(),
        forall|k: int| from <= k < to ==> s[k] != c,
    ensures
        index_from(s, c, from) == index_from(s, c, to),
    decreases to - from,
{
    if from < to {
        lemma_index_from_skips(s, c, from + 1, to);
    }
}

/// What is known of the option names: none holds `=`, each is found again
/// under its own key, and they differ in length.
proof fn lemma_option_names(key: ConfigKey)
    ensures
        forall|k: int| 0 <= k < option_name(key).len() ==> option_name(key)[k] != '=',
        option_named(option_name(key)) == Some(key),
        3 <= option_name(key).len(),
{
    reveal_strlit("api-token");
    reveal_strlit("api-base-url");
    reveal_strlit("model");
    reveal_strlit("system-prompt");
    reveal_strlit("user-prompt");
    assert("api-token"@.len() == 9);
    assert("api-base-url"@.len() == 12);
    assert("model"@.len() == 5);
    assert("system-prompt"@.len() == 13);
    assert("user-prompt"@.len() == 11);
}

/// One option with its value attached stores the value.
proof fn lemma_option_step(
    args: Seq<Seq<char>>,
    i: int,
    values: ConfigView,
    key: ConfigKey,
    value: Seq<char>,
)
    requires
        0 <= i < args.len(),
        args[i] == option_word(key, value),
        values.value(key) is None,
    ensures
        parse_setup(args, i, values) == parse_setup(args, i + 1, values.with(key, Some(value))),
{
    let a = args[i];
    let name = option_name(key);
    lemma_option_names(key);
    let at = 2 + name.len() as int;
    assert(a.len() == at + 1 + value.len());
    assert(a[0] == '-' && a[1] == '-');
    assert(a[at] == '=');
    assert forall|k: int| 2 <= k < at implies a[k] != '=' by {
        assert(a[k] == name[k - 2]);
    }
    lemma_index_from_skips(a, '=', 2, at);
    assert(index_from(a, '=', 2) == at);
    assert(long_name(a) =~= name);
    assert(long_value(a) == Some(a.subrange(at + 1, a.len() as int)));
    assert(a.subrange(at + 1, a.len() as int) =~= value);
    assert(is_long(a));
    assert(!is_escape(a));
}

/// The option words of `config setup` store exactly their values.
proof fn lemma_setup_read(args: Seq<Seq<char>>, i: int, values: ConfigView)
    requires
        0 <= i <= args.len(),
        args.subrange(i, args.len() as int) == setup_words(values),
    ensures
        parse_setup(args, i, nothing_set()) == Ok::<ConfigView, CliError>(values),
{
    let tail = args.subrange(i, args.len() as int);
    let w1 = option_words(ConfigKey::ApiToken, values);
    let w2 = option_words(ConfigKey::ApiBaseUrl, values);
    let w3 = option_words(ConfigKey::Model, values);
    let w4 = option_words(ConfigKey::SystemPrompt, values);
    let w5 = option_words(ConfigKey::UserPrompt, values);
    assert(tail == w1 + w2 + w3 + w4 + w5);
    assert(tail.len() == args.len() - i);
    assert forall|k: int| 0 <= k < tail.len() implies args[i + k] == tail[k] by {}

    let v0 = nothing_set();
    let i1 = i + w1.len();
    let v1 = ConfigView { api_token: values.api_token, ..v0 };
    if values.api_token is Some {
        assert(tail[0] == w1[0]);
        lemma_option_step(args, i, v0, ConfigKey::ApiToken, values.api_token->0);
    }
    assert(parse_setup(args, i, v0) == parse_setup(args, i1, v1));

    let i2 = i1 + w2.len();
    let v2 = ConfigView { api_base_url: values.api_base_url, ..v1 };
    if values.api_base_url is Some {
        assert(tail[i1 - i] == w2[0]);
        lemma_option_step(args, i1, v1, ConfigKey::ApiBaseUrl, values.api_base_url->0);
    }
    assert(parse_setup(args, i1, v1) == parse_setup(args, i2, v2));

    let i3 = i2 + w3.len();
    let v3 = ConfigView { model: values.model, ..v2 };
    if values.model is Some {
        assert(tail[i2 - i] == w3[0]);
        lemma_option_step(args, i2, v2, ConfigKey::Model, values.model->0);
    }
    assert(parse_setup(args, i2, v2) == parse_setup(args, i3, v3));

    let i4 = i3 + w4.len();
    let v4 = ConfigView { system_prompt: values.system_prompt, ..v3 };
    if values.system_prompt is Some {
        assert(tail[i3 - i] == w4[0]);
        lemma_option_step(args, i3, v3, ConfigKey::SystemPrompt, values.system_prompt->0);
    }
    assert(parse_setup(args, i3, v3) == parse_setup(args, i4, v4));

    let i5 = i4 + w5.len();
    let v5 = ConfigView { user_prompt: values.user_prompt, ..v4 };
    if values.user_prompt is Some {
        assert(tail[i4 - i] == w5[0]);
        lemma_option_step(args, i4, v4, ConfigKey::UserPrompt, values.user_prompt->0);
    }
    assert(parse_setup(args, i4, v4) == parse_setup(args, i5, v5));
    assert(i5 == args.len());
    assert(v5 == values);
}

/// The words of a subcommand of `config` are read back as that subcommand.
proof fn lemma_config_read(args: Seq<Seq<char>>, i: int, command: ConfigCommandsView)
    requires
        0 <= i <= args.len(),
        args.subrange(i, args.len() as int) == config_words(command),
    ensures
        parse_config(args, i) == Ok::<ConfigCommandsView, CliError>(command),
{
    lemma_words();
    let tail = args.subrange(i, args.len() as int);
    assert(tail.len() == args.len() - i);
    assert forall|k: int| 0 <= k < tail.len() implies args[i + k] == tail[k] by {}
    let dashes = seq!['-', '-'];
    assert(is_escape(dashes));
    match command {
        ConfigCommandsView::Get { key } => {
            assert(tail[0] == "get"@ && tail[1] == dashes && tail[2] == key);
            assert(args.len() == i + 3);
            let none = Seq::<Seq<char>>::empty();
            assert(parse_values(args, i + 3, none.push(key), 1, true) == Ok::<
                Seq<Seq<char>>,
                CliError,
            >(none.push(key)));
            assert(parse_values(args, i + 2, none, 1, true) == parse_values(
                args,
                i + 3,
                none.push(key),
                1,
                true,
            ));
            assert(parse_values(args, i + 1, none, 1, false) == parse_values(
                args,
                i + 2,
                none,
                1,
                true,
            ));
            assert(none.push(key)[0] == key);
        },
        ConfigCommandsView::SetKey { key, value } => {
            assert(tail[0] == "set"@ && tail[1] == dashes && tail[2] == key);
            let none = Seq::<Seq<char>>::empty();
            assert(parse_values(args, i + 1, none, 2, false) == parse_values(
                args,
                i + 2,
                none,
                2,
                true,
            ));
            assert(parse_values(args, i + 2, none, 2, true) == parse_values(
                args,
                i + 3,
                none.push(key),
                2,
                true,
            ));
            assert(none.push(key)[0] == key);
            match value {
                Some(v) => {
                    assert(tail[3] == v);
                    assert(args.len() == i + 4);
                    assert(parse_values(args, i + 4, none.push(key).push(v), 2, true) == Ok::<
                        Seq<Seq<char>>,
                        CliError,
                    >(none.push(key).push(v)));
                    assert(parse_values(args, i + 3, none.push(key), 2, true) == parse_values(
                        args,
                        i + 4,
                        none.push(key).push(v),
                        2,
                        true,
                    ));
                    assert(none.push(key).push(v)[0] == key);
                    assert(none.push(key).push(v)[1] == v);
                },
                None => {
                    assert(args.len() == i + 3);
                    assert(parse_values(args, i + 3, none.push(key), 2, true) == Ok::<
                        Seq<Seq<char>>,
                        CliError,
                    >(none.push(key)));
                },
            }
        },
        ConfigCommandsView::Setup { values } => {
            assert(tail[0] == "setup"@);
            assert(tail.subrange(1, tail.len() as int) =~= setup_words(values));
            assert(args.subrange(i + 1, args.len() as int) =~= tail.subrange(1, tail.len() as int));
            lemma_setup_read(args, i + 1, values);
        },
        ConfigCommandsView::Show => {
            assert(tail[0] == "show"@);
        },
        ConfigCommandsView::List => {
            assert(tail[0] == "list"@);
        },
    }
}

/// The words of a subcommand, or no words, are read back as that.
proof fn lemma_command_read(
    args: Seq<Seq<char>>,
    i: int,
    on: Switches,
    command: Option<CommandsView>,
)
    requires
        0 <= i <= args.len(),
        args.subrange(i, args.len() as int) == command_words(command),
    ensures
        parse_top(args, i, on) == Ok::<CliView, CliError>(
            CliView { auto_add: on.add, auto_commit: on.commit, auto_push: on.push, command },
        ),
{
    lemma_words();
    let tail = args.subrange(i, args.len() as int);
    assert(tail.len() == args.len() - i);
    assert forall|k: int| 0 <= k < tail.len() implies args[i + k] == tail[k] by {}
    match command {
        None => {},
        Some(CommandsView::Ping) => {
            assert(tail[0] == "ping"@);
        },
        Some(CommandsView::Config(inner)) => {
            assert(tail[0] == "config"@);
            assert(tail.subrange(1, tail.len() as int) =~= config_words(inner));
            assert(args.subrange(i + 1, args.len() as int) =~= tail.subrange(1, tail.len() as int));
            lemma_config_read(args, i + 1, inner);
        },
    }
}

/// Every command has a line: the arguments [`line_of`] are read back by the
/// grammar as exactly the command they were written for, whatever the
/// program is called and whatever the keys and values hold.
pub proof fn lemma_every_command_has_a_line(program: Seq<char>, cli: CliView)
    ensures
        parse(line_of(program, cli)) == Ok::<CliView, CliError>(cli),
{
    let args = line_of(program, cli);
    let on = switches_of(cli);
    let words = switch_words(on);
    let rest = command_words(cli.command);
    assert(args.subrange(1, args.len() as int) =~= words + rest);
    lemma_switches_read(args, on, rest);
    let n = 1 + words.len() as int;
    assert(args.subrange(n, args.len() as int) =~= rest);
    lemma_command_read(args, n, on, cli.command);
}

} // verus!
