//! What each command does, as plans and steps for the caller to carry out.
//!
//! A settings command becomes a list of steps: settings to save, things to
//! tell the user, tables to show. The caller performs them in order and stops
//! at the first that fails.

use crate::cli::{ConfigCommands, ConfigCommandsView};
use crate::config::{Config, ConfigError, ConfigErrorView, ConfigKey, ConfigView, key_named};
use crate::ui::{can_mask, config_rows, is_maskable, mask_token, masked, row_views, table, Row, RowView};
use vstd::prelude::*;
use vstd::string::*;

verus! {

/// Something to tell the user about the settings.
#[derive(Debug, PartialEq, Eq)]
pub enum ConfigReport {
    /// Settings are about to be updated.
    Updating,
    /// The value found under a name, as the name was typed.
    Value { name: String, value: Option<String> },
    /// A setting was stored; `shown` is its value as it may be displayed.
    Stored { key: ConfigKey, shown: String },
    /// A setting was unset.
    Cleared { key: ConfigKey },
    /// `setup` was given nothing to store.
    NoChanges,
    /// `setup` stored what it was given.
    Updated,
}

/// One step of a settings command.
#[derive(Debug, PartialEq, Eq)]
pub enum ConfigStep {
    /// Write these settings to the user-wide file.
    Save(Config),
    /// Tell the user.
    Tell(ConfigReport),
    /// Show where the settings come from.
    ShowSources,
    /// Show these rows as a table.
    ShowTable(Vec<Row>),
}

/// Mathematical model of [`ConfigReport`].
pub enum ConfigReportView {
    Updating,
    Value { name: Seq<char>, value: Option<Seq<char>> },
    Stored { key: ConfigKey, shown: Seq<char> },
    Cleared { key: ConfigKey },
    NoChanges,
    Updated,
}

/// Mathematical model of [`ConfigStep`].
pub enum ConfigStepView {
    Save(ConfigView),
    Tell(ConfigReportView),
    ShowSources,
    ShowTable(Seq<RowView>),
}

impl View for ConfigReport {
    type V = ConfigReportView;

    open spec fn view(&self) -> ConfigReportView {
        match self {
            ConfigReport::Updating => ConfigReportView::Updating,
            ConfigReport::Value { name, value } => ConfigReportView::Value {
                name: name@,
                value: value.deep_view(),
            },
            ConfigReport::Stored { key, shown } => ConfigReportView::Stored {
                key: *key,
                shown: shown@,
            },
            ConfigReport::Cleared { key } => ConfigReportView::Cleared { key: *key },
            ConfigReport::NoChanges => ConfigReportView::NoChanges,
            ConfigReport::Updated => ConfigReportView::Updated,
        }
    }
}

impl View for ConfigStep {
    type V = ConfigStepView;

    open spec fn view(&self) -> ConfigStepView {
        match self {
            ConfigStep::Save(config) => ConfigStepView::Save(config@),
            ConfigStep::Tell(report) => ConfigStepView::Tell(report@),
            ConfigStep::ShowSources => ConfigStepView::ShowSources,
            ConfigStep::ShowTable(rows) => ConfigStepView::ShowTable(row_views(rows@)),
        }
    }
}

/// The models of a list of steps.
pub open spec fn step_views(steps: Seq<ConfigStep>) -> Seq<ConfigStepView> {
    steps.map_values(|step: ConfigStep| step@)
}

/// A stored value as it may be displayed: the access token masked, every
/// other value as it is.
pub open spec fn shown_value(key: ConfigKey, value: Seq<char>) -> Seq<char> {
    if key == ConfigKey::ApiToken {
        masked(value)
    } else {
        value
    }
}

/// What `setup` does for one setting: where a value is given, store it, save,
/// and report; where none is given, nothing.
pub open spec fn setup_one(
    so_far: (ConfigView, Seq<ConfigStepView>),
    key: ConfigKey,
    given: Option<Seq<char>>,
) -> (ConfigView, Seq<ConfigStepView>) {
    match given {
        Some(value) => {
            let next = so_far.0.with(key, Some(value));
            (
                next,
                so_far.1.push(ConfigStepView::Save(next)).push(
                    ConfigStepView::Tell(
                        ConfigReportView::Stored { key, shown: shown_value(key, value) },
                    ),
                ),
            )
        },
        None => so_far,
    }
}

/// What `setup` does with the given `values` on the loaded `config`: the five
/// settings in their fixed order, then a closing report.
pub open spec fn setup_plan(values: ConfigView, config: ConfigView) -> Seq<ConfigStepView> {
    let s0 = (config, Seq::<ConfigStepView>::empty());
    let s1 = setup_one(s0, ConfigKey::ApiToken, values.api_token);
    let s2 = setup_one(s1, ConfigKey::ApiBaseUrl, values.api_base_url);
    let s3 = setup_one(s2, ConfigKey::Model, values.model);
    let s4 = setup_one(s3, ConfigKey::SystemPrompt, values.system_prompt);
    let s5 = setup_one(s4, ConfigKey::UserPrompt, values.user_prompt);
    s5.1.push(
        ConfigStepView::Tell(
            if s5.1.len() == 0 {
                ConfigReportView::NoChanges
            } else {
                ConfigReportView::Updated
            },
        ),
    )
}

/// The settings that `setup` leaves behind.
pub open spec fn setup_settings(values: ConfigView, config: ConfigView) -> ConfigView {
    let s0 = (config, Seq::<ConfigStepView>::empty());
    let s1 = setup_one(s0, ConfigKey::ApiToken, values.api_token);
    let s2 = setup_one(s1, ConfigKey::ApiBaseUrl, values.api_base_url);
    let s3 = setup_one(s2, ConfigKey::Model, values.model);
    let s4 = setup_one(s3, ConfigKey::SystemPrompt, values.system_prompt);
    let s5 = setup_one(s4, ConfigKey::UserPrompt, values.user_prompt);
    s5.0
}

/// How many values are given.
pub open spec fn given_count(values: ConfigView) -> nat {
    let one = |v: Option<Seq<char>>| if v is Some { 1nat } else { 0nat };
    one(values.api_token) + one(values.api_base_url) + one(values.model) + one(
        values.system_prompt,
    ) + one(values.user_prompt)
}

/// `setup` leaves the loaded settings overridden by the given values. Its
/// plan saves once for every value given and reports it, closes with one
/// more report, and what it saves last are the settings it leaves behind.
pub proof fn lemma_setup_overrides(values: ConfigView, config: ConfigView)
    ensures
        setup_settings(values, config) == config.overridden_by(values),
        setup_plan(values, config).len() == 2 * given_count(values) + 1,
        given_count(values) == 0 ==> setup_plan(values, config) == seq![
            ConfigStepView::Tell(ConfigReportView::NoChanges),
        ],
        given_count(values) > 0 ==> setup_plan(values, config).last() == ConfigStepView::Tell(
            ConfigReportView::Updated,
        ) && setup_plan(values, config)[2 * given_count(values) - 2] == ConfigStepView::Save(
            config.overridden_by(values),
        ),
{
    let s0 = (config, Seq::<ConfigStepView>::empty());
    let s1 = setup_one(s0, ConfigKey::ApiToken, values.api_token);
    let s2 = setup_one(s1, ConfigKey::ApiBaseUrl, values.api_base_url);
    let s3 = setup_one(s2, ConfigKey::Model, values.model);
    let s4 = setup_one(s3, ConfigKey::SystemPrompt, values.system_prompt);
    let s5 = setup_one(s4, ConfigKey::UserPrompt, values.user_prompt);
    assert(s5.0 == config.overridden_by(values));
    assert(s5.1.len() == 2 * given_count(values));
    if given_count(values) == 0 {
        assert(setup_plan(values, config) =~= seq![
            ConfigStepView::Tell(ConfigReportView::NoChanges),
        ]);
    }
}

/// A settings command is refused exactly when it is to store under a name
/// that is no setting; every other command has a plan, and only `set` and
/// `setup` plan to write.
pub proof fn lemma_plan_exists(command: ConfigCommandsView, config: ConfigView)
    ensures
        config_plan(command, config) is Err <==> (command matches ConfigCommandsView::SetKey {
            key,
            ..
        } && key_named(key) is None),
        (command is Get || command is Show || command is List) ==> (config_plan(command, config)
            matches Ok(steps) && forall|i: int| 0 <= i < steps.len() ==> !(steps[i] is Save)),
{
}

/// What a settings command does on the loaded settings `config`.
pub open spec fn config_plan(command: ConfigCommandsView, config: ConfigView) -> Result<
    Seq<ConfigStepView>,
    ConfigErrorView,
> {
    match command {
        ConfigCommandsView::Get { key } => Ok(
            seq![ConfigStepView::Tell(ConfigReportView::Value { name: key, value: config.lookup(key) })],
        ),
        ConfigCommandsView::SetKey { key, value } => match key_named(key) {
            Some(known) => Ok(
                seq![
                    ConfigStepView::Save(config.with(known, value)),
                    ConfigStepView::Tell(
                        match value {
                            Some(v) => ConfigReportView::Stored { key: known, shown: v },
                            None => ConfigReportView::Cleared { key: known },
                        },
                    ),
                ],
            ),
            None => Err(ConfigErrorView::UnknownKey(key)),
        },
        ConfigCommandsView::Setup { values } => Ok(setup_plan(values, config)),
        ConfigCommandsView::Show | ConfigCommandsView::List => Ok(
            seq![ConfigStepView::ShowSources, ConfigStepView::ShowTable(table(config))],
        ),
    }
}

/// Whether every token that the command would display can be masked: the
/// one given to `setup`, the stored one for `show` and `list`.
pub open spec fn displayable(command: ConfigCommandsView, config: ConfigView) -> bool {
    match command {
        ConfigCommandsView::Setup { values } => values.api_token matches Some(token) ==> can_mask(
            token,
        ),
        ConfigCommandsView::Show | ConfigCommandsView::List => config.api_token matches Some(token)
            ==> can_mask(token),
        _ => true,
    }
}

/// What a settings command tells the user before the settings are loaded.
pub open spec fn opening_of(command: ConfigCommandsView) -> Seq<ConfigReportView> {
    if command is Setup {
        seq![ConfigReportView::Updating]
    } else {
        Seq::empty()
    }
}

/// Whether an optional token can be masked.
fn token_maskable(token: &Option<String>) -> (r: bool)
    ensures
        r == (token.deep_view() matches Some(t) ==> can_mask(t)),
{
    match token {
        Some(t) => is_maskable(t.as_str()),
        None => true,
    }
}

/// Whether [`handle_config_command`] accepts the command on these settings.
pub fn is_displayable(command: &ConfigCommands, config: &Config) -> (r: bool)
    ensures
        r == displayable(command@, config@),
{
    match command {
        ConfigCommands::Setup { api_token, .. } => token_maskable(api_token),
        ConfigCommands::Show | ConfigCommands::List => token_maskable(&config.api_token),
        _ => true,
    }
}

/// What a settings command tells the user before the settings are loaded.
pub fn opening(command: &ConfigCommands) -> (r: Vec<ConfigReport>)
    ensures
        r@.map_values(|report: ConfigReport| report@) == opening_of(command@),
{
    let mut reports: Vec<ConfigReport> = Vec::new();
    match command {
        ConfigCommands::Setup { .. } => {
            reports.push(ConfigReport::Updating);
        },
        _ => {},
    }
    assert(reports@.map_values(|report: ConfigReport| report@) =~= opening_of(command@));
    reports
}

/// Carries out `setup` for one setting.
fn setup_setting(config: &mut Config, steps: &mut Vec<ConfigStep>, key: ConfigKey, given: &Option<String>)
    requires
        key == ConfigKey::ApiToken ==> (given.deep_view() matches Some(t) ==> can_mask(t)),
    ensures
        (final(config)@, step_views(final(steps)@)) == setup_one(
            (old(config)@, step_views(old(steps)@)),
            key,
            given.deep_view(),
        ),
{
    match given {
        Some(value) => {
            config.replace(key, Some(value.clone()));
            let shown = match key {
                ConfigKey::ApiToken => mask_token(value.as_str()),
                _ => value.clone(),
            };
            let ghost before = step_views(steps@);
            steps.push(ConfigStep::Save(config.clone()));
            steps.push(ConfigStep::Tell(ConfigReport::Stored { key, shown }));
            assert(step_views(steps@) =~= before.push(ConfigStepView::Save(config@)).push(
                ConfigStepView::Tell(
                    ConfigReportView::Stored { key, shown: shown_value(key, value@) },
                ),
            ));
        },
        None => {},
    }
}

/// Plans a settings command on the loaded settings: the steps to carry out,
/// in order, or the refusal of a name that is no setting.
pub fn handle_config_command(command: &ConfigCommands, config: Config) -> (r: Result<
    Vec<ConfigStep>,
    ConfigError,
>)
    requires
        displayable(command@, config@),
    ensures
        match r {
            Ok(steps) => config_plan(command@, config@) == Ok::<
                Seq<ConfigStepView>,
                ConfigErrorView,
            >(step_views(steps@)),
            Err(e) => config_plan(command@, config@) == Err::<
                Seq<ConfigStepView>,
                ConfigErrorView,
            >(e@),
        },
{
    let ghost loaded = config@;
    let mut config = config;
    let mut steps: Vec<ConfigStep> = Vec::new();
    match command {
        ConfigCommands::Get { key } => {
            let value = match config.get(key.as_str()) {
                Some(found) => Some(found.clone()),
                None => None,
            };
            steps.push(ConfigStep::Tell(ConfigReport::Value { name: key.clone(), value }));
            assert(step_views(steps@) =~= config_plan(command@, loaded)->Ok_0);
        },
        ConfigCommands::SetKey { key, value } => {
            match ConfigKey::parse(key.as_str()) {
                Some(known) => {
                    config.replace(known, value.clone());
                    let report = match value {
                        Some(v) => ConfigReport::Stored { key: known, shown: v.clone() },
                        None => ConfigReport::Cleared { key: known },
                    };
                    steps.push(ConfigStep::Save(config));
                    steps.push(ConfigStep::Tell(report));
                    assert(step_views(steps@) =~= config_plan(command@, loaded)->Ok_0);
                },
                None => {
                    return Err(ConfigError::UnknownKey(key.clone()));
                },
            }
        },
        ConfigCommands::Setup { api_token, api_base_url, model, system_prompt, user_prompt } => {
            assert(step_views(steps@) =~= Seq::<ConfigStepView>::empty());
            setup_setting(&mut config, &mut steps, ConfigKey::ApiToken, api_token);
            setup_setting(&mut config, &mut steps, ConfigKey::ApiBaseUrl, api_base_url);
            setup_setting(&mut config, &mut steps, ConfigKey::Model, model);
            setup_setting(&mut config, &mut steps, ConfigKey::SystemPrompt, system_prompt);
            setup_setting(&mut config, &mut steps, ConfigKey::UserPrompt, user_prompt);
            let ghost before = step_views(steps@);
            let closing = if steps.len() == 0 {
                ConfigReport::NoChanges
            } else {
                ConfigReport::Updated
            };
            steps.push(ConfigStep::Tell(closing));
            assert(step_views(steps@) =~= before.push(ConfigStepView::Tell(closing@)));
        },
        ConfigCommands::Show | ConfigCommands::List => {
            let rows = config_rows(&config);
            steps.push(ConfigStep::ShowSources);
            steps.push(ConfigStep::ShowTable(rows));
            assert(step_views(steps@) =~= config_plan(command@, loaded)->Ok_0);
        },
    }
    Ok(steps)
}

} // verus!
