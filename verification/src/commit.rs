//! The commit workflow as a state machine.
//!
//! The caller starts with [`Event::Begin`], carries out each [`Action`] it is
//! handed, and reports what came of it as the next [`Event`], until it is
//! handed [`Action::Stop`]. The machine decides; it performs nothing itself.

use crate::config::{Config, ConfigView};
use crate::git;
use crate::llm::{commit_call_of, ChatCall, ChatCallView};
use crate::text::{chars_of, lowercased, owned, replace_char, replaced, to_lowercase, trim, trimmed};
use vstd::prelude::*;
use vstd::string::*;

verus! {

/// What the user asked for on the command line.
#[derive(Clone, Copy, Debug, PartialEq, Eq, Structural)]
pub struct CommitOptions {
    /// Stage all changes first.
    pub auto_add: bool,
    /// Commit without asking.
    pub auto_commit: bool,
    /// Push after the commit.
    pub auto_push: bool,
}

/// Where the workflow stands: which answer it is waiting for.
#[derive(Clone, Copy, Debug, PartialEq, Eq, Structural)]
pub enum Phase {
    Start,
    Staging,
    CheckingRepository,
    ReadingDiff,
    Generating,
    Proposing,
    Asking,
    Committing,
    Editing,
    CommittingEdited,
    Pushing,
    Finished,
}

/// How a program that was to be run fared.
#[derive(Clone, Copy, Debug, PartialEq, Eq, Structural)]
pub enum Ran {
    /// It could not be started.
    NotStarted,
    /// It ran and reported failure.
    Failed,
    /// It ran and reported success.
    Succeeded,
}

/// Why a run ended in an error.
#[derive(Clone, Copy, Debug, PartialEq, Eq, Structural)]
pub enum Failure {
    /// `git add` could not be run or failed.
    StageFailed,
    /// `git status` or `git diff` could not be run.
    DiffFailed,
    /// No access token is configured.
    TokenMissing,
    /// The service gave no commit message.
    GenerationFailed,
    /// The user's answer could not be read.
    TerminalFailed,
    /// `git commit` could not be run.
    CommitNotStarted,
    /// The message could not be edited.
    EditFailed,
    /// `git push` could not be run.
    PushNotStarted,
    /// `git push` failed.
    PushFailed,
    /// The event reported does not answer the action handed out.
    OutOfTurn,
}

/// How a run ended.
#[derive(Clone, Copy, Debug, PartialEq, Eq, Structural)]
pub enum Outcome {
    /// Nothing is staged: there is no diff to describe.
    NothingStaged,
    /// `git status` failed: git is missing or this is no repository.
    NoRepository,
    /// The commit was made and nothing more was asked for.
    Committed,
    /// `git commit` ran and refused; nothing was pushed.
    CommitRejected,
    /// The commit was pushed.
    Pushed,
    /// The user said no.
    Cancelled,
    /// The user's answer was none of yes, modify, no.
    InvalidChoice,
    /// The run failed.
    Failed(Failure),
}

/// What the user chose when asked whether to commit.
#[derive(Clone, Copy, Debug, PartialEq, Eq, Structural)]
pub enum CommitChoice {
    Execute,
    Modify,
    Cancel,
    Invalid,
}

/// What the caller reports.
#[derive(Debug, PartialEq, Eq)]
pub enum Event {
    /// Nothing yet: the run begins.
    Begin,
    /// `git add .` was tried.
    Staged(Ran),
    /// `git status` was tried.
    RepositoryChecked(Ran),
    /// `git diff --staged` was tried: what it printed, or nothing where it
    /// could not be run.
    DiffRead(Option<String>),
    /// The service was asked: the message it gave, or nothing where it gave
    /// none.
    Generated(Option<String>),
    /// The commit command was shown.
    Proposed,
    /// The user was asked: the line typed, or nothing where it could not be
    /// read.
    Answered(Option<String>),
    /// `git commit` was tried.
    Committed(Ran),
    /// The editor was run on the message: the edited text, or nothing where
    /// that failed.
    Edited(Option<String>),
    /// `git push` was tried.
    Pushed(Ran),
}

/// What the caller is to do next.
#[derive(Debug, PartialEq, Eq)]
pub enum Action {
    /// Run `git add .`.
    StageAll,
    /// Run `git status`.
    CheckRepository,
    /// Run `git diff --staged` and read what it prints.
    ReadDiff,
    /// Send this call and read the commit message from the answer.
    Generate(ChatCall),
    /// Show this command line, which would make the commit.
    Propose(String),
    /// Ask the user whether to commit, and read a line.
    Ask,
    /// Run `git commit` with this message.
    Commit(String),
    /// Let the user edit this message.
    Edit(String),
    /// Run `git commit` with this message, which the user edited.
    CommitEdited(String),
    /// Run `git push`.
    Push,
    /// The run is over.
    Stop(Outcome),
}

/// The state of a run.
#[derive(Debug, PartialEq, Eq)]
pub struct Workflow {
    pub phase: Phase,
    pub options: CommitOptions,
    /// The commit message, once the service has proposed one.
    pub message: String,
}

/// Mathematical model of [`Event`].
pub enum EventView {
    Begin,
    Staged(Ran),
    RepositoryChecked(Ran),
    DiffRead(Option<Seq<char>>),
    Generated(Option<Seq<char>>),
    Proposed,
    Answered(Option<Seq<char>>),
    Committed(Ran),
    Edited(Option<Seq<char>>),
    Pushed(Ran),
}

/// Mathematical model of [`Action`].
pub enum ActionView {
    StageAll,
    CheckRepository,
    ReadDiff,
    Generate(ChatCallView),
    Propose(Seq<char>),
    Ask,
    Commit(Seq<char>),
    Edit(Seq<char>),
    CommitEdited(Seq<char>),
    Push,
    Stop(Outcome),
}

/// Mathematical model of [`Workflow`].
pub struct WorkflowView {
    pub phase: Phase,
    pub options: CommitOptions,
    pub message: Seq<char>,
}

impl View for Event {
    type V = EventView;

    open spec fn view(&self) -> EventView {
        match self {
            Event::Begin => EventView::Begin,
            Event::Staged(ran) => EventView::Staged(*ran),
            Event::RepositoryChecked(ran) => EventView::RepositoryChecked(*ran),
            Event::DiffRead(diff) => EventView::DiffRead(diff.deep_view()),
            Event::Generated(message) => EventView::Generated(message.deep_view()),
            Event::Proposed => EventView::Proposed,
            Event::Answered(line) => EventView::Answered(line.deep_view()),
            Event::Committed(ran) => EventView::Committed(*ran),
            Event::Edited(text) => EventView::Edited(text.deep_view()),
            Event::Pushed(ran) => EventView::Pushed(*ran),
        }
    }
}

impl View for Action {
    type V = ActionView;

    open spec fn view(&self) -> ActionView {
        match self {
            Action::StageAll => ActionView::StageAll,
            Action::CheckRepository => ActionView::CheckRepository,
            Action::ReadDiff => ActionView::ReadDiff,
            Action::Generate(call) => ActionView::Generate(call@),
            Action::Propose(command) => ActionView::Propose(command@),
            Action::Ask => ActionView::Ask,
            Action::Commit(message) => ActionView::Commit(message@),
            Action::Edit(message) => ActionView::Edit(message@),
            Action::CommitEdited(message) => ActionView::CommitEdited(message@),
            Action::Push => ActionView::Push,
            Action::Stop(outcome) => ActionView::Stop(*outcome),
        }
    }
}

impl View for Workflow {
    type V = WorkflowView;

    open spec fn view(&self) -> WorkflowView {
        WorkflowView { phase: self.phase, options: self.options, message: self.message@ }
    }
}

/// The choice that an answer spells once it is trimmed and in lower case:
/// nothing or `y...` is yes, `m...` is modify, `n...` is no.
pub open spec fn choice_of(answer: Seq<char>) -> CommitChoice {
    if answer.len() == 0 || answer[0] == 'y' {
        CommitChoice::Execute
    } else if answer[0] == 'm' {
        CommitChoice::Modify
    } else if answer[0] == 'n' {
        CommitChoice::Cancel
    } else {
        CommitChoice::Invalid
    }
}

/// The choice that a line typed by the user spells.
pub open spec fn choice_of_line(line: Seq<char>) -> CommitChoice {
    choice_of(lowercased(trimmed(line)))
}

/// The command line shown for a message: the message in double quotes, with
/// a backslash before every double quote in it.
pub open spec fn command_of(message: Seq<char>) -> Seq<char> {
    "git commit -m \""@ + replaced(message, '"', "\\\""@) + "\""@
}

impl WorkflowView {
    /// The state of a run that has not begun.
    pub open spec fn initial(options: CommitOptions) -> WorkflowView {
        WorkflowView { phase: Phase::Start, options, message: Seq::empty() }
    }

    /// This state, moved to `phase`.
    pub open spec fn at(self, phase: Phase) -> WorkflowView {
        WorkflowView { phase, ..self }
    }

    /// The end of the run with `outcome`.
    pub open spec fn stop(self, outcome: Outcome) -> (WorkflowView, ActionView) {
        (self.at(Phase::Finished), ActionView::Stop(outcome))
    }

    /// The next state and the next action, given what the caller reports.
    pub open spec fn step(self, config: ConfigView, event: EventView) -> (WorkflowView, ActionView) {
        match (self.phase, event) {
            (Phase::Start, EventView::Begin) => if self.options.auto_add {
                (self.at(Phase::Staging), ActionView::StageAll)
            } else {
                (self.at(Phase::CheckingRepository), ActionView::CheckRepository)
            },
            (Phase::Staging, EventView::Staged(ran)) => if ran == Ran::Succeeded {
                (self.at(Phase::CheckingRepository), ActionView::CheckRepository)
            } else {
                self.stop(Outcome::Failed(Failure::StageFailed))
            },
            (Phase::CheckingRepository, EventView::RepositoryChecked(ran)) => match ran {
                Ran::NotStarted => self.stop(Outcome::Failed(Failure::DiffFailed)),
                Ran::Failed => self.stop(Outcome::NoRepository),
                Ran::Succeeded => (self.at(Phase::ReadingDiff), ActionView::ReadDiff),
            },
            (Phase::ReadingDiff, EventView::DiffRead(read)) => match read {
                None => self.stop(Outcome::Failed(Failure::DiffFailed)),
                Some(diff) => if diff.len() == 0 {
                    self.stop(Outcome::NothingStaged)
                } else {
                    match commit_call_of(config, diff) {
                        Ok(call) => (self.at(Phase::Generating), ActionView::Generate(call)),
                        Err(_) => self.stop(Outcome::Failed(Failure::TokenMissing)),
                    }
                },
            },
            (Phase::Generating, EventView::Generated(given)) => match given {
                None => self.stop(Outcome::Failed(Failure::GenerationFailed)),
                Some(message) => (
                    WorkflowView { phase: Phase::Proposing, message, ..self },
                    ActionView::Propose(command_of(message)),
                ),
            },
            (Phase::Proposing, EventView::Proposed) => if self.options.auto_commit {
                (self.at(Phase::Committing), ActionView::Commit(self.message))
            } else {
                (self.at(Phase::Asking), ActionView::Ask)
            },
            (Phase::Asking, EventView::Answered(typed)) => match typed {
                None => self.stop(Outcome::Failed(Failure::TerminalFailed)),
                Some(line) => match choice_of_line(line) {
                    CommitChoice::Execute => (
                        self.at(Phase::Committing),
                        ActionView::Commit(self.message),
                    ),
                    CommitChoice::Modify => (self.at(Phase::Editing), ActionView::Edit(self.message)),
                    CommitChoice::Cancel => self.stop(Outcome::Cancelled),
                    CommitChoice::Invalid => self.stop(Outcome::InvalidChoice),
                },
            },
            (Phase::Committing, EventView::Committed(ran)) => match ran {
                Ran::NotStarted => self.stop(Outcome::Failed(Failure::CommitNotStarted)),
                Ran::Failed => if self.options.auto_push {
                    (self.at(Phase::Pushing), ActionView::Push)
                } else {
                    self.stop(Outcome::CommitRejected)
                },
                Ran::Succeeded => if self.options.auto_push {
                    (self.at(Phase::Pushing), ActionView::Push)
                } else {
                    self.stop(Outcome::Committed)
                },
            },
            (Phase::Editing, EventView::Edited(edited)) => match edited {
                None => self.stop(Outcome::Failed(Failure::EditFailed)),
                Some(message) => (
                    WorkflowView { phase: Phase::CommittingEdited, message, ..self },
                    ActionView::CommitEdited(message),
                ),
            },
            (Phase::CommittingEdited, EventView::Committed(ran)) => match ran {
                Ran::NotStarted => self.stop(Outcome::Failed(Failure::CommitNotStarted)),
                Ran::Failed => self.stop(Outcome::CommitRejected),
                Ran::Succeeded => if self.options.auto_push {
                    (self.at(Phase::Pushing), ActionView::Push)
                } else {
                    self.stop(Outcome::Committed)
                },
            },
            (Phase::Pushing, EventView::Pushed(ran)) => match ran {
                Ran::NotStarted => self.stop(Outcome::Failed(Failure::PushNotStarted)),
                Ran::Failed => self.stop(Outcome::Failed(Failure::PushFailed)),
                Ran::Succeeded => self.stop(Outcome::Pushed),
            },
            _ => self.stop(Outcome::Failed(Failure::OutOfTurn)),
        }
    }
}

// ---------------------------------------------------------------------
// What holds of every run
// ---------------------------------------------------------------------
/// An upper bound on the number of steps a run can still take from `phase`.
pub open spec fn steps_left(phase: Phase) -> nat {
    match phase {
        Phase::Start => 10,
        Phase::Staging => 9,
        Phase::CheckingRepository => 8,
        Phase::ReadingDiff => 7,
        Phase::Generating => 6,
        Phase::Proposing => 5,
        Phase::Asking => 4,
        Phase::Editing => 3,
        Phase::Committing => 2,
        Phase::CommittingEdited => 2,
        Phase::Pushing => 1,
        Phase::Finished => 0,
    }
}

/// The state after the caller has reported `events` one after the other.
pub open spec fn run(state: WorkflowView, config: ConfigView, events: Seq<EventView>) -> WorkflowView
    decreases events.len(),
{
    if events.len() == 0 {
        state
    } else {
        run(state.step(config, events[0]).0, config, events.drop_first())
    }
}

/// Every step of a run that is not over brings it closer to its end, whatever
/// the caller reports; and the run is over exactly when the caller is told to
/// stop.
pub proof fn lemma_step_advances(state: WorkflowView, config: ConfigView, event: EventView)
    ensures
        state.phase != Phase::Finished ==> steps_left(state.step(config, event).0.phase)
            < steps_left(state.phase),
        state.step(config, event).0.phase == Phase::Finished <==> state.step(config, event).1 is Stop,
        state.phase == Phase::Finished ==> state.step(config, event) == (
            state,
            ActionView::Stop(Outcome::Failed(Failure::OutOfTurn)),
        ),
{
}

/// A run is over after at most as many events as [`steps_left`] says: ten
/// from the start.
pub proof fn lemma_run_ends(state: WorkflowView, config: ConfigView, events: Seq<EventView>)
    requires
        events.len() >= steps_left(state.phase),
    ensures
        run(state, config, events).phase == Phase::Finished,
    decreases events.len(),
{
    if events.len() > 0 {
        lemma_step_advances(state, config, events[0]);
        lemma_run_ends(state.step(config, events[0]).0, config, events.drop_first());
    }
}

/// The options of a run never change.
pub proof fn lemma_options_kept(state: WorkflowView, config: ConfigView, event: EventView)
    ensures
        state.step(config, event).0.options == state.options,
{
}

/// The service is asked only for a diff that is not empty, and only with an
/// access token.
pub proof fn lemma_generate_needs_diff_and_token(
    state: WorkflowView,
    config: ConfigView,
    event: EventView,
)
    requires
        state.step(config, event).1 is Generate,
    ensures
        state.phase == Phase::ReadingDiff,
        event matches EventView::DiffRead(Some(diff)) && diff.len() > 0 && commit_call_of(
            config,
            diff,
        ) == Ok::<ChatCallView, crate::config::ConfigErrorView>(state.step(config, event).1->Generate_0),
        config.api_token is Some,
{
}

/// The message as the service gave it is committed only with the user's
/// consent: given beforehand by the commit option, or given as the answer to
/// the question.
pub proof fn lemma_commit_needs_consent(state: WorkflowView, config: ConfigView, event: EventView)
    requires
        state.step(config, event).1 is Commit,
    ensures
        state.step(config, event).1->Commit_0 == state.message,
        state.phase == Phase::Proposing || state.phase == Phase::Asking,
        state.phase == Phase::Proposing ==> state.options.auto_commit,
        state.phase == Phase::Asking ==> (event matches EventView::Answered(Some(line))
            && choice_of_line(line) == CommitChoice::Execute),
{
}

/// An edited message is committed as the editor left it.
pub proof fn lemma_edited_message_is_committed(
    state: WorkflowView,
    config: ConfigView,
    event: EventView,
)
    requires
        state.step(config, event).1 is CommitEdited,
    ensures
        state.phase == Phase::Editing,
        event == EventView::Edited(Some(state.step(config, event).1->CommitEdited_0)),
{
}

/// Nothing is pushed unless the push option is on, and nothing is pushed
/// before `git commit` has run.
pub proof fn lemma_push_needs_option_and_commit(
    state: WorkflowView,
    config: ConfigView,
    event: EventView,
)
    requires
        state.step(config, event).1 is Push,
    ensures
        state.options.auto_push,
        event matches EventView::Committed(ran) && ran != Ran::NotStarted,
        state.phase == Phase::CommittingEdited ==> event == EventView::Committed(Ran::Succeeded),
{
}

impl CommitChoice {
    /// Reads an answer that is already trimmed and in lower case.
    pub fn of_normalized(answer: &str) -> (r: CommitChoice)
        ensures
            r == choice_of(answer@),
    {
        let chars = chars_of(answer);
        if chars.len() == 0 || chars[0] == 'y' {
            CommitChoice::Execute
        } else if chars[0] == 'm' {
            CommitChoice::Modify
        } else if chars[0] == 'n' {
            CommitChoice::Cancel
        } else {
            CommitChoice::Invalid
        }
    }

    /// Reads a line as the user typed it: white space around it and the case
    /// of its letters do not count.
    pub fn of_line(line: &str) -> (r: CommitChoice)
        ensures
            r == choice_of_line(line@),
    {
        let normalized = to_lowercase(trim(line));
        CommitChoice::of_normalized(normalized.as_str())
    }
}

impl Outcome {
    /// Whether the run ended in an error.
    pub fn is_failure(self) -> (r: bool)
        ensures
            r == (self is Failed),
    {
        match self {
            Outcome::Failed(_) => true,
            _ => false,
        }
    }
}

impl Failure {
    /// The failure in words, where the workflow has words of its own for
    /// it. What the service, the terminal or the editor had to say stays with
    /// the caller, who heard it.
    pub open spec fn spec_message(self) -> Option<Seq<char>> {
        match self {
            Failure::StageFailed => Some("Failed to stage changes with git add"@),
            Failure::DiffFailed => Some("Failed to get git diff"@),
            Failure::TokenMissing => Some(
                "API token not found. Please set it using 'aic config set api_token YOUR_TOKEN'"@,
            ),
            Failure::CommitNotStarted => Some("Failed to execute git commit command"@),
            Failure::PushNotStarted => Some("Failed to execute git push command."@),
            Failure::PushFailed => Some("Git push failed"@),
            Failure::OutOfTurn => Some("Event reported out of turn"@),
            Failure::GenerationFailed | Failure::TerminalFailed | Failure::EditFailed => None,
        }
    }

    /// The failure in words, where the workflow has words of its own for it.
    pub fn message(self) -> (r: Option<&'static str>)
        ensures
            r.deep_view() == self.spec_message(),
    {
        match self {
            Failure::StageFailed => Some("Failed to stage changes with git add"),
            Failure::DiffFailed => Some("Failed to get git diff"),
            Failure::TokenMissing => Some(
                "API token not found. Please set it using 'aic config set api_token YOUR_TOKEN'",
            ),
            Failure::CommitNotStarted => Some("Failed to execute git commit command"),
            Failure::PushNotStarted => Some("Failed to execute git push command."),
            Failure::PushFailed => Some("Git push failed"),
            Failure::OutOfTurn => Some("Event reported out of turn"),
            Failure::GenerationFailed | Failure::TerminalFailed | Failure::EditFailed => None,
        }
    }
}

/// The command line shown for a message.
pub fn commit_command(message: &str) -> (r: String)
    ensures
        r@ == command_of(message@),
{
    let mut out = owned("git commit -m \"");
    let escaped = replace_char(message, '"', "\\\"");
    out.append(escaped.as_str());
    out.append("\"");
    out
}

impl Action {
    /// The arguments of the `git` invocation that an action asks for, if it
    /// asks for one.
    pub open spec fn spec_git_args(self) -> Option<Seq<Seq<char>>> {
        match self {
            Action::StageAll => Some(seq!["add"@, "."@]),
            Action::CheckRepository => Some(seq!["status"@]),
            Action::ReadDiff => Some(seq!["diff"@, "--staged"@]),
            Action::Commit(message) => Some(seq!["commit"@, "-m"@, message@]),
            Action::CommitEdited(message) => Some(seq!["commit"@, "-m"@, message@]),
            Action::Push => Some(seq!["push"@]),
            _ => None,
        }
    }

    /// The arguments of the `git` invocation that this action asks for, if
    /// it asks for one.
    pub fn git_args(&self) -> (r: Option<Vec<String>>)
        ensures
            r.deep_view() == self.spec_git_args(),
    {
        match self {
            Action::StageAll => Some(git::add_all()),
            Action::CheckRepository => Some(git::status()),
            Action::ReadDiff => Some(git::staged_diff()),
            Action::Commit(message) => Some(git::commit(message.as_str())),
            Action::CommitEdited(message) => Some(git::commit(message.as_str())),
            Action::Push => Some(git::push()),
            _ => None,
        }
    }
}

impl Workflow {
    /// A run that has not begun.
    pub fn new(options: CommitOptions) -> (r: Workflow)
        ensures
            r@ == WorkflowView::initial(options),
    {
        Workflow { phase: Phase::Start, options, message: String::new() }
    }

    /// Whether the run is over.
    pub fn is_finished(&self) -> (r: bool)
        ensures
            r == (self@.phase == Phase::Finished),
    {
        match self.phase {
            Phase::Finished => true,
            _ => false,
        }
    }

    /// Ends the run.
    fn stop(&mut self, outcome: Outcome) -> (r: Action)
        ensures
            (final(self)@, r@) == old(self)@.stop(outcome),
    {
        self.phase = Phase::Finished;
        Action::Stop(outcome)
    }

    /// Moves on and hands out `action`.
    fn go(&mut self, phase: Phase, action: Action) -> (r: Action)
        ensures
            final(self)@ == old(self)@.at(phase),
            r == action,
    {
        self.phase = phase;
        action
    }

    /// Takes what the caller reports and decides what is to be done next.
    ///
    /// `config` is read when the diff has arrived, to build the call to the
    /// service. An event that does not answer the action last handed out ends
    /// the run with [`Failure::OutOfTurn`].
    pub fn step(&mut self, config: &Config, event: Event) -> (r: Action)
        ensures
            (final(self)@, r@) == old(self)@.step(config@, event@),
    {
        match (self.phase, event) {
            (Phase::Start, Event::Begin) => {
                if self.options.auto_add {
                    self.go(Phase::Staging, Action::StageAll)
                } else {
                    self.go(Phase::CheckingRepository, Action::CheckRepository)
                }
            },
            (Phase::Staging, Event::Staged(ran)) => {
                match ran {
                    Ran::Succeeded => self.go(Phase::CheckingRepository, Action::CheckRepository),
                    _ => self.stop(Outcome::Failed(Failure::StageFailed)),
                }
            },
            (Phase::CheckingRepository, Event::RepositoryChecked(ran)) => {
                match ran {
                    Ran::NotStarted => self.stop(Outcome::Failed(Failure::DiffFailed)),
                    Ran::Failed => self.stop(Outcome::NoRepository),
                    Ran::Succeeded => self.go(Phase::ReadingDiff, Action::ReadDiff),
                }
            },
            (Phase::ReadingDiff, Event::DiffRead(read)) => {
                match read {
                    None => self.stop(Outcome::Failed(Failure::DiffFailed)),
                    Some(diff) => {
                        if diff.as_str().is_empty() {
                            self.stop(Outcome::NothingStaged)
                        } else {
                            match ChatCall::for_commit(config, diff.as_str()) {
                                Ok(call) => self.go(Phase::Generating, Action::Generate(call)),
                                Err(_) => self.stop(Outcome::Failed(Failure::TokenMissing)),
                            }
                        }
                    },
                }
            },
            (Phase::Generating, Event::Generated(given)) => {
                match given {
                    None => self.stop(Outcome::Failed(Failure::GenerationFailed)),
                    Some(message) => {
                        let command = commit_command(message.as_str());
                        self.message = message;
                        self.go(Phase::Proposing, Action::Propose(command))
                    },
                }
            },
            (Phase::Proposing, Event::Proposed) => {
                if self.options.auto_commit {
                    let message = self.message.clone();
                    self.go(Phase::Committing, Action::Commit(message))
                } else {
                    self.go(Phase::Asking, Action::Ask)
                }
            },
            (Phase::Asking, Event::Answered(typed)) => {
                match typed {
                    None => self.stop(Outcome::Failed(Failure::TerminalFailed)),
                    Some(line) => {
                        match CommitChoice::of_line(line.as_str()) {
                            CommitChoice::Execute => {
                                let message = self.message.clone();
                                self.go(Phase::Committing, Action::Commit(message))
                            },
                            CommitChoice::Modify => {
                                let message = self.message.clone();
                                self.go(Phase::Editing, Action::Edit(message))
                            },
                            CommitChoice::Cancel => self.stop(Outcome::Cancelled),
                            CommitChoice::Invalid => self.stop(Outcome::InvalidChoice),
                        }
                    },
                }
            },
            (Phase::Committing, Event::Committed(ran)) => {
                match ran {
                    Ran::NotStarted => self.stop(Outcome::Failed(Failure::CommitNotStarted)),
                    Ran::Failed => {
                        if self.options.auto_push {
                            self.go(Phase::Pushing, Action::Push)
                        } else {
                            self.stop(Outcome::CommitRejected)
                        }
                    },
                    Ran::Succeeded => {
                        if self.options.auto_push {
                            self.go(Phase::Pushing, Action::Push)
                        } else {
                            self.stop(Outcome::Committed)
                        }
                    },
                }
            },
            (Phase::Editing, Event::Edited(edited)) => {
                match edited {
                    None => self.stop(Outcome::Failed(Failure::EditFailed)),
                    Some(message) => {
                        let copy = message.clone();
                        self.message = message;
                        self.go(Phase::CommittingEdited, Action::CommitEdited(copy))
                    },
                }
            },
            (Phase::CommittingEdited, Event::Committed(ran)) => {
                match ran {
                    Ran::NotStarted => self.stop(Outcome::Failed(Failure::CommitNotStarted)),
                    Ran::Failed => self.stop(Outcome::CommitRejected),
                    Ran::Succeeded => {
                        if self.options.auto_push {
                            self.go(Phase::Pushing, Action::Push)
                        } else {
                            self.stop(Outcome::Committed)
                        }
                    },
                }
            },
            (Phase::Pushing, Event::Pushed(ran)) => {
                match ran {
                    Ran::NotStarted => self.stop(Outcome::Failed(Failure::PushNotStarted)),
                    Ran::Failed => self.stop(Outcome::Failed(Failure::PushFailed)),
                    Ran::Succeeded => self.stop(Outcome::Pushed),
                }
            },
            _ => self.stop(Outcome::Failed(Failure::OutOfTurn)),
        }
    }
}

} // verus!
