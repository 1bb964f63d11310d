//! What a command asks of the outside world, and what the outside world answers.

use crate::config::{ConfigError, ConfigErrorView, HdmiInput, MacAddress};
use crate::failure::{IoError, IoErrorView};
use crate::net::Ipv4Addr;
use crate::paths::{ConfigPathError, PathEnvironment};
use vstd::prelude::*;

verus! {

/// Whose screen the ownership marker speaks of.
#[derive(Debug, Clone, Copy, PartialEq, Eq, Structural)]
pub enum StateScope {
    /// That of a user session.
    Session,
    /// That of the whole system.
    System,
}

/// What a start of the computer is taken for.
#[derive(Debug, Clone, Copy, PartialEq, Eq, Structural)]
pub enum StartupMode {
    /// A wake from sleep where the marker exists, else a cold boot.
    Auto,
    /// A cold boot.
    Boot,
    /// A wake from sleep.
    Wake,
}

/// What the television shows.
#[derive(Debug, PartialEq, Eq)]
pub enum CurrentInput {
    /// An HDMI port.
    Hdmi(HdmiInput),
    /// Something else, under the name that the television gives it.
    Other(String),
}

/// What a `CurrentInput` says.
pub enum CurrentInputView {
    /// An HDMI port.
    Hdmi(HdmiInput),
    /// Something else, under the name that the television gives it.
    Other(Seq<char>),
}

impl View for CurrentInput {
    type V = CurrentInputView;

    open spec fn view(&self) -> CurrentInputView {
        match self {
            CurrentInput::Hdmi(input) => CurrentInputView::Hdmi(*input),
            CurrentInput::Other(name) => CurrentInputView::Other(name@),
        }
    }
}

impl CurrentInputView {
    /// The name of what is shown.
    pub open spec fn text(self) -> Seq<char> {
        match self {
            CurrentInputView::Hdmi(input) => input.text(),
            CurrentInputView::Other(name) => name,
        }
    }
}

impl CurrentInput {
    /// Whether the given port is shown.
    pub fn is_hdmi(&self, input: HdmiInput) -> (shown: bool)
        ensures
            shown == (self@ == CurrentInputView::Hdmi(input)),
    {
        match self {
            CurrentInput::Hdmi(current) => *current == input,
            CurrentInput::Other(_) => false,
        }
    }

    /// The name of what is shown.
    pub fn as_str(&self) -> (name: &str)
        ensures
            name@ == self@.text(),
    {
        match self {
            CurrentInput::Hdmi(input) => input.as_str(),
            CurrentInput::Other(name) => name.as_str(),
        }
    }
}

/// A command that the television did not carry out.
#[derive(Debug, PartialEq, Eq)]
pub struct TvError {
    /// What happened, in words.
    pub message: String,
    /// Whether the television says that its screen is active already.
    pub active_screen: bool,
}

/// What a `TvError` says.
pub struct TvErrorView {
    /// What happened, in words.
    pub message: Seq<char>,
    /// Whether the television says that its screen is active already.
    pub active_screen: bool,
}

impl View for TvError {
    type V = TvErrorView;

    open spec fn view(&self) -> TvErrorView {
        TvErrorView { message: self.message@, active_screen: self.active_screen }
    }
}

/// Why a command failed.
#[derive(Debug, PartialEq, Eq)]
pub enum RunError {
    /// There is no path to a configuration file.
    ConfigPath(ConfigPathError),
    /// There is no configuration.
    Config(ConfigError),
    /// There is no directory for the marker.
    StateDir(String),
    /// There are no credentials for the television.
    AuthContext(String),
    /// Output, the marker or a dialog failed.
    Io(IoError),
    /// The command could not do what it is for.
    Policy(String),
}

/// What a `RunError` says.
pub enum RunErrorView {
    /// There is no path to a configuration file.
    ConfigPath(ConfigPathError),
    /// There is no configuration.
    Config(ConfigErrorView),
    /// There is no directory for the marker.
    StateDir(Seq<char>),
    /// There are no credentials for the television.
    AuthContext(Seq<char>),
    /// Output, the marker or a dialog failed.
    Io(IoErrorView),
    /// The command could not do what it is for.
    Policy(Seq<char>),
}

impl View for RunError {
    type V = RunErrorView;

    open spec fn view(&self) -> RunErrorView {
        match self {
            RunError::ConfigPath(error) => RunErrorView::ConfigPath(*error),
            RunError::Config(error) => RunErrorView::Config(error@),
            RunError::StateDir(message) => RunErrorView::StateDir(message@),
            RunError::AuthContext(message) => RunErrorView::AuthContext(message@),
            RunError::Io(error) => RunErrorView::Io(error@),
            RunError::Policy(message) => RunErrorView::Policy(message@),
        }
    }
}

/// A command to the television.
#[derive(Debug, Clone, Copy, PartialEq, Eq, Structural)]
pub enum TvCommand {
    /// Say what is shown.
    QueryInput,
    /// Show a port.
    SetInput(HdmiInput),
    /// Put the panel off.
    BlankScreen,
    /// Put the panel on.
    UnblankScreen,
    /// Switch off.
    PowerOff,
    /// Wake up, by a magic packet to the given hardware address.
    Wake(MacAddress),
    /// Say how bright the pixels are.
    QueryBrightness,
    /// Make the pixels as bright as given, in percent.
    SetBrightness(u8),
}

/// One thing that a command asks of the outside world.
#[derive(Debug, PartialEq, Eq)]
pub enum Action {
    /// Look up what the surroundings say about the configuration file.
    ReadEnvironment,
    /// Read the configuration file.
    ReadConfig(Vec<u8>),
    /// Find the directory of the ownership marker.
    OpenMarker(StateScope),
    /// Prepare for talking to the television, with the given configuration file.
    BuildClient(Vec<u8>),
    /// Say whether the marker exists.
    MarkerExists,
    /// Create the marker.
    MarkerCreate,
    /// Remove the marker.
    MarkerClear,
    /// Write a line.
    Log(String),
    /// Wait until the network is up.
    WaitForNetwork,
    /// Wait for a number of seconds.
    Sleep(u64),
    /// Tell the television at an address to do something.
    Tv(Ipv4Addr, TvCommand),
    /// Say whether the computer is about to reboot.
    CheckReboot,
    /// Say whether the computer is about to sleep.
    CheckSleepRequest,
    /// Say whether an address answers.
    CheckReachable(Ipv4Addr),
    /// Let the user choose a brightness, starting at the given one.
    PromptBrightness(u8),
    /// Show an error to the user.
    ShowError {
        /// The title of the window.
        title: String,
        /// What it says.
        message: String,
    },
    /// Notify the user.
    Notify {
        /// The title of the notice.
        title: String,
        /// What it says.
        message: String,
    },
    /// End the command.
    Finish(Result<(), RunError>),
}

/// What an `Action` says.
pub enum ActionView {
    /// Look up what the surroundings say about the configuration file.
    ReadEnvironment,
    /// Read the configuration file.
    ReadConfig(Seq<u8>),
    /// Find the directory of the ownership marker.
    OpenMarker(StateScope),
    /// Prepare for talking to the television, with the given configuration file.
    BuildClient(Seq<u8>),
    /// Say whether the marker exists.
    MarkerExists,
    /// Create the marker.
    MarkerCreate,
    /// Remove the marker.
    MarkerClear,
    /// Write a line.
    Log(Seq<char>),
    /// Wait until the network is up.
    WaitForNetwork,
    /// Wait for a number of seconds.
    Sleep(u64),
    /// Tell the television at an address to do something.
    Tv(Ipv4Addr, TvCommand),
    /// Say whether the computer is about to reboot.
    CheckReboot,
    /// Say whether the computer is about to sleep.
    CheckSleepRequest,
    /// Say whether an address answers.
    CheckReachable(Ipv4Addr),
    /// Let the user choose a brightness, starting at the given one.
    PromptBrightness(u8),
    /// Show an error to the user.
    ShowError {
        /// The title of the window.
        title: Seq<char>,
        /// What it says.
        message: Seq<char>,
    },
    /// Notify the user.
    Notify {
        /// The title of the notice.
        title: Seq<char>,
        /// What it says.
        message: Seq<char>,
    },
    /// End the command.
    Finish(Result<(), RunErrorView>),
}

impl View for Action {
    type V = ActionView;

    open spec fn view(&self) -> ActionView {
        match self {
            Action::ReadEnvironment => ActionView::ReadEnvironment,
            Action::ReadConfig(path) => ActionView::ReadConfig(path@),
            Action::OpenMarker(scope) => ActionView::OpenMarker(*scope),
            Action::BuildClient(path) => ActionView::BuildClient(path@),
            Action::MarkerExists => ActionView::MarkerExists,
            Action::MarkerCreate => ActionView::MarkerCreate,
            Action::MarkerClear => ActionView::MarkerClear,
            Action::Log(line) => ActionView::Log(line@),
            Action::WaitForNetwork => ActionView::WaitForNetwork,
            Action::Sleep(seconds) => ActionView::Sleep(*seconds),
            Action::Tv(ip, command) => ActionView::Tv(*ip, *command),
            Action::CheckReboot => ActionView::CheckReboot,
            Action::CheckSleepRequest => ActionView::CheckSleepRequest,
            Action::CheckReachable(ip) => ActionView::CheckReachable(*ip),
            Action::PromptBrightness(initial) => ActionView::PromptBrightness(*initial),
            Action::ShowError { title, message } => ActionView::ShowError {
                title: title@,
                message: message@,
            },
            Action::Notify { title, message } => ActionView::Notify {
                title: title@,
                message: message@,
            },
            Action::Finish(result) => ActionView::Finish(
                match result {
                    Ok(_) => Ok(()),
                    Err(error) => Err(error@),
                },
            ),
        }
    }
}

/// What came of an action.
#[derive(Debug, PartialEq, Eq)]
pub enum Outcome {
    /// It was done.
    Done,
    /// The answer is yes or no.
    Flag(bool),
    /// The surroundings are these.
    Environment(PathEnvironment),
    /// The file holds this text.
    Text(String),
    /// The television shows this.
    Input(CurrentInput),
    /// The pixels are this bright.
    Brightness(u8),
    /// The user chose this, or nothing.
    Choice(Option<u8>),
    /// The television did not do it.
    TvFailed(TvError),
    /// Input or output failed.
    IoFailed(IoError),
    /// It could not be prepared.
    Refused(String),
}

/// What an `Outcome` says.
pub enum OutcomeView {
    /// It was done.
    Done,
    /// The answer is yes or no.
    Flag(bool),
    /// The surroundings settle the path of the configuration file, or do not.
    Environment(Result<Seq<u8>, ConfigPathError>),
    /// The file holds this text.
    Text(Seq<char>),
    /// The television shows this.
    Input(CurrentInputView),
    /// The pixels are this bright.
    Brightness(u8),
    /// The user chose this, or nothing.
    Choice(Option<u8>),
    /// The television did not do it.
    TvFailed(TvErrorView),
    /// Input or output failed.
    IoFailed(IoErrorView),
    /// It could not be prepared.
    Refused(Seq<char>),
}

impl View for Outcome {
    type V = OutcomeView;

    open spec fn view(&self) -> OutcomeView {
        match self {
            Outcome::Done => OutcomeView::Done,
            Outcome::Flag(answer) => OutcomeView::Flag(*answer),
            Outcome::Environment(environment) => OutcomeView::Environment(environment.path()),
            Outcome::Text(text) => OutcomeView::Text(text@),
            Outcome::Input(current) => OutcomeView::Input(current@),
            Outcome::Brightness(value) => OutcomeView::Brightness(*value),
            Outcome::Choice(choice) => OutcomeView::Choice(*choice),
            Outcome::TvFailed(error) => OutcomeView::TvFailed(error@),
            Outcome::IoFailed(error) => OutcomeView::IoFailed(error@),
            Outcome::Refused(message) => OutcomeView::Refused(message@),
        }
    }
}

/// The actions that a list of actions says.
pub open spec fn action_views(actions: Seq<Action>) -> Seq<ActionView> {
    Seq::new(actions.len(), |i: int| actions[i]@)
}

impl ActionView {
    /// Whether the action only has an effect: nothing is decided by what comes of it, but
    /// for the failures that end the command.
    pub open spec fn is_effect(self) -> bool {
        match self {
            ActionView::MarkerCreate
            | ActionView::MarkerClear
            | ActionView::Log(_)
            | ActionView::WaitForNetwork
            | ActionView::Sleep(_)
            | ActionView::ShowError { .. }
            | ActionView::Notify { .. } => true,
            _ => false,
        }
    }

    /// Whether a failure of the action ends the command.
    pub open spec fn must_succeed(self) -> bool {
        match self {
            ActionView::MarkerCreate | ActionView::MarkerClear | ActionView::Log(_) => true,
            _ => false,
        }
    }

    /// Whether an outcome can come of the action.
    pub open spec fn answered_by(self, outcome: OutcomeView) -> bool {
        match self {
            ActionView::ReadEnvironment => outcome is Environment,
            ActionView::ReadConfig(_) => outcome is Text || outcome is IoFailed,
            ActionView::OpenMarker(_) | ActionView::BuildClient(_) => outcome is Done
                || outcome is Refused,
            ActionView::MarkerExists => outcome is Flag,
            ActionView::MarkerCreate
            | ActionView::MarkerClear
            | ActionView::Log(_)
            | ActionView::WaitForNetwork
            | ActionView::ShowError { .. }
            | ActionView::Notify { .. } => outcome is Done || outcome is IoFailed,
            ActionView::Sleep(_) => outcome is Done,
            ActionView::Tv(_, TvCommand::QueryInput) => outcome is Input || outcome is TvFailed,
            ActionView::Tv(_, TvCommand::QueryBrightness) => outcome is Brightness
                || outcome is TvFailed,
            ActionView::Tv(_, _) => outcome is Done || outcome is TvFailed,
            ActionView::CheckReboot
            | ActionView::CheckSleepRequest
            | ActionView::CheckReachable(_) => outcome is Flag || outcome is IoFailed,
            ActionView::PromptBrightness(_) => outcome is Choice || outcome is IoFailed,
            ActionView::Finish(_) => false,
        }
    }
}

impl Action {
    /// Whether a failure of the action ends the command.
    pub fn must_succeed(&self) -> (needed: bool)
        ensures
            needed == self@.must_succeed(),
    {
        match self {
            Action::MarkerCreate | Action::MarkerClear | Action::Log(_) => true,
            _ => false,
        }
    }

    /// Whether an outcome can come of the action.
    pub fn answered_by(&self, outcome: &Outcome) -> (fits: bool)
        ensures
            fits == self@.answered_by(outcome@),
    {
        match (self, outcome) {
            (Action::ReadEnvironment, Outcome::Environment(_)) => true,
            (Action::ReadConfig(_), Outcome::Text(_) | Outcome::IoFailed(_)) => true,
            (
                Action::OpenMarker(_) | Action::BuildClient(_),
                Outcome::Done | Outcome::Refused(_),
            ) => true,
            (Action::MarkerExists, Outcome::Flag(_)) => true,
            (
                Action::MarkerCreate
                | Action::MarkerClear
                | Action::Log(_)
                | Action::WaitForNetwork
                | Action::ShowError { .. }
                | Action::Notify { .. },
                Outcome::Done | Outcome::IoFailed(_),
            ) => true,
            (Action::Sleep(_), Outcome::Done) => true,
            (Action::Tv(_, TvCommand::QueryInput), Outcome::Input(_) | Outcome::TvFailed(_)) => {
                true
            },
            (
                Action::Tv(_, TvCommand::QueryBrightness),
                Outcome::Brightness(_) | Outcome::TvFailed(_),
            ) => true,
            (Action::Tv(_, TvCommand::QueryInput | TvCommand::QueryBrightness), _) => false,
            (Action::Tv(_, _), Outcome::Done | Outcome::TvFailed(_)) => true,
            (
                Action::CheckReboot | Action::CheckSleepRequest | Action::CheckReachable(_),
                Outcome::Flag(_) | Outcome::IoFailed(_),
            ) => true,
            (Action::PromptBrightness(_), Outcome::Choice(_) | Outcome::IoFailed(_)) => true,
            _ => false,
        }
    }
}

/// What is shown is told by its name: a port by its own, and anything else by the one that the
/// television gives it.
pub proof fn sources_are_named(input: HdmiInput, name: Seq<char>)
    ensures
        CurrentInputView::Hdmi(input).text() == input.text(),
        CurrentInputView::Other(name).text() == name,
{
}

/// Actions, outcomes and errors say all that they hold.
pub proof fn nothing_is_left_out(action: Action, outcome: Outcome, error: RunError)
    ensures
        match action {
            Action::ReadEnvironment => action@ == ActionView::ReadEnvironment,
            Action::ReadConfig(path) => action@ == ActionView::ReadConfig(path@),
            Action::OpenMarker(scope) => action@ == ActionView::OpenMarker(scope),
            Action::BuildClient(path) => action@ == ActionView::BuildClient(path@),
            Action::MarkerExists => action@ == ActionView::MarkerExists,
            Action::MarkerCreate => action@ == ActionView::MarkerCreate,
            Action::MarkerClear => action@ == ActionView::MarkerClear,
            Action::Log(line) => action@ == ActionView::Log(line@),
            Action::WaitForNetwork => action@ == ActionView::WaitForNetwork,
            Action::Sleep(seconds) => action@ == ActionView::Sleep(seconds),
            Action::Tv(ip, command) => action@ == ActionView::Tv(ip, command),
            Action::CheckReboot => action@ == ActionView::CheckReboot,
            Action::CheckSleepRequest => action@ == ActionView::CheckSleepRequest,
            Action::CheckReachable(ip) => action@ == ActionView::CheckReachable(ip),
            Action::PromptBrightness(initial) => action@ == ActionView::PromptBrightness(initial),
            Action::ShowError { title, message } => action@ == (ActionView::ShowError {
                title: title@,
                message: message@,
            }),
            Action::Notify { title, message } => action@ == (ActionView::Notify {
                title: title@,
                message: message@,
            }),
            Action::Finish(Ok(_)) => action@ == ActionView::Finish(Ok(())),
            Action::Finish(Err(error)) => action@ == ActionView::Finish(Err(error@)),
        },
        match outcome {
            Outcome::Done => outcome@ == OutcomeView::Done,
            Outcome::Flag(answer) => outcome@ == OutcomeView::Flag(answer),
            Outcome::Environment(environment) => outcome@ == OutcomeView::Environment(
                environment.path(),
            ),
            Outcome::Text(text) => outcome@ == OutcomeView::Text(text@),
            Outcome::Input(CurrentInput::Hdmi(input)) => outcome@ == OutcomeView::Input(
                CurrentInputView::Hdmi(input),
            ),
            Outcome::Input(CurrentInput::Other(name)) => outcome@ == OutcomeView::Input(
                CurrentInputView::Other(name@),
            ),
            Outcome::Brightness(value) => outcome@ == OutcomeView::Brightness(value),
            Outcome::Choice(choice) => outcome@ == OutcomeView::Choice(choice),
            Outcome::TvFailed(error) => outcome@ == OutcomeView::TvFailed(
                TvErrorView { message: error.message@, active_screen: error.active_screen },
            ),
            Outcome::IoFailed(error) => outcome@ == OutcomeView::IoFailed(
                IoErrorView { kind: error.kind, message: error.message@ },
            ),
            Outcome::Refused(message) => outcome@ == OutcomeView::Refused(message@),
        },
        match error {
            RunError::ConfigPath(source) => error@ == RunErrorView::ConfigPath(source),
            RunError::Config(source) => error@ == RunErrorView::Config(source@),
            RunError::StateDir(message) => error@ == RunErrorView::StateDir(message@),
            RunError::AuthContext(message) => error@ == RunErrorView::AuthContext(message@),
            RunError::Io(source) => error@ == RunErrorView::Io(source@),
            RunError::Policy(message) => error@ == RunErrorView::Policy(message@),
        },
{
}

} // verus!
