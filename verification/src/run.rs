//! The run of a command, one action at a time.
//!
//! A run first finds the configuration, the marker and the television, then follows the
//! plans of its command. It holds the actions that are settled; the first of them is the one
//! to perform next. Whoever performs it hands what came of it to `Run::step`.

use crate::commands::brightness::{self, BrightnessStage};
use crate::commands::is_plan;
use crate::commands::screen_off::{self, ScreenOffStage};
use crate::commands::screen_on::{self, ScreenOnStage};
use crate::commands::shutdown::{self, ShutdownStage};
use crate::commands::sleep::{self, SleepStage};
use crate::commands::sleep_pre::{self, SleepPreStage};
use crate::commands::startup::{self, StartupStage};
use crate::config::{config_result, load_config, read_config, Config, ConfigError, ConfigErrorView};
use crate::delay::Delays;
use crate::effects::{action_views, Action, ActionView, Outcome, OutcomeView, RunError, RunErrorView, StartupMode, StateScope};
use crate::paths::{copied, path_result, resolve_config_path_from_env, ConfigPathError};
use vstd::prelude::*;

verus! {

/// The commands.
#[derive(Debug, Clone, Copy, PartialEq, Eq, Structural)]
pub enum Command {
    /// Puts the screen off when the session is idle.
    ScreenOff,
    /// Puts the screen back on.
    ScreenOn,
    /// Puts the television on when the computer starts or wakes.
    Startup(StartupMode),
    /// Switches the television off before the computer sleeps.
    SleepPre,
    /// Switches the television off while the network manager prepares for sleep.
    Sleep,
    /// Switches the television off when the computer shuts down.
    Shutdown,
    /// Lets the user set the brightness.
    Brightness,
}

/// What a command waits for.
#[derive(Debug, Clone, Copy, PartialEq, Eq, Structural)]
pub enum CommandStage {
    /// A stage of `Command::ScreenOff`.
    ScreenOff(ScreenOffStage),
    /// A stage of `Command::ScreenOn`.
    ScreenOn(ScreenOnStage),
    /// A stage of `Command::Startup`.
    Startup(StartupStage),
    /// A stage of `Command::SleepPre`.
    SleepPre(SleepPreStage),
    /// A stage of `Command::Sleep`.
    Sleep(SleepStage),
    /// A stage of `Command::Shutdown`.
    Shutdown(ShutdownStage),
    /// A stage of `Command::Brightness`.
    Brightness(BrightnessStage),
}

impl Command {
    /// Whose marker the command uses, if any.
    pub open spec fn marker_scope(self) -> Option<StateScope> {
        match self {
            Command::ScreenOff | Command::ScreenOn => Some(StateScope::Session),
            Command::Startup(_) | Command::SleepPre | Command::Sleep => Some(StateScope::System),
            Command::Shutdown | Command::Brightness => None,
        }
    }

    /// The first actions of the command.
    pub open spec fn opening(self, config: Config) -> (Seq<ActionView>, CommandStage) {
        match self {
            Command::ScreenOff => (
                screen_off::opening(config).0,
                CommandStage::ScreenOff(screen_off::opening(config).1),
            ),
            Command::ScreenOn => (
                screen_on::opening().0,
                CommandStage::ScreenOn(screen_on::opening().1),
            ),
            Command::Startup(mode) => (
                startup::opening(mode).0,
                CommandStage::Startup(startup::opening(mode).1),
            ),
            Command::SleepPre => (
                sleep_pre::opening().0,
                CommandStage::SleepPre(sleep_pre::opening().1),
            ),
            Command::Sleep => (sleep::opening().0, CommandStage::Sleep(sleep::opening().1)),
            Command::Shutdown => (
                shutdown::opening().0,
                CommandStage::Shutdown(shutdown::opening().1),
            ),
            Command::Brightness => (
                brightness::opening(config).0,
                CommandStage::Brightness(brightness::opening(config).1),
            ),
        }
    }

    /// Whose marker the command uses, if any.
    pub fn scope(&self) -> (scope: Option<StateScope>)
        ensures
            scope == self.marker_scope(),
    {
        match self {
            Command::ScreenOff | Command::ScreenOn => Some(StateScope::Session),
            Command::Startup(_) | Command::SleepPre | Command::Sleep => Some(StateScope::System),
            Command::Shutdown | Command::Brightness => None,
        }
    }

    /// The first actions of the command.
    fn open(&self, config: &Config) -> (start: (Vec<Action>, CommandStage))
        ensures
            (action_views(start.0@), start.1) == self.opening(*config),
    {
        match self {
            Command::ScreenOff => {
                let start = screen_off::open(config);
                (start.0, CommandStage::ScreenOff(start.1))
            },
            Command::ScreenOn => {
                let start = screen_on::open();
                (start.0, CommandStage::ScreenOn(start.1))
            },
            Command::Startup(mode) => {
                let start = startup::open(*mode);
                (start.0, CommandStage::Startup(start.1))
            },
            Command::SleepPre => {
                let start = sleep_pre::open();
                (start.0, CommandStage::SleepPre(start.1))
            },
            Command::Sleep => {
                let start = sleep::open();
                (start.0, CommandStage::Sleep(start.1))
            },
            Command::Shutdown => {
                let start = shutdown::open();
                (start.0, CommandStage::Shutdown(start.1))
            },
            Command::Brightness => {
                let start = brightness::open(config);
                (start.0, CommandStage::Brightness(start.1))
            },
        }
    }
}

/// The stage that a plan leads to, as a stage of any command.
pub open spec fn lifted<S>(
    next: (Seq<ActionView>, Option<S>),
    lift: spec_fn(S) -> CommandStage,
) -> (Seq<ActionView>, Option<CommandStage>) {
    (
        next.0,
        match next.1 {
            Some(stage) => Some(lift(stage)),
            None => None,
        },
    )
}

impl CommandStage {
    /// The request whose outcome the stage waits for.
    pub open spec fn request(self, config: Config) -> ActionView {
        match self {
            CommandStage::ScreenOff(stage) => stage.request(config),
            CommandStage::ScreenOn(stage) => stage.request(config),
            CommandStage::Startup(stage) => stage.request(config),
            CommandStage::SleepPre(stage) => stage.request(config),
            CommandStage::Sleep(stage) => stage.request(config),
            CommandStage::Shutdown(stage) => stage.request(config),
            CommandStage::Brightness(stage) => stage.request(config),
        }
    }

    /// Whether the stage is one of the given command.
    pub open spec fn is_of(self, command: Command) -> bool {
        match self {
            CommandStage::ScreenOff(_) => command is ScreenOff,
            CommandStage::ScreenOn(_) => command is ScreenOn,
            CommandStage::Startup(StartupStage::Marker(mode)) => command == Command::Startup(mode),
            CommandStage::Startup(StartupStage::NetworkMarker) => command == Command::Startup(
                StartupMode::Auto,
            ),
            CommandStage::Startup(_) => command is Startup,
            CommandStage::SleepPre(_) => command is SleepPre,
            CommandStage::Sleep(_) => command is Sleep,
            CommandStage::Shutdown(_) => command is Shutdown,
            CommandStage::Brightness(_) => command is Brightness,
        }
    }

    /// Whether the attempts that the stage counts are within their limits.
    pub open spec fn counted(self) -> bool {
        match self {
            CommandStage::ScreenOn(stage) => stage.counted(),
            CommandStage::Startup(stage) => stage.counted(),
            CommandStage::SleepPre(stage) => stage.counted(),
            CommandStage::Sleep(stage) => stage.counted(),
            _ => true,
        }
    }

    /// What follows from what came of the request of the stage.
    pub open spec fn plan(self, config: Config, delays: Delays, outcome: OutcomeView) -> (
        Seq<ActionView>,
        Option<CommandStage>,
    ) {
        match self {
            CommandStage::ScreenOff(stage) => lifted(
                screen_off::plan(config, stage, outcome),
                |next: ScreenOffStage| CommandStage::ScreenOff(next),
            ),
            CommandStage::ScreenOn(stage) => lifted(
                screen_on::plan(config, delays, stage, outcome),
                |next: ScreenOnStage| CommandStage::ScreenOn(next),
            ),
            CommandStage::Startup(stage) => lifted(
                startup::plan(config, delays, stage, outcome),
                |next: StartupStage| CommandStage::Startup(next),
            ),
            CommandStage::SleepPre(stage) => lifted(
                sleep_pre::plan(config, delays, stage, outcome),
                |next: SleepPreStage| CommandStage::SleepPre(next),
            ),
            CommandStage::Sleep(stage) => lifted(
                sleep::plan(config, delays, stage, outcome),
                |next: SleepStage| CommandStage::Sleep(next),
            ),
            CommandStage::Shutdown(stage) => lifted(
                shutdown::plan(config, stage, outcome),
                |next: ShutdownStage| CommandStage::Shutdown(next),
            ),
            CommandStage::Brightness(stage) => lifted(
                brightness::plan(config, stage, outcome),
                |next: BrightnessStage| CommandStage::Brightness(next),
            ),
        }
    }

    /// What follows from what came of the request of the stage.
    fn decide(&self, config: &Config, delays: &Delays, outcome: &Outcome) -> (next: (
        Vec<Action>,
        Option<CommandStage>,
    ))
        requires
            self.counted(),
            self.request(*config).answered_by(outcome@),
        ensures
            (action_views(next.0@), next.1) == self.plan(*config, *delays, outcome@),
    {
        match self {
            CommandStage::ScreenOff(stage) => {
                let next = screen_off::decide(config, *stage, outcome);
                (
                    next.0,
                    match next.1 {
                        Some(stage) => Some(CommandStage::ScreenOff(stage)),
                        None => None,
                    },
                )
            },
            CommandStage::ScreenOn(stage) => {
                let next = screen_on::decide(config, delays, *stage, outcome);
                (
                    next.0,
                    match next.1 {
                        Some(stage) => Some(CommandStage::ScreenOn(stage)),
                        None => None,
                    },
                )
            },
            CommandStage::Startup(stage) => {
                let next = startup::decide(config, delays, *stage, outcome);
                (
                    next.0,
                    match next.1 {
                        Some(stage) => Some(CommandStage::Startup(stage)),
                        None => None,
                    },
                )
            },
            CommandStage::SleepPre(stage) => {
                let next = sleep_pre::decide(config, delays, *stage, outcome);
                (
                    next.0,
                    match next.1 {
                        Some(stage) => Some(CommandStage::SleepPre(stage)),
                        None => None,
                    },
                )
            },
            CommandStage::Sleep(stage) => {
                let next = sleep::decide(config, delays, *stage, outcome);
                (
                    next.0,
                    match next.1 {
                        Some(stage) => Some(CommandStage::Sleep(stage)),
                        None => None,
                    },
                )
            },
            CommandStage::Shutdown(stage) => {
                let next = shutdown::decide(config, *stage, outcome);
                (
                    next.0,
                    match next.1 {
                        Some(stage) => Some(CommandStage::Shutdown(stage)),
                        None => None,
                    },
                )
            },
            CommandStage::Brightness(stage) => {
                let next = brightness::decide(config, *stage, outcome);
                (
                    next.0,
                    match next.1 {
                        Some(stage) => Some(CommandStage::Brightness(stage)),
                        None => None,
                    },
                )
            },
        }
    }
}

/// A plan is effects, then the request of the next stage or the end.
pub proof fn lemma_plan(stage: CommandStage, config: Config, delays: Delays, outcome: OutcomeView)
    requires
        stage.counted(),
    ensures
        match stage.plan(config, delays, outcome).1 {
            Some(next) => next.counted() && is_plan(
                stage.plan(config, delays, outcome).0,
                next.request(config),
            ),
            None => stage.plan(config, delays, outcome).0.last() is Finish && is_plan(
                stage.plan(config, delays, outcome).0,
                stage.plan(config, delays, outcome).0.last(),
            ),
        },
{
    match stage {
        CommandStage::ScreenOff(inner) => screen_off::lemma_plan(config, inner, outcome),
        CommandStage::ScreenOn(inner) => screen_on::lemma_plan(config, delays, inner, outcome),
        CommandStage::Startup(inner) => startup::lemma_plan(config, delays, inner, outcome),
        CommandStage::SleepPre(inner) => sleep_pre::lemma_plan(config, delays, inner, outcome),
        CommandStage::Sleep(inner) => sleep::lemma_plan(config, delays, inner, outcome),
        CommandStage::Shutdown(inner) => shutdown::lemma_plan(config, inner, outcome),
        CommandStage::Brightness(inner) => brightness::lemma_plan(config, inner, outcome),
    }
}

/// How far a run is.
#[derive(Debug, PartialEq, Eq)]
enum Phase {
    /// It looks for the configuration file.
    Environment,
    /// It reads the configuration file.
    Config {
        path: Vec<u8>,
    },
    /// It looks for the marker.
    Marker {
        path: Vec<u8>,
        config: Config,
    },
    /// It prepares for talking to the television.
    Client {
        path: Vec<u8>,
        config: Config,
    },
    /// It follows the plans of the command.
    Running {
        config: Config,
        stage: CommandStage,
    },
    /// It is over.
    Finished,
}

/// How far a run is.
pub enum PhaseView {
    /// It looks for the configuration file.
    Environment,
    /// It reads the configuration file.
    Config {
        /// The path of the configuration file.
        path: Seq<u8>,
    },
    /// It looks for the marker.
    Marker {
        /// The path of the configuration file.
        path: Seq<u8>,
        /// The configuration.
        config: Config,
    },
    /// It prepares for talking to the television.
    Client {
        /// The path of the configuration file.
        path: Seq<u8>,
        /// The configuration.
        config: Config,
    },
    /// It follows the plans of the command.
    Running {
        /// The configuration.
        config: Config,
        /// What the command waits for.
        stage: CommandStage,
    },
    /// It is over.
    Finished,
}

impl View for Phase {
    type V = PhaseView;

    closed spec fn view(&self) -> PhaseView {
        match self {
            Phase::Environment => PhaseView::Environment,
            Phase::Config { path } => PhaseView::Config { path: path@ },
            Phase::Marker { path, config } => PhaseView::Marker { path: path@, config: *config },
            Phase::Client { path, config } => PhaseView::Client { path: path@, config: *config },
            Phase::Running { config, stage } => PhaseView::Running {
                config: *config,
                stage: *stage,
            },
            Phase::Finished => PhaseView::Finished,
        }
    }
}

/// The state of a run.
pub struct RunView {
    /// The command.
    pub command: Command,
    /// The delays that are overridden.
    pub delays: Delays,
    /// How far the run is.
    pub phase: PhaseView,
    /// The actions that are settled, the next one first.
    pub queue: Seq<ActionView>,
}

impl RunView {
    /// A run that has not done anything yet.
    pub open spec fn initial(command: Command, delays: Delays) -> RunView {
        RunView::waiting(command, delays, PhaseView::Environment, ActionView::ReadEnvironment)
    }

    /// A run that has all it needs for its command.
    pub open spec fn started(command: Command, delays: Delays, config: Config) -> RunView {
        RunView {
            command,
            delays,
            phase: PhaseView::Running { config, stage: command.opening(config).1 },
            queue: command.opening(config).0,
        }
    }

    /// A run with a single settled action.
    pub open spec fn waiting(
        command: Command,
        delays: Delays,
        phase: PhaseView,
        request: ActionView,
    ) -> RunView {
        RunView { command, delays, phase, queue: seq![request] }
    }

    /// A run that is over, with the given result.
    pub open spec fn ended(
        command: Command,
        delays: Delays,
        result: Result<(), RunErrorView>,
    ) -> RunView {
        RunView::waiting(command, delays, PhaseView::Finished, ActionView::Finish(result))
    }

    /// A run that learned where the configuration file is.
    pub open spec fn located(
        command: Command,
        delays: Delays,
        path: Result<Seq<u8>, ConfigPathError>,
    ) -> RunView {
        match path {
            Ok(path) => RunView::waiting(
                command,
                delays,
                PhaseView::Config { path },
                ActionView::ReadConfig(path),
            ),
            Err(error) => RunView::ended(command, delays, Err(RunErrorView::ConfigPath(error))),
        }
    }

    /// A run that learned what the configuration file says.
    pub open spec fn configured(
        command: Command,
        delays: Delays,
        path: Seq<u8>,
        config: Result<Config, ConfigErrorView>,
    ) -> RunView {
        match (config, command.marker_scope()) {
            (Ok(config), Some(scope)) => RunView::waiting(
                command,
                delays,
                PhaseView::Marker { path, config },
                ActionView::OpenMarker(scope),
            ),
            (Ok(config), None) => RunView::waiting(
                command,
                delays,
                PhaseView::Client { path, config },
                ActionView::BuildClient(path),
            ),
            (Err(error), _) => RunView::ended(command, delays, Err(RunErrorView::Config(error))),
        }
    }

    /// The action to perform next.
    pub open spec fn pending(self) -> ActionView {
        self.queue[0]
    }

    /// Whether the run is over.
    pub open spec fn is_over(self) -> bool {
        self.pending() is Finish
    }

    /// Whether the last settled action is what the phase waits for.
    pub open spec fn waits(self) -> bool {
        match self.phase {
            PhaseView::Environment => self.queue.last() == ActionView::ReadEnvironment,
            PhaseView::Config { path } => self.queue.last() == ActionView::ReadConfig(path),
            PhaseView::Marker { .. } => match self.command.marker_scope() {
                Some(scope) => self.queue.last() == ActionView::OpenMarker(scope),
                None => false,
            },
            PhaseView::Client { path, .. } => self.queue.last() == ActionView::BuildClient(path),
            PhaseView::Running { config, stage } => self.queue.last() == stage.request(config)
                && stage.counted() && stage.is_of(self.command),
            PhaseView::Finished => self.queue.last() is Finish,
        }
    }

    /// Whether the run is in a state that it can be in: effects are settled, then what the
    /// phase waits for.
    pub open spec fn valid(self) -> bool {
        is_plan(self.queue, self.queue.last()) && self.waits()
    }

    /// The run after the outcome of what its phase waits for.
    pub open spec fn decided(self, outcome: OutcomeView) -> RunView {
        let command = self.command;
        let delays = self.delays;
        match (self.phase, outcome) {
            (PhaseView::Environment, OutcomeView::Environment(path)) => RunView::located(
                command,
                delays,
                path,
            ),
            (PhaseView::Config { path }, OutcomeView::Text(text)) => RunView::configured(
                command,
                delays,
                path,
                read_config(text),
            ),
            (PhaseView::Config { path }, OutcomeView::IoFailed(error)) => RunView::configured(
                command,
                delays,
                path,
                Err(ConfigErrorView::Io(error)),
            ),
            (PhaseView::Marker { path, config }, OutcomeView::Done) => RunView::waiting(
                command,
                delays,
                PhaseView::Client { path, config },
                ActionView::BuildClient(path),
            ),
            (PhaseView::Marker { .. }, OutcomeView::Refused(message)) => RunView::ended(
                command,
                delays,
                Err(RunErrorView::StateDir(message)),
            ),
            (PhaseView::Client { config, .. }, OutcomeView::Done) => RunView::started(
                command,
                delays,
                config,
            ),
            (PhaseView::Client { .. }, OutcomeView::Refused(message)) => RunView::ended(
                command,
                delays,
                Err(RunErrorView::AuthContext(message)),
            ),
            (PhaseView::Running { config, stage }, _) => RunView {
                phase: match stage.plan(config, delays, outcome).1 {
                    Some(next) => PhaseView::Running { config, stage: next },
                    None => PhaseView::Finished,
                },
                queue: stage.plan(config, delays, outcome).0,
                ..self
            },
            _ => RunView::ended(command, delays, Ok(())),
        }
    }

    /// The run after the outcome of the pending action. A failed effect that must succeed
    /// ends the run; any other effect is simply behind it.
    pub open spec fn next(self, outcome: OutcomeView) -> RunView {
        if self.queue.len() > 1 {
            match outcome {
                OutcomeView::IoFailed(error) if self.pending().must_succeed() => RunView::ended(
                    self.command,
                    self.delays,
                    Err(RunErrorView::Io(error)),
                ),
                _ => RunView { queue: self.queue.skip(1), ..self },
            }
        } else {
            self.decided(outcome)
        }
    }
}

/// The run of a command.
#[derive(Debug, PartialEq, Eq)]
pub struct Run {
    command: Command,
    delays: Delays,
    phase: Phase,
    queue: Vec<Action>,
}

impl View for Run {
    type V = RunView;

    closed spec fn view(&self) -> RunView {
        RunView {
            command: self.command,
            delays: self.delays,
            phase: self.phase@,
            queue: action_views(self.queue@),
        }
    }
}

/// A step leads from a valid state to a valid state.
pub proof fn lemma_next_valid(run: RunView, outcome: OutcomeView)
    requires
        run.valid(),
        run.pending().answered_by(outcome),
    ensures
        run.next(outcome).valid(),
{
    if run.queue.len() > 1 {
        let rest = run.queue.skip(1);
        assert(rest.last() == run.queue.last());
        assert forall|i: int| 0 <= i < rest.len() - 1 implies (#[trigger] rest[i]).is_effect() by {
            assert(rest[i] == run.queue[i + 1]);
        }
    } else {
        match run.phase {
            PhaseView::Running { config, stage } => {
                lemma_plan(stage, config, run.delays, outcome);
            },
            _ => {},
        }
    }
}

impl Run {
    /// The run is in a state that it can be in.
    #[verifier::type_invariant]
    spec fn well_formed(&self) -> bool {
        self@.valid()
    }

    /// A run with a single settled action.
    fn waiting(command: Command, delays: Delays, phase: Phase, request: Action) -> (run: Run)
        requires
            RunView::waiting(command, delays, phase@, request@).valid(),
        ensures
            run@ == RunView::waiting(command, delays, phase@, request@),
    {
        let queue: Vec<Action> = vec![request];
        assert(action_views(queue@) =~= seq![request@]);
        Run { command, delays, phase, queue }
    }

    /// A run that has not done anything yet.
    fn initial(command: Command, delays: Delays) -> (run: Run)
        ensures
            run@ == RunView::initial(command, delays),
    {
        Run::waiting(command, delays, Phase::Environment, Action::ReadEnvironment)
    }

    /// A run that has all it needs for its command.
    fn started(command: Command, delays: Delays, config: Config) -> (run: Run)
        ensures
            run@ == RunView::started(command, delays, config),
    {
        let (queue, stage) = command.open(&config);
        Run { command, delays, phase: Phase::Running { config, stage }, queue }
    }

    /// A run that failed.
    fn failed(command: Command, delays: Delays, error: RunError) -> (run: Run)
        ensures
            run@ == RunView::ended(command, delays, Err(error@)),
    {
        Run::waiting(command, delays, Phase::Finished, Action::Finish(Err(error)))
    }

    /// A run that learned where the configuration file is.
    fn located(command: Command, delays: Delays, path: Result<Vec<u8>, ConfigPathError>) -> (run:
        Run)
        ensures
            run@ == RunView::located(command, delays, path_result(path)),
    {
        match path {
            Ok(path) => {
                let request = Action::ReadConfig(copied(path.as_slice()));
                Run::waiting(command, delays, Phase::Config { path }, request)
            },
            Err(error) => Run::failed(command, delays, RunError::ConfigPath(error)),
        }
    }

    /// A run that needs nothing more but the credentials for the television.
    fn connecting(command: Command, delays: Delays, path: Vec<u8>, config: Config) -> (run: Run)
        ensures
            run@ == RunView::waiting(
                command,
                delays,
                PhaseView::Client { path: path@, config },
                ActionView::BuildClient(path@),
            ),
    {
        let request = Action::BuildClient(copied(path.as_slice()));
        Run::waiting(command, delays, Phase::Client { path, config }, request)
    }

    /// A run that learned what the configuration file says.
    fn configured(
        command: Command,
        delays: Delays,
        path: Vec<u8>,
        config: Result<Config, ConfigError>,
    ) -> (run: Run)
        ensures
            run@ == RunView::configured(command, delays, path@, config_result(config)),
    {
        match config {
            Ok(config) => match command.scope() {
                Some(scope) => Run::waiting(
                    command,
                    delays,
                    Phase::Marker { path, config },
                    Action::OpenMarker(scope),
                ),
                None => Run::connecting(command, delays, path, config),
            },
            Err(error) => Run::failed(command, delays, RunError::Config(error)),
        }
    }

    /// The action to perform next.
    pub fn pending(&self) -> (action: &Action)
        ensures
            action@ == self@.pending(),
            self@.valid(),
    {
        proof {
            use_type_invariant(self);
        }
        &self.queue[0]
    }

    /// Whether an outcome can come of the pending action.
    pub fn accepts(&self, outcome: &Outcome) -> (fits: bool)
        ensures
            fits == self@.pending().answered_by(outcome@),
    {
        self.pending().answered_by(outcome)
    }

    /// The result of a run that is over.
    pub fn into_result(self) -> (result: Option<Result<(), RunError>>)
        ensures
            match result {
                Some(Ok(_)) => self@.pending() == ActionView::Finish(Ok(())),
                Some(Err(error)) => self@.pending() == ActionView::Finish(Err(error@)),
                None => !self@.is_over(),
            },
    {
        proof {
            use_type_invariant(&self);
        }
        let Run { queue, .. } = self;
        let mut queue = queue;
        match queue.remove(0) {
            Action::Finish(result) => Some(result),
            _ => None,
        }
    }

    /// The run after the outcome of the pending action.
    pub fn step(self, outcome: Outcome) -> (run: Run)
        requires
            self@.pending().answered_by(outcome@),
        ensures
            run@ == self@.next(outcome@),
            run@.valid(),
    {
        proof {
            use_type_invariant(&self);
            lemma_next_valid(self@, outcome@);
        }
        if self.queue.len() > 1 {
            self.passed(outcome)
        } else {
            self.decide(outcome)
        }
    }

    /// The run after the outcome of an effect.
    fn passed(self, outcome: Outcome) -> (run: Run)
        requires
            self@.queue.len() > 1,
            self@.next(outcome@).valid(),
        ensures
            run@ == self@.next(outcome@),
    {
        let ghost before = self@;
        let Run { command, delays, phase, queue } = self;
        let mut queue = queue;
        let passed = queue.remove(0);
        assert(action_views(queue@) =~= before.queue.skip(1));
        match outcome {
            Outcome::IoFailed(error) => {
                if passed.must_succeed() {
                    Run::failed(command, delays, RunError::Io(error))
                } else {
                    Run { command, delays, phase, queue }
                }
            },
            _ => Run { command, delays, phase, queue },
        }
    }

    /// The run after the outcome of what its phase waits for.
    fn decide(self, outcome: Outcome) -> (run: Run)
        requires
            self@.queue.len() == 1,
            self@.pending().answered_by(outcome@),
            self@.decided(outcome@).valid(),
        ensures
            run@ == self@.decided(outcome@),
    {
        proof {
            use_type_invariant(&self);
        }
        let Run { command, delays, phase, .. } = self;
        match (phase, outcome) {
            (Phase::Environment, Outcome::Environment(environment)) => Run::located(
                command,
                delays,
                resolve_config_path_from_env(&environment),
            ),
            (Phase::Config { path }, Outcome::Text(text)) => Run::configured(
                command,
                delays,
                path,
                load_config(Ok(text)),
            ),
            (Phase::Config { path }, Outcome::IoFailed(error)) => Run::configured(
                command,
                delays,
                path,
                load_config(Err(error)),
            ),
            (Phase::Marker { path, config }, Outcome::Done) => Run::connecting(
                command,
                delays,
                path,
                config,
            ),
            (Phase::Marker { .. }, Outcome::Refused(message)) => Run::failed(
                command,
                delays,
                RunError::StateDir(message),
            ),
            (Phase::Client { config, .. }, Outcome::Done) => Run::started(command, delays, config),
            (Phase::Client { .. }, Outcome::Refused(message)) => Run::failed(
                command,
                delays,
                RunError::AuthContext(message),
            ),
            (Phase::Running { config, stage }, outcome) => {
                let (queue, next) = stage.decide(&config, &delays, &outcome);
                let phase = match next {
                    Some(stage) => Phase::Running { config, stage },
                    None => Phase::Finished,
                };
                Run { command, delays, phase, queue }
            },
            _ => Run::waiting(command, delays, Phase::Finished, Action::Finish(Ok(()))),
        }
    }
}

/// Puts the screen off when the session is idle, from the search for the configuration file on.
pub fn run_screen_off() -> (run: Run)
    ensures
        run@ == RunView::initial(Command::ScreenOff, Delays::none()),
{
    Run::initial(Command::ScreenOff, Delays::usual())
}

/// Puts the screen off when the session is idle, with the given configuration and the marker and television at hand.
pub fn run_screen_off_with(config: &Config) -> (run: Run)
    ensures
        run@ == RunView::started(Command::ScreenOff, Delays::none(), *config),
{
    Run::started(Command::ScreenOff, Delays::usual(), *config)
}

/// Puts the screen back on, from the search for the configuration file on.
pub fn run_screen_on(delays: Delays) -> (run: Run)
    ensures
        run@ == RunView::initial(Command::ScreenOn, delays),
{
    Run::initial(Command::ScreenOn, delays)
}

/// Puts the screen back on, with the given configuration and the marker and television at hand.
pub fn run_screen_on_with(config: &Config, delays: Delays) -> (run: Run)
    ensures
        run@ == RunView::started(Command::ScreenOn, delays, *config),
{
    Run::started(Command::ScreenOn, delays, *config)
}

/// Puts the television on when the computer starts or wakes, from the search for the configuration file on.
pub fn run_startup(mode: StartupMode, delays: Delays) -> (run: Run)
    ensures
        run@ == RunView::initial(Command::Startup(mode), delays),
{
    Run::initial(Command::Startup(mode), delays)
}

/// Puts the television on when the computer starts or wakes, with the given configuration and the marker and television at hand.
pub fn run_startup_with(config: &Config, mode: StartupMode, delays: Delays) -> (run: Run)
    ensures
        run@ == RunView::started(Command::Startup(mode), delays, *config),
{
    Run::started(Command::Startup(mode), delays, *config)
}

/// Switches the television off before the computer sleeps, from the search for the configuration file on.
pub fn run_sleep_pre(delays: Delays) -> (run: Run)
    ensures
        run@ == RunView::initial(Command::SleepPre, delays),
{
    Run::initial(Command::SleepPre, delays)
}

/// Switches the television off before the computer sleeps, with the given configuration and the marker and television at hand.
pub fn run_sleep_pre_with(config: &Config, delays: Delays) -> (run: Run)
    ensures
        run@ == RunView::started(Command::SleepPre, delays, *config),
{
    Run::started(Command::SleepPre, delays, *config)
}

/// Switches the television off while the network manager prepares for sleep, from the search for the configuration file on.
pub fn run_sleep(delays: Delays) -> (run: Run)
    ensures
        run@ == RunView::initial(Command::Sleep, delays),
{
    Run::initial(Command::Sleep, delays)
}

/// Switches the television off while the network manager prepares for sleep, with the given configuration and the marker and television at hand.
pub fn run_sleep_with(config: &Config, delays: Delays) -> (run: Run)
    ensures
        run@ == RunView::started(Command::Sleep, delays, *config),
{
    Run::started(Command::Sleep, delays, *config)
}

/// Switches the television off when the computer shuts down, from the search for the configuration file on.
pub fn run_shutdown() -> (run: Run)
    ensures
        run@ == RunView::initial(Command::Shutdown, Delays::none()),
{
    Run::initial(Command::Shutdown, Delays::usual())
}

/// Switches the television off when the computer shuts down, with the given configuration and the marker and television at hand.
pub fn run_shutdown_with(config: &Config) -> (run: Run)
    ensures
        run@ == RunView::started(Command::Shutdown, Delays::none(), *config),
{
    Run::started(Command::Shutdown, Delays::usual(), *config)
}

/// Lets the user set the brightness, from the search for the configuration file on.
pub fn run_brightness() -> (run: Run)
    ensures
        run@ == RunView::initial(Command::Brightness, Delays::none()),
{
    Run::initial(Command::Brightness, Delays::usual())
}

/// Lets the user set the brightness, with the given configuration and the marker and television at hand.
pub fn run_brightness_with(config: &Config) -> (run: Run)
    ensures
        run@ == RunView::started(Command::Brightness, Delays::none(), *config),
{
    Run::started(Command::Brightness, Delays::usual(), *config)
}

} // verus!
