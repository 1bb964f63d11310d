//! What the television is told over a run, and how often.

use crate::commands::brightness::BrightnessStage;
use crate::commands::screen_off::ScreenOffStage;
use crate::commands::screen_on::{self, ScreenOnStage};
use crate::commands::shutdown::ShutdownStage;
use crate::commands::sleep::SleepStage;
use crate::commands::sleep_pre::SleepPreStage;
use crate::commands::startup::StartupStage;
use crate::commands::tv;
use crate::config::{Config, ScreenRestorePolicy};
use crate::delay::Delays;
use crate::effects::{ActionView, OutcomeView, RunErrorView, StartupMode, TvCommand};
use crate::history::{config_stays, is_history, run_after, stepped, valid_after, Step};
use crate::marker::{found_elsewhere, is_undisturbed, last_tv, marker_after, marker_is_asked_about_before_it_changes, marker_tells_who_put_the_screen_off, put_off};
use crate::run::{Command, CommandStage, PhaseView, RunView};
use vstd::prelude::*;

verus! {

/// The things that are counted.
pub enum Kind {
    /// Questions what is shown.
    QueryInput,
    /// Attempts at showing a port.
    SetInput,
    /// Attempts at putting the panel off.
    Blank,
    /// Attempts at putting the panel on.
    Unblank,
    /// Attempts at switching off.
    PowerOff,
    /// Wake packets.
    Wake,
    /// Questions how bright the pixels are.
    QueryBrightness,
    /// Attempts at changing the brightness.
    SetBrightness,
    /// Pauses.
    Pause,
}

impl Kind {
    /// Whether an action is of the kind.
    pub open spec fn has(self, action: ActionView) -> bool {
        match (self, action) {
            (Kind::QueryInput, ActionView::Tv(_, TvCommand::QueryInput)) => true,
            (Kind::SetInput, ActionView::Tv(_, TvCommand::SetInput(_))) => true,
            (Kind::Blank, ActionView::Tv(_, TvCommand::BlankScreen)) => true,
            (Kind::Unblank, ActionView::Tv(_, TvCommand::UnblankScreen)) => true,
            (Kind::PowerOff, ActionView::Tv(_, TvCommand::PowerOff)) => true,
            (Kind::Wake, ActionView::Tv(_, TvCommand::Wake(_))) => true,
            (Kind::QueryBrightness, ActionView::Tv(_, TvCommand::QueryBrightness)) => true,
            (Kind::SetBrightness, ActionView::Tv(_, TvCommand::SetBrightness(_))) => true,
            (Kind::Pause, ActionView::Sleep(_)) => true,
            _ => false,
        }
    }

    /// One where an action is of the kind, else zero.
    pub open spec fn counts(self, action: ActionView) -> nat {
        if self.has(action) {
            1
        } else {
            0
        }
    }
}

/// How many actions of a kind were performed.
pub open spec fn done(kind: Kind, history: Seq<Step>) -> nat
    decreases history.len(),
{
    if history.len() == 0 {
        0
    } else {
        done(kind, history.drop_last()) + kind.counts(history.last().action)
    }
}

/// How many of the first `count` settled actions are of a kind.
spec fn to_do(kind: Kind, queue: Seq<ActionView>, count: nat) -> nat
    decreases count,
{
    if count == 0 {
        0
    } else {
        to_do(kind, queue, (count - 1) as nat) + kind.counts(queue[count - 1])
    }
}

proof fn lemma_to_do_first(kind: Kind, queue: Seq<ActionView>, count: nat)
    requires
        1 <= count <= queue.len(),
    ensures
        to_do(kind, queue, count) == kind.counts(queue[0]) + to_do(
            kind,
            queue.skip(1),
            (count - 1) as nat,
        ),
    decreases count,
{
    reveal_with_fuel(to_do, 2);
    if count > 1 {
        lemma_to_do_first(kind, queue, (count - 1) as nat);
    }
}

impl Command {
    /// How many actions of a kind the command performs at most.
    pub open spec fn limit(self, kind: Kind) -> nat {
        match (self, kind) {
            (Command::ScreenOff, Kind::QueryInput | Kind::Blank | Kind::PowerOff) => 1,
            (Command::ScreenOn, Kind::Unblank) => 1,
            (Command::ScreenOn, Kind::SetInput | Kind::Wake | Kind::Pause) => 7,
            (Command::Startup(_), Kind::SetInput) => 6,
            (Command::Startup(_), Kind::Wake | Kind::Pause) => 7,
            (Command::SleepPre | Command::Sleep, Kind::QueryInput | Kind::PowerOff) => 4,
            (Command::SleepPre | Command::Sleep, Kind::Pause) => 6,
            (Command::Shutdown, Kind::QueryInput | Kind::PowerOff) => 1,
            (Command::Brightness, Kind::QueryBrightness | Kind::SetBrightness) => 1,
            _ => 0,
        }
    }
}

impl CommandStage {
    /// How many actions of a kind there are at most up to the request of the stage.
    spec fn at_most(self, kind: Kind) -> int {
        match (self, kind) {
            (CommandStage::ScreenOff(_), Kind::QueryInput) => 1,
            (CommandStage::ScreenOff(stage), Kind::Blank) => if stage is Input {
                0
            } else {
                1
            },
            (CommandStage::ScreenOff(stage), Kind::PowerOff) => if stage is Fallback {
                1
            } else {
                0
            },
            (CommandStage::ScreenOn(stage), Kind::Unblank) => if stage is Marker {
                0
            } else {
                1
            },
            (CommandStage::ScreenOn(stage), Kind::SetInput) => match stage {
                ScreenOnStage::Marker | ScreenOnStage::Unblank => 0,
                ScreenOnStage::Restore | ScreenOnStage::FirstWake => 1,
                ScreenOnStage::Attempt(attempt) | ScreenOnStage::Rewake(attempt) => attempt + 1,
            },
            (CommandStage::ScreenOn(stage), Kind::Wake) => match stage {
                ScreenOnStage::FirstWake => 1,
                ScreenOnStage::Attempt(attempt) => attempt as int,
                ScreenOnStage::Rewake(attempt) => attempt + 1,
                _ => 0,
            },
            (CommandStage::ScreenOn(stage), Kind::Pause) => match stage {
                ScreenOnStage::Attempt(attempt) | ScreenOnStage::Rewake(attempt) => attempt as int,
                _ => 0,
            },
            (CommandStage::Startup(stage), Kind::SetInput | Kind::Pause) => match stage {
                StartupStage::Attempt(attempt) | StartupStage::Rewake(attempt) => attempt as int,
                _ => 0,
            },
            (CommandStage::Startup(stage), Kind::Wake) => match stage {
                StartupStage::FirstWake => 1,
                StartupStage::Attempt(attempt) => attempt as int,
                StartupStage::Rewake(attempt) => attempt + 1,
                _ => 0,
            },
            (CommandStage::SleepPre(stage), Kind::QueryInput) => match stage {
                SleepPreStage::Marker => 0,
                SleepPreStage::Input { failures, .. } => failures + 1,
                _ => 4,
            },
            (CommandStage::SleepPre(stage), Kind::PowerOff) => match stage {
                SleepPreStage::PowerOff => 1,
                SleepPreStage::Fallback { attempt, .. } => attempt as int,
                _ => 0,
            },
            (CommandStage::SleepPre(stage), Kind::Pause) => match stage {
                SleepPreStage::Marker => 0,
                SleepPreStage::Input { failures, .. } => failures as int,
                SleepPreStage::PowerOff => 3,
                SleepPreStage::Fallback { attempt, .. } => attempt + 2,
            },
            (CommandStage::Sleep(stage), Kind::QueryInput) => match stage {
                SleepStage::Request => 0,
                SleepStage::Input { failures } => failures + 1,
                _ => 4,
            },
            (CommandStage::Sleep(stage), Kind::PowerOff) => match stage {
                SleepStage::PowerOff { attempt, .. } => attempt as int,
                _ => 0,
            },
            (CommandStage::Sleep(stage), Kind::Pause) => match stage {
                SleepStage::Request => 0,
                SleepStage::Input { failures } => failures as int,
                SleepStage::Marker => 3,
                SleepStage::PowerOff { attempt, .. } => attempt + 2,
            },
            (CommandStage::Shutdown(stage), Kind::QueryInput) => if stage is Reboot {
                0
            } else {
                1
            },
            (CommandStage::Shutdown(stage), Kind::PowerOff) => if stage is PowerOff {
                1
            } else {
                0
            },
            (CommandStage::Brightness(stage), Kind::QueryBrightness) => if stage is Reachable {
                0
            } else {
                1
            },
            (CommandStage::Brightness(stage), Kind::SetBrightness) => if stage is Change {
                1
            } else {
                0
            },
            _ => 0,
        }
    }

    /// How many actions of a kind there are at least up to the request of the stage.
    spec fn at_least(self, kind: Kind) -> int {
        match (self, kind) {
            (CommandStage::ScreenOn(_), Kind::Wake | Kind::Pause) => self.at_most(kind),
            (
                CommandStage::ScreenOn(
                    ScreenOnStage::Attempt(attempt) | ScreenOnStage::Rewake(attempt),
                ),
                Kind::SetInput,
            ) => attempt as int,
            _ => 0,
        }
    }
}

/// Whether an action ends a command because it could not do what it is for.
pub open spec fn is_defeat(action: ActionView) -> bool {
    match action {
        ActionView::Finish(Err(RunErrorView::Policy(_))) => true,
        _ => false,
    }
}

/// Whether the number of actions of a kind fits the end of a run.
spec fn end_counts(command: Command, kind: Kind, count: int, end: ActionView) -> bool {
    &&& count <= command.limit(kind)
    &&& command is ScreenOn && is_defeat(end) ==> match kind {
        Kind::Wake | Kind::Pause => count == 7,
        Kind::SetInput => count >= 6,
        _ => true,
    }
}

/// Whether the number of actions of a kind fits what follows from an outcome.
spec fn plan_counts(
    command: Command,
    stage: CommandStage,
    config: Config,
    delays: Delays,
    outcome: OutcomeView,
    kind: Kind,
) -> bool {
    let (queue, next) = stage.plan(config, delays, outcome);
    let added = to_do(kind, queue, queue.len());
    match next {
        Some(next) => {
            &&& stage.at_most(kind) + added <= next.at_most(kind)
            &&& next.at_least(kind) <= stage.at_least(kind) + added
        },
        None => {
            &&& end_counts(command, kind, stage.at_most(kind) + added, queue.last())
            &&& end_counts(command, kind, stage.at_least(kind) + added, queue.last())
        },
    }
}

#[verifier::spinoff_prover]
#[verifier::rlimit(30)]
proof fn lemma_screen_off_counts(
    command: Command,
    stage: ScreenOffStage,
    config: Config,
    delays: Delays,
    outcome: OutcomeView,
    kind: Kind,
)
    requires
        CommandStage::ScreenOff(stage).counted(),
        CommandStage::ScreenOff(stage).is_of(command),
        stage.request(config).answered_by(outcome),
    ensures
        plan_counts(command, CommandStage::ScreenOff(stage), config, delays, outcome, kind),
{
    reveal_with_fuel(to_do, 7);
}

#[verifier::spinoff_prover]
#[verifier::rlimit(30)]
proof fn lemma_screen_on_counts(
    command: Command,
    stage: ScreenOnStage,
    config: Config,
    delays: Delays,
    outcome: OutcomeView,
    kind: Kind,
)
    requires
        CommandStage::ScreenOn(stage).counted(),
        CommandStage::ScreenOn(stage).is_of(command),
        stage.request(config).answered_by(outcome),
    ensures
        plan_counts(command, CommandStage::ScreenOn(stage), config, delays, outcome, kind),
{
    reveal_with_fuel(to_do, 7);
    let queue = screen_on::plan(config, delays, stage, outcome).0;
    match stage {
        ScreenOnStage::Marker => assert(queue.len() <= 4),
        ScreenOnStage::Unblank => assert(queue.len() <= 3),
        ScreenOnStage::Restore => assert(queue.len() == 3),
        ScreenOnStage::FirstWake => assert(queue.len() == 3 || queue.len() == 4),
        ScreenOnStage::Attempt(_) => assert(queue.len() == 2 || queue.len() == 3),
        ScreenOnStage::Rewake(_) => assert(queue.len() == 3 || queue.len() == 4),
    }
}

#[verifier::spinoff_prover]
#[verifier::rlimit(30)]
proof fn lemma_startup_counts(
    command: Command,
    stage: StartupStage,
    config: Config,
    delays: Delays,
    outcome: OutcomeView,
    kind: Kind,
)
    requires
        CommandStage::Startup(stage).counted(),
        CommandStage::Startup(stage).is_of(command),
        stage.request(config).answered_by(outcome),
    ensures
        plan_counts(command, CommandStage::Startup(stage), config, delays, outcome, kind),
{
    reveal_with_fuel(to_do, 7);
}

#[verifier::spinoff_prover]
#[verifier::rlimit(30)]
proof fn lemma_sleep_pre_counts(
    command: Command,
    stage: SleepPreStage,
    config: Config,
    delays: Delays,
    outcome: OutcomeView,
    kind: Kind,
)
    requires
        CommandStage::SleepPre(stage).counted(),
        CommandStage::SleepPre(stage).is_of(command),
        stage.request(config).answered_by(outcome),
    ensures
        plan_counts(command, CommandStage::SleepPre(stage), config, delays, outcome, kind),
{
    reveal_with_fuel(to_do, 7);
}

#[verifier::spinoff_prover]
#[verifier::rlimit(30)]
proof fn lemma_sleep_counts(
    command: Command,
    stage: SleepStage,
    config: Config,
    delays: Delays,
    outcome: OutcomeView,
    kind: Kind,
)
    requires
        CommandStage::Sleep(stage).counted(),
        CommandStage::Sleep(stage).is_of(command),
        stage.request(config).answered_by(outcome),
    ensures
        plan_counts(command, CommandStage::Sleep(stage), config, delays, outcome, kind),
{
    reveal_with_fuel(to_do, 7);
}

#[verifier::spinoff_prover]
#[verifier::rlimit(30)]
proof fn lemma_shutdown_counts(
    command: Command,
    stage: ShutdownStage,
    config: Config,
    delays: Delays,
    outcome: OutcomeView,
    kind: Kind,
)
    requires
        CommandStage::Shutdown(stage).counted(),
        CommandStage::Shutdown(stage).is_of(command),
        stage.request(config).answered_by(outcome),
    ensures
        plan_counts(command, CommandStage::Shutdown(stage), config, delays, outcome, kind),
{
    reveal_with_fuel(to_do, 7);
}

#[verifier::spinoff_prover]
#[verifier::rlimit(30)]
proof fn lemma_brightness_counts(
    command: Command,
    stage: BrightnessStage,
    config: Config,
    delays: Delays,
    outcome: OutcomeView,
    kind: Kind,
)
    requires
        CommandStage::Brightness(stage).counted(),
        CommandStage::Brightness(stage).is_of(command),
        stage.request(config).answered_by(outcome),
    ensures
        plan_counts(command, CommandStage::Brightness(stage), config, delays, outcome, kind),
{
    reveal_with_fuel(to_do, 7);
}

proof fn lemma_plan_counts(
    command: Command,
    stage: CommandStage,
    config: Config,
    delays: Delays,
    outcome: OutcomeView,
    kind: Kind,
)
    requires
        stage.counted(),
        stage.is_of(command),
        stage.request(config).answered_by(outcome),
    ensures
        plan_counts(command, stage, config, delays, outcome, kind),
{
    match stage {
        CommandStage::ScreenOff(inner) => {
            lemma_screen_off_counts(command, inner, config, delays, outcome, kind);
        },
        CommandStage::ScreenOn(inner) => {
            lemma_screen_on_counts(command, inner, config, delays, outcome, kind);
        },
        CommandStage::Startup(inner) => {
            lemma_startup_counts(command, inner, config, delays, outcome, kind);
        },
        CommandStage::SleepPre(inner) => {
            lemma_sleep_pre_counts(command, inner, config, delays, outcome, kind);
        },
        CommandStage::Sleep(inner) => {
            lemma_sleep_counts(command, inner, config, delays, outcome, kind);
        },
        CommandStage::Shutdown(inner) => {
            lemma_shutdown_counts(command, inner, config, delays, outcome, kind);
        },
        CommandStage::Brightness(inner) => {
            lemma_brightness_counts(command, inner, config, delays, outcome, kind);
        },
    }
}

/// Whether the number of actions of a kind fits where a run is.
spec fn run_counts(run: RunView, history: Seq<Step>, kind: Kind) -> bool {
    let count = (done(kind, history) + to_do(kind, run.queue, run.queue.len())) as int;
    match run.phase {
        PhaseView::Running { stage, .. } => stage.at_least(kind) <= count <= stage.at_most(kind),
        PhaseView::Finished => end_counts(run.command, kind, count, run.queue.last()),
        _ => false,
    }
}

/// The number of actions of a kind fits where a run is after one more step.
proof fn lemma_step_counts(run: RunView, history: Seq<Step>, outcome: OutcomeView, kind: Kind)
    requires
        run.valid(),
        run_counts(run, history, kind),
        run.pending().answered_by(outcome),
    ensures
        run_counts(stepped(run, outcome), history.push(Step { action: run.pending(), outcome }), kind),
{
    reveal(stepped);
    let step = Step { action: run.pending(), outcome };
    assert(history.push(step).drop_last() =~= history);
    reveal_with_fuel(to_do, 2);
    lemma_to_do_first(kind, run.queue, run.queue.len());
    if run.queue.len() == 1 {
        if let PhaseView::Running { stage, config } = run.phase {
            lemma_plan_counts(run.command, stage, config, run.delays, outcome, kind);
        }
    } else {
        assert(run.pending().is_effect());
        assert(run.queue.skip(1).last() == run.queue.last());
    }
}

proof fn lemma_run_counts(
    command: Command,
    delays: Delays,
    config: Config,
    history: Seq<Step>,
    kind: Kind,
)
    requires
        is_history(RunView::started(command, delays, config), history),
    ensures
        run_counts(run_after(RunView::started(command, delays, config), history), history, kind),
    decreases history.len(),
{
    let start = RunView::started(command, delays, config);
    if history.len() == 0 {
        reveal_with_fuel(to_do, 2);
    } else {
        let earlier = history.drop_last();
        lemma_run_counts(command, delays, config, earlier, kind);
        valid_after(start, earlier);
        lemma_step_counts(run_after(start, earlier), earlier, history.last().outcome, kind);
        assert(earlier.push(history.last()) =~= history);
    }
}

/// A command repeats itself only so often: it tells the television each thing, and pauses, at
/// most as often as its limit says.
pub proof fn repeats_are_limited(
    command: Command,
    delays: Delays,
    config: Config,
    history: Seq<Step>,
    kind: Kind,
)
    requires
        is_history(RunView::started(command, delays, config), history),
    ensures
        done(kind, history) <= command.limit(kind),
{
    let start = RunView::started(command, delays, config);
    lemma_run_counts(command, delays, config, history, kind);
    valid_after(start, history);
}

/// Whether an action, if it is for the television, is for the configured one, and speaks of
/// the configured port and hardware address.
pub open spec fn is_for(config: Config, action: ActionView) -> bool {
    match action {
        ActionView::Tv(ip, command) => ip == config.tv_ip && match command {
            TvCommand::SetInput(input) => input == config.input,
            TvCommand::Wake(mac) => mac == config.tv_mac,
            _ => true,
        },
        _ => true,
    }
}

/// A command speaks to the configured television only.
pub proof fn speaks_to_the_configured_television(
    command: Command,
    delays: Delays,
    config: Config,
    history: Seq<Step>,
)
    requires
        is_history(RunView::started(command, delays, config), history),
    ensures
        is_for(config, run_after(RunView::started(command, delays, config), history).pending()),
        forall|i: int| 0 <= i < history.len() ==> is_for(config, (#[trigger] history[i]).action),
    decreases history.len(),
{
    let start = RunView::started(command, delays, config);
    config_stays(command, delays, config, history);
    valid_after(start, history);
    if run_after(start, history).queue.len() > 1 {
        assert(run_after(start, history).pending().is_effect());
    }
    if history.len() > 0 {
        let earlier = history.drop_last();
        speaks_to_the_configured_television(command, delays, config, earlier);
        assert forall|i: int| 0 <= i < history.len() implies is_for(
            config,
            (#[trigger] history[i]).action,
        ) by {
            if i < earlier.len() {
                assert(history[i] == earlier[i]);
            }
        }
    }
}

/// Whether a step made the television do something else than wake.
pub open spec fn worked(step: Step) -> bool {
    &&& step.action matches ActionView::Tv(_, command)
    &&& !(command is Wake)
    &&& step.outcome is Done
}

/// Whether no step made the television do something else than wake.
pub open spec fn nothing_worked(history: Seq<Step>) -> bool {
    forall|i: int| 0 <= i < history.len() ==> !worked(#[trigger] history[i])
}

/// Whether a step settles that the television is left alone from then on.
pub open spec fn leaves_alone(config: Config, step: Step) -> bool {
    put_off(step) || found_elsewhere(config, step)
}

/// Whether what the television did fits what follows from it.
spec fn plan_heeds(
    command: Command,
    stage: CommandStage,
    config: Config,
    delays: Delays,
    outcome: OutcomeView,
) -> bool {
    let (queue, next) = stage.plan(config, delays, outcome);
    let step = Step { action: stage.request(config), outcome };
    match next {
        Some(next) => {
            &&& !leaves_alone(config, step)
            &&& command is ScreenOn ==> !worked(step)
            &&& next != CommandStage::ScreenOn(ScreenOnStage::Marker)
        },
        None => command is ScreenOn ==> {
            &&& is_defeat(queue.last()) ==> !worked(step)
            &&& step.action is Tv && !is_defeat(queue.last()) ==> worked(step)
        },
    }
}

#[verifier::spinoff_prover]
#[verifier::rlimit(30)]
proof fn lemma_screen_off_heeds(
    command: Command,
    stage: ScreenOffStage,
    config: Config,
    delays: Delays,
    outcome: OutcomeView,
)
    requires
        CommandStage::ScreenOff(stage).counted(),
        CommandStage::ScreenOff(stage).is_of(command),
        stage.request(config).answered_by(outcome),
    ensures
        plan_heeds(command, CommandStage::ScreenOff(stage), config, delays, outcome),
{
}

#[verifier::spinoff_prover]
#[verifier::rlimit(30)]
proof fn lemma_screen_on_heeds(
    command: Command,
    stage: ScreenOnStage,
    config: Config,
    delays: Delays,
    outcome: OutcomeView,
)
    requires
        CommandStage::ScreenOn(stage).counted(),
        CommandStage::ScreenOn(stage).is_of(command),
        stage.request(config).answered_by(outcome),
    ensures
        plan_heeds(command, CommandStage::ScreenOn(stage), config, delays, outcome),
{
}

#[verifier::spinoff_prover]
#[verifier::rlimit(30)]
proof fn lemma_startup_heeds(
    command: Command,
    stage: StartupStage,
    config: Config,
    delays: Delays,
    outcome: OutcomeView,
)
    requires
        CommandStage::Startup(stage).counted(),
        CommandStage::Startup(stage).is_of(command),
        stage.request(config).answered_by(outcome),
    ensures
        plan_heeds(command, CommandStage::Startup(stage), config, delays, outcome),
{
}

#[verifier::spinoff_prover]
#[verifier::rlimit(30)]
proof fn lemma_sleep_pre_heeds(
    command: Command,
    stage: SleepPreStage,
    config: Config,
    delays: Delays,
    outcome: OutcomeView,
)
    requires
        CommandStage::SleepPre(stage).counted(),
        CommandStage::SleepPre(stage).is_of(command),
        stage.request(config).answered_by(outcome),
    ensures
        plan_heeds(command, CommandStage::SleepPre(stage), config, delays, outcome),
{
}

#[verifier::spinoff_prover]
#[verifier::rlimit(30)]
proof fn lemma_sleep_heeds(
    command: Command,
    stage: SleepStage,
    config: Config,
    delays: Delays,
    outcome: OutcomeView,
)
    requires
        CommandStage::Sleep(stage).counted(),
        CommandStage::Sleep(stage).is_of(command),
        stage.request(config).answered_by(outcome),
    ensures
        plan_heeds(command, CommandStage::Sleep(stage), config, delays, outcome),
{
}

#[verifier::spinoff_prover]
#[verifier::rlimit(30)]
proof fn lemma_shutdown_heeds(
    command: Command,
    stage: ShutdownStage,
    config: Config,
    delays: Delays,
    outcome: OutcomeView,
)
    requires
        CommandStage::Shutdown(stage).counted(),
        CommandStage::Shutdown(stage).is_of(command),
        stage.request(config).answered_by(outcome),
    ensures
        plan_heeds(command, CommandStage::Shutdown(stage), config, delays, outcome),
{
}

#[verifier::spinoff_prover]
#[verifier::rlimit(30)]
proof fn lemma_brightness_heeds(
    command: Command,
    stage: BrightnessStage,
    config: Config,
    delays: Delays,
    outcome: OutcomeView,
)
    requires
        CommandStage::Brightness(stage).counted(),
        CommandStage::Brightness(stage).is_of(command),
        stage.request(config).answered_by(outcome),
    ensures
        plan_heeds(command, CommandStage::Brightness(stage), config, delays, outcome),
{
}

proof fn lemma_plan_heeds(
    command: Command,
    stage: CommandStage,
    config: Config,
    delays: Delays,
    outcome: OutcomeView,
)
    requires
        stage.counted(),
        stage.is_of(command),
        stage.request(config).answered_by(outcome),
    ensures
        plan_heeds(command, stage, config, delays, outcome),
{
    match stage {
        CommandStage::ScreenOff(inner) => {
            lemma_screen_off_heeds(command, inner, config, delays, outcome);
        },
        CommandStage::ScreenOn(inner) => {
            lemma_screen_on_heeds(command, inner, config, delays, outcome);
        },
        CommandStage::Startup(inner) => {
            lemma_startup_heeds(command, inner, config, delays, outcome);
        },
        CommandStage::SleepPre(inner) => {
            lemma_sleep_pre_heeds(command, inner, config, delays, outcome);
        },
        CommandStage::Sleep(inner) => {
            lemma_sleep_heeds(command, inner, config, delays, outcome);
        },
        CommandStage::Shutdown(inner) => {
            lemma_shutdown_heeds(command, inner, config, delays, outcome);
        },
        CommandStage::Brightness(inner) => {
            lemma_brightness_heeds(command, inner, config, delays, outcome);
        },
    }
}

/// Whether what the television did fits where a run is.
spec fn run_heeds(run: RunView, config: Config, history: Seq<Step>) -> bool {
    let last = last_tv(history);
    match run.phase {
        PhaseView::Running { config: known, stage } => {
            &&& known == config
            &&& last matches Some(step) ==> !leaves_alone(config, step)
            &&& run.command is ScreenOn ==> nothing_worked(history)
            &&& stage == CommandStage::ScreenOn(ScreenOnStage::Marker) ==> last is None
        },
        PhaseView::Finished => run.command is ScreenOn ==> {
            &&& is_defeat(run.queue.last()) ==> nothing_worked(history)
            &&& run.queue.last() == ActionView::Finish(Ok(())) ==> match last {
                Some(step) => worked(step),
                None => true,
            }
        },
        _ => false,
    }
}

/// What the television did fits where a run is after one more step.
proof fn lemma_step_heeds(run: RunView, config: Config, history: Seq<Step>, outcome: OutcomeView)
    requires
        run.valid(),
        run_heeds(run, config, history),
        run.pending().answered_by(outcome),
    ensures
        run_heeds(
            stepped(run, outcome),
            config,
            history.push(Step { action: run.pending(), outcome }),
        ),
{
    reveal(stepped);
    let step = Step { action: run.pending(), outcome };
    assert(history.push(step).drop_last() =~= history);
    if run.queue.len() > 1 {
        assert(run.pending().is_effect());
        assert(run.queue.skip(1).last() == run.queue.last());
    } else if let PhaseView::Running { stage, config } = run.phase {
        lemma_plan_heeds(run.command, stage, config, run.delays, outcome);
    }
}

proof fn lemma_run_heeds(command: Command, delays: Delays, config: Config, history: Seq<Step>)
    requires
        is_history(RunView::started(command, delays, config), history),
    ensures
        run_heeds(run_after(RunView::started(command, delays, config), history), config, history),
    decreases history.len(),
{
    let start = RunView::started(command, delays, config);
    if history.len() > 0 {
        let earlier = history.drop_last();
        lemma_run_heeds(command, delays, config, earlier);
        valid_after(start, earlier);
        lemma_step_heeds(run_after(start, earlier), config, earlier, history.last().outcome);
        assert(earlier.push(history.last()) =~= history);
    }
}

/// Once the screen is off, or the television is found on something else than the configured
/// port, the television is told nothing more.
pub proof fn leaves_the_television_alone(
    command: Command,
    delays: Delays,
    config: Config,
    history: Seq<Step>,
)
    requires
        is_history(RunView::started(command, delays, config), history),
        last_tv(history) is Some,
        leaves_alone(config, last_tv(history)->Some_0),
    ensures
        !(run_after(RunView::started(command, delays, config), history).pending() is Tv),
{
    let start = RunView::started(command, delays, config);
    lemma_run_heeds(command, delays, config, history);
    valid_after(start, history);
}

/// A restore fails only after seven wake packets with a pause after each, and six attempts at
/// showing the configured port, and only when the television did nothing that it was told.
pub proof fn screen_on_gives_up_late(delays: Delays, config: Config, history: Seq<Step>)
    requires
        is_history(RunView::started(Command::ScreenOn, delays, config), history),
        is_defeat(run_after(RunView::started(Command::ScreenOn, delays, config), history).pending()),
    ensures
        done(Kind::Wake, history) == 7,
        done(Kind::Pause, history) == 7,
        done(Kind::SetInput, history) >= 6,
        nothing_worked(history),
{
    let start = RunView::started(Command::ScreenOn, delays, config);
    lemma_run_heeds(Command::ScreenOn, delays, config, history);
    lemma_run_counts(Command::ScreenOn, delays, config, history, Kind::Wake);
    lemma_run_counts(Command::ScreenOn, delays, config, history, Kind::Pause);
    lemma_run_counts(Command::ScreenOn, delays, config, history, Kind::SetInput);
    valid_after(start, history);
    reveal_with_fuel(to_do, 2);
}

/// A restore that tells the television anything and ends well has the panel on, or the
/// configured port shown.
pub proof fn screen_on_ends_well_with_the_screen_on(
    delays: Delays,
    config: Config,
    history: Seq<Step>,
)
    requires
        is_history(RunView::started(Command::ScreenOn, delays, config), history),
        run_after(RunView::started(Command::ScreenOn, delays, config), history).pending()
            == ActionView::Finish(Ok(())),
        last_tv(history) is Some,
    ensures
        worked(last_tv(history)->Some_0),
{
    let start = RunView::started(Command::ScreenOn, delays, config);
    lemma_run_heeds(Command::ScreenOn, delays, config, history);
    valid_after(start, history);
}

/// Whether an action is none but to wait for the network, to write or to end.
spec fn is_quiet(action: ActionView) -> bool {
    action is WaitForNetwork || action is Log || action is Finish
}

/// Whether a run that has no marker and may not do without keeps still.
spec fn keeps_still(run: RunView, config: Config) -> bool {
    match run.phase {
        PhaseView::Running { config: known, stage } => {
            &&& known == config
            &&& stage == CommandStage::ScreenOn(ScreenOnStage::Marker) || stage
                == CommandStage::Startup(StartupStage::Marker(StartupMode::Wake))
            &&& run.queue.len() == 1
        },
        PhaseView::Finished => forall|i: int|
            0 <= i < run.queue.len() ==> is_quiet(#[trigger] run.queue[i]),
        _ => false,
    }
}

/// A run that has no marker and may not do without keeps still for one more step.
proof fn lemma_step_keeps_still(run: RunView, config: Config, outcome: OutcomeView)
    requires
        config.screen_restore_policy == ScreenRestorePolicy::MarkerOnly,
        run.valid(),
        keeps_still(run, config),
        run.pending().answered_by(outcome),
        run.pending() is MarkerExists ==> outcome == OutcomeView::Flag(false),
    ensures
        keeps_still(stepped(run, outcome), config),
        run.pending() is MarkerExists || is_quiet(run.pending()),
{
    reveal(stepped);
    if run.queue.len() > 1 {
        let rest = run.queue.skip(1);
        assert forall|i: int| 0 <= i < rest.len() implies is_quiet(#[trigger] rest[i]) by {
            assert(rest[i] == run.queue[i + 1]);
        }
    }
}

proof fn lemma_keeps_still(command: Command, delays: Delays, config: Config, history: Seq<Step>)
    requires
        command == Command::ScreenOn || command == Command::Startup(StartupMode::Wake),
        config.screen_restore_policy == ScreenRestorePolicy::MarkerOnly,
        is_history(RunView::started(command, delays, config), history),
        is_undisturbed(false, history),
    ensures
        keeps_still(run_after(RunView::started(command, delays, config), history), config),
        last_tv(history) is None,
        !marker_after(false, history),
        done(Kind::Pause, history) == 0,
    decreases history.len(),
{
    let start = RunView::started(command, delays, config);
    if history.len() > 0 {
        let earlier = history.drop_last();
        lemma_keeps_still(command, delays, config, earlier);
        valid_after(start, earlier);
        lemma_step_keeps_still(run_after(start, earlier), config, history.last().outcome);
    }
}

/// Where the policy asks for the marker and there is none, neither a restore nor a start after
/// a sleep tells the television anything or pauses, and there is no marker after it either.
pub proof fn restore_asks_for_the_marker(
    command: Command,
    delays: Delays,
    config: Config,
    history: Seq<Step>,
)
    requires
        command == Command::ScreenOn || command == Command::Startup(StartupMode::Wake),
        config.screen_restore_policy == ScreenRestorePolicy::MarkerOnly,
        is_history(RunView::started(command, delays, config), history),
        is_undisturbed(false, history),
    ensures
        last_tv(history) is None,
        !marker_after(false, history),
        done(Kind::Pause, history) == 0,
{
    lemma_keeps_still(command, delays, config, history);
}

/// Whether a run of `Command::Brightness` that is about to change the brightness knows it
/// from the last outcome.
spec fn has_choice(run: RunView, history: Seq<Step>) -> bool {
    match run.phase {
        PhaseView::Running { stage, .. } => {
            &&& run.queue.len() == 1
            &&& stage matches CommandStage::Brightness(BrightnessStage::Change(value))
                ==> history.len() > 0 && history.last().outcome == OutcomeView::Choice(Some(value))
        },
        PhaseView::Finished => true,
        _ => false,
    }
}

proof fn lemma_step_has_choice(run: RunView, history: Seq<Step>, outcome: OutcomeView)
    requires
        run.valid(),
        run.command is Brightness,
        has_choice(run, history),
        run.pending().answered_by(outcome),
    ensures
        has_choice(stepped(run, outcome), history.push(Step { action: run.pending(), outcome })),
{
    reveal(stepped);
}

proof fn lemma_has_choice(config: Config, history: Seq<Step>)
    requires
        is_history(RunView::started(Command::Brightness, Delays::none(), config), history),
    ensures
        has_choice(
            run_after(RunView::started(Command::Brightness, Delays::none(), config), history),
            history,
        ),
    decreases history.len(),
{
    if history.len() > 0 {
        let start = RunView::started(Command::Brightness, Delays::none(), config);
        let earlier = history.drop_last();
        lemma_has_choice(config, earlier);
        valid_after(start, earlier);
        lemma_step_has_choice(run_after(start, earlier), earlier, history.last().outcome);
        assert(earlier.push(history.last()) =~= history);
    }
}

/// The brightness is set to what the user has just chosen.
pub proof fn brightness_is_what_was_chosen(config: Config, history: Seq<Step>, value: u8)
    requires
        is_history(RunView::started(Command::Brightness, Delays::none(), config), history),
        run_after(
            RunView::started(Command::Brightness, Delays::none(), config),
            history,
        ).pending() == tv(config, TvCommand::SetBrightness(value)),
    ensures
        history.len() > 0,
        history.last().outcome == OutcomeView::Choice(Some(value)),
{
    let start = RunView::started(Command::Brightness, Delays::none(), config);
    lemma_has_choice(config, history);
    config_stays(Command::Brightness, Delays::none(), config, history);
    valid_after(start, history);
}

/// Whether a run that is over and ended well has told the television something.
spec fn has_spoken(run: RunView, history: Seq<Step>) -> bool {
    run.queue.last() == ActionView::Finish(Ok(())) ==> last_tv(history) is Some
}

proof fn lemma_step_has_spoken(run: RunView, history: Seq<Step>, outcome: OutcomeView)
    requires
        run.valid(),
        run.command is ScreenOn || run.command is Startup,
        run.phase is Running || run.phase is Finished,
        has_spoken(run, history),
        run.pending().answered_by(outcome),
        run.pending() is MarkerExists ==> outcome == OutcomeView::Flag(true),
    ensures
        has_spoken(stepped(run, outcome), history.push(Step { action: run.pending(), outcome })),
{
    reveal(stepped);
    let step = Step { action: run.pending(), outcome };
    assert(history.push(step).drop_last() =~= history);
    if run.queue.len() > 1 {
        assert(run.queue.skip(1).last() == run.queue.last());
    }
}

proof fn lemma_has_spoken(command: Command, delays: Delays, config: Config, history: Seq<Step>)
    requires
        command is ScreenOn || command is Startup,
        is_history(RunView::started(command, delays, config), history),
        is_undisturbed(true, history),
    ensures
        has_spoken(run_after(RunView::started(command, delays, config), history), history),
    decreases history.len(),
{
    let start = RunView::started(command, delays, config);
    if history.len() > 0 {
        let earlier = history.drop_last();
        lemma_has_spoken(command, delays, config, earlier);
        if run_after(start, earlier).pending() is MarkerExists {
            marker_is_asked_about_before_it_changes(command, delays, config, true, earlier);
        }
        config_stays(command, delays, config, earlier);
        valid_after(start, earlier);
        lemma_step_has_spoken(run_after(start, earlier), earlier, history.last().outcome);
        assert(earlier.push(history.last()) =~= history);
    }
}

/// What putting the screen off did, a restore that ends well undoes: it finds the marker,
/// whatever the policy, has the panel on or the configured port shown, and leaves no marker.
pub proof fn screen_on_undoes_screen_off(
    delays: Delays,
    config: Config,
    before: bool,
    off: Seq<Step>,
    on: Seq<Step>,
)
    requires
        is_history(RunView::started(Command::ScreenOff, delays, config), off),
        is_undisturbed(before, off),
        run_after(RunView::started(Command::ScreenOff, delays, config), off).pending()
            == ActionView::Finish(Ok(())),
        last_tv(off) is Some,
        put_off(last_tv(off)->Some_0),
        is_history(RunView::started(Command::ScreenOn, delays, config), on),
        is_undisturbed(marker_after(before, off), on),
        run_after(RunView::started(Command::ScreenOn, delays, config), on).pending()
            == ActionView::Finish(Ok(())),
    ensures
        marker_after(before, off),
        last_tv(on) is Some,
        worked(last_tv(on)->Some_0),
        !marker_after(marker_after(before, off), on),
{
    marker_tells_who_put_the_screen_off(Command::ScreenOff, delays, config, before, off);
    lemma_has_spoken(Command::ScreenOn, delays, config, on);
    valid_after(RunView::started(Command::ScreenOn, delays, config), on);
    screen_on_ends_well_with_the_screen_on(delays, config, on);
    marker_tells_who_put_the_screen_off(Command::ScreenOn, delays, config, true, on);
}

/// After a sleep for which the television was switched off, a start that ends well finds the
/// marker, whatever its mode and the policy, has told the television something, and leaves no
/// marker.
pub proof fn startup_undoes_sleep(
    command: Command,
    mode: StartupMode,
    delays: Delays,
    config: Config,
    before: bool,
    off: Seq<Step>,
    on: Seq<Step>,
)
    requires
        command is SleepPre || command is Sleep,
        is_history(RunView::started(command, delays, config), off),
        is_undisturbed(before, off),
        run_after(RunView::started(command, delays, config), off).pending()
            == ActionView::Finish(Ok(())),
        last_tv(off) is Some,
        put_off(last_tv(off)->Some_0),
        is_history(RunView::started(Command::Startup(mode), delays, config), on),
        is_undisturbed(marker_after(before, off), on),
        run_after(RunView::started(Command::Startup(mode), delays, config), on).pending()
            == ActionView::Finish(Ok(())),
    ensures
        marker_after(before, off),
        last_tv(on) is Some,
        !marker_after(marker_after(before, off), on),
{
    marker_tells_who_put_the_screen_off(command, delays, config, before, off);
    lemma_has_spoken(Command::Startup(mode), delays, config, on);
    valid_after(RunView::started(Command::Startup(mode), delays, config), on);
    marker_tells_who_put_the_screen_off(Command::Startup(mode), delays, config, true, on);
}

} // verus!
