//! What a run did so far, and that every run ends.

use crate::commands::brightness::BrightnessStage;
use crate::commands::screen_off::ScreenOffStage;
use crate::commands::screen_on::ScreenOnStage;
use crate::commands::shutdown::ShutdownStage;
use crate::commands::sleep::SleepStage;
use crate::commands::sleep_pre::SleepPreStage;
use crate::commands::startup::StartupStage;
use crate::config::Config;
use crate::delay::Delays;
use crate::effects::{ActionView, OutcomeView};
use crate::run::{lemma_next_valid, Command, CommandStage, PhaseView, RunView};
use vstd::prelude::*;

verus! {

/// An action that was performed, and what came of it.
pub struct Step {
    /// The action.
    pub action: ActionView,
    /// What came of it.
    pub outcome: OutcomeView,
}

/// The run after one more step with the given outcome.
#[verifier::opaque]
pub open spec fn stepped(run: RunView, outcome: OutcomeView) -> RunView {
    run.next(outcome)
}

/// The run after the given steps.
pub open spec fn run_after(start: RunView, history: Seq<Step>) -> RunView
    decreases history.len(),
{
    if history.len() == 0 {
        start
    } else {
        stepped(run_after(start, history.drop_last()), history.last().outcome)
    }
}

/// Whether the steps can be what a run did: each performs the action that was pending, and
/// its outcome is one that can come of the action.
pub open spec fn is_history(start: RunView, history: Seq<Step>) -> bool
    decreases history.len(),
{
    history.len() == 0 || {
        &&& is_history(start, history.drop_last())
        &&& history.last().action == run_after(start, history.drop_last()).pending()
        &&& history.last().action.answered_by(history.last().outcome)
    }
}

proof fn lemma_stepped_valid(run: RunView, outcome: OutcomeView)
    requires
        run.valid(),
        run.pending().answered_by(outcome),
    ensures
        stepped(run, outcome).valid(),
        stepped(run, outcome).command == run.command,
        stepped(run, outcome).delays == run.delays,
{
    reveal(stepped);
    lemma_next_valid(run, outcome);
}

/// A run is in a valid state whatever it did before.
pub proof fn valid_after(start: RunView, history: Seq<Step>)
    requires
        start.valid(),
        is_history(start, history),
    ensures
        run_after(start, history).valid(),
        run_after(start, history).command == start.command,
        run_after(start, history).delays == start.delays,
    decreases history.len(),
{
    if history.len() > 0 {
        valid_after(start, history.drop_last());
        lemma_stepped_valid(run_after(start, history.drop_last()), history.last().outcome);
    }
}

/// Whether a run follows a command with the given configuration, or did so and is over.
pub open spec fn follows(run: RunView, config: Config) -> bool {
    match run.phase {
        PhaseView::Running { config: known, .. } => known == config,
        PhaseView::Finished => true,
        _ => false,
    }
}

proof fn lemma_stepped_follows(run: RunView, config: Config, outcome: OutcomeView)
    requires
        run.valid(),
        follows(run, config),
        run.pending().answered_by(outcome),
    ensures
        follows(stepped(run, outcome), config),
{
    reveal(stepped);
}

/// A command sticks to the configuration that it started with.
pub proof fn config_stays(command: Command, delays: Delays, config: Config, history: Seq<Step>)
    requires
        is_history(RunView::started(command, delays, config), history),
    ensures
        follows(run_after(RunView::started(command, delays, config), history), config),
    decreases history.len(),
{
    if history.len() > 0 {
        let start = RunView::started(command, delays, config);
        let earlier = history.drop_last();
        config_stays(command, delays, config, earlier);
        valid_after(start, earlier);
        lemma_stepped_follows(run_after(start, earlier), config, history.last().outcome);
    }
}

/// A run that is over does nothing more, and a run that is not over has an action that can be
/// performed.
pub proof fn proceeds_until_over(run: RunView)
    requires
        run.valid(),
    ensures
        run.is_over() <==> (forall|outcome: OutcomeView| !run.pending().answered_by(outcome)),
{
    let pending = run.pending();
    let candidates: Seq<OutcomeView> = seq![
        OutcomeView::Done,
        OutcomeView::Flag(true),
        OutcomeView::Environment(Ok(seq![])),
        OutcomeView::Text(seq![]),
        OutcomeView::Brightness(0),
        OutcomeView::Choice(None),
        OutcomeView::TvFailed(arbitrary()),
    ];
    if !run.is_over() {
        assert(exists|i: int|
            0 <= i < candidates.len() && pending.answered_by(#[trigger] candidates[i])) by {
            assert(candidates[0] is Done);
            assert(candidates[1] is Flag);
            assert(candidates[2] is Environment);
            assert(candidates[3] is Text);
            assert(candidates[4] is Brightness);
            assert(candidates[5] is Choice);
            assert(candidates[6] is TvFailed);
        }
    }
}

impl CommandStage {
    /// How many actions can follow the request of the stage.
    pub open spec fn ahead(self) -> int {
        match self {
            CommandStage::ScreenOff(stage) => match stage {
                ScreenOffStage::Input => 7,
                ScreenOffStage::Blank => 5,
                ScreenOffStage::Fallback { .. } => 3,
            },
            CommandStage::ScreenOn(stage) => match stage {
                ScreenOnStage::Marker => 49,
                ScreenOnStage::Unblank => 45,
                ScreenOnStage::Restore => 43,
                ScreenOnStage::FirstWake => 40,
                ScreenOnStage::Attempt(attempt) => 6 * (6 - attempt) + 6,
                ScreenOnStage::Rewake(attempt) => 6 * (6 - attempt) + 4,
            },
            CommandStage::Startup(stage) => match stage {
                StartupStage::Marker(_) => 39,
                StartupStage::NetworkMarker => 37,
                StartupStage::FirstWake => 34,
                StartupStage::Attempt(attempt) => 5 * (6 - attempt) + 6,
                StartupStage::Rewake(attempt) => 5 * (6 - attempt) + 4,
            },
            CommandStage::SleepPre(stage) => match stage {
                SleepPreStage::Marker => 18,
                SleepPreStage::Input { failures, .. } => 2 * (3 - failures) + 11,
                SleepPreStage::PowerOff => 2,
                SleepPreStage::Fallback { attempt, .. } => 2 * (4 - attempt) + 3,
            },
            CommandStage::Sleep(stage) => match stage {
                SleepStage::Request => 17,
                SleepStage::Input { failures } => 2 * (3 - failures) + 10,
                SleepStage::Marker => 9,
                SleepStage::PowerOff { attempt, .. } => 2 * (4 - attempt) + 2,
            },
            CommandStage::Shutdown(stage) => match stage {
                ShutdownStage::Reboot => 6,
                ShutdownStage::Input => 4,
                ShutdownStage::PowerOff => 2,
            },
            CommandStage::Brightness(stage) => match stage {
                BrightnessStage::Reachable => 6,
                BrightnessStage::Current => 5,
                BrightnessStage::Prompt(_) => 4,
                BrightnessStage::Change(_) => 3,
            },
        }
    }
}

impl Command {
    /// How many actions the command takes at most, from its first one to its end.
    pub open spec fn longest(self) -> int {
        match self {
            Command::ScreenOff => 8,
            Command::ScreenOn => 50,
            Command::Startup(_) => 40,
            Command::SleepPre => 19,
            Command::Sleep => 18,
            Command::Shutdown => 7,
            Command::Brightness => 7,
        }
    }
}

impl RunView {
    /// How many actions can still come, the settled ones among them.
    pub open spec fn ahead(self) -> int {
        self.queue.len() + match self.phase {
            PhaseView::Environment => 3 + self.command.longest(),
            PhaseView::Config { .. } => 2 + self.command.longest(),
            PhaseView::Marker { .. } => 1 + self.command.longest(),
            PhaseView::Client { .. } => self.command.longest(),
            PhaseView::Running { stage, .. } => stage.ahead(),
            PhaseView::Finished => 0,
        }
    }
}

impl CommandStage {
    /// Whether what follows from an outcome is within what can follow the stage.
    spec fn advances(self, config: Config, delays: Delays, outcome: OutcomeView) -> bool {
        let (queue, next) = self.plan(config, delays, outcome);
        queue.len() + (match next {
            Some(stage) => stage.ahead(),
            None => 0,
        }) <= self.ahead()
    }
}

proof fn lemma_screen_off_advances(
    stage: ScreenOffStage,
    config: Config,
    delays: Delays,
    outcome: OutcomeView,
)
    requires
        CommandStage::ScreenOff(stage).counted(),
    ensures
        CommandStage::ScreenOff(stage).advances(config, delays, outcome),
{
}

proof fn lemma_screen_on_advances(
    stage: ScreenOnStage,
    config: Config,
    delays: Delays,
    outcome: OutcomeView,
)
    requires
        CommandStage::ScreenOn(stage).counted(),
    ensures
        CommandStage::ScreenOn(stage).advances(config, delays, outcome),
{
}

proof fn lemma_startup_advances(
    stage: StartupStage,
    config: Config,
    delays: Delays,
    outcome: OutcomeView,
)
    requires
        CommandStage::Startup(stage).counted(),
    ensures
        CommandStage::Startup(stage).advances(config, delays, outcome),
{
}

proof fn lemma_sleep_pre_advances(
    stage: SleepPreStage,
    config: Config,
    delays: Delays,
    outcome: OutcomeView,
)
    requires
        CommandStage::SleepPre(stage).counted(),
    ensures
        CommandStage::SleepPre(stage).advances(config, delays, outcome),
{
}

proof fn lemma_sleep_advances(
    stage: SleepStage,
    config: Config,
    delays: Delays,
    outcome: OutcomeView,
)
    requires
        CommandStage::Sleep(stage).counted(),
    ensures
        CommandStage::Sleep(stage).advances(config, delays, outcome),
{
}

proof fn lemma_shutdown_advances(
    stage: ShutdownStage,
    config: Config,
    delays: Delays,
    outcome: OutcomeView,
)
    requires
        CommandStage::Shutdown(stage).counted(),
    ensures
        CommandStage::Shutdown(stage).advances(config, delays, outcome),
{
}

proof fn lemma_brightness_advances(
    stage: BrightnessStage,
    config: Config,
    delays: Delays,
    outcome: OutcomeView,
)
    requires
        CommandStage::Brightness(stage).counted(),
    ensures
        CommandStage::Brightness(stage).advances(config, delays, outcome),
{
}

proof fn lemma_stage_advances(
    stage: CommandStage,
    config: Config,
    delays: Delays,
    outcome: OutcomeView,
)
    requires
        stage.counted(),
    ensures
        stage.advances(config, delays, outcome),
{
    match stage {
        CommandStage::ScreenOff(inner) => lemma_screen_off_advances(inner, config, delays, outcome),
        CommandStage::ScreenOn(inner) => lemma_screen_on_advances(inner, config, delays, outcome),
        CommandStage::Startup(inner) => lemma_startup_advances(inner, config, delays, outcome),
        CommandStage::SleepPre(inner) => lemma_sleep_pre_advances(inner, config, delays, outcome),
        CommandStage::Sleep(inner) => lemma_sleep_advances(inner, config, delays, outcome),
        CommandStage::Shutdown(inner) => lemma_shutdown_advances(inner, config, delays, outcome),
        CommandStage::Brightness(inner) => lemma_brightness_advances(inner, config, delays, outcome),
    }
}

/// Each step takes a run nearer to its end.
proof fn lemma_step_advances(run: RunView, outcome: OutcomeView)
    requires
        run.valid(),
        run.pending().answered_by(outcome),
    ensures
        stepped(run, outcome).ahead() < run.ahead(),
{
    reveal(stepped);
    if run.queue.len() == 1 {
        match run.phase {
            PhaseView::Running { config, stage } => {
                lemma_stage_advances(stage, config, run.delays, outcome);
            },
            _ => {},
        }
    }
}

/// What was done and what can still come is bounded by what could come at the start.
pub proof fn history_is_bounded(start: RunView, history: Seq<Step>)
    requires
        start.valid(),
        is_history(start, history),
    ensures
        history.len() + run_after(start, history).ahead() <= start.ahead(),
        run_after(start, history).ahead() >= 1,
    decreases history.len(),
{
    valid_after(start, history);
    if history.len() > 0 {
        history_is_bounded(start, history.drop_last());
        valid_after(start, history.drop_last());
        lemma_step_advances(run_after(start, history.drop_last()), history.last().outcome);
    }
}

/// Every run ends: a command performs fewer actions than its longest run has, which counts
/// the end itself, and four more for what has to be looked up before.
pub proof fn runs_end(command: Command, delays: Delays, config: Config, history: Seq<Step>)
    ensures
        is_history(RunView::started(command, delays, config), history) ==> history.len()
            < command.longest(),
        is_history(RunView::initial(command, delays), history) ==> history.len()
            < command.longest() + 4,
{
    if is_history(RunView::started(command, delays, config), history) {
        history_is_bounded(RunView::started(command, delays, config), history);
    }
    if is_history(RunView::initial(command, delays), history) {
        history_is_bounded(RunView::initial(command, delays), history);
    }
}

} // verus!
