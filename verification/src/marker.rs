//! The ownership marker over a run: it says that this computer put the screen off.

use crate::commands::brightness::BrightnessStage;
use crate::commands::screen_off::ScreenOffStage;
use crate::commands::screen_on::ScreenOnStage;
use crate::commands::shutdown::ShutdownStage;
use crate::commands::sleep::SleepStage;
use crate::commands::sleep_pre::SleepPreStage;
use crate::commands::startup::StartupStage;
use crate::config::Config;
use crate::delay::Delays;
use crate::effects::{ActionView, CurrentInputView, OutcomeView, RunErrorView, StartupMode, TvCommand};
use crate::history::{is_history, run_after, stepped, valid_after, Step};
use crate::run::{Command, CommandStage, PhaseView, RunView};
use vstd::prelude::*;

verus! {

/// Whether the marker exists after the given steps.
pub open spec fn marker_after(before: bool, history: Seq<Step>) -> bool
    decreases history.len(),
{
    if history.len() == 0 {
        before
    } else {
        match (history.last().action, history.last().outcome) {
            (ActionView::MarkerCreate, OutcomeView::Done) => true,
            (ActionView::MarkerClear, OutcomeView::Done) => false,
            _ => marker_after(before, history.drop_last()),
        }
    }
}

/// Whether every answer about the marker is right: nobody else touches the marker while the
/// run goes on.
pub open spec fn is_undisturbed(before: bool, history: Seq<Step>) -> bool
    decreases history.len(),
{
    history.len() == 0 || {
        &&& is_undisturbed(before, history.drop_last())
        &&& history.last().action is MarkerExists ==> history.last().outcome == OutcomeView::Flag(
            marker_after(before, history.drop_last()),
        )
    }
}

/// The last command to the television and what came of it.
pub open spec fn last_tv(history: Seq<Step>) -> Option<Step>
    decreases history.len(),
{
    if history.len() == 0 {
        None
    } else if history.last().action is Tv {
        Some(history.last())
    } else {
        last_tv(history.drop_last())
    }
}

/// Whether a step put the screen off.
pub open spec fn put_off(step: Step) -> bool {
    &&& step.action matches ActionView::Tv(_, command)
    &&& command is PowerOff || command is BlankScreen
    &&& step.outcome is Done
}

/// Whether a step found the television on something else than the configured port.
pub open spec fn found_elsewhere(config: Config, step: Step) -> bool {
    &&& step.action matches ActionView::Tv(_, TvCommand::QueryInput)
    &&& step.outcome matches OutcomeView::Input(current)
    &&& current != CurrentInputView::Hdmi(config.input)
}

/// Whether the marker should exist after a command that ended well, given the last command
/// to the television.
pub open spec fn marker_owed(
    command: Command,
    config: Config,
    last: Option<Step>,
    before: bool,
) -> bool {
    match command {
        Command::ScreenOff | Command::SleepPre | Command::Sleep => match last {
            Some(step) => if put_off(step) {
                true
            } else if found_elsewhere(config, step) {
                false
            } else {
                before
            },
            None => before,
        },
        Command::ScreenOn | Command::Startup(_) => last is None && before,
        Command::Shutdown | Command::Brightness => before,
    }
}

/// Whether the marker will exist once the first `count` settled actions are done.
spec fn settled(marked: bool, queue: Seq<ActionView>, count: nat) -> bool
    decreases count,
{
    if count == 0 {
        marked
    } else {
        match queue[count - 1] {
            ActionView::MarkerCreate => true,
            ActionView::MarkerClear => false,
            _ => settled(marked, queue, (count - 1) as nat),
        }
    }
}

/// Whether the marker will exist once the settled actions are done does not change when the
/// first of them is done.
proof fn lemma_settled_first(marked: bool, queue: Seq<ActionView>, count: nat)
    requires
        1 <= count <= queue.len(),
    ensures
        settled(marked, queue, count) == settled(
            settled(marked, queue, 1),
            queue.skip(1),
            (count - 1) as nat,
        ),
    decreases count,
{
    if count > 1 {
        lemma_settled_first(marked, queue, (count - 1) as nat);
    }
}

impl CommandStage {
    /// Whether the marker exists once the request of the stage is pending.
    spec fn marked(self, before: bool) -> bool {
        match self {
            CommandStage::Startup(StartupStage::Marker(_) | StartupStage::NetworkMarker) => before,
            CommandStage::Startup(_) => false,
            _ => before,
        }
    }

    /// Whether the television is not told anything before the stage.
    spec fn is_first(self) -> bool {
        match self {
            CommandStage::ScreenOn(ScreenOnStage::Marker) => true,
            CommandStage::Startup(StartupStage::Marker(_) | StartupStage::NetworkMarker) => true,
            CommandStage::Sleep(SleepStage::Request) => true,
            _ => false,
        }
    }

    /// Whether what the stage remembers of the marker is right.
    spec fn remembers(self, before: bool) -> bool {
        match self {
            CommandStage::SleepPre(
                SleepPreStage::Input { state_was_set, .. } | SleepPreStage::Fallback {
                    state_was_set,
                    ..
                },
            ) => state_was_set == before,
            CommandStage::Sleep(SleepStage::PowerOff { state_was_set, .. }) => state_was_set
                == before,
            _ => true,
        }
    }

    /// Whether a run may wait at the stage: what is known of the marker and the television
    /// fits it.
    spec fn fits(self, before: bool, marked: bool, last: Option<Step>) -> bool {
        &&& marked == self.marked(before)
        &&& self.remembers(before)
        &&& self.is_first() ==> last is None
    }
}

/// Whether a run may end: what is known of the marker and the television fits the result.
spec fn end_fits(
    command: Command,
    config: Config,
    before: bool,
    marked: bool,
    last: Option<Step>,
    end: ActionView,
) -> bool {
    match end {
        ActionView::Finish(Ok(_)) => marked == marker_owed(command, config, last, before),
        ActionView::Finish(Err(RunErrorView::Policy(_))) => marked == before,
        _ => true,
    }
}

/// Whether what follows from an outcome fits what is then known.
spec fn plan_fits(
    command: Command,
    stage: CommandStage,
    config: Config,
    delays: Delays,
    outcome: OutcomeView,
    before: bool,
    last: Option<Step>,
) -> bool {
    let (queue, next) = stage.plan(config, delays, outcome);
    let marked = settled(stage.marked(before), queue, queue.len());
    let request = stage.request(config);
    let latest = if request is Tv {
        Some(Step { action: request, outcome })
    } else {
        last
    };
    match next {
        Some(next) => next.fits(before, marked, latest),
        None => end_fits(command, config, before, marked, latest, queue.last()),
    }
}

#[verifier::spinoff_prover]
#[verifier::rlimit(30)]
proof fn lemma_screen_off_fits(
    command: Command,
    stage: ScreenOffStage,
    config: Config,
    delays: Delays,
    outcome: OutcomeView,
    before: bool,
    last: Option<Step>,
)
    requires
        CommandStage::ScreenOff(stage).counted(),
        CommandStage::ScreenOff(stage).is_of(command),
        stage.request(config).answered_by(outcome),
        stage.request(config) is MarkerExists ==> outcome == OutcomeView::Flag(before),
        CommandStage::ScreenOff(stage).fits(before, CommandStage::ScreenOff(stage).marked(before), last),
    ensures
        plan_fits(command, CommandStage::ScreenOff(stage), config, delays, outcome, before, last),
{
    reveal_with_fuel(settled, 7);
}

#[verifier::spinoff_prover]
#[verifier::rlimit(30)]
proof fn lemma_screen_on_fits(
    command: Command,
    stage: ScreenOnStage,
    config: Config,
    delays: Delays,
    outcome: OutcomeView,
    before: bool,
    last: Option<Step>,
)
    requires
        CommandStage::ScreenOn(stage).counted(),
        CommandStage::ScreenOn(stage).is_of(command),
        stage.request(config).answered_by(outcome),
        stage.request(config) is MarkerExists ==> outcome == OutcomeView::Flag(before),
        CommandStage::ScreenOn(stage).fits(before, CommandStage::ScreenOn(stage).marked(before), last),
    ensures
        plan_fits(command, CommandStage::ScreenOn(stage), config, delays, outcome, before, last),
{
    reveal_with_fuel(settled, 7);
}

#[verifier::spinoff_prover]
#[verifier::rlimit(30)]
proof fn lemma_startup_fits(
    command: Command,
    stage: StartupStage,
    config: Config,
    delays: Delays,
    outcome: OutcomeView,
    before: bool,
    last: Option<Step>,
)
    requires
        CommandStage::Startup(stage).counted(),
        CommandStage::Startup(stage).is_of(command),
        stage.request(config).answered_by(outcome),
        stage.request(config) is MarkerExists ==> outcome == OutcomeView::Flag(before),
        CommandStage::Startup(stage).fits(before, CommandStage::Startup(stage).marked(before), last),
    ensures
        plan_fits(command, CommandStage::Startup(stage), config, delays, outcome, before, last),
{
    reveal_with_fuel(settled, 7);
}

#[verifier::spinoff_prover]
#[verifier::rlimit(30)]
proof fn lemma_sleep_pre_fits(
    command: Command,
    stage: SleepPreStage,
    config: Config,
    delays: Delays,
    outcome: OutcomeView,
    before: bool,
    last: Option<Step>,
)
    requires
        CommandStage::SleepPre(stage).counted(),
        CommandStage::SleepPre(stage).is_of(command),
        stage.request(config).answered_by(outcome),
        stage.request(config) is MarkerExists ==> outcome == OutcomeView::Flag(before),
        CommandStage::SleepPre(stage).fits(before, CommandStage::SleepPre(stage).marked(before), last),
    ensures
        plan_fits(command, CommandStage::SleepPre(stage), config, delays, outcome, before, last),
{
    reveal_with_fuel(settled, 7);
}

#[verifier::spinoff_prover]
#[verifier::rlimit(30)]
proof fn lemma_sleep_fits(
    command: Command,
    stage: SleepStage,
    config: Config,
    delays: Delays,
    outcome: OutcomeView,
    before: bool,
    last: Option<Step>,
)
    requires
        CommandStage::Sleep(stage).counted(),
        CommandStage::Sleep(stage).is_of(command),
        stage.request(config).answered_by(outcome),
        stage.request(config) is MarkerExists ==> outcome == OutcomeView::Flag(before),
        CommandStage::Sleep(stage).fits(before, CommandStage::Sleep(stage).marked(before), last),
    ensures
        plan_fits(command, CommandStage::Sleep(stage), config, delays, outcome, before, last),
{
    reveal_with_fuel(settled, 7);
}

#[verifier::spinoff_prover]
#[verifier::rlimit(30)]
proof fn lemma_shutdown_fits(
    command: Command,
    stage: ShutdownStage,
    config: Config,
    delays: Delays,
    outcome: OutcomeView,
    before: bool,
    last: Option<Step>,
)
    requires
        CommandStage::Shutdown(stage).counted(),
        CommandStage::Shutdown(stage).is_of(command),
        stage.request(config).answered_by(outcome),
        stage.request(config) is MarkerExists ==> outcome == OutcomeView::Flag(before),
        CommandStage::Shutdown(stage).fits(before, CommandStage::Shutdown(stage).marked(before), last),
    ensures
        plan_fits(command, CommandStage::Shutdown(stage), config, delays, outcome, before, last),
{
    reveal_with_fuel(settled, 7);
}

#[verifier::spinoff_prover]
#[verifier::rlimit(30)]
proof fn lemma_brightness_fits(
    command: Command,
    stage: BrightnessStage,
    config: Config,
    delays: Delays,
    outcome: OutcomeView,
    before: bool,
    last: Option<Step>,
)
    requires
        CommandStage::Brightness(stage).counted(),
        CommandStage::Brightness(stage).is_of(command),
        stage.request(config).answered_by(outcome),
        stage.request(config) is MarkerExists ==> outcome == OutcomeView::Flag(before),
        CommandStage::Brightness(stage).fits(before, CommandStage::Brightness(stage).marked(before), last),
    ensures
        plan_fits(command, CommandStage::Brightness(stage), config, delays, outcome, before, last),
{
    reveal_with_fuel(settled, 7);
}

/// Whether what follows from an outcome fits what is then known.
proof fn lemma_plan_fits(
    command: Command,
    stage: CommandStage,
    config: Config,
    delays: Delays,
    outcome: OutcomeView,
    before: bool,
    last: Option<Step>,
)
    requires
        stage.counted(),
        stage.is_of(command),
        stage.request(config).answered_by(outcome),
        stage.request(config) is MarkerExists ==> outcome == OutcomeView::Flag(before),
        stage.fits(before, stage.marked(before), last),
    ensures
        plan_fits(command, stage, config, delays, outcome, before, last),
{
    match stage {
        CommandStage::ScreenOff(inner) => {
            lemma_screen_off_fits(command, inner, config, delays, outcome, before, last);
        },
        CommandStage::ScreenOn(inner) => {
            lemma_screen_on_fits(command, inner, config, delays, outcome, before, last);
        },
        CommandStage::Startup(inner) => {
            lemma_startup_fits(command, inner, config, delays, outcome, before, last);
        },
        CommandStage::SleepPre(inner) => {
            lemma_sleep_pre_fits(command, inner, config, delays, outcome, before, last);
        },
        CommandStage::Sleep(inner) => {
            lemma_sleep_fits(command, inner, config, delays, outcome, before, last);
        },
        CommandStage::Shutdown(inner) => {
            lemma_shutdown_fits(command, inner, config, delays, outcome, before, last);
        },
        CommandStage::Brightness(inner) => {
            lemma_brightness_fits(command, inner, config, delays, outcome, before, last);
        },
    }
}

/// Whether what a run did fits where it is.
spec fn run_fits(run: RunView, config: Config, before: bool, history: Seq<Step>) -> bool {
    let marked = settled(marker_after(before, history), run.queue, run.queue.len());
    match run.phase {
        PhaseView::Running { config: known, stage } => known == config && stage.fits(
            before,
            marked,
            last_tv(history),
        ),
        PhaseView::Finished => end_fits(
            run.command,
            config,
            before,
            marked,
            last_tv(history),
            run.queue.last(),
        ),
        _ => false,
    }
}

/// What a run did fits where it is after one more step.
proof fn lemma_step_fits(
    run: RunView,
    config: Config,
    before: bool,
    history: Seq<Step>,
    outcome: OutcomeView,
)
    requires
        run.valid(),
        run_fits(run, config, before, history),
        run.pending().answered_by(outcome),
        run.pending() is MarkerExists ==> outcome == OutcomeView::Flag(
            marker_after(before, history),
        ),
    ensures
        run_fits(
            stepped(run, outcome),
            config,
            before,
            history.push(Step { action: run.pending(), outcome }),
        ),
{
    reveal(stepped);
    let step = Step { action: run.pending(), outcome };
    assert(history.push(step).drop_last() =~= history);
    reveal_with_fuel(settled, 2);
    if run.queue.len() > 1 {
        lemma_settled_first(marker_after(before, history), run.queue, run.queue.len());
    } else if let PhaseView::Running { stage, .. } = run.phase {
        lemma_plan_fits(
            run.command,
            stage,
            config,
            run.delays,
            outcome,
            before,
            last_tv(history),
        );
    }
}

/// What a run did fits where it is.
proof fn lemma_run_fits(
    command: Command,
    delays: Delays,
    config: Config,
    before: bool,
    history: Seq<Step>,
)
    requires
        is_history(RunView::started(command, delays, config), history),
        is_undisturbed(before, history),
    ensures
        run_fits(
            run_after(RunView::started(command, delays, config), history),
            config,
            before,
            history,
        ),
    decreases history.len(),
{
    let start = RunView::started(command, delays, config);
    if history.len() == 0 {
        reveal_with_fuel(settled, 2);
    } else {
        let earlier = history.drop_last();
        lemma_run_fits(command, delays, config, before, earlier);
        valid_after(start, earlier);
        lemma_step_fits(
            run_after(start, earlier),
            config,
            before,
            earlier,
            history.last().outcome,
        );
        assert(earlier.push(history.last()) =~= history);
    }
}

/// A command asks about the marker only before it changes it.
pub proof fn marker_is_asked_about_before_it_changes(
    command: Command,
    delays: Delays,
    config: Config,
    before: bool,
    history: Seq<Step>,
)
    requires
        is_history(RunView::started(command, delays, config), history),
        is_undisturbed(before, history),
        run_after(RunView::started(command, delays, config), history).pending() is MarkerExists,
    ensures
        marker_after(before, history) == before,
{
    lemma_run_fits(command, delays, config, before, history);
    valid_after(RunView::started(command, delays, config), history);
    reveal_with_fuel(settled, 2);
}

/// After a command that ended well the marker says who put the screen off: putting the screen
/// off creates it, and so it stays until the television is found on something else, or until
/// the screen is put back on. A command that did none of this leaves the marker as it was.
pub proof fn marker_tells_who_put_the_screen_off(
    command: Command,
    delays: Delays,
    config: Config,
    before: bool,
    history: Seq<Step>,
)
    requires
        is_history(RunView::started(command, delays, config), history),
        is_undisturbed(before, history),
        run_after(RunView::started(command, delays, config), history).pending()
            == ActionView::Finish(Ok(())),
    ensures
        marker_after(before, history) == marker_owed(command, config, last_tv(history), before),
{
    let start = RunView::started(command, delays, config);
    lemma_run_fits(command, delays, config, before, history);
    valid_after(start, history);
    reveal_with_fuel(settled, 2);
}

/// A restore that failed leaves the marker as it was, so that a later one can try again.
pub proof fn failed_restore_keeps_the_marker(
    delays: Delays,
    config: Config,
    before: bool,
    history: Seq<Step>,
    message: Seq<char>,
)
    requires
        is_history(RunView::started(Command::ScreenOn, delays, config), history),
        is_undisturbed(before, history),
        run_after(RunView::started(Command::ScreenOn, delays, config), history).pending()
            == ActionView::Finish(Err(RunErrorView::Policy(message))),
    ensures
        marker_after(before, history) == before,
{
    let start = RunView::started(Command::ScreenOn, delays, config);
    lemma_run_fits(Command::ScreenOn, delays, config, before, history);
    valid_after(start, history);
    reveal_with_fuel(settled, 2);
}

/// A start has removed the marker before it tells the television anything.
pub proof fn startup_wakes_without_the_marker(
    mode: StartupMode,
    delays: Delays,
    config: Config,
    before: bool,
    history: Seq<Step>,
)
    requires
        is_history(RunView::started(Command::Startup(mode), delays, config), history),
        is_undisturbed(before, history),
        run_after(
            RunView::started(Command::Startup(mode), delays, config),
            history,
        ).pending() is Tv,
    ensures
        !marker_after(before, history),
{
    let start = RunView::started(Command::Startup(mode), delays, config);
    lemma_run_fits(Command::Startup(mode), delays, config, before, history);
    valid_after(start, history);
    reveal_with_fuel(settled, 2);
}

impl Command {
    /// Whether the command may put the screen off and then answers for it.
    pub open spec fn marks(self) -> bool {
        self is ScreenOff || self is SleepPre || self is Sleep
    }
}

/// Whether an action changes the marker.
pub open spec fn changes_marker(action: ActionView) -> bool {
    action is MarkerCreate || action is MarkerClear
}

/// How often a history changes the marker.
pub open spec fn marker_changes(history: Seq<Step>) -> nat
    decreases history.len(),
{
    if history.len() == 0 {
        0
    } else {
        marker_changes(history.drop_last()) + if changes_marker(history.last().action) {
            1nat
        } else {
            0
        }
    }
}

/// How often the first `count` settled actions change the marker.
spec fn settled_changes(queue: Seq<ActionView>, count: nat) -> nat
    decreases count,
{
    if count == 0 {
        0
    } else {
        settled_changes(queue, (count - 1) as nat) + if changes_marker(queue[count - 1]) {
            1nat
        } else {
            0
        }
    }
}

proof fn lemma_changes_first(queue: Seq<ActionView>, count: nat)
    requires
        1 <= count <= queue.len(),
    ensures
        settled_changes(queue, count) == settled_changes(queue, 1) + settled_changes(
            queue.skip(1),
            (count - 1) as nat,
        ),
    decreases count,
{
    if count > 1 {
        lemma_changes_first(queue, (count - 1) as nat);
    }
}

impl CommandStage {
    /// How often the marker was changed once the request of the stage is pending.
    spec fn changes(self) -> nat {
        match self {
            CommandStage::Startup(StartupStage::Marker(_) | StartupStage::NetworkMarker) => 0,
            CommandStage::Startup(_) => 1,
            _ => 0,
        }
    }
}

/// Whether a plan changes the marker at most once in the run, and creates it first of all and
/// only where the screen went off.
spec fn plan_marks_once(
    command: Command,
    stage: CommandStage,
    config: Config,
    delays: Delays,
    outcome: OutcomeView,
) -> bool {
    let (queue, next) = stage.plan(config, delays, outcome);
    let changes = stage.changes() + settled_changes(queue, queue.len());
    &&& match next {
        Some(next) => changes == next.changes(),
        None => changes <= 1,
    }
    &&& queue[0] is MarkerCreate <==> command.marks() && put_off(
        Step { action: stage.request(config), outcome },
    )
    &&& forall|i: int| 1 <= i < queue.len() ==> !(#[trigger] queue[i] is MarkerCreate)
}

#[verifier::spinoff_prover]
#[verifier::rlimit(30)]
proof fn lemma_screen_off_marks_once(
    command: Command,
    stage: ScreenOffStage,
    config: Config,
    delays: Delays,
    outcome: OutcomeView,
)
    requires
        CommandStage::ScreenOff(stage).counted(),
        CommandStage::ScreenOff(stage).is_of(command),
        stage.request(config).answered_by(outcome),
    ensures
        plan_marks_once(command, CommandStage::ScreenOff(stage), config, delays, outcome),
{
    reveal_with_fuel(settled_changes, 7);
}

#[verifier::spinoff_prover]
#[verifier::rlimit(30)]
proof fn lemma_screen_on_marks_once(
    command: Command,
    stage: ScreenOnStage,
    config: Config,
    delays: Delays,
    outcome: OutcomeView,
)
    requires
        CommandStage::ScreenOn(stage).counted(),
        CommandStage::ScreenOn(stage).is_of(command),
        stage.request(config).answered_by(outcome),
    ensures
        plan_marks_once(command, CommandStage::ScreenOn(stage), config, delays, outcome),
{
    reveal_with_fuel(settled_changes, 7);
}

#[verifier::spinoff_prover]
#[verifier::rlimit(30)]
proof fn lemma_startup_marks_once(
    command: Command,
    stage: StartupStage,
    config: Config,
    delays: Delays,
    outcome: OutcomeView,
)
    requires
        CommandStage::Startup(stage).counted(),
        CommandStage::Startup(stage).is_of(command),
        stage.request(config).answered_by(outcome),
    ensures
        plan_marks_once(command, CommandStage::Startup(stage), config, delays, outcome),
{
    reveal_with_fuel(settled_changes, 7);
}

#[verifier::spinoff_prover]
#[verifier::rlimit(30)]
proof fn lemma_sleep_pre_marks_once(
    command: Command,
    stage: SleepPreStage,
    config: Config,
    delays: Delays,
    outcome: OutcomeView,
)
    requires
        CommandStage::SleepPre(stage).counted(),
        CommandStage::SleepPre(stage).is_of(command),
        stage.request(config).answered_by(outcome),
    ensures
        plan_marks_once(command, CommandStage::SleepPre(stage), config, delays, outcome),
{
    reveal_with_fuel(settled_changes, 7);
}

#[verifier::spinoff_prover]
#[verifier::rlimit(30)]
proof fn lemma_sleep_marks_once(
    command: Command,
    stage: SleepStage,
    config: Config,
    delays: Delays,
    outcome: OutcomeView,
)
    requires
        CommandStage::Sleep(stage).counted(),
        CommandStage::Sleep(stage).is_of(command),
        stage.request(config).answered_by(outcome),
    ensures
        plan_marks_once(command, CommandStage::Sleep(stage), config, delays, outcome),
{
    reveal_with_fuel(settled_changes, 7);
}

#[verifier::spinoff_prover]
#[verifier::rlimit(30)]
proof fn lemma_shutdown_marks_once(
    command: Command,
    stage: ShutdownStage,
    config: Config,
    delays: Delays,
    outcome: OutcomeView,
)
    requires
        CommandStage::Shutdown(stage).counted(),
        CommandStage::Shutdown(stage).is_of(command),
        stage.request(config).answered_by(outcome),
    ensures
        plan_marks_once(command, CommandStage::Shutdown(stage), config, delays, outcome),
{
    reveal_with_fuel(settled_changes, 7);
}

#[verifier::spinoff_prover]
#[verifier::rlimit(30)]
proof fn lemma_brightness_marks_once(
    command: Command,
    stage: BrightnessStage,
    config: Config,
    delays: Delays,
    outcome: OutcomeView,
)
    requires
        CommandStage::Brightness(stage).counted(),
        CommandStage::Brightness(stage).is_of(command),
        stage.request(config).answered_by(outcome),
    ensures
        plan_marks_once(command, CommandStage::Brightness(stage), config, delays, outcome),
{
    reveal_with_fuel(settled_changes, 7);
}

proof fn lemma_plan_marks_once(
    command: Command,
    stage: CommandStage,
    config: Config,
    delays: Delays,
    outcome: OutcomeView,
)
    requires
        stage.counted(),
        stage.is_of(command),
        stage.request(config).answered_by(outcome),
    ensures
        plan_marks_once(command, stage, config, delays, outcome),
{
    match stage {
        CommandStage::ScreenOff(inner) => {
            lemma_screen_off_marks_once(command, inner, config, delays, outcome);
        },
        CommandStage::ScreenOn(inner) => {
            lemma_screen_on_marks_once(command, inner, config, delays, outcome);
        },
        CommandStage::Startup(inner) => {
            lemma_startup_marks_once(command, inner, config, delays, outcome);
        },
        CommandStage::SleepPre(inner) => {
            lemma_sleep_pre_marks_once(command, inner, config, delays, outcome);
        },
        CommandStage::Sleep(inner) => {
            lemma_sleep_marks_once(command, inner, config, delays, outcome);
        },
        CommandStage::Shutdown(inner) => {
            lemma_shutdown_marks_once(command, inner, config, delays, outcome);
        },
        CommandStage::Brightness(inner) => {
            lemma_brightness_marks_once(command, inner, config, delays, outcome);
        },
    }
}

/// Whether the marker is changed at most once over what was done and what is settled, and is
/// not to be created later than now.
spec fn marks_once(run: RunView, history: Seq<Step>) -> bool {
    let changes = marker_changes(history) + settled_changes(run.queue, run.queue.len());
    &&& match run.phase {
        PhaseView::Running { stage, .. } => changes == stage.changes(),
        _ => changes <= 1,
    }
    &&& forall|i: int| 1 <= i < run.queue.len() ==> !(#[trigger] run.queue[i] is MarkerCreate)
    &&& run.pending() is MarkerCreate <==> history.len() > 0 && run.command.marks() && put_off(
        history.last(),
    )
}

/// The marker is still changed at most once after one more step.
proof fn lemma_step_marks_once(run: RunView, history: Seq<Step>, outcome: OutcomeView)
    requires
        run.valid(),
        marks_once(run, history),
        run.phase is Running || run.phase is Finished,
        run.pending().answered_by(outcome),
    ensures
        marks_once(stepped(run, outcome), history.push(Step { action: run.pending(), outcome })),
        stepped(run, outcome).phase is Running || stepped(run, outcome).phase is Finished,
{
    reveal(stepped);
    let step = Step { action: run.pending(), outcome };
    assert(history.push(step).drop_last() =~= history);
    reveal_with_fuel(settled_changes, 2);
    if run.queue.len() > 1 {
        lemma_changes_first(run.queue, run.queue.len());
        assert(run.queue[1] == run.queue.skip(1)[0]);
        assert(run.pending().is_effect());
        assert forall|i: int| 1 <= i < run.queue.skip(1).len() implies !(
        #[trigger] run.queue.skip(1)[i] is MarkerCreate) by {
            assert(run.queue.skip(1)[i] == run.queue[i + 1]);
        }
    } else if let PhaseView::Running { stage, config } = run.phase {
        lemma_plan_marks_once(run.command, stage, config, run.delays, outcome);
    }
}

proof fn lemma_marks_once(command: Command, delays: Delays, config: Config, history: Seq<Step>)
    requires
        is_history(RunView::started(command, delays, config), history),
    ensures
        marks_once(run_after(RunView::started(command, delays, config), history), history),
        run_after(RunView::started(command, delays, config), history).phase is Running
            || run_after(RunView::started(command, delays, config), history).phase is Finished,
    decreases history.len(),
{
    let start = RunView::started(command, delays, config);
    if history.len() == 0 {
        reveal_with_fuel(settled_changes, 2);
    } else {
        let earlier = history.drop_last();
        lemma_marks_once(command, delays, config, earlier);
        valid_after(start, earlier);
        lemma_step_marks_once(run_after(start, earlier), earlier, history.last().outcome);
        assert(earlier.push(history.last()) =~= history);
    }
}

/// The marker is created exactly when the screen has just gone off, and by no command but
/// those that answer for it.
pub proof fn marker_is_created_when_the_screen_goes_off(
    command: Command,
    delays: Delays,
    config: Config,
    history: Seq<Step>,
)
    requires
        is_history(RunView::started(command, delays, config), history),
    ensures
        run_after(RunView::started(command, delays, config), history).pending() is MarkerCreate
            <==> history.len() > 0 && command.marks() && put_off(history.last()),
{
    valid_after(RunView::started(command, delays, config), history);
    lemma_marks_once(command, delays, config, history);
}

/// A command changes the marker at most once.
pub proof fn marker_changes_at_most_once(
    command: Command,
    delays: Delays,
    config: Config,
    history: Seq<Step>,
)
    requires
        is_history(RunView::started(command, delays, config), history),
    ensures
        marker_changes(history) <= 1,
{
    lemma_marks_once(command, delays, config, history);
}

} // verus!
